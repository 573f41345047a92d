//! The request/response core of a Model Context Protocol server.

pub mod codec;
pub mod json;
pub mod prompts;
pub mod protocol;
pub mod registry;
pub mod resources;
pub mod server;
pub mod tools;
pub mod transport;
pub mod utils;

pub use server::{McpServer, ServerConfig, PROTOCOL_VERSION};
pub use utils::error::Error;
