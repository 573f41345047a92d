//! What every part of the server shares.

pub mod error;
pub mod text;

pub use error::{Error, ErrorKind, ErrorView};
