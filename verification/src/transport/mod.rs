//! Moving messages over a stream, one JSON value a line.

pub mod stdio;

pub use stdio::{decode_line, encode_line, reply_for, serve_line, Incoming, Step};
