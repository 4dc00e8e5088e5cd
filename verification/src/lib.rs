//! A typed command layer for a RESP-style in-memory key-value server.
//!
//! A decoded array frame is parsed into a command value, the command is
//! executed against the store, and the reply comes back as a frame. Every
//! function carries a contract over the mathematical views of the values it
//! handles, and Verus proves the body against it.

pub mod backend;
pub mod cmd;
pub mod frame;
pub mod text;

pub use backend::Backend;
pub use frame::{BulkString, RespArray, RespFrame};
