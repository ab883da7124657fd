//! Driver for the MCP2518FD CAN-FD controller: register views, frame codec,
//! RAM-backed FIFO protocol and configuration sequence.
pub mod bits;
pub mod memory;
pub mod message;
pub mod settings;
pub mod spi;

pub use spi::{ConfigError, Error, MCP2518FD};
