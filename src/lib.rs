//! SMBus framing over a plain I2C transport.
//!
//! The library describes each SMBus operation as the single transport
//! transfer that carries it, and turns what the transport hands back into the
//! operation's result. Running a transfer against a bus is left to the caller.
mod block;
pub mod smbus;
mod transfer;

pub use block::{block_contents, block_len, resized, staging_buffer, BLOCK_MAX};
pub use transfer::{Segment, SegmentView, Transfer, TransferView};
