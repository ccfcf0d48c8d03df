//! Driver for a family of USB pointing devices that speak a vendor protocol
//! over HID feature reports.
//!
//! The crate holds the wire format and its checksum, the encoders and
//! decoders of every command, the table of supported devices, and the
//! sequencing rules of single and batched operations. It performs no I/O:
//! a caller executes the transfers that the state machines ask for.

pub mod error;
pub mod common;
pub mod message;
pub mod chroma;
pub mod commands;
pub mod responses;
pub mod devices;
pub mod transport;
pub mod facade;
pub mod batched;
