//! A network front end for an exclusive, write-only tone device.
//!
//! A melody arrives as the raw body of one HTTP request, is validated and
//! decoded, and is then written to the device, retrying on contention at a
//! fixed interval until a configured timeout runs out.  This crate holds the
//! decision logic of that pipeline: validation, the retry state machine, and
//! the mapping from outcomes to transport replies.  The surrounding binary
//! performs the actual I/O and hands every observation back in as a plain
//! value.

pub mod error;
pub mod speaker;
pub mod server;
