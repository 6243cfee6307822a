//! Bridge logic for streaming market-data events to a foreign host.
//!
//! The crate owns the computational side of the boundary: marshaling
//! host-supplied parameter arrays into validated owned collections,
//! projecting engine messages into null-terminated record buffers, and
//! deciding each step of the delivery loop. Thread, channel and engine
//! plumbing live outside the library and hand it plain values.

pub mod bridge;
pub mod market_type;
pub mod msg;
pub mod msg_type;
pub mod params;
