//! Stream configuration negotiation and the real-time callback bridge for
//! the platform's RemoteIO audio backend.
//!
//! The library covers the logic of a real-time audio output path: deriving
//! the set of stream configurations the device supports, selecting a
//! default among them by a deterministic ranking, validating a requested
//! configuration against the hardware bounds, timestamping every hardware
//! buffer exchange, deciding each render cycle, and tracking a live
//! stream's play/pause state. Every function here carries a contract and is
//! verified against it; in particular, none of them panics.
//!
//! The native audio toolkit itself — acquiring the endpoint, the render
//! callback registration, the hardware clock — sits outside the library.
//! The unverified glue around it hands these functions plain values (the
//! buffer descriptor's counts, the host time in nanoseconds, a native
//! failure's category or description) and performs the actions they
//! decide.

pub mod config;
pub mod device;
pub mod errors;
pub mod timestamp;
pub mod bridge;
pub mod stream;
