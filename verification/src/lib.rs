//! Packet transport for a tick-driven real-time synchronization stack:
//! an in-process loopback backend, a link conditioner that simulates
//! adverse network conditions on the receive path, and the netcode
//! connection-liveness protocol (keepalives and disconnect detection).
//!
//! All waiting is expressed as timestamp comparisons: every
//! time-dependent operation takes the current time in milliseconds and
//! is driven by an external tick loop, so no call ever blocks.

pub mod addr;
pub mod arith;
pub mod conditioner;
pub mod config;
pub mod error;
pub mod io;
pub mod local;
pub mod netcode;
pub mod packet;
pub mod plugin;
pub mod rng;
