//! Verified control core for a network-attached single-LED/relay controller.
//!
//! The crate holds the logic of the device: the connection lifecycle state
//! machine that keeps the radio associated, the wire codec for the
//! WebSocket control protocol, the session step function that mutates the
//! shared output state, and the static-asset responder. The embedding
//! program supplies the hardware and the network I/O around it.

pub mod assets;
pub mod config;
pub mod led;
pub mod lifecycle;
pub mod messages;
pub mod session;
