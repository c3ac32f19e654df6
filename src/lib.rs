//! A remotely controllable power socket: the device state machine, its
//! fixed-width wire protocol, the server's per-connection decisions, the
//! client's handling of what comes back, and the control panel's decisions.
//!
//! Power draws are IEEE-754 doubles; they are carried here as their 64-bit
//! patterns, which is also how they travel on the wire.
pub mod client;
pub mod device;
pub mod panel;
pub mod protocol;
pub mod server;
