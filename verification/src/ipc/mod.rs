//! The D-Bus control channel between the command line and the daemon.

pub mod client;
pub mod constants;
