//! Models of the remote-terminal devices and their telemetry formats.

pub mod power;
pub mod gps;
