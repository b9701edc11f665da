//! MIL-STD-1553 style command/response protocol over a byte stream, the
//! device models that speak it, and the decision logic of the small terminal
//! and microcontroller front ends built around them.

pub mod protocol;
pub mod devices;
pub mod net;
pub mod ui;
pub mod control;
pub mod console;
