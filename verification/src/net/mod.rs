//! The decisions of the bus participants that exchange messages over a
//! byte stream: what a remote terminal reads or skips, what it answers, how
//! many data words a bus controller waits for, and what the relay that
//! carries the bus does with each client's traffic.

pub mod bus_controller;
pub mod relay;
pub mod rt;
