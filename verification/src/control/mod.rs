//! The ground station: which commands it sends on a schedule or on request,
//! and what it keeps of the replies.

pub mod panel;


pub mod station;
pub mod schedule;
