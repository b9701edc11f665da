//! The bus relay: every byte one client writes is passed on to all the
//! other clients. This module decides what a client's connection does with
//! each thing that happens on it; the caller performs the reads and writes.

use vstd::prelude::*;

verus! {

/// Something that happened on one client's connection.
#[derive(Debug, Clone, Copy, PartialEq, Eq, Structural)]
pub enum RelayEvent {
    /// A read from the client returned this many bytes.
    Read(usize),
    /// A read from the client failed.
    ReadFailed,
    /// Bytes came through the relay channel; `from_self` tells whether this
    /// client is the one that sent them.
    Delivered { from_self: bool },
    /// The client's subscription fell behind by this many messages.
    Lagged(u64),
    /// The relay channel has closed.
    ChannelClosed,
}

/// What the connection does next.
#[derive(Debug, Clone, Copy, PartialEq, Eq, Structural)]
pub enum RelayAction {
    /// The client hung up: stop serving it.
    Disconnect,
    /// Publish the first this-many bytes read to the other clients, and go on.
    Publish(usize),
    /// Reading failed: stop serving the client.
    StopOnReadError,
    /// Write the delivered bytes to this client (stop if that fails), and go on.
    Forward,
    /// Drop the delivered bytes, which this client sent itself, and go on.
    Skip,
    /// Report that the client lagged by this many messages, and go on.
    ReportLag(u64),
    /// The channel is gone: stop serving the client.
    Stop,
}

/// The action for an event: a read of zero bytes is a hang-up, any other
/// read is published, a client never gets its own bytes back, lag is only
/// reported, and a failed read or a closed channel ends the connection.
pub open spec fn relay_action(event: RelayEvent) -> RelayAction {
    match event {
        RelayEvent::Read(n) => if n == 0 {
            RelayAction::Disconnect
        } else {
            RelayAction::Publish(n)
        },
        RelayEvent::ReadFailed => RelayAction::StopOnReadError,
        RelayEvent::Delivered { from_self } => if from_self {
            RelayAction::Skip
        } else {
            RelayAction::Forward
        },
        RelayEvent::Lagged(n) => RelayAction::ReportLag(n),
        RelayEvent::ChannelClosed => RelayAction::Stop,
    }
}

/// Decides what a client's connection does with `event`.
pub fn relay_step(event: RelayEvent) -> (r: RelayAction)
    ensures
        r == relay_action(event),
{
    match event {
        RelayEvent::Read(n) => if n == 0 {
            RelayAction::Disconnect
        } else {
            RelayAction::Publish(n)
        },
        RelayEvent::ReadFailed => RelayAction::StopOnReadError,
        RelayEvent::Delivered { from_self } => if from_self {
            RelayAction::Skip
        } else {
            RelayAction::Forward
        },
        RelayEvent::Lagged(n) => RelayAction::ReportLag(n),
        RelayEvent::ChannelClosed => RelayAction::Stop,
    }
}

/// A client never receives back the bytes it wrote itself, and the bytes
/// the other clients wrote are always written to it.
pub proof fn lemma_relay_never_echoes(from_self: bool)
    ensures
        from_self ==> relay_action(RelayEvent::Delivered { from_self }) == RelayAction::Skip,
        !from_self ==> relay_action(RelayEvent::Delivered { from_self }) == RelayAction::Forward,
{
}

} // verus!
