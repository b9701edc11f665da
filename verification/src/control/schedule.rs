//! The commands the bus controller sends on a schedule.

use vstd::prelude::*;
use crate::control::station::{power_command_message, GPS_RT, POWER_RT};
use crate::devices::power::{command_bytes, Fault, PowerCommand};
use crate::protocol::message::words_bytes;
use crate::protocol::{CmdWord, CommandMessage, DataWord, Subaddress, TxRx};

verus! {

/// A command sent again and again with a fixed period, in seconds.
pub struct PeriodicCommand {
    pub interval_secs: u64,
    pub command: CommandMessage,
}

/// The request for power telemetry: transmit 3 data words from subaddress 7
/// of the power terminal.
pub open spec fn power_telemetry_request() -> CmdWord {
    CmdWord { rt_addr: POWER_RT, subaddr: Subaddress { address: 7, tr: TxRx::T }, word_count: 3 }
}

/// The request for GPS telemetry: transmit 15 data words from subaddress 13
/// of the GPS terminal.
pub open spec fn gps_telemetry_request() -> CmdWord {
    CmdWord { rt_addr: GPS_RT, subaddr: Subaddress { address: 13, tr: TxRx::T }, word_count: 15 }
}

/// A command message with no data words.
pub fn bare_command(word: CmdWord) -> (r: CommandMessage)
    ensures
        r.word == word,
        r.data@ == Seq::<DataWord>::empty(),
{
    CommandMessage { word, data: Vec::new() }
}

/// The telemetry requests and their periods: power telemetry every second,
/// GPS telemetry every two seconds.
pub fn periodic_commands() -> (r: Vec<PeriodicCommand>)
    ensures
        r@.len() == 2,
        r@[0].interval_secs == 1,
        r@[0].command.word == power_telemetry_request(),
        r@[0].command.data@.len() == 0,
        r@[1].interval_secs == 2,
        r@[1].command.word == gps_telemetry_request(),
        r@[1].command.data@.len() == 0,
{
    let mut r: Vec<PeriodicCommand> = Vec::new();
    r.push(
        PeriodicCommand {
            interval_secs: 1,
            command: bare_command(CmdWord::new(5, Subaddress { address: 7, tr: TxRx::T }, 3)),
        },
    );
    r.push(
        PeriodicCommand {
            interval_secs: 2,
            command: bare_command(CmdWord::new(13, Subaddress { address: 13, tr: TxRx::T }, 15)),
        },
    );
    r
}

/// The polls of the device test bus controller.
#[derive(Debug, Clone, Copy, PartialEq, Eq, Structural)]
pub enum Poll {
    /// Inject an over-temperature fault into the power terminal, every 7 s.
    InjectOverTemp,
    /// Ask for power telemetry, every second.
    PowerTelemetry,
    /// Ask for GPS telemetry, every 3 s.
    GpsTelemetry,
}

impl Poll {
    /// The period of this poll, in seconds.
    pub fn interval_secs(self) -> (r: u64)
        ensures
            r == (match self {
                Poll::InjectOverTemp => 7u64,
                Poll::PowerTelemetry => 1u64,
                Poll::GpsTelemetry => 3u64,
            }),
    {
        match self {
            Poll::InjectOverTemp => 7,
            Poll::PowerTelemetry => 1,
            Poll::GpsTelemetry => 3,
        }
    }

    /// The message sent for this poll.
    pub fn command_message(self) -> (r: CommandMessage)
        ensures
            self == Poll::InjectOverTemp ==> {
                &&& r.word == (CmdWord {
                    rt_addr: POWER_RT,
                    subaddr: Subaddress { address: 5, tr: TxRx::R },
                    word_count: 1,
                })
                &&& words_bytes(r.data@) == command_bytes(PowerCommand::InjectFault(Fault::OverTemp))
                &&& r.data@.len() == 1
            },
            self == Poll::PowerTelemetry ==> r.word == power_telemetry_request() && r.data@.len() == 0,
            self == Poll::GpsTelemetry ==> r.word == gps_telemetry_request() && r.data@.len() == 0,
    {
        match self {
            Poll::InjectOverTemp => power_command_message(PowerCommand::InjectFault(Fault::OverTemp)),
            Poll::PowerTelemetry => bare_command(CmdWord::new(5, Subaddress { address: 7, tr: TxRx::T }, 3)),
            Poll::GpsTelemetry => bare_command(CmdWord::new(13, Subaddress { address: 13, tr: TxRx::T }, 15)),
        }
    }
}

} // verus!
