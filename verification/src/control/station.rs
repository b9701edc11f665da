//! What the ground station keeps of the replies it receives and how it
//! reacts to the operator's keys.

use vstd::prelude::*;
use crate::control::panel::{panel_commands, CommandPanel};
use crate::devices::gps::{gps_from_bytes, GpsTelemetry};
use crate::devices::power::{
    command_bytes, telemetry_from_bytes, PowerCommand, PowerParseError, PowerTelemetry,
};
use crate::protocol::message::words_bytes;
use crate::protocol::{CmdWord, CommandMessage, Subaddress, Transaction, TxRx};
use crate::ui::key::Key;

verus! {

/// Address of the power terminal.
pub const POWER_RT: u8 = 5;

/// Address of the GPS terminal.
pub const GPS_RT: u8 = 13;

/// What a completed transaction carried.
pub enum Reply {
    /// Power telemetry (a transmit from subaddress 7 of the power terminal),
    /// or why it could not be read.
    Power(Result<PowerTelemetry, PowerParseError>),
    /// GPS telemetry (any transaction with the GPS terminal).
    Gps(GpsTelemetry),
    /// A transaction with the power terminal that carries nothing to read back.
    Acknowledged,
    /// A transaction with a terminal that is not known.
    UnknownRt(u8),
}

/// A transaction whose reply can be read: replies from the GPS terminal
/// carry at least fifteen data words.
pub open spec fn readable_transaction(t: &Transaction) -> bool {
    &&& t.command.word.rt_addr == GPS_RT ==> t.status.data@.len() >= 15
    &&& 2 * t.status.data@.len() <= usize::MAX
}

/// The meaning of a completed transaction.
pub open spec fn reply_of(t: &Transaction) -> Reply {
    let data = words_bytes(t.status.data@);
    if t.command.word.rt_addr == POWER_RT {
        if t.command.word.subaddr == (Subaddress { address: 7, tr: TxRx::T }) {
            Reply::Power(telemetry_from_bytes(data))
        } else {
            Reply::Acknowledged
        }
    } else if t.command.word.rt_addr == GPS_RT {
        Reply::Gps(gps_from_bytes(data))
    } else {
        Reply::UnknownRt(t.command.word.rt_addr)
    }
}

/// Reads the reply of a completed transaction.
pub fn read_reply(transaction: &Transaction) -> (r: Reply)
    requires
        readable_transaction(transaction),
    ensures
        r == reply_of(transaction),
{
    let word = transaction.command.word;
    if word.rt_addr == POWER_RT {
        if word.subaddr == (Subaddress { address: 7, tr: TxRx::T }) {
            Reply::Power(PowerTelemetry::from_data_words(transaction.status.data.as_slice()))
        } else {
            Reply::Acknowledged
        }
    } else if word.rt_addr == GPS_RT {
        Reply::Gps(GpsTelemetry::from_data_words(transaction.status.data.as_slice()))
    } else {
        Reply::UnknownRt(word.rt_addr)
    }
}

/// The message that carries a power command: a receive command to
/// subaddress 5 of the power terminal with one data word.
pub fn power_command_message(power_command: PowerCommand) -> (r: CommandMessage)
    ensures
        r.word == (CmdWord {
            rt_addr: POWER_RT,
            subaddr: Subaddress { address: 5, tr: TxRx::R },
            word_count: 1,
        }),
        words_bytes(r.data@) == command_bytes(power_command),
        r.data@.len() == 1,
{
    CommandMessage {
        word: CmdWord::new(POWER_RT, Subaddress { address: 5, tr: TxRx::R }, 1),
        data: power_command.to_data_words(),
    }
}

/// The state of the ground station's screen.
pub struct App {
    pub power_telemetry: Option<PowerTelemetry>,
    pub power_commands: CommandPanel,
    pub gps_telemetry: Option<GpsTelemetry>,
    pub exit: bool,
}

impl App {
    /// A screen with no telemetry yet and the first command selected.
    pub fn new() -> (r: Self)
        ensures
            r.power_telemetry is None,
            r.gps_telemetry is None,
            r.power_commands.commands_view() == panel_commands(),
            r.power_commands.selection_view() == Some(0usize),
            !r.exit,
    {
        App {
            power_telemetry: None,
            power_commands: CommandPanel::default(),
            gps_telemetry: None,
            exit: false,
        }
    }

    /// Reacts to a key: `j` and `k` move the cursor, Enter returns the
    /// message carrying the selected command (for the caller to send), and
    /// any other key asks to exit.
    pub fn handle_key(&mut self, key: Key) -> (r: Option<CommandMessage>)
        requires
            key == Key::Enter ==> old(self).power_commands.selection_valid(),
        ensures
            key == Key::Char('j') ==> {
                &&& final(self).power_commands.selection_view() == Some(
                    match old(self).power_commands.selection_view() {
                        Some(i) => if i < usize::MAX { (i + 1) as usize } else { usize::MAX },
                        None => 0usize,
                    },
                )
                &&& final(self).exit == old(self).exit
                &&& r is None
            },
            key == Key::Char('k') ==> {
                &&& final(self).power_commands.selection_view() == Some(
                    match old(self).power_commands.selection_view() {
                        Some(i) => if i > 0 { (i - 1) as usize } else { 0usize },
                        None => usize::MAX,
                    },
                )
                &&& final(self).exit == old(self).exit
                &&& r is None
            },
            key == Key::Enter ==> {
                &&& final(self).power_commands.selection_view() == old(self).power_commands.selection_view()
                &&& final(self).exit == old(self).exit
                &&& match old(self).power_commands.selection_view() {
                    Some(i) => r matches Some(m) && m.word == (CmdWord {
                        rt_addr: POWER_RT,
                        subaddr: Subaddress { address: 5, tr: TxRx::R },
                        word_count: 1,
                    }) && words_bytes(m.data@) == command_bytes(
                        old(self).power_commands.commands_view()[i as int],
                    ),
                    None => r is None,
                }
            },
            key != Key::Char('j') && key != Key::Char('k') && key != Key::Enter ==> {
                &&& final(self).exit
                &&& r is None
                &&& final(self).power_commands.selection_view() == old(self).power_commands.selection_view()
            },
            final(self).power_commands.commands_view() == old(self).power_commands.commands_view(),
            final(self).power_telemetry == old(self).power_telemetry,
            final(self).gps_telemetry == old(self).gps_telemetry,
    {
        match key {
            Key::Char('j') => {
                self.power_commands.next();
                None
            },
            Key::Char('k') => {
                self.power_commands.previous();
                None
            },
            Key::Enter => {
                match self.power_commands.selected() {
                    Some(command) => Some(power_command_message(command)),
                    None => None,
                }
            },
            _ => {
                self.exit = true;
                None
            },
        }
    }

    /// Keeps what a completed transaction reports: power telemetry that
    /// reads is stored (telemetry that does not read is dropped), GPS
    /// telemetry is stored, anything else changes nothing.
    pub fn handle_transaction(&mut self, transaction: &Transaction)
        requires
            readable_transaction(transaction),
        ensures
            final(self).power_telemetry == (match reply_of(transaction) {
                Reply::Power(Ok(t)) => Some(t),
                _ => old(self).power_telemetry,
            }),
            final(self).gps_telemetry == (match reply_of(transaction) {
                Reply::Gps(g) => Some(g),
                _ => old(self).gps_telemetry,
            }),
            final(self).exit == old(self).exit,
            final(self).power_commands.commands_view() == old(self).power_commands.commands_view(),
            final(self).power_commands.selection_view() == old(self).power_commands.selection_view(),
    {
        match read_reply(transaction) {
            Reply::Power(Ok(telemetry)) => {
                self.power_telemetry = Some(telemetry);
            },
            Reply::Gps(telemetry) => {
                self.gps_telemetry = Some(telemetry);
            },
            _ => {},
        }
    }
}

} // verus!
