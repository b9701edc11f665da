//! Remote terminal side of a transaction.

use vstd::prelude::*;
use crate::protocol::bytes::{be_value, u16_from_be_bytes, WORD_SIZE};
use crate::protocol::cmd_word::cmd_word_from_bits;
use crate::devices::gps::{gps_bytes, GpsTelemetry};
use crate::protocol::message::bytes_words;
use crate::protocol::{CmdWord, CommandMessage, DataWord, StatusMessage, StatusWord, Subaddress, TxRx};

verus! {

/// What a terminal does after reading a command word.
#[derive(Debug, Clone, Copy, PartialEq, Eq, Structural)]
pub enum ReadPlan {
    /// The command is for another terminal: skip this many bytes (its
    /// status word and data words) and wait for the next command.
    Discard(usize),
    /// The command is for this terminal: read this many data words that come with it.
    Accept(u8),
}

/// The plan for a command word read by terminal `rt_id`.
pub open spec fn read_plan(rt_id: u8, cmd: CmdWord) -> ReadPlan {
    if cmd.rt_addr != rt_id {
        ReadPlan::Discard((2 * (1 + cmd.word_count)) as usize)
    } else {
        match cmd.subaddr.tr {
            TxRx::R => ReadPlan::Accept(cmd.word_count),
            TxRx::T => ReadPlan::Accept(0),
        }
    }
}

/// A terminal skips the whole transaction of a command for another
/// terminal, whatever its direction: the status word and the command's data
/// words, one word size each. A command for itself is read on: the data
/// words that come with a receive command, none with a transmit command.
pub proof fn lemma_read_plan_skips_whole_transactions(rt_id: u8, cmd: CmdWord)
    ensures
        cmd.rt_addr != rt_id ==> read_plan(rt_id, cmd) == ReadPlan::Discard(
            (WORD_SIZE + WORD_SIZE * cmd.word_count) as usize,
        ),
        cmd.rt_addr == rt_id && cmd.subaddr.tr == TxRx::R ==> read_plan(rt_id, cmd)
            == ReadPlan::Accept(cmd.word_count),
        cmd.rt_addr == rt_id && cmd.subaddr.tr == TxRx::T ==> read_plan(rt_id, cmd)
            == ReadPlan::Accept(0),
{
}

/// Decides what terminal `rt_id` reads next after the command word `cmd`.
pub fn plan_read(rt_id: u8, cmd: &CmdWord) -> (r: ReadPlan)
    ensures
        r == read_plan(rt_id, *cmd),
{
    if cmd.rt_addr != rt_id {
        ReadPlan::Discard(2 * (1 + cmd.word_count as usize))
    } else {
        match cmd.subaddr.tr {
            TxRx::R => ReadPlan::Accept(cmd.word_count),
            TxRx::T => ReadPlan::Accept(0),
        }
    }
}

/// The status word a terminal answers with when all is well: its address and no flag set.
pub fn idle_status(rt_addr: u8) -> (r: StatusWord)
    ensures
        r == (StatusWord {
            rt_addr,
            msg_error: false,
            service_req: false,
            broadcast_received: false,
            busy_bit: false,
            subsystem_flag: false,
            dyn_bus_accept: false,
            terminal_flag: false,
        }),
{
    StatusWord {
        rt_addr,
        msg_error: false,
        service_req: false,
        broadcast_received: false,
        busy_bit: false,
        subsystem_flag: false,
        dyn_bus_accept: false,
        terminal_flag: false,
    }
}

/// What a terminal that only acknowledges does with the bytes it read.
#[derive(Debug, Clone, Copy, PartialEq, Eq, Structural)]
pub enum AckDecision {
    /// The connection delivered no bytes: it is closed.
    Closed,
    /// Fewer than two bytes arrived: no command word.
    TooShort,
    /// The command word is for another terminal.
    NotForThisRt,
    /// The command is for this terminal: answer with this status word.
    Acknowledge(StatusWord),
}

/// Decides how terminal `rt_addr` answers the `bytes_read` bytes at the start of `buf`.
pub fn acknowledge(buf: &[u8], bytes_read: usize, rt_addr: u8) -> (r: AckDecision)
    requires
        bytes_read <= buf@.len(),
    ensures
        bytes_read == 0 ==> r == AckDecision::Closed,
        0 < bytes_read < 2 ==> r == AckDecision::TooShort,
        bytes_read >= 2 && cmd_word_from_bits(be_value(buf@[0], buf@[1])).rt_addr != rt_addr
            ==> r == AckDecision::NotForThisRt,
        bytes_read >= 2 && cmd_word_from_bits(be_value(buf@[0], buf@[1])).rt_addr == rt_addr
            ==> r == AckDecision::Acknowledge(
            StatusWord {
                rt_addr,
                msg_error: false,
                service_req: false,
                broadcast_received: false,
                busy_bit: false,
                subsystem_flag: false,
                dyn_bus_accept: false,
                terminal_flag: false,
            },
        ),
{
    if bytes_read == 0 {
        AckDecision::Closed
    } else if bytes_read < 2 {
        AckDecision::TooShort
    } else {
        let cmd = CmdWord::from_u16(u16_from_be_bytes([buf[0], buf[1]]));
        if cmd.rt_addr != rt_addr {
            AckDecision::NotForThisRt
        } else {
            AckDecision::Acknowledge(idle_status(rt_addr))
        }
    }
}

/// `count` copies of the data word `value`.
pub fn repeated_words(value: u16, count: u8) -> (r: Vec<DataWord>)
    ensures
        r@ == Seq::new(count as nat, |_i: int| DataWord(value)),
{
    let mut out: Vec<DataWord> = Vec::new();
    for i in 0..count
        invariant
            out@ == Seq::new(i as nat, |_i: int| DataWord(value)),
    {
        out.push(DataWord(value));
        assert(out@ =~= Seq::new((i + 1) as nat, |_i: int| DataWord(value)));
    }
    out
}

/// The answer of the test terminal to a command, if it has one: a receive
/// to subaddress 5 is acknowledged with the status word alone, a transmit
/// from subaddress 7 or 13 is answered with as many copies of that number as
/// words were asked for, and anything else is not answered.
pub open spec fn test_rt_reply(cmd: CmdWord) -> Option<Seq<DataWord>> {
    let sa = cmd.subaddr;
    if sa.address == 5 && sa.tr == TxRx::R {
        Some(Seq::empty())
    } else if sa.address == 7 && sa.tr == TxRx::T {
        Some(Seq::new(cmd.word_count as nat, |_i: int| DataWord(7)))
    } else if sa.address == 13 && sa.tr == TxRx::T {
        Some(Seq::new(cmd.word_count as nat, |_i: int| DataWord(13)))
    } else {
        None
    }
}

/// The status message the test terminal sends for `cmd_msg`, or `None` when
/// the subaddress is not served.
pub fn test_rt_response(status_word: StatusWord, cmd_msg: &CommandMessage) -> (r: Option<StatusMessage>)
    ensures
        match test_rt_reply(cmd_msg.word) {
            Some(data) => r matches Some(m) && m.word == status_word && m.data@ == data,
            None => r is None,
        },
{
    let sa = cmd_msg.word.subaddr;
    if sa.address == 5 && matches!(sa.tr, TxRx::R) {
        Some(StatusMessage::empty(status_word))
    } else if sa.address == 7 && matches!(sa.tr, TxRx::T) {
        Some(StatusMessage { word: status_word, data: repeated_words(7, cmd_msg.word.word_count) })
    } else if sa.address == 13 && matches!(sa.tr, TxRx::T) {
        Some(StatusMessage { word: status_word, data: repeated_words(13, cmd_msg.word.word_count) })
    } else {
        None
    }
}

/// Whether a command asks the GPS terminal for its telemetry: a transmit
/// from subaddress 13.
pub fn is_gps_request(cmd: &CmdWord) -> (r: bool)
    ensures
        r == (cmd.subaddr == (Subaddress { address: 13, tr: TxRx::T })),
{
    cmd.subaddr == (Subaddress { address: 13, tr: TxRx::T })
}

/// The GPS terminal's answer to a telemetry request: its status word and the
/// fifteen data words of the report.
pub fn gps_reply(status_word: StatusWord, telemetry: &GpsTelemetry) -> (r: StatusMessage)
    ensures
        r.word == status_word,
        r.data@ == bytes_words(gps_bytes(*telemetry)),
{
    StatusMessage { word: status_word, data: telemetry.to_data_words() }
}

} // verus!
