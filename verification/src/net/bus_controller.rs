//! Bus controller side of a transaction.

use vstd::prelude::*;
use crate::protocol::bytes::{be_bytes, be_value};
use crate::protocol::cmd_word::cmd_word_bits;
use crate::protocol::status_word::status_word_from_bits;
use crate::protocol::{CmdWord, ProtocolWord, StatusWord, Subaddress, TxRx};

verus! {

/// How many data words the terminal sends back after its status word: the
/// command's word count when it is told to transmit, none when it receives.
pub open spec fn reply_word_count(cmd: CmdWord) -> u8 {
    match cmd.subaddr.tr {
        TxRx::T => cmd.word_count,
        TxRx::R => 0,
    }
}

/// The number of data words to read after the status word of a reply to `cmd`.
pub fn reply_data_words(cmd: &CmdWord) -> (r: u8)
    ensures
        r == reply_word_count(*cmd),
{
    match cmd.subaddr.tr {
        TxRx::T => cmd.word_count,
        TxRx::R => 0,
    }
}

/// The number of bytes that hold `count` data words.
pub fn data_bytes_len(count: u8) -> (r: usize)
    ensures
        r == 2 * count,
{
    count as usize * 2
}

/// The command word of a heartbeat to terminal `rt`: a receive command to
/// subaddress `rt` with no data words.
pub fn heartbeat_command(rt: u8) -> (r: CmdWord)
    ensures
        r == (CmdWord { rt_addr: rt, subaddr: Subaddress { address: rt, tr: TxRx::R }, word_count: 0 }),
{
    CmdWord::new(rt, Subaddress { address: rt, tr: TxRx::R }, 0)
}

/// The two heartbeat timers: one for the power terminal (three times a
/// second) and one for the GPS terminal (once a second).
#[derive(Debug, Clone, Copy, PartialEq, Eq, Structural)]
pub enum HeartbeatTimer {
    Rt5,
    Rt13,
}

/// The terminal a timer's heartbeat goes to.
pub open spec fn heartbeat_rt(timer: HeartbeatTimer) -> u8 {
    match timer {
        HeartbeatTimer::Rt5 => 5u8,
        HeartbeatTimer::Rt13 => 13u8,
    }
}

impl HeartbeatTimer {
    /// The terminal this timer's heartbeat goes to: 5 or 13.
    pub fn rt(self) -> (r: u8)
        ensures
            r == heartbeat_rt(self),
    {
        match self {
            HeartbeatTimer::Rt5 => 5,
            HeartbeatTimer::Rt13 => 13,
        }
    }

    /// The timer's period in whole milliseconds: 1000 / 3 for three times a
    /// second, 1000 for once a second.
    pub fn period_millis(self) -> (r: u64)
        ensures
            r == (match self {
                HeartbeatTimer::Rt5 => 333u64,
                HeartbeatTimer::Rt13 => 1000u64,
            }),
    {
        match self {
            HeartbeatTimer::Rt5 => 333,
            HeartbeatTimer::Rt13 => 1000,
        }
    }
}

/// The two bytes written to the bus when a heartbeat timer fires: the
/// command word of the heartbeat to its terminal, and nothing else. For the
/// power terminal that is 40, 160; for the GPS terminal 105, 160.
pub fn heartbeat_bytes(timer: HeartbeatTimer) -> (r: [u8; 2])
    ensures
        r@ == be_bytes(
            cmd_word_bits(
                CmdWord {
                    rt_addr: heartbeat_rt(timer),
                    subaddr: Subaddress { address: heartbeat_rt(timer), tr: TxRx::R },
                    word_count: 0,
                },
            ),
        ),
        r@ == (match timer {
            HeartbeatTimer::Rt5 => seq![40u8, 160u8],
            HeartbeatTimer::Rt13 => seq![105u8, 160u8],
        }),
{
    let r = heartbeat_command(timer.rt()).to_be_bytes();
    proof {
        assert(((5u8 as u16) << 11u16) | (0u16 << 10u16) | ((5u8 as u16) << 5u16) | (0u8 as u16)
            == 10400u16) by (bit_vector);
        assert(((13u8 as u16) << 11u16) | (0u16 << 10u16) | ((13u8 as u16) << 5u16) | (0u8 as u16)
            == 27040u16) by (bit_vector);
        assert((10400u16 >> 8u16) as u8 == 40u8 && (10400u16 & 0xffu16) as u8 == 160u8)
            by (bit_vector);
        assert((27040u16 >> 8u16) as u8 == 105u8 && (27040u16 & 0xffu16) as u8 == 160u8)
            by (bit_vector);
        assert(be_bytes(10400u16) =~= seq![40u8, 160u8]);
        assert(be_bytes(27040u16) =~= seq![105u8, 160u8]);
    }
    r
}

/// What a heartbeat read produced.
#[derive(Debug, Clone, Copy, PartialEq, Eq, Structural)]
pub enum HeartbeatReply {
    /// The connection delivered no bytes: it is closed.
    Closed,
    /// Fewer than two bytes arrived: no status word.
    TooShort,
    /// A status word from the terminal that was addressed.
    Matched,
    /// A status word from another terminal than the one addressed.
    Mismatched,
}

/// Classifies the `bytes_read` bytes at the start of `buf` received after a
/// heartbeat to terminal `rt_num`.
pub fn classify_heartbeat_reply(buf: &[u8], bytes_read: usize, rt_num: u8) -> (r: HeartbeatReply)
    requires
        bytes_read <= buf@.len(),
    ensures
        bytes_read == 0 ==> r == HeartbeatReply::Closed,
        0 < bytes_read < 2 ==> r == HeartbeatReply::TooShort,
        bytes_read >= 2 ==> (r == HeartbeatReply::Matched <==> status_word_from_bits(
            be_value(buf@[0], buf@[1]),
        ).rt_addr == rt_num),
        bytes_read >= 2 ==> (r == HeartbeatReply::Matched || r == HeartbeatReply::Mismatched),
{
    if bytes_read == 0 {
        HeartbeatReply::Closed
    } else if bytes_read < 2 {
        HeartbeatReply::TooShort
    } else {
        let status = StatusWord::from_u16(crate::protocol::bytes::u16_from_be_bytes([buf[0], buf[1]]));
        if status.rt_addr == rt_num {
            HeartbeatReply::Matched
        } else {
            HeartbeatReply::Mismatched
        }
    }
}

} // verus!
