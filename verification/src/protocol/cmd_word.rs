//! Command words: sent by the bus controller to address one remote terminal.

use vstd::prelude::*;
use super::bytes::{be_bytes, be_value, lemma_be_roundtrip, u16_from_be_bytes, u16_to_be_bytes, word_array};
use super::protocol_word::ProtocolWord;
use super::support::{bit_set, extract_field, extract_flag, field, lemma_field_le_mask};

verus! {

/// Direction of the data words of a transaction, as seen from the remote terminal.
#[derive(Copy, Clone, Debug, Eq, Hash, PartialEq, Structural)]
pub enum TxRx {
    /// The terminal transmits data words (protocol bit value 1).
    T,
    /// The terminal receives data words (protocol bit value 0).
    R,
}

/// The protocol bit value of a direction.
pub open spec fn tx_rx_bit(tr: TxRx) -> u16 {
    match tr {
        TxRx::T => 1,
        TxRx::R => 0,
    }
}

impl TxRx {
    /// The protocol bit value of this direction: 1 for `T`, 0 for `R`.
    pub fn bit(self) -> (r: u16)
        ensures
            r == tx_rx_bit(self),
    {
        match self {
            TxRx::T => 1,
            TxRx::R => 0,
        }
    }
}

impl From<bool> for TxRx {
    fn from(value: bool) -> (r: Self) {
        if value {
            TxRx::T
        } else {
            TxRx::R
        }
    }
}

impl vstd::std_specs::convert::FromSpecImpl<bool> for TxRx {
    open spec fn obeys_from_spec() -> bool {
        true
    }

    open spec fn from_spec(value: bool) -> Self {
        if value {
            TxRx::T
        } else {
            TxRx::R
        }
    }
}

/// A subaddress of a remote terminal together with the direction of transfer.
#[derive(Copy, Clone, Debug, Eq, Hash, PartialEq, Structural)]
pub struct Subaddress {
    pub address: u8,
    pub tr: TxRx,
}

pub const RT_ADDR_POSITION: u8 = 11;
pub const TX_RX_POSITION: u8 = 10;
pub const SUBADDRESS_POSITION: u8 = 5;
pub const WORD_COUNT_POSITION: u8 = 0;

/// A command word: terminal address, subaddress with direction, and number
/// of data words (1 to 32; the wire value 0 stands for 32).
#[derive(Copy, Clone, Debug, PartialEq, Eq, Structural)]
pub struct CmdWord {
    pub rt_addr: u8,
    pub subaddr: Subaddress,
    pub word_count: u8,
}

/// The word count as it is sent: 32 is sent as 0.
pub open spec fn wire_word_count(word_count: u8) -> u8 {
    if word_count == 32 {
        0
    } else {
        word_count
    }
}

/// The 16-bit packing of a command word: address in bits 11..15, direction in
/// bit 10, subaddress in bits 5..9 and word count in bits 0..4.
pub open spec fn cmd_word_bits(w: CmdWord) -> u16 {
    ((w.rt_addr as u16) << 11u16) | (tx_rx_bit(w.subaddr.tr) << 10u16) | ((
    w.subaddr.address as u16) << 5u16) | (wire_word_count(w.word_count) as u16)
}

/// The command word that a 16-bit value unpacks to.
pub open spec fn cmd_word_from_bits(x: u16) -> CmdWord {
    CmdWord {
        rt_addr: field(x, 11, 0x1f) as u8,
        subaddr: Subaddress {
            address: field(x, 5, 0x1f) as u8,
            tr: if bit_set(x, 10) {
                TxRx::T
            } else {
                TxRx::R
            },
        },
        word_count: if field(x, 0, 0x1f) == 0 {
            32
        } else {
            field(x, 0, 0x1f) as u8
        },
    }
}

/// A command word whose fields fit their bit fields: address and subaddress
/// below 32, word count from 1 to 32.
pub open spec fn cmd_word_fits(w: CmdWord) -> bool {
    &&& w.rt_addr < 32
    &&& w.subaddr.address < 32
    &&& 1 <= w.word_count <= 32
}

impl CmdWord {
    /// A command word with the given fields.
    pub fn new(rt_addr: u8, subaddr: Subaddress, word_count: u8) -> (r: Self)
        ensures
            r == (CmdWord { rt_addr, subaddr, word_count }),
    {
        Self { rt_addr, subaddr, word_count }
    }

    /// The 16-bit packing of this word.
    pub fn to_u16(self) -> (r: u16)
        ensures
            r == cmd_word_bits(self),
    {
        let word_count: u8 = if self.word_count == 32 {
            0
        } else {
            self.word_count
        };
        ((self.rt_addr as u16) << 11u16) | (self.subaddr.tr.bit() << 10u16) | ((
        self.subaddr.address as u16) << 5u16) | (word_count as u16)
    }

    /// Unpacks a 16-bit value into a command word; a word count of 0 means 32.
    pub fn from_u16(cmd_word: u16) -> (r: Self)
        ensures
            r == cmd_word_from_bits(cmd_word),
    {
        proof {
            lemma_field_le_mask(cmd_word, 11, 0x1f);
            lemma_field_le_mask(cmd_word, 5, 0x1f);
            lemma_field_le_mask(cmd_word, 0, 0x1f);
        }
        let rt_addr = extract_field(cmd_word, RT_ADDR_POSITION, 0b1_1111);
        let tr = if extract_flag(cmd_word, TX_RX_POSITION) {
            TxRx::T
        } else {
            TxRx::R
        };
        let subaddr = extract_field(cmd_word, SUBADDRESS_POSITION, 0b1_1111);
        let mut word_count: u8 = extract_field(cmd_word, WORD_COUNT_POSITION, 0b1_1111) as u8;
        if word_count == 0 {
            word_count = 32;
        }
        Self::new(rt_addr as u8, Subaddress { address: subaddr as u8, tr }, word_count)
    }
}

impl<'a> TryFrom<&'a [u8]> for CmdWord {
    type Error = core::array::TryFromSliceError;

    /// Reads a command word from a slice of exactly two bytes; any other
    /// length is refused with the slice conversion error.
    fn try_from(bytes: &'a [u8]) -> (r: Result<Self, Self::Error>)
        ensures
            r is Ok <==> bytes@.len() == 2,
            r matches Ok(w) ==> w == cmd_word_from_bits(be_value(bytes@[0], bytes@[1])),
    {
        match word_array(bytes) {
            Ok(arr) => Ok(Self::from_u16(u16_from_be_bytes(arr))),
            Err(e) => Err(e),
        }
    }
}

impl<'a> vstd::std_specs::convert::TryFromSpecImpl<&'a [u8]> for CmdWord {
    open spec fn obeys_try_from_spec() -> bool {
        false
    }

    open spec fn try_from_spec(bytes: &'a [u8]) -> Result<Self, Self::Error> {
        if bytes@.len() == 2 {
            Ok(cmd_word_from_bits(be_value(bytes@[0], bytes@[1])))
        } else {
            Err(arbitrary())
        }
    }
}

impl ProtocolWord for CmdWord {
    open spec fn wire_value(self) -> u16 {
        cmd_word_bits(self)
    }

    fn to_be_bytes(self) -> (r: [u8; 2]) {
        u16_to_be_bytes(self.to_u16())
    }
}

impl From<CmdWord> for u16 {
    fn from(cmd_word: CmdWord) -> (r: u16) {
        cmd_word.to_u16()
    }
}

impl vstd::std_specs::convert::FromSpecImpl<CmdWord> for u16 {
    open spec fn obeys_from_spec() -> bool {
        true
    }

    open spec fn from_spec(cmd_word: CmdWord) -> u16 {
        cmd_word_bits(cmd_word)
    }
}

impl From<u16> for CmdWord {
    fn from(cmd_word: u16) -> (r: Self) {
        Self::from_u16(cmd_word)
    }
}

impl vstd::std_specs::convert::FromSpecImpl<u16> for CmdWord {
    open spec fn obeys_from_spec() -> bool {
        true
    }

    open spec fn from_spec(cmd_word: u16) -> Self {
        cmd_word_from_bits(cmd_word)
    }
}

impl From<[u8; 2]> for CmdWord {
    fn from(bytes: [u8; 2]) -> (r: CmdWord) {
        Self::from_u16(u16_from_be_bytes(bytes))
    }
}

impl vstd::std_specs::convert::FromSpecImpl<[u8; 2]> for CmdWord {
    open spec fn obeys_from_spec() -> bool {
        true
    }

    open spec fn from_spec(bytes: [u8; 2]) -> Self {
        cmd_word_from_bits(be_value(bytes@[0], bytes@[1]))
    }
}

/// Packing any 16-bit value's command word gives the value back: every
/// 16-bit value is the packing of exactly the word it unpacks to.
pub proof fn lemma_cmd_word_bits_roundtrip(x: u16)
    ensures
        cmd_word_bits(cmd_word_from_bits(x)) == x,
{
    let rt = (x >> 11u16) & 0x1fu16;
    let sa = (x >> 5u16) & 0x1fu16;
    let wc = (x >> 0u16) & 0x1fu16;
    let b: u16 = if (x >> 10u16) & 1u16 == 1u16 { 1 } else { 0 };
    let wc_dec: u8 = if wc == 0 { 32 } else { wc as u8 };
    let wc_enc: u8 = if wc_dec == 32 { 0 } else { wc_dec };
    assert(wc_enc as u16 == wc) by (bit_vector)
        requires
            wc == (x >> 0u16) & 0x1fu16,
            wc_dec == (if wc == 0 { 32u8 } else { wc as u8 }),
            wc_enc == (if wc_dec == 32 { 0u8 } else { wc_dec }),
    ;
    assert(((rt as u8) as u16) << 11u16 | (b << 10u16) | (((sa as u8) as u16) << 5u16) | wc == x)
        by (bit_vector)
        requires
            rt == (x >> 11u16) & 0x1fu16,
            sa == (x >> 5u16) & 0x1fu16,
            wc == (x >> 0u16) & 0x1fu16,
            b == (if (x >> 10u16) & 1u16 == 1u16 { 1u16 } else { 0u16 }),
    ;
}

/// Unpacking the packing of a command word whose fields fit gives the word back.
pub proof fn lemma_cmd_word_fields_roundtrip(w: CmdWord)
    requires
        cmd_word_fits(w),
    ensures
        cmd_word_from_bits(cmd_word_bits(w)) == w,
{
    let rt = w.rt_addr as u16;
    let sa = w.subaddr.address as u16;
    let b = tx_rx_bit(w.subaddr.tr);
    let wc = wire_word_count(w.word_count) as u16;
    let x = cmd_word_bits(w);
    assert(x == rt << 11u16 | b << 10u16 | sa << 5u16 | wc);
    assert({
        &&& (x >> 11u16) & 0x1fu16 == rt
        &&& (x >> 5u16) & 0x1fu16 == sa
        &&& (x >> 0u16) & 0x1fu16 == wc
        &&& ((x >> 10u16) & 1u16 == 1u16) == (b == 1u16)
    }) by (bit_vector)
        requires
            x == rt << 11u16 | b << 10u16 | sa << 5u16 | wc,
            rt < 32,
            sa < 32,
            wc < 32,
            b < 2,
    ;
}

/// A command word whose fields fit is read back unchanged from the two bytes
/// it is sent as, and any two bytes read as a command word are sent again
/// as the same two bytes.
pub proof fn lemma_cmd_word_wire_roundtrip(w: CmdWord, hi: u8, lo: u8)
    ensures
        cmd_word_fits(w) ==> cmd_word_from_bits(
            be_value(be_bytes(cmd_word_bits(w))[0], be_bytes(cmd_word_bits(w))[1]),
        ) == w,
        be_bytes(cmd_word_bits(cmd_word_from_bits(be_value(hi, lo)))) == seq![hi, lo],
{
    lemma_be_roundtrip(cmd_word_bits(w), hi, lo);
    if cmd_word_fits(w) {
        lemma_cmd_word_fields_roundtrip(w);
    }
    lemma_cmd_word_bits_roundtrip(be_value(hi, lo));
}

/// Where each field of a command word travels in its 16-bit packing: the
/// address in bits 11 to 15, the direction in bit 10 (1 when the terminal
/// transmits), the subaddress in bits 5 to 9 and the word count in bits 0 to
/// 4, where a count of 32 is sent as 0. Unpacking reads each field from the
/// same place and reads a count of 0 as 32.
pub proof fn lemma_cmd_word_bit_positions(w: CmdWord, x: u16)
    ensures
        cmd_word_fits(w) ==> {
            &&& cmd_word_bits(w) >> 11u16 == w.rt_addr as u16
            &&& ((cmd_word_bits(w) >> 10u16) & 1u16 == 1u16) == (w.subaddr.tr == TxRx::T)
            &&& (cmd_word_bits(w) >> 5u16) & 0x1fu16 == w.subaddr.address as u16
            &&& cmd_word_bits(w) & 0x1fu16 == (if w.word_count == 32 {
                0u16
            } else {
                w.word_count as u16
            })
        },
        cmd_word_from_bits(x).rt_addr as u16 == x >> 11u16,
        (cmd_word_from_bits(x).subaddr.tr == TxRx::T) == ((x >> 10u16) & 1u16 == 1u16),
        cmd_word_from_bits(x).subaddr.address as u16 == (x >> 5u16) & 0x1fu16,
        cmd_word_from_bits(x).word_count as u16 == (if x & 0x1fu16 == 0u16 {
            32u16
        } else {
            x & 0x1fu16
        }),
{
    let rt = w.rt_addr as u16;
    let sa = w.subaddr.address as u16;
    let b = tx_rx_bit(w.subaddr.tr);
    let wc = wire_word_count(w.word_count) as u16;
    let v = cmd_word_bits(w);
    assert(v == rt << 11u16 | b << 10u16 | sa << 5u16 | wc);
    if cmd_word_fits(w) {
        assert({
            &&& v >> 11u16 == rt
            &&& ((v >> 10u16) & 1u16 == 1u16) == (b == 1u16)
            &&& (v >> 5u16) & 0x1fu16 == sa
            &&& v & 0x1fu16 == wc
        }) by (bit_vector)
            requires
                v == rt << 11u16 | b << 10u16 | sa << 5u16 | wc,
                rt < 32,
                sa < 32,
                wc < 32,
                b < 2,
        ;
    }
    let a = (x >> 11u16) & 0x1fu16;
    let s5 = (x >> 5u16) & 0x1fu16;
    let c = (x >> 0u16) & 0x1fu16;
    assert(a == x >> 11u16 && (a as u8) as u16 == a && (s5 as u8) as u16 == s5 && c == x & 0x1fu16
        && (c as u8) as u16 == c) by (bit_vector)
        requires
            a == (x >> 11u16) & 0x1fu16,
            s5 == (x >> 5u16) & 0x1fu16,
            c == (x >> 0u16) & 0x1fu16,
    ;
}

} // verus!
