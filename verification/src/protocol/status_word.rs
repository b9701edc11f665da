//! Status words: sent by a remote terminal at the start of its response.

use vstd::prelude::*;
use super::bytes::{be_bytes, be_value, lemma_be_roundtrip, u16_from_be_bytes, u16_to_be_bytes, word_array};
use super::protocol_word::ProtocolWord;
use super::support::{bit_set, extract_field, extract_flag, field, lemma_field_le_mask};

verus! {

pub const STATUS_RT_ADDR_POSITION: u8 = 11;
pub const MSG_ERROR_POSITION: u8 = 10;
pub const SERVICE_REQ_POSITION: u8 = 8;
pub const BROADCAST_RECV_POSITION: u8 = 4;
pub const BUSY_BIT_POSITION: u8 = 3;
pub const SUBSYSTEM_FLAG_POSITION: u8 = 2;
pub const DYN_BUS_ACCEPT_POSITION: u8 = 1;
pub const TERMINAL_FLAG_POSITION: u8 = 0;

/// The bits of a 16-bit value that a status word carries: the address
/// (11..15), the message error bit (10), the service request bit (8) and the
/// five flags in bits 0..4. Bit 9 (instrumentation) and bits 5..7 (reserved)
/// are always sent as 0.
pub const STATUS_WORD_MASK: u16 = 0xfd1f;

/// A status word.
#[derive(Copy, Clone, Debug, PartialEq, Eq, Structural)]
pub struct StatusWord {
    pub rt_addr: u8,
    pub msg_error: bool,
    pub service_req: bool,
    pub broadcast_received: bool,
    pub busy_bit: bool,
    pub subsystem_flag: bool,
    pub dyn_bus_accept: bool,
    pub terminal_flag: bool,
}

/// 1 for a set flag, 0 otherwise.
pub open spec fn flag_bit(b: bool) -> u16 {
    if b {
        1
    } else {
        0
    }
}

fn flag_value(b: bool) -> (r: u16)
    ensures
        r == flag_bit(b),
{
    if b {
        1
    } else {
        0
    }
}

/// The 16-bit packing of a status word.
pub open spec fn status_word_bits(s: StatusWord) -> u16 {
    ((s.rt_addr as u16) << 11u16) | (flag_bit(s.msg_error) << 10u16) | (flag_bit(s.service_req)
        << 8u16) | (flag_bit(s.broadcast_received) << 4u16) | (flag_bit(s.busy_bit) << 3u16) | (
    flag_bit(s.subsystem_flag) << 2u16) | (flag_bit(s.dyn_bus_accept) << 1u16) | flag_bit(
        s.terminal_flag,
    )
}

/// The status word that a 16-bit value unpacks to.
pub open spec fn status_word_from_bits(x: u16) -> StatusWord {
    StatusWord {
        rt_addr: field(x, 11, 0x1f) as u8,
        msg_error: bit_set(x, 10),
        service_req: bit_set(x, 8),
        broadcast_received: bit_set(x, 4),
        busy_bit: bit_set(x, 3),
        subsystem_flag: bit_set(x, 2),
        dyn_bus_accept: bit_set(x, 1),
        terminal_flag: bit_set(x, 0),
    }
}

impl StatusWord {
    /// The 16-bit packing of this word.
    pub fn to_u16(self) -> (r: u16)
        ensures
            r == status_word_bits(self),
    {
        // Instrumentation bit at position 9 and the reserved bits stay 0.
        ((self.rt_addr as u16) << 11u16) | (flag_value(self.msg_error) << 10u16) | (flag_value(
            self.service_req,
        ) << 8u16) | (flag_value(self.broadcast_received) << 4u16) | (flag_value(self.busy_bit)
            << 3u16) | (flag_value(self.subsystem_flag) << 2u16) | (flag_value(
            self.dyn_bus_accept,
        ) << 1u16) | flag_value(self.terminal_flag)
    }

    /// Unpacks a 16-bit value into a status word.
    pub fn from_u16(status_word: u16) -> (r: Self)
        ensures
            r == status_word_from_bits(status_word),
    {
        proof {
            lemma_field_le_mask(status_word, 11, 0x1f);
        }
        let rt_addr = extract_field(status_word, STATUS_RT_ADDR_POSITION, 0b1_1111) as u8;
        let msg_error = extract_flag(status_word, MSG_ERROR_POSITION);
        let service_req = extract_flag(status_word, SERVICE_REQ_POSITION);
        let broadcast_received = extract_flag(status_word, BROADCAST_RECV_POSITION);
        let busy_bit = extract_flag(status_word, BUSY_BIT_POSITION);
        let subsystem_flag = extract_flag(status_word, SUBSYSTEM_FLAG_POSITION);
        let dyn_bus_accept = extract_flag(status_word, DYN_BUS_ACCEPT_POSITION);
        let terminal_flag = extract_flag(status_word, TERMINAL_FLAG_POSITION);
        StatusWord {
            rt_addr,
            msg_error,
            service_req,
            broadcast_received,
            busy_bit,
            subsystem_flag,
            dyn_bus_accept,
            terminal_flag,
        }
    }
}

impl<'a> TryFrom<&'a [u8]> for StatusWord {
    type Error = core::array::TryFromSliceError;

    /// Reads a status word from a slice of exactly two bytes; any other
    /// length is refused with the slice conversion error.
    fn try_from(bytes: &'a [u8]) -> (r: Result<Self, Self::Error>)
        ensures
            r is Ok <==> bytes@.len() == 2,
            r matches Ok(w) ==> w == status_word_from_bits(be_value(bytes@[0], bytes@[1])),
    {
        match word_array(bytes) {
            Ok(arr) => Ok(Self::from_u16(u16_from_be_bytes(arr))),
            Err(e) => Err(e),
        }
    }
}

impl<'a> vstd::std_specs::convert::TryFromSpecImpl<&'a [u8]> for StatusWord {
    open spec fn obeys_try_from_spec() -> bool {
        false
    }

    open spec fn try_from_spec(bytes: &'a [u8]) -> Result<Self, Self::Error> {
        if bytes@.len() == 2 {
            Ok(status_word_from_bits(be_value(bytes@[0], bytes@[1])))
        } else {
            Err(arbitrary())
        }
    }
}

impl ProtocolWord for StatusWord {
    open spec fn wire_value(self) -> u16 {
        status_word_bits(self)
    }

    fn to_be_bytes(self) -> (r: [u8; 2]) {
        u16_to_be_bytes(self.to_u16())
    }
}

impl From<StatusWord> for u16 {
    fn from(status_word: StatusWord) -> (r: u16) {
        status_word.to_u16()
    }
}

impl vstd::std_specs::convert::FromSpecImpl<StatusWord> for u16 {
    open spec fn obeys_from_spec() -> bool {
        true
    }

    open spec fn from_spec(status_word: StatusWord) -> u16 {
        status_word_bits(status_word)
    }
}

impl From<u16> for StatusWord {
    fn from(status_word: u16) -> (r: Self) {
        Self::from_u16(status_word)
    }
}

impl vstd::std_specs::convert::FromSpecImpl<u16> for StatusWord {
    open spec fn obeys_from_spec() -> bool {
        true
    }

    open spec fn from_spec(status_word: u16) -> Self {
        status_word_from_bits(status_word)
    }
}

impl From<[u8; 2]> for StatusWord {
    fn from(bytes: [u8; 2]) -> (r: StatusWord) {
        Self::from_u16(u16_from_be_bytes(bytes))
    }
}

impl vstd::std_specs::convert::FromSpecImpl<[u8; 2]> for StatusWord {
    open spec fn obeys_from_spec() -> bool {
        true
    }

    open spec fn from_spec(bytes: [u8; 2]) -> Self {
        status_word_from_bits(be_value(bytes@[0], bytes@[1]))
    }
}

/// Unpacking a 16-bit value and packing the status word again keeps exactly
/// the bits a status word carries and clears the others.
pub proof fn lemma_status_word_bits_roundtrip(x: u16)
    ensures
        status_word_bits(status_word_from_bits(x)) == x & STATUS_WORD_MASK,
{
    let rt = (x >> 11u16) & 0x1fu16;
    assert(((rt as u8) as u16) == rt) by (bit_vector)
        requires
            rt == (x >> 11u16) & 0x1fu16,
    ;
    let f10 = flag_bit((x >> 10u16) & 1u16 == 1u16);
    let f8 = flag_bit((x >> 8u16) & 1u16 == 1u16);
    let f4 = flag_bit((x >> 4u16) & 1u16 == 1u16);
    let f3 = flag_bit((x >> 3u16) & 1u16 == 1u16);
    let f2 = flag_bit((x >> 2u16) & 1u16 == 1u16);
    let f1 = flag_bit((x >> 1u16) & 1u16 == 1u16);
    let f0 = flag_bit((x >> 0u16) & 1u16 == 1u16);
    assert(rt << 11u16 | f10 << 10u16 | f8 << 8u16 | f4 << 4u16 | f3 << 3u16 | f2 << 2u16
        | f1 << 1u16 | f0 == x & 0xfd1fu16) by (bit_vector)
        requires
            rt == (x >> 11u16) & 0x1fu16,
            f10 == (if (x >> 10u16) & 1u16 == 1u16 { 1u16 } else { 0u16 }),
            f8 == (if (x >> 8u16) & 1u16 == 1u16 { 1u16 } else { 0u16 }),
            f4 == (if (x >> 4u16) & 1u16 == 1u16 { 1u16 } else { 0u16 }),
            f3 == (if (x >> 3u16) & 1u16 == 1u16 { 1u16 } else { 0u16 }),
            f2 == (if (x >> 2u16) & 1u16 == 1u16 { 1u16 } else { 0u16 }),
            f1 == (if (x >> 1u16) & 1u16 == 1u16 { 1u16 } else { 0u16 }),
            f0 == (if (x >> 0u16) & 1u16 == 1u16 { 1u16 } else { 0u16 }),
    ;
}

/// Unpacking the packing of a status word whose address is below 32 gives
/// the word back.
pub proof fn lemma_status_word_fields_roundtrip(s: StatusWord)
    requires
        s.rt_addr < 32,
    ensures
        status_word_from_bits(status_word_bits(s)) == s,
{
    let rt = s.rt_addr as u16;
    let f10 = flag_bit(s.msg_error);
    let f8 = flag_bit(s.service_req);
    let f4 = flag_bit(s.broadcast_received);
    let f3 = flag_bit(s.busy_bit);
    let f2 = flag_bit(s.subsystem_flag);
    let f1 = flag_bit(s.dyn_bus_accept);
    let f0 = flag_bit(s.terminal_flag);
    let x = status_word_bits(s);
    assert({
        &&& (x >> 11u16) & 0x1fu16 == rt
        &&& ((x >> 10u16) & 1u16 == 1u16) == (f10 == 1u16)
        &&& ((x >> 8u16) & 1u16 == 1u16) == (f8 == 1u16)
        &&& ((x >> 4u16) & 1u16 == 1u16) == (f4 == 1u16)
        &&& ((x >> 3u16) & 1u16 == 1u16) == (f3 == 1u16)
        &&& ((x >> 2u16) & 1u16 == 1u16) == (f2 == 1u16)
        &&& ((x >> 1u16) & 1u16 == 1u16) == (f1 == 1u16)
        &&& ((x >> 0u16) & 1u16 == 1u16) == (f0 == 1u16)
    }) by (bit_vector)
        requires
            x == rt << 11u16 | f10 << 10u16 | f8 << 8u16 | f4 << 4u16 | f3 << 3u16 | f2 << 2u16
                | f1 << 1u16 | f0,
            rt < 32,
            f10 < 2,
            f8 < 2,
            f4 < 2,
            f3 < 2,
            f2 < 2,
            f1 < 2,
            f0 < 2,
    ;
}

/// A status word whose address is below 32 is read back unchanged from the
/// two bytes it is sent as.
pub proof fn lemma_status_word_wire_roundtrip(s: StatusWord)
    requires
        s.rt_addr < 32,
    ensures
        status_word_from_bits(
            be_value(be_bytes(status_word_bits(s))[0], be_bytes(status_word_bits(s))[1]),
        ) == s,
{
    lemma_be_roundtrip(status_word_bits(s), 0, 0);
    lemma_status_word_fields_roundtrip(s);
}

/// Where each field of a status word travels in its 16-bit packing: the
/// terminal flag in bit 0, dynamic bus acceptance in bit 1, the subsystem
/// flag in bit 2, the busy bit in bit 3, broadcast received in bit 4, the
/// service request in bit 8, the message error in bit 10 and the address in
/// bits 11 to 15 (when it is below 32); bits 5 to 7 and 9 are always 0.
/// Unpacking reads each field from the same place.
pub proof fn lemma_status_word_bit_positions(s: StatusWord, x: u16)
    ensures
        ((status_word_bits(s) >> 0u16) & 1u16 == 1u16) == s.terminal_flag,
        ((status_word_bits(s) >> 1u16) & 1u16 == 1u16) == s.dyn_bus_accept,
        ((status_word_bits(s) >> 2u16) & 1u16 == 1u16) == s.subsystem_flag,
        ((status_word_bits(s) >> 3u16) & 1u16 == 1u16) == s.busy_bit,
        ((status_word_bits(s) >> 4u16) & 1u16 == 1u16) == s.broadcast_received,
        ((status_word_bits(s) >> 8u16) & 1u16 == 1u16) == s.service_req,
        ((status_word_bits(s) >> 10u16) & 1u16 == 1u16) == s.msg_error,
        status_word_bits(s) & 0x02e0u16 == 0u16,
        s.rt_addr < 32 ==> (status_word_bits(s) >> 11u16) == s.rt_addr as u16,
        status_word_from_bits(x).terminal_flag == ((x >> 0u16) & 1u16 == 1u16),
        status_word_from_bits(x).dyn_bus_accept == ((x >> 1u16) & 1u16 == 1u16),
        status_word_from_bits(x).subsystem_flag == ((x >> 2u16) & 1u16 == 1u16),
        status_word_from_bits(x).busy_bit == ((x >> 3u16) & 1u16 == 1u16),
        status_word_from_bits(x).broadcast_received == ((x >> 4u16) & 1u16 == 1u16),
        status_word_from_bits(x).service_req == ((x >> 8u16) & 1u16 == 1u16),
        status_word_from_bits(x).msg_error == ((x >> 10u16) & 1u16 == 1u16),
        status_word_from_bits(x).rt_addr as u16 == x >> 11u16,
{
    let rt = s.rt_addr as u16;
    let f10 = flag_bit(s.msg_error);
    let f8 = flag_bit(s.service_req);
    let f4 = flag_bit(s.broadcast_received);
    let f3 = flag_bit(s.busy_bit);
    let f2 = flag_bit(s.subsystem_flag);
    let f1 = flag_bit(s.dyn_bus_accept);
    let f0 = flag_bit(s.terminal_flag);
    let w = status_word_bits(s);
    assert(w == rt << 11u16 | f10 << 10u16 | f8 << 8u16 | f4 << 4u16 | f3 << 3u16 | f2 << 2u16
        | f1 << 1u16 | f0);
    assert({
        &&& ((w >> 0u16) & 1u16 == 1u16) == (f0 == 1u16)
        &&& ((w >> 1u16) & 1u16 == 1u16) == (f1 == 1u16)
        &&& ((w >> 2u16) & 1u16 == 1u16) == (f2 == 1u16)
        &&& ((w >> 3u16) & 1u16 == 1u16) == (f3 == 1u16)
        &&& ((w >> 4u16) & 1u16 == 1u16) == (f4 == 1u16)
        &&& ((w >> 8u16) & 1u16 == 1u16) == (f8 == 1u16)
        &&& ((w >> 10u16) & 1u16 == 1u16) == (f10 == 1u16)
        &&& w & 0x02e0u16 == 0u16
        &&& rt < 32 ==> w >> 11u16 == rt
    }) by (bit_vector)
        requires
            w == rt << 11u16 | f10 << 10u16 | f8 << 8u16 | f4 << 4u16 | f3 << 3u16 | f2 << 2u16
                | f1 << 1u16 | f0,
            f10 < 2,
            f8 < 2,
            f4 < 2,
            f3 < 2,
            f2 < 2,
            f1 < 2,
            f0 < 2,
    ;
    let a = (x >> 11u16) & 0x1fu16;
    assert(a == x >> 11u16 && (a as u8) as u16 == a) by (bit_vector)
        requires
            a == (x >> 11u16) & 0x1fu16,
    ;
}

} // verus!
