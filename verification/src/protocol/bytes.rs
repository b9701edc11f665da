//! Big-endian conversion between 16-bit words and pairs of bytes.

use vstd::prelude::*;

verus! {

/// Number of bytes in one protocol word on the wire.
pub const WORD_SIZE: usize = 2;

/// The two bytes of `x`, most significant first.
pub open spec fn be_bytes(x: u16) -> Seq<u8> {
    seq![(x >> 8u16) as u8, (x & 0xffu16) as u8]
}

/// The 16-bit value whose most significant byte is `hi` and least significant byte is `lo`.
pub open spec fn be_value(hi: u8, lo: u8) -> u16 {
    ((hi as u16) << 8u16) | (lo as u16)
}

/// Splitting a word into bytes and joining them again gives the word back, and
/// joining two bytes then splitting gives the two bytes back.
pub proof fn lemma_be_roundtrip(x: u16, hi: u8, lo: u8)
    ensures
        be_value(be_bytes(x)[0], be_bytes(x)[1]) == x,
        be_bytes(be_value(hi, lo)) == seq![hi, lo],
{
    assert((((x >> 8u16) as u8) as u16) << 8u16 | (((x & 0xffu16) as u8) as u16) == x)
        by (bit_vector);
    assert(((((hi as u16) << 8u16) | (lo as u16)) >> 8u16) as u8 == hi) by (bit_vector);
    assert(((((hi as u16) << 8u16) | (lo as u16)) & 0xffu16) as u8 == lo) by (bit_vector);
    assert(be_bytes(be_value(hi, lo)) =~= seq![hi, lo]);
}

/// The big-endian bytes of `x`.
pub fn u16_to_be_bytes(x: u16) -> (r: [u8; 2])
    ensures
        r@ == be_bytes(x),
{
    let r = [(x >> 8u16) as u8, (x & 0xffu16) as u8];
    assert(r@ =~= be_bytes(x));
    r
}

/// The word whose big-endian bytes are `b`.
pub fn u16_from_be_bytes(b: [u8; 2]) -> (r: u16)
    ensures
        r == be_value(b@[0], b@[1]),
{
    ((b[0] as u16) << 8u16) | (b[1] as u16)
}

/// The four bytes of `x`, most significant first.
pub open spec fn be_bytes32(x: u32) -> Seq<u8> {
    seq![(x >> 24u32) as u8, ((x >> 16u32) & 0xffu32) as u8, ((x >> 8u32) & 0xffu32) as u8, (x & 0xffu32) as u8]
}

/// The 32-bit value whose big-endian bytes are `b0`, `b1`, `b2`, `b3`.
pub open spec fn be_value32(b0: u8, b1: u8, b2: u8, b3: u8) -> u32 {
    ((b0 as u32) << 24u32) | ((b1 as u32) << 16u32) | ((b2 as u32) << 8u32) | (b3 as u32)
}

/// Splitting a 32-bit value into bytes and joining them gives it back, and
/// joining four bytes then splitting gives the four bytes back.
pub proof fn lemma_be32_roundtrip(x: u32, b0: u8, b1: u8, b2: u8, b3: u8)
    ensures
        be_value32(be_bytes32(x)[0], be_bytes32(x)[1], be_bytes32(x)[2], be_bytes32(x)[3]) == x,
        be_bytes32(be_value32(b0, b1, b2, b3)) == seq![b0, b1, b2, b3],
{
    assert(((((x >> 24u32) as u8) as u32) << 24u32) | (((((x >> 16u32) & 0xffu32) as u8) as u32)
        << 16u32) | (((((x >> 8u32) & 0xffu32) as u8) as u32) << 8u32) | (((x & 0xffu32) as u8)
        as u32) == x) by (bit_vector);
    let v = ((b0 as u32) << 24u32) | ((b1 as u32) << 16u32) | ((b2 as u32) << 8u32) | (b3 as u32);
    assert({
        &&& (v >> 24u32) as u8 == b0
        &&& ((v >> 16u32) & 0xffu32) as u8 == b1
        &&& ((v >> 8u32) & 0xffu32) as u8 == b2
        &&& (v & 0xffu32) as u8 == b3
    }) by (bit_vector)
        requires
            v == ((b0 as u32) << 24u32) | ((b1 as u32) << 16u32) | ((b2 as u32) << 8u32) | (
            b3 as u32),
    ;
    assert(be_bytes32(be_value32(b0, b1, b2, b3)) =~= seq![b0, b1, b2, b3]);
}

/// The big-endian bytes of `x`.
pub fn u32_to_be_bytes(x: u32) -> (r: [u8; 4])
    ensures
        r@ == be_bytes32(x),
{
    let r = [
        (x >> 24u32) as u8,
        ((x >> 16u32) & 0xffu32) as u8,
        ((x >> 8u32) & 0xffu32) as u8,
        (x & 0xffu32) as u8,
    ];
    assert(r@ =~= be_bytes32(x));
    r
}

/// The 32-bit value whose big-endian bytes are `b0`, `b1`, `b2`, `b3`.
pub fn u32_from_be_bytes(b0: u8, b1: u8, b2: u8, b3: u8) -> (r: u32)
    ensures
        r == be_value32(b0, b1, b2, b3),
{
    ((b0 as u32) << 24u32) | ((b1 as u32) << 16u32) | ((b2 as u32) << 8u32) | (b3 as u32)
}

/// Error returned when a byte slice does not hold exactly one word.
#[verifier::external_type_specification]
#[verifier::external_body]
pub struct ExTryFromSliceError(core::array::TryFromSliceError);

/// Copies a two-byte slice into an array through std's
/// `<[u8; 2] as TryFrom<&[u8]>>::try_from`. As std documents, it succeeds
/// exactly when the slice holds two bytes, and the array then holds those
/// bytes; which error value comes back otherwise is not stated.
#[verifier::external_body]
pub(crate) fn word_array(bytes: &[u8]) -> (r: Result<[u8; 2], core::array::TryFromSliceError>)
    ensures
        r is Ok <==> bytes@.len() == 2,
        r matches Ok(a) ==> a@ == bytes@,
{
    <[u8; 2]>::try_from(bytes)
}

} // verus!
