//! The common interface of the words that open a message.

use vstd::prelude::*;
use super::bytes::be_bytes;

verus! {

/// A word that can head a message: it has a 16-bit wire value and is sent
/// as two big-endian bytes.
pub trait ProtocolWord: Copy {
    /// The 16-bit value the word is packed into.
    spec fn wire_value(self) -> u16;

    /// The two bytes sent on the wire for this word, most significant first.
    fn to_be_bytes(self) -> (r: [u8; 2])
        ensures
            r@ == be_bytes(self.wire_value()),
    ;
}

} // verus!
