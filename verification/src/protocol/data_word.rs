//! Data words: the 16-bit payload units that follow a command or status word.

use vstd::prelude::*;
use super::bytes::{be_bytes, be_value, lemma_be_roundtrip, u16_from_be_bytes, u16_to_be_bytes};

verus! {

/// One 16-bit data word.
#[derive(Debug, Clone, Copy, PartialEq, Eq, Structural)]
pub struct DataWord(pub u16);

impl DataWord {
    /// The two bytes of the word, most significant first.
    pub fn to_be_bytes(self) -> (r: [u8; 2])
        ensures
            r@ == be_bytes(self.0),
    {
        u16_to_be_bytes(self.0)
    }

    /// The word whose big-endian bytes are `bytes`.
    pub fn from_be_bytes(bytes: [u8; 2]) -> (r: Self)
        ensures
            r.0 == be_value(bytes@[0], bytes@[1]),
    {
        DataWord(u16_from_be_bytes(bytes))
    }
}

impl From<u16> for DataWord {
    fn from(value: u16) -> (r: Self) {
        DataWord(value)
    }
}

impl vstd::std_specs::convert::FromSpecImpl<u16> for DataWord {
    open spec fn obeys_from_spec() -> bool {
        true
    }

    open spec fn from_spec(value: u16) -> Self {
        DataWord(value)
    }
}

/// Reading a data word from its two bytes gives the word back, and writing
/// the word read from two bytes gives those bytes back.
pub proof fn lemma_data_word_bytes_roundtrip(w: DataWord, hi: u8, lo: u8)
    ensures
        DataWord(be_value(be_bytes(w.0)[0], be_bytes(w.0)[1])) == w,
        be_bytes(DataWord(be_value(hi, lo)).0) == seq![hi, lo],
{
    lemma_be_roundtrip(w.0, hi, lo);
}

} // verus!
