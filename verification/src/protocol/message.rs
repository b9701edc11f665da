//! Messages: one command or status word followed by data words, and the
//! conversion of data words to and from the byte stream.

use vstd::prelude::*;
use super::bytes::{be_bytes, be_value, lemma_be_roundtrip, WORD_SIZE};
use super::cmd_word::{cmd_word_bits, cmd_word_fits, cmd_word_from_bits, lemma_cmd_word_fields_roundtrip, CmdWord};
use super::data_word::DataWord;
use super::protocol_word::ProtocolWord;
use super::status_word::StatusWord;

verus! {

/// The bytes of a sequence of data words: each word big-endian, in order.
pub open spec fn words_bytes(words: Seq<DataWord>) -> Seq<u8> {
    Seq::new(2 * words.len(), |i: int| be_bytes(words[i / 2].0)[i % 2])
}

/// The data words read from a byte sequence, two bytes per word in order; a
/// trailing odd byte is not part of any word.
pub open spec fn bytes_words(bytes: Seq<u8>) -> Seq<DataWord> {
    Seq::new(bytes.len() / 2, |i: int| DataWord(be_value(bytes[2 * i], bytes[2 * i + 1])))
}

/// Reading words back from the bytes of a sequence of words gives that sequence.
pub proof fn lemma_words_bytes_roundtrip(words: Seq<DataWord>)
    ensures
        bytes_words(words_bytes(words)) == words,
{
    let b = words_bytes(words);
    assert forall|i: int| 0 <= i < words.len() implies #[trigger] bytes_words(b)[i] == words[i] by {
        lemma_be_roundtrip(words[i].0, 0, 0);
        assert(b[2 * i] == be_bytes(words[i].0)[0]);
        assert(b[2 * i + 1] == be_bytes(words[i].0)[1]);
    }
    assert(bytes_words(b) =~= words);
}

/// Writing the words read from an even-length byte sequence gives the bytes back.
pub proof fn lemma_bytes_words_roundtrip(bytes: Seq<u8>)
    requires
        bytes.len() % 2 == 0,
    ensures
        words_bytes(bytes_words(bytes)) == bytes,
{
    let w = bytes_words(bytes);
    assert forall|j: int| 0 <= j < bytes.len() implies #[trigger] words_bytes(w)[j] == bytes[j] by {
        let i = j / 2;
        lemma_be_roundtrip(0, bytes[2 * i], bytes[2 * i + 1]);
    }
    assert(words_bytes(w) =~= bytes);
}

/// The bytes of `words`, each word big-endian, in order.
pub fn words_to_bytes(words: &[DataWord]) -> (r: Vec<u8>)
    requires
        2 * words@.len() <= usize::MAX,
    ensures
        r@ == words_bytes(words@),
{
    let mut out: Vec<u8> = Vec::new();
    let n = words.len();
    for i in 0..n
        invariant
            n == words@.len(),
            out@.len() == 2 * i,
            forall|j: int| 0 <= j < 2 * i ==> out@[j] == #[trigger] be_bytes(words@[j / 2].0)[j % 2],
    {
        let b = words[i].to_be_bytes();
        out.push(b[0]);
        out.push(b[1]);
    }
    assert(out@ =~= words_bytes(words@));
    out
}

/// The data words held by `bytes`, two bytes each, most significant first; a
/// trailing odd byte is dropped.
pub fn words_from_bytes(bytes: &[u8]) -> (r: Vec<DataWord>)
    ensures
        r@ == bytes_words(bytes@),
{
    let mut out: Vec<DataWord> = Vec::new();
    let len = bytes.len();
    let n = len / WORD_SIZE;
    for i in 0..n
        invariant
            len == bytes@.len(),
            n == bytes@.len() / 2,
            2 * n <= bytes@.len(),
            out@.len() == i,
            forall|j: int| 0 <= j < i ==> out@[j] == #[trigger] bytes_words(bytes@)[j],
    {
        assert(2 * i + 1 < bytes@.len());
        let k: usize = 2 * i;
        out.push(DataWord::from_be_bytes([bytes[k], bytes[k + 1]]));
    }
    assert(out@ =~= bytes_words(bytes@));
    out
}

/// A message: a leading protocol word and the data words that follow it.
pub struct Message<W> {
    pub word: W,
    pub data: Vec<DataWord>,
}

impl<W: Copy> Clone for Message<W> {
    fn clone(&self) -> (r: Self)
        ensures
            r.word == self.word,
            r.data@ == self.data@,
    {
        let mut data: Vec<DataWord> = Vec::new();
        for i in 0..self.data.len()
            invariant
                data@ == self.data@.take(i as int),
        {
            data.push(self.data[i]);
            assert(data@ =~= self.data@.take(i + 1));
        }
        assert(data@ =~= self.data@);
        Message { word: self.word, data }
    }
}

/// A command word with the data words the bus controller sends after it.
pub type CommandMessage = Message<CmdWord>;

/// A status word with the data words the terminal sends after it.
pub type StatusMessage = Message<StatusWord>;

/// The bytes of a message: its word, then its data words, all big-endian.
pub open spec fn message_bytes<W: ProtocolWord>(word: W, data: Seq<DataWord>) -> Seq<u8> {
    be_bytes(word.wire_value()) + words_bytes(data)
}

impl<W: ProtocolWord> Message<W> {
    /// A message made of `word` alone.
    pub fn empty(word: W) -> (r: Self)
        ensures
            r.word == word,
            r.data@ == Seq::<DataWord>::empty(),
    {
        Self { word, data: Vec::new() }
    }

    /// The bytes sent on the wire for this message.
    pub fn encode(&self) -> (r: Vec<u8>)
        requires
            2 * self.data@.len() + 2 <= usize::MAX,
        ensures
            r@ == message_bytes(self.word, self.data@),
    {
        let head = self.word.to_be_bytes();
        let mut out: Vec<u8> = Vec::new();
        out.push(head[0]);
        out.push(head[1]);
        let mut tail = words_to_bytes(self.data.as_slice());
        out.append(&mut tail);
        assert(out@ =~= message_bytes(self.word, self.data@));
        out
    }
}

/// One completed exchange: the command sent and the status message received.
pub struct Transaction {
    pub command: CommandMessage,
    pub status: StatusMessage,
}

/// A command message read back from its bytes gives the message: the first
/// two bytes unpack to its command word (when the word's fields fit) and the
/// remaining bytes to its data words.
pub proof fn lemma_command_message_roundtrip(word: CmdWord, data: Seq<DataWord>)
    requires
        cmd_word_fits(word),
    ensures
        cmd_word_from_bits(be_value(message_bytes(word, data)[0], message_bytes(word, data)[1]))
            == word,
        bytes_words(message_bytes(word, data).skip(2)) == data,
{
    let b = message_bytes(word, data);
    lemma_be_roundtrip(cmd_word_bits(word), 0, 0);
    lemma_cmd_word_fields_roundtrip(word);
    assert(b.skip(2) =~= words_bytes(data));
    lemma_words_bytes_roundtrip(data);
}

} // verus!
