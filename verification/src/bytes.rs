//! Little-endian encoding of 32-bit words.
//!
//! Every value that crosses to the kernel is a 32-bit word: an unsigned
//! integer, or the bit pattern of a single-precision number. Words are
//! written least significant byte first, tightly packed.

use vstd::prelude::*;

verus! {

/// The four bytes of `word`, least significant first.
#[verifier::opaque]
pub open spec fn word_le(word: u32) -> Seq<u8> {
    seq![
        (word % 256) as u8,
        (word / 256 % 256) as u8,
        (word / 65536 % 256) as u8,
        (word / 16777216) as u8,
    ]
}

/// The word whose little-endian bytes are the first four bytes of `bytes`.
#[verifier::opaque]
pub open spec fn word_from_le(bytes: Seq<u8>) -> u32
    recommends
        bytes.len() >= 4,
{
    (bytes[0] + 256 * bytes[1] + 65536 * bytes[2] + 16777216 * bytes[3]) as u32
}

/// The packed little-endian bytes of a sequence of words.
pub open spec fn words_le(words: Seq<u32>) -> Seq<u8> {
    Seq::new(4 * words.len(), |i: int| word_le(words[i / 4])[i % 4])
}

/// The words held by a packed little-endian byte sequence; trailing bytes
/// that do not fill a word are left out.
pub open spec fn words_from_le(bytes: Seq<u8>) -> Seq<u32> {
    Seq::new(bytes.len() / 4, |i: int| word_from_le(bytes.subrange(4 * i, 4 * i + 4)))
}

/// Decoding the bytes of a word gives the word back.
pub proof fn lemma_word_round_trip(word: u32)
    ensures
        word_le(word).len() == 4,
        word_from_le(word_le(word)) == word,
{
    reveal(word_le);
    reveal(word_from_le);
}

/// Encoding the word read from four bytes gives the four bytes back.
pub proof fn lemma_bytes_round_trip(bytes: Seq<u8>)
    requires
        bytes.len() == 4,
    ensures
        word_le(word_from_le(bytes)) == bytes,
{
    reveal(word_le);
    reveal(word_from_le);
    let b0 = bytes[0] as int;
    let b1 = bytes[1] as int;
    let b2 = bytes[2] as int;
    let b3 = bytes[3] as int;
    let word = b0 + 256 * b1 + 65536 * b2 + 16777216 * b3;
    assert(word % 256 == b0);
    assert(word / 256 == b1 + 256 * b2 + 65536 * b3);
    assert(word / 65536 == b2 + 256 * b3);
    assert(word / 16777216 == b3);
    assert(word_le(word_from_le(bytes)) =~= bytes);
}

/// Decoding packed words gives the words back.
pub proof fn lemma_words_round_trip(words: Seq<u32>)
    ensures
        words_le(words).len() == 4 * words.len(),
        words_from_le(words_le(words)) == words,
{
    let bytes = words_le(words);
    assert forall|i: int| 0 <= i < words.len() implies #[trigger] words_from_le(bytes)[i]
        == words[i] by {
        let chunk = bytes.subrange(4 * i, 4 * i + 4);
        lemma_word_round_trip(words[i]);
        assert(chunk =~= word_le(words[i]));
    }
}

/// Encoding the words decoded from whole words of bytes gives the bytes back.
pub proof fn lemma_packed_bytes_round_trip(bytes: Seq<u8>)
    requires
        bytes.len() % 4 == 0,
    ensures
        words_from_le(bytes).len() * 4 == bytes.len(),
        words_le(words_from_le(bytes)) == bytes,
{
    let words = words_from_le(bytes);
    assert forall|j: int| 0 <= j < bytes.len() implies #[trigger] words_le(words)[j]
        == bytes[j] by {
        let i = j / 4;
        lemma_bytes_round_trip(bytes.subrange(4 * i, 4 * i + 4));
    }
}

/// Packing two runs of words one after the other packs their concatenation.
pub proof fn lemma_words_le_concat(left: Seq<u32>, right: Seq<u32>)
    ensures
        words_le(left + right) == words_le(left) + words_le(right),
{
    assert(words_le(left + right) =~= words_le(left) + words_le(right));
}

/// Appends the little-endian bytes of `word` to `out`.
pub fn push_word_le(out: &mut Vec<u8>, word: u32)
    ensures
        final(out)@ == old(out)@ + word_le(word),
{
    out.push((word % 256) as u8);
    out.push((word / 256 % 256) as u8);
    out.push((word / 65536 % 256) as u8);
    out.push((word / 16777216) as u8);
    proof {
        reveal(word_le);
    }
}

/// Appends the packed little-endian bytes of `words` to `out`.
pub fn extend_words_le(out: &mut Vec<u8>, words: &[u32])
    ensures
        final(out)@ == old(out)@ + words_le(words@),
{
    let mut i: usize = 0;
    while i < words.len()
        invariant
            i <= words.len(),
            out@ == old(out)@ + words_le(words@.take(i as int)),
        decreases words.len() - i,
    {
        push_word_le(out, words[i]);
        proof {
            let done = words@.take(i as int);
            lemma_word_round_trip(words@[i as int]);
            assert(words_le(words@.take(i + 1)) =~= words_le(done) + word_le(words@[i as int]));
        }
        i = i + 1;
    }
}

/// The packed little-endian bytes of `words`.
pub fn encode_words(words: &[u32]) -> (bytes: Vec<u8>)
    ensures
        bytes@ == words_le(words@),
{
    let mut bytes: Vec<u8> = Vec::new();
    extend_words_le(&mut bytes, words);
    bytes
}

/// Reads packed little-endian words; `None` where the bytes do not divide
/// into whole words.
pub fn decode_words(bytes: &[u8]) -> (words: Option<Vec<u32>>)
    ensures
        words is Some <==> bytes@.len() % 4 == 0,
        words matches Some(w) ==> w@ == words_from_le(bytes@),
{
    if bytes.len() % 4 != 0 {
        return None;
    }
    let count: usize = bytes.len() / 4;
    let mut words: Vec<u32> = Vec::new();
    let mut i: usize = 0;
    while i < count
        invariant
            i <= count,
            4 * count == bytes@.len(),
            4 * count <= usize::MAX,
            words@.len() == i,
            forall|j: int| 0 <= j < i ==> words@[j] == #[trigger] words_from_le(bytes@)[j],
        decreases count - i,
    {
        let b0: u32 = bytes[4 * i] as u32;
        let b1: u32 = bytes[4 * i + 1] as u32;
        let b2: u32 = bytes[4 * i + 2] as u32;
        let b3: u32 = bytes[4 * i + 3] as u32;
        let word: u32 = b0 + 256 * b1 + 65536 * b2 + 16777216 * b3;
        proof {
            reveal(word_from_le);
        }
        words.push(word);
        i = i + 1;
    }
    Some(words)
}

} // verus!
