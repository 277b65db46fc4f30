//! Sixteen-bit words as two bytes, most significant byte first.

use vstd::prelude::*;

verus! {

/// The two bytes of `word`, most significant byte first.
pub open spec fn be_bytes(word: u16) -> Seq<u8> {
    seq![(word / 256) as u8, (word % 256) as u8]
}

/// The word whose bytes are `high` and `low`.
pub open spec fn be_word(high: u8, low: u8) -> u16 {
    (high * 256 + low) as u16
}

/// The bytes of `words`, one word after the other.
pub open spec fn be_words_bytes(words: Seq<u16>) -> Seq<u8> {
    Seq::new(
        2 * words.len(),
        |i: int| if i % 2 == 0 { (words[i / 2] / 256) as u8 } else { (words[i / 2] % 256) as u8 },
    )
}

/// The words that `bytes` holds, one per pair of bytes.
pub open spec fn be_bytes_words(bytes: Seq<u8>) -> Seq<u16> {
    Seq::new(bytes.len() / 2, |i: int| be_word(bytes[2 * i], bytes[2 * i + 1]))
}

/// Appends the two bytes of `word`.
pub fn push_be(out: &mut Vec<u8>, word: u16)
    ensures
        final(out)@ == old(out)@ + be_bytes(word),
{
    out.push((word / 256) as u8);
    out.push((word % 256) as u8);
    assert(out@ =~= old(out)@ + be_bytes(word));
}

/// The word whose bytes are `high` and `low`.
pub fn word_of_be(high: u8, low: u8) -> (word: u16)
    ensures
        word == be_word(high, low),
{
    high as u16 * 256 + low as u16
}

/// Reading the bytes of a word gives the word back.
pub proof fn word_of_its_bytes(word: u16)
    ensures
        be_word(be_bytes(word)[0], be_bytes(word)[1]) == word,
{
}

/// The bytes of the word read from two bytes are those two bytes.
pub proof fn bytes_of_their_word(high: u8, low: u8)
    ensures
        be_bytes(be_word(high, low)) == seq![high, low],
{
    assert(be_bytes(be_word(high, low)) =~= seq![high, low]);
}

/// Reading the bytes of a list of words gives the list back.
pub proof fn words_of_their_bytes(words: Seq<u16>)
    ensures
        be_bytes_words(be_words_bytes(words)) == words,
{
    assert(be_bytes_words(be_words_bytes(words)) =~= words);
}

/// A word is 256 times its high byte plus its low byte, and the high byte comes
/// first.
pub proof fn high_byte_has_the_weight(word: u16, high: u8, low: u8)
    ensures
        be_bytes(word).len() == 2,
        256 * be_bytes(word)[0] + be_bytes(word)[1] == word,
        be_word(high, low) == 256 * high + low,
{
}

/// Each word of a list has its two bytes at twice its place, the high byte first,
/// and each pair of bytes is one word.
pub proof fn words_lie_at_twice_their_place(words: Seq<u16>, bytes: Seq<u8>, i: int)
    ensures
        be_words_bytes(words).len() == 2 * words.len(),
        0 <= i < words.len() ==> 256 * be_words_bytes(words)[2 * i] + be_words_bytes(words)[2 * i
            + 1] == words[i],
        be_bytes_words(bytes).len() == bytes.len() / 2,
        0 <= i < bytes.len() / 2 ==> be_bytes_words(bytes)[i] == 256 * bytes[2 * i] + bytes[2 * i
            + 1],
{
}

} // verus!
