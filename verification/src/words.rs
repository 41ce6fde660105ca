//! Device memory is filled with 32-bit words; this module turns words into
//! the bytes that are uploaded.

use vstd::prelude::*;

verus! {

/// Byte `k` of a word, counted from its least significant byte.
pub open spec fn word_byte(word: u32, k: int) -> u8 {
    if k == 0 {
        (word & 0xff) as u8
    } else if k == 1 {
        ((word >> 8) & 0xff) as u8
    } else if k == 2 {
        ((word >> 16) & 0xff) as u8
    } else {
        ((word >> 24) & 0xff) as u8
    }
}

/// The words laid out one after the other, each with its least significant
/// byte first.
pub open spec fn little_endian_bytes(words: Seq<u32>) -> Seq<u8> {
    Seq::new(4 * words.len(), |k: int| word_byte(words[k / 4], k % 4))
}

/// The words laid out one after the other, each with its most significant
/// byte first.
pub open spec fn big_endian_bytes(words: Seq<u32>) -> Seq<u8> {
    Seq::new(4 * words.len(), |k: int| word_byte(words[k / 4], 3 - k % 4))
}

/// `bytes` is what `words` look like in the memory of some machine: the words
/// in order, four bytes each, all in the one byte order of that machine.
pub open spec fn memory_image(words: Seq<u32>, bytes: Seq<u8>) -> bool {
    bytes == little_endian_bytes(words) || bytes == big_endian_bytes(words)
}

/// Calls `bytemuck::cast_slice` from `u32` to `u8` and copies what it returns.
/// The cast reinterprets the slice's memory without touching it, and for this
/// pair of types it has no failure case, so the bytes are the words as this
/// machine stores them. Which byte order that is depends on the machine; the
/// contract holds for both.
#[verifier::external_body]
pub(crate) fn cast_words(words: &Vec<u32>) -> (bytes: Vec<u8>)
    ensures
        memory_image(words@, bytes@),
{
    bytemuck::cast_slice::<u32, u8>(words.as_slice()).to_vec()
}

} // verus!
