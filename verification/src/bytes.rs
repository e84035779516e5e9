//! The bytes of 32-bit words as they lie in memory, which is how a buffer's
//! contents are handed to the GPU.

use vstd::endian::{endianness, Endian};
use vstd::prelude::*;

verus! {

/// The four bytes of `word`, least significant first.
pub open spec fn word_le(word: u32) -> Seq<u8> {
    seq![
        (word % 256) as u8,
        (word / 256 % 256) as u8,
        (word / 65536 % 256) as u8,
        (word / 16777216) as u8,
    ]
}

/// The words laid out one after the other, each least significant byte first.
pub open spec fn words_le(words: Seq<u32>) -> Seq<u8> {
    Seq::new(4 * words.len(), |i: int| word_le(words[i / 4])[i % 4])
}

/// The words laid out one after the other, each most significant byte first.
pub open spec fn words_be(words: Seq<u32>) -> Seq<u8> {
    Seq::new(4 * words.len(), |i: int| word_le(words[i / 4])[3 - i % 4])
}

/// The words as they lie in the memory of the machine that runs the code.
pub open spec fn native_bytes(words: Seq<u32>) -> Seq<u8> {
    match endianness() {
        Endian::Little => words_le(words),
        Endian::Big => words_be(words),
    }
}

/// Calls `bytemuck::cast_slice` to view the words as bytes and copies them out.
///
/// Trusted: the cast reinterprets the slice's memory without changing it, so
/// the result holds four bytes for each word, in the byte order of the
/// machine. From `u32` to `u8` the cast cannot fail: the target is no more
/// strictly aligned and every length is a whole number of bytes.
#[verifier::external_body]
pub(crate) fn words_to_bytes(words: &[u32]) -> (bytes: Vec<u8>)
    ensures
        bytes@ == native_bytes(words@),
{
    bytemuck::cast_slice::<u32, u8>(words).to_vec()
}

} // verus!
