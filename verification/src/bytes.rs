//! Words as the device sees them: sequences of bytes in machine byte order.

use vstd::prelude::*;

verus! {

/// The two byte orders a machine can store a 32-bit word in.
#[derive(Clone, Copy, Debug, PartialEq, Eq)]
pub enum ByteOrder {
    /// Least significant byte first.
    Little,
    /// Most significant byte first.
    Big,
}

/// Byte `k` of `word`, counted from the least significant one (`k` in `0..4`).
pub open spec fn word_byte(word: u32, k: int) -> u8 {
    if k == 0 {
        (word % 0x100) as u8
    } else if k == 1 {
        (word / 0x100 % 0x100) as u8
    } else if k == 2 {
        (word / 0x1_0000 % 0x100) as u8
    } else {
        (word / 0x100_0000) as u8
    }
}

/// The byte at position `i` of a block that stores `words` one after another
/// in the given order.
pub open spec fn block_byte(words: Seq<u32>, order: ByteOrder, i: int) -> u8 {
    match order {
        ByteOrder::Little => word_byte(words[i / 4], i % 4),
        ByteOrder::Big => word_byte(words[i / 4], 3 - i % 4),
    }
}

/// The block of `4 * words.len()` bytes that stores `words` one after another,
/// each in the given order.
pub open spec fn words_as_bytes(words: Seq<u32>, order: ByteOrder) -> Seq<u8> {
    Seq::new(4 * words.len(), |i: int| block_byte(words, order, i))
}

/// `bytes` is what `words` look like in memory on some machine: all words
/// little-endian, or all words big-endian.
pub open spec fn is_memory_image(bytes: Seq<u8>, words: Seq<u32>) -> bool {
    bytes == words_as_bytes(words, ByteOrder::Little) || bytes == words_as_bytes(
        words,
        ByteOrder::Big,
    )
}

/// Calls `bytemuck::bytes_of` on an array of twenty words and copies the
/// result.  Assumed without proof: the result is the array's memory, eighty
/// bytes, which holds the words in index order, each in the byte order of the
/// machine.
#[verifier::external_body]
pub(crate) fn block_bytes(words: &[u32; 20]) -> (bytes: Vec<u8>)
    ensures
        is_memory_image(bytes@, words@),
{
    bytemuck::bytes_of(words).to_vec()
}

/// Calls `bytemuck::cast_slice` from words to bytes and copies the result.
/// Assumed without proof: the result is the slice's memory, four bytes per
/// word, which holds the words in index order, each in the byte order of the
/// machine.
#[verifier::external_body]
pub(crate) fn slice_bytes(words: &[u32]) -> (bytes: Vec<u8>)
    ensures
        is_memory_image(bytes@, words@),
{
    bytemuck::cast_slice::<u32, u8>(words).to_vec()
}

/// The word that four bytes spell, least significant byte first.
pub open spec fn word_of_bytes(b0: u8, b1: u8, b2: u8, b3: u8) -> int {
    b0 + 0x100 * b1 + 0x1_0000 * b2 + 0x100_0000 * b3
}

/// The word that a reader of the given byte order finds at byte `offset` of
/// `bytes`.
#[verifier::opaque]
pub open spec fn read_word(bytes: Seq<u8>, offset: int, order: ByteOrder) -> int {
    match order {
        ByteOrder::Little => word_of_bytes(
            bytes[offset],
            bytes[offset + 1],
            bytes[offset + 2],
            bytes[offset + 3],
        ),
        ByteOrder::Big => word_of_bytes(
            bytes[offset + 3],
            bytes[offset + 2],
            bytes[offset + 1],
            bytes[offset],
        ),
    }
}

/// In a block that stores `words`, the word at index `i` is read back at byte
/// offset `4 * i`.
pub proof fn lemma_read_word(words: Seq<u32>, order: ByteOrder, i: int)
    requires
        0 <= i < words.len(),
    ensures
        words_as_bytes(words, order).len() == 4 * words.len(),
        read_word(words_as_bytes(words, order), 4 * i, order) == words[i],
{
    reveal(read_word);
    let block = words_as_bytes(words, order);
    assert forall|k: int| 0 <= k < 4 implies #[trigger] block[4 * i + k] == block_byte(
        words,
        order,
        4 * i + k,
    ) && (4 * i + k) / 4 == i && (4 * i + k) % 4 == k by {}
    assert(block[4 * i] == block[4 * i + 0]);
}

} // verus!
