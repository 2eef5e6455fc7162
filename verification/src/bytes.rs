//! How 32-bit words lie in memory as bytes.
use vstd::prelude::*;

verus! {

/// Byte `k` of `word`, counted from the least significant one.
pub open spec fn byte_of(word: u32, k: int) -> u8 {
    if k == 0 {
        (word % 256) as u8
    } else if k == 1 {
        (word / 256 % 256) as u8
    } else if k == 2 {
        (word / 65536 % 256) as u8
    } else {
        (word / 16777216) as u8
    }
}

/// The words written out one after the other, least significant byte first.
pub open spec fn little_endian(words: Seq<u32>) -> Seq<u8> {
    Seq::new(4 * words.len(), |i: int| byte_of(words[i / 4], i % 4))
}

/// The words written out one after the other, most significant byte first.
pub open spec fn big_endian(words: Seq<u32>) -> Seq<u8> {
    Seq::new(4 * words.len(), |i: int| byte_of(words[i / 4], 3 - i % 4))
}

/// `bytes` is what `words` occupy in memory, in one of the two byte orders
/// that a machine can have.
pub open spec fn native_bytes(words: Seq<u32>, bytes: Seq<u8>) -> bool {
    bytes == little_endian(words) || bytes == big_endian(words)
}

/// Calls `zerocopy::AsBytes::as_bytes` on a slice of `u32`, which hands out
/// the memory of the slice as bytes. Relied on without proof: the bytes are
/// the words in the machine's byte order, four for each word.
#[verifier::external_body]
pub(crate) fn words_as_bytes(words: &[u32]) -> (bytes: &[u8])
    ensures
        native_bytes(words@, bytes@),
{
    zerocopy::AsBytes::as_bytes(words)
}

/// Calls `bytemuck::cast_slice` from `u32` to `u8`, which reinterprets the
/// memory of the slice; for this pair of types it cannot fail. Relied on
/// without proof: the bytes are the words in the machine's byte order, four
/// for each word.
#[verifier::external_body]
pub(crate) fn cast_words(words: &[u32]) -> (bytes: &[u8])
    ensures
        native_bytes(words@, bytes@),
{
    bytemuck::cast_slice(words)
}

/// In either byte order there are four bytes to a word, and a zero word is
/// four zero bytes.
pub proof fn lemma_native_bytes(words: Seq<u32>, bytes: Seq<u8>)
    requires
        native_bytes(words, bytes),
    ensures
        bytes.len() == 4 * words.len(),
        forall|i: int| 0 <= i < bytes.len() && words[i / 4] == 0 ==> #[trigger] bytes[i] == 0,
{
}

} // verus!
