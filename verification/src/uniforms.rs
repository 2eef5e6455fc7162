//! The per-mesh transform record and its padded layout in the uniform buffer.
use crate::bytes::{lemma_native_bytes, native_bytes, words_as_bytes};
use vstd::prelude::*;
use vstd::slice::slice_to_vec;

verus! {

/// The boundary, in bytes, at which a dynamically offset uniform binding has
/// to start.
pub const UNIFORM_ALIGNMENT: usize = 256;

/// The bytes of a 4x4 matrix of 32-bit floats.
pub const TRANSFORM_SIZE: usize = 64;

/// The bytes from one record to the next in the uniform buffer.
pub const UNIFORM_STRIDE: usize = 256;

/// The 32-bit words of one record, padding included.
pub const UNIFORM_WORDS: usize = 64;

/// The bit pattern of the float `1.0`.
pub const ONE: u32 = 0x3f80_0000;

/// The transform of one mesh. Each entry is the bit pattern of a 32-bit
/// float, in the order in which the device reads the matrix.
#[derive(Clone, Copy, Debug)]
pub struct Uniforms {
    pub transform: [u32; 16],
}

/// The identity matrix: ones on the diagonal, zeros elsewhere.
pub open spec fn identity_transform() -> Seq<u32> {
    Seq::new(16, |i: int| if i % 5 == 0 { ONE } else { 0u32 })
}

/// The byte offset of record `n` in the uniform buffer.
pub open spec fn uniform_offset(n: nat) -> nat {
    n * UNIFORM_STRIDE as nat
}

/// Word `k` of the packed records: sixteen words of transform, then zeros up
/// to the stride.
pub open spec fn uniform_word(uniforms: Seq<Uniforms>, k: int) -> u32 {
    if k % 64 < 16 {
        uniforms[k / 64].transform@[k % 64]
    } else {
        0u32
    }
}

/// All records as words, one record after the other.
pub open spec fn uniform_words(uniforms: Seq<Uniforms>) -> Seq<u32> {
    Seq::new(64 * uniforms.len(), |k: int| uniform_word(uniforms, k))
}

impl Default for Uniforms {
    /// The identity transform.
    fn default() -> (uniforms: Uniforms)
        ensures
            uniforms.transform@ == identity_transform(),
    {
        let transform: [u32; 16] = [ONE, 0, 0, 0, 0, ONE, 0, 0, 0, 0, ONE, 0, 0, 0, 0, ONE];
        assert(transform@ =~= identity_transform());
        Uniforms { transform }
    }
}

impl Uniforms {
    /// The record of a given transform.
    pub fn from(transform: [u32; 16]) -> (uniforms: Uniforms)
        ensures
            uniforms.transform == transform,
    {
        Uniforms { transform }
    }
}

/// The records as the words that go into the uniform buffer.
pub fn flatten_uniforms(uniforms: &Vec<Uniforms>) -> (words: Vec<u32>)
    ensures
        words@ == uniform_words(uniforms@),
{
    let mut words: Vec<u32> = Vec::new();
    let mut i: usize = 0;
    while i < uniforms.len()
        invariant
            i <= uniforms.len(),
            words@.len() == 64 * i,
            forall|k: int| 0 <= k < words@.len() ==> words@[k] == uniform_word(uniforms@, k),
        decreases uniforms.len() - i,
    {
        let transform = uniforms[i].transform;
        let mut j: usize = 0;
        while j < 64
            invariant
                i < uniforms.len(),
                j <= 64,
                transform == uniforms@[i as int].transform,
                words@.len() == 64 * i + j,
                forall|k: int| 0 <= k < words@.len() ==> words@[k] == uniform_word(uniforms@, k),
            decreases 64 - j,
        {
            let word: u32 = if j < 16 { transform[j] } else { 0 };
            proof {
                let k = 64 * i + j;
                assert(k / 64 == i && k % 64 == j);
            }
            words.push(word);
            j += 1;
        }
        i += 1;
    }
    assert(words@ =~= uniform_words(uniforms@));
    words
}

/// The bytes to upload at the start of the uniform buffer: every record in
/// turn, each `UNIFORM_STRIDE` bytes long, its transform first and zeros
/// after it.
pub fn pack_uniforms(uniforms: &Vec<Uniforms>) -> (bytes: Vec<u8>)
    ensures
        native_bytes(uniform_words(uniforms@), bytes@),
        bytes@.len() == uniform_offset(uniforms@.len()),
        forall|i: int| 0 <= i < bytes@.len() && i % 256 >= 64 ==> #[trigger] bytes@[i] == 0,
{
    let words = flatten_uniforms(uniforms);
    let raw = words_as_bytes(words.as_slice());
    proof {
        lemma_native_bytes(words@, raw@);
        assert forall|i: int| 0 <= i < raw@.len() && i % 256 >= 64 implies #[trigger] raw@[i]
            == 0 by {
            assert((i / 4) % 64 >= 16);
            assert(words@[i / 4] == uniform_word(uniforms@, i / 4));
        }
    }
    slice_to_vec(raw)
}

/// Records lie back to back at multiples of the stride, the stride is a
/// multiple of the alignment that the device asks for, and it leaves room for
/// the whole transform. So every record starts on an aligned boundary.
pub proof fn lemma_uniform_alignment(n: nat)
    ensures
        uniform_offset(n) == n * UNIFORM_STRIDE,
        uniform_offset(n + 1) == uniform_offset(n) + UNIFORM_STRIDE,
        UNIFORM_STRIDE % UNIFORM_ALIGNMENT == 0,
        UNIFORM_STRIDE >= TRANSFORM_SIZE,
        UNIFORM_STRIDE == 4 * UNIFORM_WORDS,
        uniform_offset(n) % (UNIFORM_ALIGNMENT as nat) == 0,
{
    assert(uniform_offset(n + 1) == uniform_offset(n) + UNIFORM_STRIDE) by (nonlinear_arith)
        requires
            uniform_offset(n + 1) == (n + 1) * 256,
            uniform_offset(n) == n * 256,
            UNIFORM_STRIDE == 256,
    ;
}

} // verus!
