//! Vectors and matrices of single-precision numbers, held as bit patterns.
//! Nothing here computes with the numbers; they are stored and laid out.

use crate::words::{lemma_words_bytes_push, push_word, words_bytes};
use vstd::prelude::*;

verus! {

/// 0.0 as a single-precision bit pattern.
pub const ZERO: u32 = 0;

/// 1.0 as a single-precision bit pattern.
pub const ONE: u32 = 0x3f80_0000;

/// -1.0 as a single-precision bit pattern.
pub const MINUS_ONE: u32 = 0xbf80_0000;

/// Three numbers.
#[derive(Clone, Copy, Debug, PartialEq, Eq, Structural)]
pub struct Vector3 {
    pub x: u32,
    pub y: u32,
    pub z: u32,
}

impl Vector3 {
    /// The three words, in the order x, y, z.
    pub open spec fn words(self) -> Seq<u32> {
        seq![self.x, self.y, self.z]
    }

    /// The vector with these components.
    pub fn new(x: u32, y: u32, z: u32) -> (v: Vector3)
        ensures
            v == (Vector3 { x, y, z }),
    {
        Vector3 { x, y, z }
    }
}

/// Four numbers.
#[derive(Clone, Copy, Debug, PartialEq, Eq, Structural)]
pub struct Vector4 {
    pub x: u32,
    pub y: u32,
    pub z: u32,
    pub w: u32,
}

impl Vector4 {
    /// The four words, in the order x, y, z, w.
    pub open spec fn words(self) -> Seq<u32> {
        seq![self.x, self.y, self.z, self.w]
    }
}

/// A matrix of four columns of four numbers.
#[derive(Clone, Copy, Debug, PartialEq, Eq, Structural)]
pub struct Matrix4 {
    pub x: Vector4,
    pub y: Vector4,
    pub z: Vector4,
    pub w: Vector4,
}

impl Matrix4 {
    /// The sixteen words, column after column.
    pub open spec fn words(self) -> Seq<u32> {
        self.x.words() + self.y.words() + self.z.words() + self.w.words()
    }

    /// The matrix with ones on the diagonal and zeros elsewhere.
    pub open spec fn identity_spec() -> Matrix4 {
        Matrix4 {
            x: Vector4 { x: ONE, y: ZERO, z: ZERO, w: ZERO },
            y: Vector4 { x: ZERO, y: ONE, z: ZERO, w: ZERO },
            z: Vector4 { x: ZERO, y: ZERO, z: ONE, w: ZERO },
            w: Vector4 { x: ZERO, y: ZERO, z: ZERO, w: ONE },
        }
    }

    /// The matrix with ones on the diagonal and zeros elsewhere.
    #[verifier::when_used_as_spec(identity_spec)]
    pub fn identity() -> (m: Matrix4)
        ensures
            m == Matrix4::identity_spec(),
    {
        Matrix4 {
            x: Vector4 { x: ONE, y: ZERO, z: ZERO, w: ZERO },
            y: Vector4 { x: ZERO, y: ONE, z: ZERO, w: ZERO },
            z: Vector4 { x: ZERO, y: ZERO, z: ONE, w: ZERO },
            w: Vector4 { x: ZERO, y: ZERO, z: ZERO, w: ONE },
        }
    }
}

/// Appends the bytes of the three words of `v`.
pub fn push_vector3(bytes: &mut Vec<u8>, v: Vector3)
    ensures
        final(bytes)@ == old(bytes)@ + words_bytes(v.words()),
{
    push_word(bytes, v.x);
    push_word(bytes, v.y);
    push_word(bytes, v.z);
    proof {
        let e = Seq::<u32>::empty();
        lemma_words_bytes_push(e, v.x);
        lemma_words_bytes_push(e.push(v.x), v.y);
        lemma_words_bytes_push(e.push(v.x).push(v.y), v.z);
        assert(e.push(v.x).push(v.y).push(v.z) =~= v.words());
        assert(bytes@ =~= old(bytes)@ + words_bytes(v.words()));
    }
}

/// Appends the bytes of the four words of `v`.
pub fn push_vector4(bytes: &mut Vec<u8>, v: Vector4)
    ensures
        final(bytes)@ == old(bytes)@ + words_bytes(v.words()),
{
    push_word(bytes, v.x);
    push_word(bytes, v.y);
    push_word(bytes, v.z);
    push_word(bytes, v.w);
    proof {
        let e = Seq::<u32>::empty();
        lemma_words_bytes_push(e, v.x);
        lemma_words_bytes_push(e.push(v.x), v.y);
        lemma_words_bytes_push(e.push(v.x).push(v.y), v.z);
        lemma_words_bytes_push(e.push(v.x).push(v.y).push(v.z), v.w);
        assert(e.push(v.x).push(v.y).push(v.z).push(v.w) =~= v.words());
        assert(bytes@ =~= old(bytes)@ + words_bytes(v.words()));
    }
}

/// Appends the bytes of the sixteen words of `m`.
pub fn push_matrix4(bytes: &mut Vec<u8>, m: Matrix4)
    ensures
        final(bytes)@ == old(bytes)@ + words_bytes(m.words()),
{
    push_vector4(bytes, m.x);
    push_vector4(bytes, m.y);
    push_vector4(bytes, m.z);
    push_vector4(bytes, m.w);
    proof {
        crate::words::lemma_words_bytes_concat(m.x.words(), m.y.words());
        crate::words::lemma_words_bytes_concat(m.x.words() + m.y.words(), m.z.words());
        crate::words::lemma_words_bytes_concat(
            m.x.words() + m.y.words() + m.z.words(),
            m.w.words(),
        );
        assert(bytes@ =~= old(bytes)@ + words_bytes(m.words()));
    }
}

} // verus!
