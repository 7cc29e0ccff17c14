use vstd::prelude::*;
use crate::scalar::{Scalar, ZERO_BITS, HALF_BITS, ONE_BITS};
use crate::encoding::{words_le, encode_words, lemma_words_le_injective};

verus! {

/// Number of bytes in the payload of one 4x4 matrix.
pub const MATRIX_BYTES: usize = 64;

#[derive(Clone, Copy, Debug, PartialEq, Eq, Structural)]
pub struct Vec2 {
    pub x: Scalar,
    pub y: Scalar,
}

#[derive(Clone, Copy, Debug, PartialEq, Eq, Structural)]
pub struct Vec3 {
    pub x: Scalar,
    pub y: Scalar,
    pub z: Scalar,
}

#[derive(Clone, Copy, Debug, PartialEq, Eq, Structural)]
pub struct Vec4 {
    pub x: Scalar,
    pub y: Scalar,
    pub z: Scalar,
    pub w: Scalar,
}

/// A 4x4 matrix held by columns: `x` is the first column, `w` the last.
#[derive(Clone, Copy, Debug, PartialEq, Eq, Structural)]
pub struct Mat4 {
    pub x: Vec4,
    pub y: Vec4,
    pub z: Vec4,
    pub w: Vec4,
}

impl Vec4 {
    pub open spec fn words(self) -> Seq<u32> {
        seq![self.x.bits, self.y.bits, self.z.bits, self.w.bits]
    }

    pub fn from_bits(x: u32, y: u32, z: u32, w: u32) -> (v: Vec4)
        ensures
            v.words() == seq![x, y, z, w],
    {
        Vec4 {
            x: Scalar::from_bits(x),
            y: Scalar::from_bits(y),
            z: Scalar::from_bits(z),
            w: Scalar::from_bits(w),
        }
    }
}

impl Mat4 {
    /// The sixteen entries, column after column.
    pub open spec fn words(self) -> Seq<u32> {
        self.x.words() + self.y.words() + self.z.words() + self.w.words()
    }

    /// The payload as it goes into a uniform buffer: the sixteen entries
    /// column after column, each as four little-endian bytes.
    pub open spec fn bytes(self) -> Seq<u8> {
        words_le(self.words())
    }

    pub open spec fn identity_spec() -> Mat4 {
        Mat4 {
            x: Vec4 {
                x: Scalar { bits: ONE_BITS },
                y: Scalar { bits: ZERO_BITS },
                z: Scalar { bits: ZERO_BITS },
                w: Scalar { bits: ZERO_BITS },
            },
            y: Vec4 {
                x: Scalar { bits: ZERO_BITS },
                y: Scalar { bits: ONE_BITS },
                z: Scalar { bits: ZERO_BITS },
                w: Scalar { bits: ZERO_BITS },
            },
            z: Vec4 {
                x: Scalar { bits: ZERO_BITS },
                y: Scalar { bits: ZERO_BITS },
                z: Scalar { bits: ONE_BITS },
                w: Scalar { bits: ZERO_BITS },
            },
            w: Vec4 {
                x: Scalar { bits: ZERO_BITS },
                y: Scalar { bits: ZERO_BITS },
                z: Scalar { bits: ZERO_BITS },
                w: Scalar { bits: ONE_BITS },
            },
        }
    }

    /// The fixed matrix that a projection is multiplied by from the left
    /// to take depth from the range -1..1 to the range 0..1: x, y and w
    /// stay, and depth becomes `0.5 * z + 0.5 * w`. Its third column is
    /// (0, 0, 0.5, 0) and its fourth (0, 0, 0.5, 1).
    pub open spec fn depth_correction_spec() -> Mat4 {
        Mat4 {
            x: Vec4 {
                x: Scalar { bits: ONE_BITS },
                y: Scalar { bits: ZERO_BITS },
                z: Scalar { bits: ZERO_BITS },
                w: Scalar { bits: ZERO_BITS },
            },
            y: Vec4 {
                x: Scalar { bits: ZERO_BITS },
                y: Scalar { bits: ONE_BITS },
                z: Scalar { bits: ZERO_BITS },
                w: Scalar { bits: ZERO_BITS },
            },
            z: Vec4 {
                x: Scalar { bits: ZERO_BITS },
                y: Scalar { bits: ZERO_BITS },
                z: Scalar { bits: HALF_BITS },
                w: Scalar { bits: ZERO_BITS },
            },
            w: Vec4 {
                x: Scalar { bits: ZERO_BITS },
                y: Scalar { bits: ZERO_BITS },
                z: Scalar { bits: HALF_BITS },
                w: Scalar { bits: ONE_BITS },
            },
        }
    }

    pub fn identity() -> (m: Mat4)
        ensures
            m == Mat4::identity_spec(),
    {
        Mat4 {
            x: Vec4::from_bits(ONE_BITS, ZERO_BITS, ZERO_BITS, ZERO_BITS),
            y: Vec4::from_bits(ZERO_BITS, ONE_BITS, ZERO_BITS, ZERO_BITS),
            z: Vec4::from_bits(ZERO_BITS, ZERO_BITS, ONE_BITS, ZERO_BITS),
            w: Vec4::from_bits(ZERO_BITS, ZERO_BITS, ZERO_BITS, ONE_BITS),
        }
    }

    pub fn depth_correction() -> (m: Mat4)
        ensures
            m == Mat4::depth_correction_spec(),
    {
        Mat4 {
            x: Vec4::from_bits(ONE_BITS, ZERO_BITS, ZERO_BITS, ZERO_BITS),
            y: Vec4::from_bits(ZERO_BITS, ONE_BITS, ZERO_BITS, ZERO_BITS),
            z: Vec4::from_bits(ZERO_BITS, ZERO_BITS, HALF_BITS, ZERO_BITS),
            w: Vec4::from_bits(ZERO_BITS, ZERO_BITS, HALF_BITS, ONE_BITS),
        }
    }

    /// The sixteen entries as bits, column after column.
    pub fn to_words(&self) -> (ws: Vec<u32>)
        ensures
            ws@ == self.words(),
            ws@.len() == 16,
    {
        let mut ws: Vec<u32> = Vec::new();
        ws.push(self.x.x.bits);
        ws.push(self.x.y.bits);
        ws.push(self.x.z.bits);
        ws.push(self.x.w.bits);
        ws.push(self.y.x.bits);
        ws.push(self.y.y.bits);
        ws.push(self.y.z.bits);
        ws.push(self.y.w.bits);
        ws.push(self.z.x.bits);
        ws.push(self.z.y.bits);
        ws.push(self.z.z.bits);
        ws.push(self.z.w.bits);
        ws.push(self.w.x.bits);
        ws.push(self.w.y.bits);
        ws.push(self.w.z.bits);
        ws.push(self.w.w.bits);
        assert(ws@ =~= self.words());
        ws
    }

    /// The payload of the matrix, 64 bytes.
    pub fn to_bytes(&self) -> (out: Vec<u8>)
        ensures
            out@ == self.bytes(),
            out@.len() == MATRIX_BYTES,
    {
        let ws = self.to_words();
        encode_words(&ws)
    }
}

/// The entries of all matrices in order, sixteen to a matrix.
pub open spec fn matrices_words(ms: Seq<Mat4>) -> Seq<u32> {
    Seq::new(16 * ms.len(), |i: int| ms[i / 16].words()[i % 16])
}

/// The contents of a buffer of matrices: the payloads of the matrices one
/// after the other, 64 bytes a matrix.
pub fn encode_matrices(ms: &Vec<Mat4>) -> (out: Vec<u8>)
    ensures
        out@ == words_le(matrices_words(ms@)),
        out@.len() == MATRIX_BYTES * ms@.len(),
{
    let mut words: Vec<u32> = Vec::new();
    let mut i: usize = 0;
    while i < ms.len()
        invariant
            0 <= i <= ms@.len(),
            words@ == matrices_words(ms@.take(i as int)),
        decreases ms@.len() - i,
    {
        let ghost before = words@;
        let mut entries = ms[i].to_words();
        words.append(&mut entries);
        proof {
            let prev = ms@.take(i as int);
            let next = ms@.take(i as int + 1);
            assert(words@ == before + ms@[i as int].words());
            assert forall|k: int| 0 <= k < 16 * (i + 1) implies words@[k] == matrices_words(
                next,
            )[k] by {
                if k < 16 * i {
                    assert(prev[k / 16] == next[k / 16]);
                } else {
                    assert(k / 16 == i as int);
                    assert(k % 16 == k - 16 * i);
                }
            }
            assert(words@ =~= matrices_words(next));
        }
        i += 1;
    }
    assert(ms@.take(ms@.len() as int) =~= ms@);
    encode_words(&words)
}

/// Every payload is 64 bytes long, and two matrices that differ in any
/// entry have different payloads.
pub proof fn lemma_payload_tells_matrices_apart(a: Mat4, b: Mat4)
    ensures
        a.bytes().len() == 64,
        b.bytes().len() == 64,
        a != b ==> a.bytes() != b.bytes(),
{
    assert(a.words().len() == 16);
    assert(b.words().len() == 16);
    if a.bytes() == b.bytes() {
        lemma_words_le_injective(a.words(), b.words());
        let wa = a.words();
        let wb = b.words();
        assert(wa[0] == wb[0] && wa[1] == wb[1] && wa[2] == wb[2] && wa[3] == wb[3]);
        assert(wa[4] == wb[4] && wa[5] == wb[5] && wa[6] == wb[6] && wa[7] == wb[7]);
        assert(wa[8] == wb[8] && wa[9] == wb[9] && wa[10] == wb[10] && wa[11] == wb[11]);
        assert(wa[12] == wb[12] && wa[13] == wb[13] && wa[14] == wb[14] && wa[15] == wb[15]);
        assert(a.x.x.bits == wa[0] && a.x.y.bits == wa[1] && a.x.z.bits == wa[2] && a.x.w.bits
            == wa[3]);
        assert(a.y.x.bits == wa[4] && a.y.y.bits == wa[5] && a.y.z.bits == wa[6] && a.y.w.bits
            == wa[7]);
        assert(a.z.x.bits == wa[8] && a.z.y.bits == wa[9] && a.z.z.bits == wa[10] && a.z.w.bits
            == wa[11]);
        assert(a.w.x.bits == wa[12] && a.w.y.bits == wa[13] && a.w.z.bits == wa[14]
            && a.w.w.bits == wa[15]);
        assert(b.x.x.bits == wb[0] && b.x.y.bits == wb[1] && b.x.z.bits == wb[2] && b.x.w.bits
            == wb[3]);
        assert(b.y.x.bits == wb[4] && b.y.y.bits == wb[5] && b.y.z.bits == wb[6] && b.y.w.bits
            == wb[7]);
        assert(b.z.x.bits == wb[8] && b.z.y.bits == wb[9] && b.z.z.bits == wb[10] && b.z.w.bits
            == wb[11]);
        assert(b.w.x.bits == wb[12] && b.w.y.bits == wb[13] && b.w.z.bits == wb[14]
            && b.w.w.bits == wb[15]);
        assert(a == b);
    }
}

} // verus!
