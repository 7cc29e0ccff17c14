use vstd::prelude::*;

verus! {

/// The four bytes of a word, least significant first.
pub open spec fn le_bytes(w: u32) -> Seq<u8> {
    seq![
        (w & 0xff) as u8,
        ((w >> 8) & 0xff) as u8,
        ((w >> 16) & 0xff) as u8,
        ((w >> 24) & 0xff) as u8,
    ]
}

/// The four bytes of a word, most significant first.
pub open spec fn be_bytes(w: u32) -> Seq<u8> {
    seq![
        ((w >> 24) & 0xff) as u8,
        ((w >> 16) & 0xff) as u8,
        ((w >> 8) & 0xff) as u8,
        (w & 0xff) as u8,
    ]
}

/// Every word of `ws` in turn, each as its little-endian bytes.
pub open spec fn words_le(ws: Seq<u32>) -> Seq<u8> {
    Seq::new(4 * ws.len(), |i: int| le_bytes(ws[i / 4])[i % 4])
}

/// Every word of `ws` in turn, each as its big-endian bytes.
pub open spec fn words_be(ws: Seq<u32>) -> Seq<u8> {
    Seq::new(4 * ws.len(), |i: int| be_bytes(ws[i / 4])[i % 4])
}

/// The word whose little-endian bytes start at `at`.
pub open spec fn le_word_at(bytes: Seq<u8>, at: int) -> u32 {
    (bytes[at] as u32) | ((bytes[at + 1] as u32) << 8) | ((bytes[at + 2] as u32) << 16) | ((
    bytes[at + 3] as u32) << 24)
}

/// Reading back what `le_bytes` wrote gives the word again.
pub proof fn lemma_le_bytes_round_trip(w: u32)
    ensures
        le_bytes(w).len() == 4,
        le_word_at(le_bytes(w), 0) == w,
{
    assert((((w & 0xff) as u8) as u32) | ((((w >> 8) & 0xff) as u8) as u32) << 8 | ((((w >> 16)
        & 0xff) as u8) as u32) << 16 | ((((w >> 24) & 0xff) as u8) as u32) << 24 == w)
        by (bit_vector);
}

/// Two words with the same little-endian bytes are the same word.
pub proof fn lemma_le_bytes_injective(a: u32, b: u32)
    requires
        le_bytes(a) == le_bytes(b),
    ensures
        a == b,
{
    lemma_le_bytes_round_trip(a);
    lemma_le_bytes_round_trip(b);
}

/// Two word lists with the same little-endian encoding are the same list.
pub proof fn lemma_words_le_injective(a: Seq<u32>, b: Seq<u32>)
    requires
        words_le(a) == words_le(b),
    ensures
        a == b,
{
    assert(words_le(a).len() == 4 * a.len());
    assert(words_le(b).len() == 4 * b.len());
    assert(a.len() == b.len());
    assert forall|k: int| 0 <= k < a.len() implies a[k] == b[k] by {
        assert forall|j: int| 0 <= j < 4 implies le_bytes(a[k])[j] == le_bytes(b[k])[j] by {
            let i = 4 * k + j;
            assert(i / 4 == k && i % 4 == j);
            assert(words_le(a)[i] == le_bytes(a[k])[j]);
            assert(words_le(b)[i] == le_bytes(b[k])[j]);
        }
        assert(le_bytes(a[k]) =~= le_bytes(b[k]));
        lemma_le_bytes_injective(a[k], b[k]);
    }
    assert(a =~= b);
}

/// Appends the little-endian bytes of `w` to `out`.
pub fn push_le(out: &mut Vec<u8>, w: u32)
    ensures
        final(out)@ == old(out)@ + le_bytes(w),
{
    assert(w & 0xff < 256 && (w >> 8) & 0xff < 256 && (w >> 16) & 0xff < 256 && (w >> 24) & 0xff
        < 256) by (bit_vector);
    out.push((w & 0xff) as u8);
    out.push(((w >> 8) & 0xff) as u8);
    out.push(((w >> 16) & 0xff) as u8);
    out.push(((w >> 24) & 0xff) as u8);
    assert(out@ =~= old(out)@ + le_bytes(w));
}

/// The little-endian encoding of one word.
pub fn encode_word(w: u32) -> (out: Vec<u8>)
    ensures
        out@ == le_bytes(w),
        out@.len() == 4,
{
    let mut out: Vec<u8> = Vec::new();
    push_le(&mut out, w);
    assert(out@ =~= le_bytes(w));
    out
}

/// The little-endian encoding of a list of words: four bytes a word, in
/// the order of the list.
pub fn encode_words(ws: &Vec<u32>) -> (out: Vec<u8>)
    ensures
        out@ == words_le(ws@),
        out@.len() == 4 * ws@.len(),
{
    let mut out: Vec<u8> = Vec::new();
    let mut i: usize = 0;
    while i < ws.len()
        invariant
            0 <= i <= ws.len(),
            out@ == words_le(ws@.take(i as int)),
        decreases ws.len() - i,
    {
        let ghost before = out@;
        push_le(&mut out, ws[i]);
        proof {
            let prev = ws@.take(i as int);
            let next = ws@.take(i as int + 1);
            assert(next.len() == i + 1);
            assert forall|k: int| 0 <= k < 4 * (i + 1) implies out@[k] == words_le(next)[k] by {
                if k < 4 * i {
                    assert(out@[k] == before[k]);
                    assert(prev[k / 4] == next[k / 4]);
                } else {
                    assert(k / 4 == i as int);
                    assert(out@[k] == le_bytes(ws@[i as int])[k - 4 * i]);
                    assert(k % 4 == k - 4 * i);
                }
            }
            assert(out@ =~= words_le(next));
        }
        i += 1;
    }
    assert(ws@.take(ws.len() as int) =~= ws@);
    out
}

} // verus!
