//! Big-endian byte encodings for the fixed-width record schema, and small
//! byte-buffer helpers shared by the codec and the batching engine.

use vstd::prelude::*;

verus! {

/// Big-endian bytes of a u16.
#[verifier::opaque]
pub open spec fn be16(x: u16) -> Seq<u8> {
    seq![(x / 0x100) as u8, (x % 0x100) as u8]
}

/// Big-endian bytes of a u32.
#[verifier::opaque]
pub open spec fn be32(x: u32) -> Seq<u8> {
    seq![
        ((x / 0x1000000) % 0x100) as u8,
        ((x / 0x10000) % 0x100) as u8,
        ((x / 0x100) % 0x100) as u8,
        (x % 0x100) as u8,
    ]
}

/// Big-endian bytes of a u64: the high word then the low word.
#[verifier::opaque]
pub open spec fn be64(x: u64) -> Seq<u8> {
    be32((x / 0x100000000) as u32) + be32((x % 0x100000000) as u32)
}

/// The big-endian u16 read from two bytes.
pub open spec fn read16(s: Seq<u8>, i: int) -> u32
    recommends
        0 <= i,
        i + 2 <= s.len(),
{
    (((s[i] as int) * 0x100 + (s[i + 1] as int)) as u32)
}

/// The big-endian u32 read from four bytes.
pub open spec fn read32(s: Seq<u8>, i: int) -> u32
    recommends
        0 <= i,
        i + 4 <= s.len(),
{
    (((s[i] as int) * 0x1000000 + (s[i + 1] as int) * 0x10000 + (s[i + 2] as int) * 0x100 + (
    s[i + 3] as int)) as u32)
}

pub broadcast proof fn lemma_be16_len(x: u16)
    ensures
        (#[trigger] be16(x)).len() == 2,
{
    reveal(be16);
}

pub broadcast proof fn lemma_be32_len(x: u32)
    ensures
        (#[trigger] be32(x)).len() == 4,
{
    reveal(be32);
}

pub broadcast proof fn lemma_be64_len(x: u64)
    ensures
        (#[trigger] be64(x)).len() == 8,
{
    reveal(be64);
    lemma_be32_len((x / 0x100000000) as u32);
    lemma_be32_len((x % 0x100000000) as u32);
}

/// Append the big-endian bytes of a u16.
pub fn push_be16(v: &mut Vec<u8>, x: u16)
    ensures
        final(v)@ == old(v)@ + be16(x),
{
    proof {
        reveal(be16);
    }
    assert(x / 0x100 < 0x100) by (nonlinear_arith);
    v.push((x / 0x100) as u8);
    v.push((x % 0x100) as u8);
    assert(v@ =~= old(v)@ + be16(x));
}

/// Append the big-endian bytes of a u32.
pub fn push_be32(v: &mut Vec<u8>, x: u32)
    ensures
        final(v)@ == old(v)@ + be32(x),
{
    proof {
        reveal(be32);
    }
    v.push(((x / 0x1000000) % 0x100) as u8);
    v.push(((x / 0x10000) % 0x100) as u8);
    v.push(((x / 0x100) % 0x100) as u8);
    v.push((x % 0x100) as u8);
    assert(v@ =~= old(v)@ + be32(x));
}

/// Append the big-endian bytes of a u64.
pub fn push_be64(v: &mut Vec<u8>, x: u64)
    ensures
        final(v)@ == old(v)@ + be64(x),
{
    proof {
        reveal(be64);
    }
    assert(x / 0x100000000 < 0x100000000) by (nonlinear_arith);
    push_be32(v, (x / 0x100000000) as u32);
    push_be32(v, (x % 0x100000000) as u32);
    assert(v@ =~= old(v)@ + be64(x));
}

/// Append every byte of `src` to `dst`.
pub fn append_bytes(dst: &mut Vec<u8>, src: &[u8])
    ensures
        final(dst)@ == old(dst)@ + src@,
{
    let n = src.len();
    let mut i: usize = 0;
    while i < n
        invariant
            i <= n,
            n == src@.len(),
            dst@ == old(dst)@ + src@.take(i as int),
        decreases n - i,
    {
        dst.push(src[i]);
        i = i + 1;
        assert(dst@ =~= old(dst)@ + src@.take(i as int));
    }
    assert(dst@ =~= old(dst)@ + src@);
}

/// The views of a sequence of byte vectors.
pub open spec fn views_of(ms: Seq<Vec<u8>>) -> Seq<Seq<u8>> {
    ms.map_values(|m: Vec<u8>| m@)
}

/// The concatenation of a sequence of byte strings, in order.
pub open spec fn concat_bytes(recs: Seq<Seq<u8>>) -> Seq<u8>
    decreases recs.len(),
{
    if recs.len() == 0 {
        Seq::empty()
    } else {
        concat_bytes(recs.drop_last()) + recs.last()
    }
}

pub proof fn lemma_concat_bytes_take_step(recs: Seq<Seq<u8>>, i: int)
    requires
        0 <= i < recs.len(),
    ensures
        concat_bytes(recs.take(i + 1)) == concat_bytes(recs.take(i)) + recs[i],
{
    assert(recs.take(i + 1).drop_last() =~= recs.take(i));
    assert(recs.take(i + 1).last() == recs[i]);
}

} // verus!
