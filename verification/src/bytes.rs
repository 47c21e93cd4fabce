//! Big-endian byte encoding helpers shared by the packet formats.

use vstd::prelude::*;

verus! {

/// The two bytes of `x` in network (big-endian) order.
pub open spec fn u16_be_spec(x: u16) -> Seq<u8> {
    seq![(x / 256) as u8, (x % 256) as u8]
}

/// The four bytes of `x` in network (big-endian) order.
pub open spec fn u32_be_spec(x: u32) -> Seq<u8> {
    seq![(x / 0x1000000) as u8, ((x / 0x10000) % 256) as u8, ((x / 256) % 256) as u8, (x % 256) as u8]
}

/// The value of two big-endian bytes.
pub open spec fn be16_spec(hi: u8, lo: u8) -> u16 {
    (hi as int * 256 + lo as int) as u16
}

/// The value of four big-endian bytes.
pub open spec fn be32_spec(a: u8, b: u8, c: u8, d: u8) -> u32 {
    (a as int * 0x1000000 + b as int * 0x10000 + c as int * 256 + d as int) as u32
}

/// Reading back the bytes of a `u16` gives the `u16`.
pub proof fn lemma_be16_roundtrip(x: u16)
    ensures
        be16_spec(u16_be_spec(x)[0], u16_be_spec(x)[1]) == x,
{
}

/// Reading back the bytes of a `u32` gives the `u32`.
pub proof fn lemma_be32_roundtrip(x: u32)
    ensures
        be32_spec(u32_be_spec(x)[0], u32_be_spec(x)[1], u32_be_spec(x)[2], u32_be_spec(x)[3]) == x,
{
}

/// The bytes of the value of two big-endian bytes are those bytes.
pub proof fn lemma_be16_split(hi: u8, lo: u8)
    ensures
        u16_be_spec(be16_spec(hi, lo)) == seq![hi, lo],
{
    let v = hi as int * 256 + lo as int;
    assert(v / 256 == hi && v % 256 == lo);
    assert(u16_be_spec(be16_spec(hi, lo)) =~= seq![hi, lo]);
}

/// The bytes of the value of four big-endian bytes are those bytes.
pub proof fn lemma_be32_split(a: u8, b: u8, c: u8, d: u8)
    ensures
        u32_be_spec(be32_spec(a, b, c, d)) == seq![a, b, c, d],
{
    let v = a as int * 0x1000000 + b as int * 0x10000 + c as int * 256 + d as int;
    assert(v / 0x1000000 == a && (v / 0x10000) % 256 == b && (v / 256) % 256 == c && v % 256 == d);
    assert(u32_be_spec(be32_spec(a, b, c, d)) =~= seq![a, b, c, d]);
}

/// Combine two big-endian bytes.
pub fn be16_chirho(hi: u8, lo: u8) -> (r: u16)
    ensures
        r == be16_spec(hi, lo),
        r as int == hi as int * 256 + lo as int,
{
    (hi as u16) * 256 + (lo as u16)
}

/// Combine four big-endian bytes.
pub fn be32_chirho(a: u8, b: u8, c: u8, d: u8) -> (r: u32)
    ensures
        r == be32_spec(a, b, c, d),
        r as int == a as int * 0x1000000 + b as int * 0x10000 + c as int * 256 + d as int,
{
    (a as u32) * 0x1000000 + (b as u32) * 0x10000 + (c as u32) * 256 + (d as u32)
}

/// Append the big-endian bytes of `x`.
pub fn push_u16_be_chirho(buf: &mut Vec<u8>, x: u16)
    ensures
        final(buf)@ == old(buf)@ + u16_be_spec(x),
{
    buf.push((x / 256) as u8);
    buf.push((x % 256) as u8);
}

/// Append the big-endian bytes of `x`.
pub fn push_u32_be_chirho(buf: &mut Vec<u8>, x: u32)
    ensures
        final(buf)@ == old(buf)@ + u32_be_spec(x),
{
    buf.push((x / 0x1000000) as u8);
    buf.push(((x / 0x10000) % 256) as u8);
    buf.push(((x / 256) % 256) as u8);
    buf.push((x % 256) as u8);
}

/// Overwrite bytes `at` and `at + 1` with the big-endian bytes of `x`.
pub fn set_u16_be_chirho(buf: &mut Vec<u8>, at: usize, x: u16)
    requires
        at + 2 <= old(buf)@.len(),
    ensures
        final(buf)@ == old(buf)@.update(at as int, u16_be_spec(x)[0]).update(at + 1, u16_be_spec(x)[1]),
{
    let _n = buf.len();
    buf.set(at, (x / 256) as u8);
    buf.set(at + 1, (x % 256) as u8);
}

/// Append every byte of `src`.
pub fn push_all_chirho(buf: &mut Vec<u8>, src: &[u8])
    ensures
        final(buf)@ == old(buf)@ + src@,
{
    let ghost start = buf@;
    let mut i: usize = 0;
    while i < src.len()
        invariant
            i <= src@.len(),
            buf@ == start + src@.subrange(0, i as int),
        decreases src@.len() - i,
    {
        buf.push(src[i]);
        i = i + 1;
        assert(src@.subrange(0, i as int) == src@.subrange(0, i - 1) + seq![src@[i - 1]]);
    }
    assert(src@.subrange(0, src@.len() as int) == src@);
}

/// Copy `src[start..end]` into a fresh vector.
pub fn copy_range_chirho(src: &[u8], start: usize, end: usize) -> (out: Vec<u8>)
    requires
        start <= end <= src@.len(),
    ensures
        out@ == src@.subrange(start as int, end as int),
{
    let mut out: Vec<u8> = Vec::new();
    let mut i: usize = start;
    while i < end
        invariant
            start <= i <= end <= src@.len(),
            out@ == src@.subrange(start as int, i as int),
        decreases end - i,
    {
        out.push(src[i]);
        i = i + 1;
        assert(src@.subrange(start as int, i as int) == src@.subrange(start as int, i - 1) + seq![src@[i - 1]]);
    }
    out
}

} // verus!
