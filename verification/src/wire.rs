//! Little-endian integer encoding and decoding on byte sequences.
use vstd::prelude::*;

verus! {

/// The little-endian bytes of a `u16`.
pub open spec fn le_u16(v: u16) -> Seq<u8> {
    seq![(v % 256) as u8, (v / 256) as u8]
}

/// The little-endian bytes of an `i16` (two's complement).
pub open spec fn le_i16(v: i16) -> Seq<u8> {
    le_u16(v as u16)
}

/// The little-endian bytes of a `u32`.
pub open spec fn le_u32(v: u32) -> Seq<u8> {
    seq![
        (v % 256) as u8,
        ((v / 256) % 256) as u8,
        ((v / 65536) % 256) as u8,
        (v / 16777216) as u8,
    ]
}

/// The little-endian bytes of an `i32` (two's complement).
pub open spec fn le_i32(v: i32) -> Seq<u8> {
    le_u32(v as u32)
}

/// The `u16` stored little-endian at position `i` of `s`.
pub open spec fn get_u16(s: Seq<u8>, i: int) -> u16 {
    (s[i] + 256 * s[i + 1]) as u16
}

/// The `i16` stored little-endian at position `i` of `s`.
pub open spec fn get_i16(s: Seq<u8>, i: int) -> i16 {
    get_u16(s, i) as i16
}

/// The `u32` stored little-endian at position `i` of `s`.
pub open spec fn get_u32(s: Seq<u8>, i: int) -> u32 {
    (s[i] + 256 * s[i + 1] + 65536 * s[i + 2] + 16777216 * s[i + 3]) as u32
}

/// The `i32` stored little-endian at position `i` of `s`.
pub open spec fn get_i32(s: Seq<u8>, i: int) -> i32 {
    get_u32(s, i) as i32
}

/// Decoding the encoding of a `u16` gives it back.
pub proof fn lemma_u16_roundtrip(v: u16, pre: Seq<u8>, post: Seq<u8>)
    ensures
        get_u16(pre + le_u16(v) + post, pre.len() as int) == v,
{
    let s = pre + le_u16(v) + post;
    assert(s[pre.len() as int] == (v % 256) as u8);
    assert(s[pre.len() as int + 1] == (v / 256) as u8);
}

/// Decoding the encoding of an `i16` gives it back.
pub proof fn lemma_i16_roundtrip(v: i16, pre: Seq<u8>, post: Seq<u8>)
    ensures
        get_i16(pre + le_i16(v) + post, pre.len() as int) == v,
{
    lemma_u16_roundtrip(v as u16, pre, post);
    assert((v as u16) as i16 == v) by (bit_vector);
}

/// Decoding the encoding of a `u32` gives it back.
pub proof fn lemma_u32_roundtrip(v: u32, pre: Seq<u8>, post: Seq<u8>)
    ensures
        get_u32(pre + le_u32(v) + post, pre.len() as int) == v,
{
    let s = pre + le_u32(v) + post;
    let n = pre.len() as int;
    assert(s[n] == (v % 256) as u8);
    assert(s[n + 1] == ((v / 256) % 256) as u8);
    assert(s[n + 2] == ((v / 65536) % 256) as u8);
    assert(s[n + 3] == (v / 16777216) as u8);
}

/// Decoding the encoding of an `i32` gives it back.
pub proof fn lemma_i32_roundtrip(v: i32, pre: Seq<u8>, post: Seq<u8>)
    ensures
        get_i32(pre + le_i32(v) + post, pre.len() as int) == v,
{
    lemma_u32_roundtrip(v as u32, pre, post);
    assert((v as u32) as i32 == v) by (bit_vector);
}

/// A little-endian `i32` inside a byte string reads the same once the string is embedded.
pub proof fn lemma_get_i32_shift(pre: Seq<u8>, s: Seq<u8>, post: Seq<u8>, off: int)
    requires
        0 <= off,
        off + 4 <= s.len(),
    ensures
        get_i32(pre + s + post, pre.len() + off) == get_i32(s, off),
{
    let t = pre + s + post;
    let n = pre.len() as int;
    assert(t[n + off] == s[off]);
    assert(t[n + off + 1] == s[off + 1]);
    assert(t[n + off + 2] == s[off + 2]);
    assert(t[n + off + 3] == s[off + 3]);
}

/// A little-endian `i16` inside a byte string reads the same once the string is embedded.
pub proof fn lemma_get_i16_shift(pre: Seq<u8>, s: Seq<u8>, post: Seq<u8>, off: int)
    requires
        0 <= off,
        off + 2 <= s.len(),
    ensures
        get_i16(pre + s + post, pre.len() + off) == get_i16(s, off),
{
    let t = pre + s + post;
    let n = pre.len() as int;
    assert(t[n + off] == s[off]);
    assert(t[n + off + 1] == s[off + 1]);
}

/// Appends the little-endian bytes of `v`.
pub fn push_u16(out: &mut Vec<u8>, v: u16)
    ensures
        final(out)@ == old(out)@ + le_u16(v),
{
    let lo = (v & 0xff) as u8;
    let hi = (v >> 8) as u8;
    assert(lo == v % 256 && hi == v / 256) by (bit_vector)
        requires
            lo == (v & 0xff) as u8,
            hi == (v >> 8) as u8,
    ;
    out.push(lo);
    out.push(hi);
}

/// Appends the little-endian bytes of `v`.
pub fn push_i16(out: &mut Vec<u8>, v: i16)
    ensures
        final(out)@ == old(out)@ + le_i16(v),
{
    push_u16(out, v as u16);
}

/// Appends the little-endian bytes of `v`.
pub fn push_u32(out: &mut Vec<u8>, v: u32)
    ensures
        final(out)@ == old(out)@ + le_u32(v),
{
    let b0 = (v & 0xff) as u8;
    let b1 = ((v >> 8) & 0xff) as u8;
    let b2 = ((v >> 16) & 0xff) as u8;
    let b3 = (v >> 24) as u8;
    assert(b0 == v % 256 && b1 == (v / 256) % 256 && b2 == (v / 65536) % 256 && b3 == v
        / 16777216) by (bit_vector)
        requires
            b0 == (v & 0xff) as u8,
            b1 == ((v >> 8) & 0xff) as u8,
            b2 == ((v >> 16) & 0xff) as u8,
            b3 == (v >> 24) as u8,
    ;
    out.push(b0);
    out.push(b1);
    out.push(b2);
    out.push(b3);
}

/// Appends the little-endian bytes of `v`.
pub fn push_i32(out: &mut Vec<u8>, v: i32)
    ensures
        final(out)@ == old(out)@ + le_i32(v),
{
    push_u32(out, v as u32);
}

/// Reads the `u16` stored little-endian at position `i`.
pub fn read_u16(data: &[u8], i: usize) -> (r: u16)
    requires
        i + 2 <= data@.len(),
    ensures
        r == get_u16(data@, i as int),
{
    let b0 = data[i];
    let b1 = data[i + 1];
    let r = (b0 as u16) | ((b1 as u16) << 8);
    assert(r == b0 + 256 * b1) by (bit_vector)
        requires
            r == (b0 as u16) | ((b1 as u16) << 8),
    ;
    r
}

/// Reads the `i16` stored little-endian at position `i`.
pub fn read_i16(data: &[u8], i: usize) -> (r: i16)
    requires
        i + 2 <= data@.len(),
    ensures
        r == get_i16(data@, i as int),
{
    read_u16(data, i) as i16
}

/// Reads the `u32` stored little-endian at position `i`.
pub fn read_u32(data: &[u8], i: usize) -> (r: u32)
    requires
        i + 4 <= data@.len(),
    ensures
        r == get_u32(data@, i as int),
{
    let b0 = data[i];
    let b1 = data[i + 1];
    let b2 = data[i + 2];
    let b3 = data[i + 3];
    let r = (b0 as u32) | ((b1 as u32) << 8) | ((b2 as u32) << 16) | ((b3 as u32) << 24);
    assert(r == b0 + 256 * b1 + 65536 * b2 + 16777216 * b3) by (bit_vector)
        requires
            r == (b0 as u32) | ((b1 as u32) << 8) | ((b2 as u32) << 16) | ((b3 as u32) << 24),
    ;
    r
}

/// Reads the `i32` stored little-endian at position `i`.
pub fn read_i32(data: &[u8], i: usize) -> (r: i32)
    requires
        i + 4 <= data@.len(),
    ensures
        r == get_i32(data@, i as int),
{
    read_u32(data, i) as i32
}

/// Copies `data[start..end]` into a new vector.
pub fn copy_range(data: &[u8], start: usize, end: usize) -> (r: Vec<u8>)
    requires
        start <= end <= data@.len(),
    ensures
        r@ == data@.subrange(start as int, end as int),
{
    let mut r: Vec<u8> = Vec::new();
    let mut i = start;
    while i < end
        invariant
            start <= i <= end <= data@.len(),
            r@ == data@.subrange(start as int, i as int),
        decreases end - i,
    {
        r.push(data[i]);
        i = i + 1;
    }
    r
}

/// Appends every byte of `src` to `out`.
pub fn append_bytes(out: &mut Vec<u8>, src: &[u8])
    ensures
        final(out)@ == old(out)@ + src@,
{
    let mut i: usize = 0;
    while i < src.len()
        invariant
            i <= src@.len(),
            out@ == old(out)@ + src@.subrange(0, i as int),
        decreases src@.len() - i,
    {
        out.push(src[i]);
        i = i + 1;
    }
    assert(src@.subrange(0, src@.len() as int) == src@);
}

} // verus!
