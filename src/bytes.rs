//! Fixed-width integers as byte sequences.
use vstd::prelude::*;

verus! {

/// Little-endian bytes of a `u16`.
pub open spec fn u16_le(v: u16) -> Seq<u8> {
    seq![(v % 256) as u8, (v / 256) as u8]
}

/// Big-endian (network order) bytes of a `u16`.
pub open spec fn u16_be(v: u16) -> Seq<u8> {
    seq![(v / 256) as u8, (v % 256) as u8]
}

/// Little-endian bytes of a `u32`.
pub open spec fn u32_le(v: u32) -> Seq<u8> {
    seq![
        (v % 256) as u8,
        ((v / 256) % 256) as u8,
        ((v / 65536) % 256) as u8,
        (v / 16777216) as u8,
    ]
}

/// Little-endian bytes of a `u64`.
pub open spec fn u64_le(v: u64) -> Seq<u8> {
    u32_le((v % 0x1_0000_0000) as u32) + u32_le((v / 0x1_0000_0000) as u32)
}

/// The `u16` whose little-endian bytes start at `i`.
pub open spec fn le_u16(b: Seq<u8>, i: int) -> u16 {
    (b[i] + 256 * b[i + 1]) as u16
}

/// The `u16` whose big-endian bytes start at `i`.
pub open spec fn be_u16(b: Seq<u8>, i: int) -> u16 {
    (256 * b[i] + b[i + 1]) as u16
}

/// The `u32` whose little-endian bytes start at `i`.
pub open spec fn le_u32(b: Seq<u8>, i: int) -> u32 {
    (b[i] + 256 * b[i + 1] + 65536 * b[i + 2] + 16777216 * b[i + 3]) as u32
}

/// The `u64` whose little-endian bytes start at `i`.
pub open spec fn le_u64(b: Seq<u8>, i: int) -> u64 {
    (le_u32(b, i) + 0x1_0000_0000 * le_u32(b, i + 4)) as u64
}

pub proof fn lemma_u16_le_round_trip(v: u16)
    ensures
        le_u16(u16_le(v), 0) == v,
{
}

pub proof fn lemma_u16_be_round_trip(v: u16)
    ensures
        be_u16(u16_be(v), 0) == v,
{
}

proof fn lemma_split_u32(v: u32)
    ensures
        v == v % 256 + 256 * ((v / 256) % 256) + 65536 * ((v / 65536) % 256) + 16777216 * (v
            / 16777216),
        v / 16777216 < 256,
{
    let x = v as int;
    assert(x == x % 256 + 256 * (x / 256)) by (nonlinear_arith);
    assert(x / 256 == (x / 256) % 256 + 256 * (x / 65536)) by (nonlinear_arith)
        requires
            x >= 0,
    ;
    assert(x / 65536 == (x / 65536) % 256 + 256 * (x / 16777216)) by (nonlinear_arith)
        requires
            x >= 0,
    ;
}

proof fn lemma_join_u32(b0: u8, b1: u8, b2: u8, b3: u8)
    ensures
        ({
            let v = b0 + 256 * b1 + 65536 * b2 + 16777216 * b3;
            &&& 0 <= v <= u32::MAX
            &&& v % 256 == b0
            &&& (v / 256) % 256 == b1
            &&& (v / 65536) % 256 == b2
            &&& v / 16777216 == b3
        }),
{
    let v = b0 + 256 * b1 + 65536 * b2 + 16777216 * b3;
    assert(v % 256 == b0) by (nonlinear_arith)
        requires
            v == b0 + 256 * (b1 + 256 * b2 + 65536 * b3),
            0 <= b0 < 256,
            0 <= b1,
            0 <= b2,
            0 <= b3,
    ;
    assert(v / 256 == b1 + 256 * b2 + 65536 * b3) by (nonlinear_arith)
        requires
            v == b0 + 256 * (b1 + 256 * b2 + 65536 * b3),
            0 <= b0 < 256,
            0 <= b1,
            0 <= b2,
            0 <= b3,
    ;
    assert(v / 65536 == b2 + 256 * b3) by (nonlinear_arith)
        requires
            v == (b0 + 256 * b1) + 65536 * (b2 + 256 * b3),
            0 <= b0 < 256,
            0 <= b1 < 256,
            0 <= b2,
            0 <= b3,
    ;
    assert(v / 16777216 == b3) by (nonlinear_arith)
        requires
            v == (b0 + 256 * b1 + 65536 * b2) + 16777216 * b3,
            0 <= b0 < 256,
            0 <= b1 < 256,
            0 <= b2 < 256,
            0 <= b3,
    ;
    assert((b1 + 256 * b2 + 65536 * b3) % 256 == b1) by (nonlinear_arith)
        requires
            0 <= b1 < 256,
            0 <= b2,
            0 <= b3,
    ;
    assert((b2 + 256 * b3) % 256 == b2) by (nonlinear_arith)
        requires
            0 <= b2 < 256,
            0 <= b3,
    ;
}

pub proof fn lemma_u32_le_round_trip(v: u32)
    ensures
        le_u32(u32_le(v), 0) == v,
{
    lemma_split_u32(v);
}

pub proof fn lemma_u64_le_round_trip(v: u64)
    ensures
        le_u64(u64_le(v), 0) == v,
{
    let lo = (v % 0x1_0000_0000) as u32;
    let hi = (v / 0x1_0000_0000) as u32;
    let b = u64_le(v);
    lemma_u32_le_round_trip(lo);
    lemma_u32_le_round_trip(hi);
    assert(b.subrange(0, 4) =~= u32_le(lo));
    assert(b.subrange(4, 8) =~= u32_le(hi));
    assert(le_u32(b, 0) == le_u32(u32_le(lo), 0));
    assert(le_u32(b, 4) == le_u32(u32_le(hi), 0));
}

/// Decoding four bytes and encoding the value again gives the same bytes.
pub proof fn lemma_le_u32_bytes(b: Seq<u8>, i: int)
    requires
        0 <= i,
        i + 4 <= b.len(),
    ensures
        u32_le(le_u32(b, i)) == b.subrange(i, i + 4),
{
    lemma_join_u32(b[i], b[i + 1], b[i + 2], b[i + 3]);
    assert(u32_le(le_u32(b, i)) =~= b.subrange(i, i + 4));
}

/// Decoding eight bytes and encoding the value again gives the same bytes.
pub proof fn lemma_le_u64_bytes(b: Seq<u8>, i: int)
    requires
        0 <= i,
        i + 8 <= b.len(),
    ensures
        u64_le(le_u64(b, i)) == b.subrange(i, i + 8),
{
    let lo = le_u32(b, i);
    let hi = le_u32(b, i + 4);
    let v = le_u64(b, i);
    assert(v % 0x1_0000_0000 == lo && v / 0x1_0000_0000 == hi) by (nonlinear_arith)
        requires
            v == lo + 0x1_0000_0000 * hi,
            0 <= lo < 0x1_0000_0000,
            0 <= hi,
    ;
    lemma_le_u32_bytes(b, i);
    lemma_le_u32_bytes(b, i + 4);
    assert(u64_le(v) =~= b.subrange(i, i + 8));
}

/// Encodes `v` as little-endian bytes.
pub fn u16_to_le(v: u16) -> (r: Vec<u8>)
    ensures
        r@ == u16_le(v),
{
    let r = vec![(v % 256) as u8, (v / 256) as u8];
    assert(r@ =~= u16_le(v));
    r
}

/// Encodes `v` as little-endian bytes.
pub fn u32_to_le(v: u32) -> (r: Vec<u8>)
    ensures
        r@ == u32_le(v),
{
    let r = vec![
        (v % 256) as u8,
        ((v / 256) % 256) as u8,
        ((v / 65536) % 256) as u8,
        (v / 16777216) as u8,
    ];
    assert(r@ =~= u32_le(v));
    r
}

/// Encodes `v` as little-endian bytes.
pub fn u64_to_le(v: u64) -> (r: Vec<u8>)
    ensures
        r@ == u64_le(v),
{
    let mut r = u32_to_le((v % 0x1_0000_0000) as u32);
    let mut hi = u32_to_le((v / 0x1_0000_0000) as u32);
    r.append(&mut hi);
    assert(r@ =~= u64_le(v));
    r
}

/// Reads the little-endian `u32` at `i`.
pub fn read_le_u32(b: &[u8], i: usize) -> (r: u32)
    requires
        i + 4 <= b@.len(),
    ensures
        r == le_u32(b@, i as int),
{
    b[i] as u32 + 256 * (b[i + 1] as u32) + 65536 * (b[i + 2] as u32) + 16777216 * (b[i + 3] as u32)
}

/// Reads the little-endian `u64` at `i`.
pub fn read_le_u64(b: &[u8], i: usize) -> (r: u64)
    requires
        i + 8 <= b@.len(),
    ensures
        r == le_u64(b@, i as int),
{
    assert(i + 8 <= b.len());
    read_le_u32(b, i) as u64 + 0x1_0000_0000 * (read_le_u32(b, i + 4) as u64)
}

/// Reads the little-endian `u16` at `i`.
pub fn read_le_u16(b: &[u8], i: usize) -> (r: u16)
    requires
        i + 2 <= b@.len(),
    ensures
        r == le_u16(b@, i as int),
{
    b[i] as u16 + 256 * (b[i + 1] as u16)
}

/// Reads the big-endian `u16` at `i`.
pub fn read_be_u16(b: &[u8], i: usize) -> (r: u16)
    requires
        i + 2 <= b@.len(),
    ensures
        r == be_u16(b@, i as int),
{
    256 * (b[i] as u16) + b[i + 1] as u16
}

/// Copies `min(cap, src.len())` bytes of `src` to the front of `dst`;
/// returns how many were copied.
pub fn copy_prefix(dst: &mut [u8], src: &[u8], cap: usize) -> (n: usize)
    requires
        cap <= old(dst)@.len(),
    ensures
        n == if cap < src@.len() { cap } else { src@.len() as usize },
        final(dst)@.len() == old(dst)@.len(),
        forall|i: int| 0 <= i < n ==> final(dst)@[i] == src@[i],
        forall|i: int| n <= i < old(dst)@.len() ==> final(dst)@[i] == old(dst)@[i],
{
    let n = if cap < src.len() { cap } else { src.len() };
    let mut i: usize = 0;
    while i < n
        invariant
            n <= cap <= dst@.len() == old(dst)@.len(),
            n <= src@.len(),
            i <= n,
            forall|k: int| 0 <= k < i ==> dst@[k] == src@[k],
            forall|k: int| n <= k < dst@.len() ==> dst@[k] == old(dst)@[k],
        decreases n - i,
    {
        dst[i] = src[i];
        i = i + 1;
    }
    n
}

} // verus!
