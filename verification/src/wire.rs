//! Fixed-width little-endian integers, the number format of the binary
//! encodings and of the commitment.

use vstd::prelude::*;

verus! {

/// The four bytes of `v`, least significant first.
pub open spec fn u32_le(v: u32) -> Seq<u8> {
    let q1 = v / 256;
    let q2 = q1 / 256;
    let q3 = q2 / 256;
    seq![(v % 256) as u8, (q1 % 256) as u8, (q2 % 256) as u8, q3 as u8]
}

/// The number whose four bytes, least significant first, are `bytes`.
pub open spec fn u32_from_le(bytes: Seq<u8>) -> u32 {
    (bytes[0] + 256 * (bytes[1] + 256 * (bytes[2] + 256 * bytes[3]))) as u32
}

/// The eight bytes of `v`, least significant first.
pub open spec fn u64_le(v: u64) -> Seq<u8> {
    u32_le((v % 0x1_0000_0000) as u32) + u32_le((v / 0x1_0000_0000) as u32)
}

/// The number whose eight bytes, least significant first, are `bytes`.
pub open spec fn u64_from_le(bytes: Seq<u8>) -> u64 {
    (u32_from_le(bytes.subrange(0, 4)) + 0x1_0000_0000 * u32_from_le(bytes.subrange(4, 8))) as u64
}

/// The little-endian bytes of a 32-bit number are four, and give the number
/// back.
pub proof fn lemma_u32_le(v: u32)
    ensures
        u32_le(v).len() == 4,
        u32_from_le(u32_le(v)) == v,
{
}

/// Any four bytes are the little-endian bytes of the number they denote.
pub proof fn lemma_u32_from_le(bytes: Seq<u8>)
    requires
        bytes.len() == 4,
    ensures
        u32_le(u32_from_le(bytes)) == bytes,
{
    let v = u32_from_le(bytes);
    assert(v == bytes[0] + 256 * (bytes[1] + 256 * (bytes[2] + 256 * bytes[3])));
    assert(u32_le(v) =~= bytes);
}

/// The little-endian bytes of a 64-bit number are eight, and give the
/// number back.
pub proof fn lemma_u64_le(v: u64)
    ensures
        u64_le(v).len() == 8,
        u64_from_le(u64_le(v)) == v,
{
    let low = (v % 0x1_0000_0000) as u32;
    let high = (v / 0x1_0000_0000) as u32;
    lemma_u32_le(low);
    lemma_u32_le(high);
    assert(u64_le(v) == u32_le(low) + u32_le(high));
    assert(u64_le(v).subrange(0, 4) == u32_le(low));
    assert(u64_le(v).subrange(4, 8) == u32_le(high));
    assert(v == low + 0x1_0000_0000 * high) by (nonlinear_arith)
        requires
            low == v % 0x1_0000_0000,
            high == v / 0x1_0000_0000,
    ;
}

/// Any eight bytes are the little-endian bytes of the number they denote.
pub proof fn lemma_u64_from_le(bytes: Seq<u8>)
    requires
        bytes.len() == 8,
    ensures
        u64_le(u64_from_le(bytes)) == bytes,
{
    let low = u32_from_le(bytes.subrange(0, 4));
    let high = u32_from_le(bytes.subrange(4, 8));
    let v = u64_from_le(bytes);
    assert(v == low + 0x1_0000_0000 * high);
    assert(v % 0x1_0000_0000 == low && v / 0x1_0000_0000 == high) by (nonlinear_arith)
        requires
            v == low + 0x1_0000_0000 * high,
            0 <= low < 0x1_0000_0000,
            0 <= high,
    ;
    assert(u64_le(v) == u32_le(low) + u32_le(high));
    lemma_u32_from_le(bytes.subrange(0, 4));
    lemma_u32_from_le(bytes.subrange(4, 8));
    assert(bytes.subrange(0, 4) + bytes.subrange(4, 8) =~= bytes);
}

/// Appends the four bytes of `v`, least significant first.
pub fn push_u32_le(out: &mut Vec<u8>, v: u32)
    ensures
        final(out)@ == old(out)@ + u32_le(v),
{
    let q1: u32 = v / 256;
    let q2: u32 = q1 / 256;
    let q3: u32 = q2 / 256;
    out.push((v % 256) as u8);
    out.push((q1 % 256) as u8);
    out.push((q2 % 256) as u8);
    out.push(q3 as u8);
    assert(out@ =~= old(out)@ + u32_le(v));
}

/// Appends the eight bytes of `v`, least significant first.
pub fn push_u64_le(out: &mut Vec<u8>, v: u64)
    ensures
        final(out)@ == old(out)@ + u64_le(v),
{
    push_u32_le(out, (v % 0x1_0000_0000) as u32);
    push_u32_le(out, (v / 0x1_0000_0000) as u32);
    assert(out@ =~= old(out)@ + u64_le(v));
}

/// Appends the bytes of `bytes`.
pub fn push_bytes(out: &mut Vec<u8>, bytes: &[u8; 32])
    ensures
        final(out)@ == old(out)@ + bytes@,
{
    let mut i: usize = 0;
    while i < 32
        invariant
            0 <= i <= 32,
            out@ == old(out)@ + bytes@.take(i as int),
        decreases 32 - i,
    {
        out.push(bytes[i]);
        assert(bytes@.take(i + 1) == bytes@.take(i as int).push(bytes@[i as int]));
        i += 1;
    }
    assert(bytes@.take(32) == bytes@);
}

/// Compares two arrays of 32 bytes.
pub fn same_bytes(a: &[u8; 32], b: &[u8; 32]) -> (r: bool)
    ensures
        r == (a@ == b@),
        r == (*a == *b),
{
    let mut i: usize = 0;
    while i < 32
        invariant
            0 <= i <= 32,
            forall|j: int| 0 <= j < i ==> a@[j] == b@[j],
        decreases 32 - i,
    {
        if a[i] != b[i] {
            assert(a@[i as int] != b@[i as int]);
            return false;
        }
        i += 1;
    }
    assert(*a =~= *b);
    true
}

/// Reads the four bytes at `at` as a number, least significant byte first.
pub fn read_u32_le(bytes: &[u8], at: usize) -> (v: u32)
    requires
        at + 4 <= bytes.len(),
    ensures
        v == u32_from_le(bytes@.subrange(at as int, at + 4)),
{
    let b0: u32 = bytes[at] as u32;
    let b1: u32 = bytes[at + 1] as u32;
    let b2: u32 = bytes[at + 2] as u32;
    let b3: u32 = bytes[at + 3] as u32;
    b0 + 256 * (b1 + 256 * (b2 + 256 * b3))
}

/// Reads the eight bytes at `at` as a number, least significant byte first.
pub fn read_u64_le(bytes: &[u8], at: usize) -> (v: u64)
    requires
        at + 8 <= bytes.len(),
    ensures
        v == u64_from_le(bytes@.subrange(at as int, at + 8)),
{
    let low: u64 = read_u32_le(bytes, at) as u64;
    let high: u64 = read_u32_le(bytes, at + 4) as u64;
    proof {
        let part = bytes@.subrange(at as int, at + 8);
        assert(part.subrange(0, 4) == bytes@.subrange(at as int, at + 4));
        assert(part.subrange(4, 8) == bytes@.subrange(at + 4, at + 8));
    }
    low + 0x1_0000_0000 * high
}

/// Copies the 32 bytes at `at` into an array.
pub fn read_bytes(bytes: &[u8], at: usize) -> (r: [u8; 32])
    requires
        at + 32 <= bytes.len(),
    ensures
        r@ == bytes@.subrange(at as int, at + 32),
{
    let mut r: [u8; 32] = [0u8; 32];
    let mut i: usize = 0;
    while i < 32
        invariant
            0 <= i <= 32,
            at + 32 <= bytes.len(),
            forall|j: int| 0 <= j < i ==> r@[j] == bytes@[at + j],
        decreases 32 - i,
    {
        r[i] = bytes[at + i];
        i += 1;
    }
    assert(r@ =~= bytes@.subrange(at as int, at + 32));
    r
}

} // verus!
