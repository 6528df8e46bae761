//! Safe reinterpretation of fixed-width values and slices as raw byte
//! buffers for passing across the engine boundary, little-endian as the
//! engine stores them, with strict divisibility checks in place of silent
//! truncation.

use vstd::prelude::*;
use vstd::arithmetic::div_mod::lemma_fundamental_div_mod;

verus! {

/// Little-endian bytes of one 16-bit value.
pub open spec fn spec_le16(x: u16) -> Seq<u8> {
    seq![(x % 256) as u8, (x / 256) as u8]
}

/// Little-endian bytes of one 32-bit value.
pub open spec fn spec_le32(x: u32) -> Seq<u8> {
    seq![
        (x % 256) as u8,
        ((x / 0x100) % 256) as u8,
        ((x / 0x10000) % 256) as u8,
        ((x / 0x1000000) % 256) as u8,
    ]
}

/// Little-endian bytes of one 64-bit value.
pub open spec fn spec_le64(x: u64) -> Seq<u8> {
    seq![
        (x % 256) as u8,
        ((x / 0x100) % 256) as u8,
        ((x / 0x10000) % 256) as u8,
        ((x / 0x1000000) % 256) as u8,
        ((x / 0x100000000) % 256) as u8,
        ((x / 0x10000000000) % 256) as u8,
        ((x / 0x1000000000000) % 256) as u8,
        ((x / 0x100000000000000) % 256) as u8,
    ]
}

/// The 16-bit value held by a two-byte little-endian buffer.
pub open spec fn spec_u16_of(b: Seq<u8>) -> u16
    recommends
        b.len() == 2,
{
    (b[0] + 256 * b[1]) as u16
}

/// The 32-bit value held by a four-byte little-endian buffer.
pub open spec fn spec_u32_of(b: Seq<u8>) -> u32
    recommends
        b.len() == 4,
{
    (b[0] + 0x100 * b[1] + 0x10000 * b[2] + 0x1000000 * b[3]) as u32
}

/// The 64-bit value held by an eight-byte little-endian buffer.
pub open spec fn spec_u64_of(b: Seq<u8>) -> u64
    recommends
        b.len() == 8,
{
    (b[0] + 0x100 * b[1] + 0x10000 * b[2] + 0x1000000 * b[3] + 0x100000000 * b[4]
        + 0x10000000000 * b[5] + 0x1000000000000 * b[6] + 0x100000000000000 * b[7]) as u64
}

/// The byte buffer standing for a sequence of 16-bit values, element by
/// element in little-endian order.
pub open spec fn spec_wide_bytes(s: Seq<u16>) -> Seq<u8> {
    Seq::new(
        2 * s.len(),
        |j: int| if j % 2 == 0 { (s[j / 2] % 256) as u8 } else { (s[j / 2] / 256) as u8 },
    )
}

/// The sequence of 16-bit values held by an even-length byte buffer.
pub open spec fn spec_wide_of_bytes(b: Seq<u8>) -> Seq<u16>
    recommends
        b.len() % 2 == 0,
{
    Seq::new(b.len() / 2, |i: int| (b[2 * i] + 256 * b[2 * i + 1]) as u16)
}

/// Reinterpret a slice of 16-bit values as its little-endian byte buffer.
pub fn wide_to_bytes(src: &[u16]) -> (r: Vec<u8>)
    ensures
        r@ == spec_wide_bytes(src@),
{
    let n = src.len();
    let mut r: Vec<u8> = Vec::new();
    let mut i: usize = 0;
    while i < n
        invariant
            i <= n,
            n == src@.len(),
            r@.len() == 2 * i,
            forall|j: int|
                0 <= j < 2 * i ==> r@[j] == (if j % 2 == 0 {
                    (src@[j / 2] % 256) as u8
                } else {
                    (src@[j / 2] / 256) as u8
                }),
        decreases n - i,
    {
        let x = src[i];
        r.push((x % 256) as u8);
        r.push((x / 256) as u8);
        proof {
            assert((2 * i as int) % 2 == 0 && (2 * i as int) / 2 == i as int);
            assert((2 * i as int + 1) % 2 == 1 && (2 * i as int + 1) / 2 == i as int);
        }
        i = i + 1;
    }
    proof {
        assert(r@ =~= spec_wide_bytes(src@));
    }
    r
}

/// Reinterpret a byte buffer as a sequence of 16-bit values.  The buffer's
/// length must divide evenly into two-byte elements; an odd-length buffer
/// is rejected rather than silently truncated.
pub fn bytes_to_wide(src: &[u8]) -> (r: Option<Vec<u16>>)
    ensures
        src@.len() % 2 == 0 ==> (r matches Some(v) && v@ == spec_wide_of_bytes(src@)),
        src@.len() % 2 != 0 ==> r is None,
{
    let n = src.len();
    if n % 2 != 0 {
        return None;
    }
    let half = n / 2;
    let mut v: Vec<u16> = Vec::new();
    let mut i: usize = 0;
    while i < half
        invariant
            i <= half,
            n == src@.len(),
            n % 2 == 0,
            half == n / 2,
            v@.len() == i,
            forall|k: int| 0 <= k < i ==> v@[k] == (src@[2 * k] + 256 * src@[2 * k + 1]) as u16,
        decreases half - i,
    {
        let lo = src[2 * i];
        let hi = src[2 * i + 1];
        v.push(lo as u16 + 256 * (hi as u16));
        i = i + 1;
    }
    proof {
        assert(v@ =~= spec_wide_of_bytes(src@));
    }
    Some(v)
}

/// Reinterpreting 16-bit values as bytes and back recovers the values: the
/// two reinterpretations are mutually inverse on every element sequence.
pub proof fn lemma_wide_bytes_roundtrip(s: Seq<u16>)
    ensures
        spec_wide_bytes(s).len() % 2 == 0,
        spec_wide_of_bytes(spec_wide_bytes(s)) == s,
{
    let b = spec_wide_bytes(s);
    assert forall|i: int| 0 <= i < s.len() implies spec_wide_of_bytes(b)[i] == s[i] by {
        assert((2 * i) % 2 == 0 && (2 * i) / 2 == i);
        assert((2 * i + 1) % 2 == 1 && (2 * i + 1) / 2 == i);
        lemma_fundamental_div_mod(s[i] as int, 256);
    }
    assert(spec_wide_of_bytes(b) =~= s);
}

/// The byte buffer standing for one 32-bit value.
pub fn u32_to_bytes(x: u32) -> (r: Vec<u8>)
    ensures
        r@ == spec_le32(x),
{
    let mut r: Vec<u8> = Vec::new();
    r.push((x % 256) as u8);
    r.push(((x / 0x100) % 256) as u8);
    r.push(((x / 0x10000) % 256) as u8);
    r.push(((x / 0x1000000) % 256) as u8);
    proof {
        assert(r@ =~= spec_le32(x));
    }
    r
}

/// The 32-bit value held by a byte buffer.  The buffer must be exactly four
/// bytes wide; any other width is rejected as a type-size mismatch.
pub fn u32_from_bytes(b: &[u8]) -> (r: Option<u32>)
    ensures
        b@.len() == 4 ==> r == Some(spec_u32_of(b@)),
        b@.len() != 4 ==> r is None,
{
    if b.len() != 4 {
        return None;
    }
    Some(b[0] as u32 + 0x100 * (b[1] as u32) + 0x10000 * (b[2] as u32) + 0x1000000 * (b[3] as u32))
}

/// The byte buffer standing for one 16-bit value.
pub fn u16_to_bytes(x: u16) -> (r: Vec<u8>)
    ensures
        r@ == spec_le16(x),
{
    let mut r: Vec<u8> = Vec::new();
    r.push((x % 256) as u8);
    r.push((x / 256) as u8);
    proof {
        assert(r@ =~= spec_le16(x));
    }
    r
}

/// The 16-bit value held by a byte buffer, which must be exactly two bytes.
pub fn u16_from_bytes(b: &[u8]) -> (r: Option<u16>)
    ensures
        b@.len() == 2 ==> r == Some(spec_u16_of(b@)),
        b@.len() != 2 ==> r is None,
{
    if b.len() != 2 {
        return None;
    }
    Some(b[0] as u16 + 256 * (b[1] as u16))
}

/// The byte buffer standing for one 64-bit value.
pub fn u64_to_bytes(x: u64) -> (r: Vec<u8>)
    ensures
        r@ == spec_le64(x),
{
    let mut r: Vec<u8> = Vec::new();
    r.push((x % 256) as u8);
    r.push(((x / 0x100) % 256) as u8);
    r.push(((x / 0x10000) % 256) as u8);
    r.push(((x / 0x1000000) % 256) as u8);
    r.push(((x / 0x100000000) % 256) as u8);
    r.push(((x / 0x10000000000) % 256) as u8);
    r.push(((x / 0x1000000000000) % 256) as u8);
    r.push(((x / 0x100000000000000) % 256) as u8);
    proof {
        assert(r@ =~= spec_le64(x));
    }
    r
}

/// The 64-bit value held by a byte buffer, which must be exactly eight
/// bytes.
pub fn u64_from_bytes(b: &[u8]) -> (r: Option<u64>)
    ensures
        b@.len() == 8 ==> r == Some(spec_u64_of(b@)),
        b@.len() != 8 ==> r is None,
{
    if b.len() != 8 {
        return None;
    }
    Some(
        b[0] as u64 + 0x100 * (b[1] as u64) + 0x10000 * (b[2] as u64) + 0x1000000 * (b[3] as u64)
            + 0x100000000 * (b[4] as u64) + 0x10000000000 * (b[5] as u64) + 0x1000000000000 * (
        b[6] as u64) + 0x100000000000000 * (b[7] as u64),
    )
}

/// Packing a 32-bit value and reading it back recovers the value.
pub proof fn lemma_le32_roundtrip(x: u32)
    ensures
        spec_le32(x).len() == 4,
        spec_u32_of(spec_le32(x)) == x,
{
    assert(x % 256 + 0x100 * ((x / 0x100) % 256) + 0x10000 * ((x / 0x10000) % 256) + 0x1000000 * ((
    x / 0x1000000) % 256) == x) by (bit_vector);
}

/// Packing a 64-bit value and reading it back recovers the value.
pub proof fn lemma_le64_roundtrip(x: u64)
    ensures
        spec_le64(x).len() == 8,
        spec_u64_of(spec_le64(x)) == x,
{
    assert(x % 256 + 0x100 * ((x / 0x100) % 256) + 0x10000 * ((x / 0x10000) % 256) + 0x1000000 * ((
    x / 0x1000000) % 256) + 0x100000000 * ((x / 0x100000000) % 256) + 0x10000000000 * ((
    x / 0x10000000000) % 256) + 0x1000000000000 * ((x / 0x1000000000000) % 256)
        + 0x100000000000000 * (x / 0x100000000000000) == x) by (bit_vector);
}

} // verus!
