//! Little-endian integers and comparison of byte strings.

use vstd::prelude::*;

verus! {

/// The number that two bytes hold in little-endian order.
pub open spec fn u16_from_le(low: u8, high: u8) -> int {
    low as int + 256 * (high as int)
}

/// The four bytes of a `u32`, lowest first.
pub open spec fn u32_le_bytes(v: u32) -> Seq<u8> {
    seq![
        (v % 256) as u8,
        ((v / 0x100) % 256) as u8,
        ((v / 0x1_0000) % 256) as u8,
        ((v / 0x100_0000) % 256) as u8,
    ]
}

/// The eight bytes of a `u64`, lowest first.
pub open spec fn u64_le_bytes(v: u64) -> Seq<u8> {
    seq![
        (v % 256) as u8,
        ((v / 0x100) % 256) as u8,
        ((v / 0x1_0000) % 256) as u8,
        ((v / 0x100_0000) % 256) as u8,
        ((v / 0x1_0000_0000) % 256) as u8,
        ((v / 0x100_0000_0000) % 256) as u8,
        ((v / 0x1_0000_0000_0000) % 256) as u8,
        ((v / 0x100_0000_0000_0000) % 256) as u8,
    ]
}

/// The single byte of a flag: one for true, zero for false.
pub open spec fn bool_byte(b: bool) -> u8 {
    if b {
        1u8
    } else {
        0u8
    }
}

/// Reads the little-endian `u16` that starts at `at`.
pub fn read_u16_le(data: &[u8], at: usize) -> (v: u16)
    requires
        at + 2 <= data.len(),
    ensures
        v as int == u16_from_le(data@[at as int], data@[at + 1]),
{
    let low: u16 = data[at] as u16;
    let high: u16 = data[at + 1] as u16;
    low + 256 * high
}

/// Appends the four little-endian bytes of `v`.
pub fn push_u32_le(out: &mut Vec<u8>, v: u32)
    ensures
        final(out)@ == old(out)@ + u32_le_bytes(v),
{
    out.push((v % 256) as u8);
    out.push(((v / 0x100) % 256) as u8);
    out.push(((v / 0x1_0000) % 256) as u8);
    out.push(((v / 0x100_0000) % 256) as u8);
    assert(out@ =~= old(out)@ + u32_le_bytes(v));
}

/// Appends the eight little-endian bytes of `v`.
pub fn push_u64_le(out: &mut Vec<u8>, v: u64)
    ensures
        final(out)@ == old(out)@ + u64_le_bytes(v),
{
    out.push((v % 256) as u8);
    out.push(((v / 0x100) % 256) as u8);
    out.push(((v / 0x1_0000) % 256) as u8);
    out.push(((v / 0x100_0000) % 256) as u8);
    out.push(((v / 0x1_0000_0000) % 256) as u8);
    out.push(((v / 0x100_0000_0000) % 256) as u8);
    out.push(((v / 0x1_0000_0000_0000) % 256) as u8);
    out.push(((v / 0x100_0000_0000_0000) % 256) as u8);
    assert(out@ =~= old(out)@ + u64_le_bytes(v));
}

/// Appends every byte of `bytes`.
pub fn push_bytes(out: &mut Vec<u8>, bytes: &[u8])
    ensures
        final(out)@ == old(out)@ + bytes@,
{
    let mut i: usize = 0;
    while i < bytes.len()
        invariant
            i <= bytes.len(),
            out@ == old(out)@ + bytes@.subrange(0, i as int),
        decreases bytes.len() - i,
    {
        out.push(bytes[i]);
        i = i + 1;
        assert(out@ =~= old(out)@ + bytes@.subrange(0, i as int));
    }
    assert(bytes@.subrange(0, i as int) =~= bytes@);
}

/// Compares the bytes of `data` from `start` up to `end` with `other`.
pub fn range_equals(data: &[u8], start: usize, end: usize, other: &[u8]) -> (same: bool)
    requires
        start <= end <= data.len(),
    ensures
        same == (data@.subrange(start as int, end as int) == other@),
{
    let n: usize = end - start;
    if other.len() != n {
        return false;
    }
    let ghost part = data@.subrange(start as int, end as int);
    let mut i: usize = 0;
    while i < n
        invariant
            i <= n,
            n == end - start,
            start <= end <= data.len(),
            other.len() == n,
            part == data@.subrange(start as int, end as int),
            forall|j: int| 0 <= j < i ==> part[j] == other@[j],
        decreases n - i,
    {
        if data[start + i] != other[i] {
            assert(part[i as int] != other@[i as int]);
            return false;
        }
        i = i + 1;
    }
    assert(part =~= other@);
    true
}

/// Compares two keys byte for byte.
pub fn keys_equal(a: &[u8; 32], b: &[u8; 32]) -> (same: bool)
    ensures
        same == (a@ == b@),
{
    let mut i: usize = 0;
    while i < 32
        invariant
            i <= 32,
            forall|j: int| 0 <= j < i ==> a@[j] == b@[j],
        decreases 32 - i,
    {
        if a[i] != b[i] {
            assert(a@[i as int] != b@[i as int]);
            return false;
        }
        i = i + 1;
    }
    assert(a@ =~= b@);
    true
}

/// Two `u32` with the same bytes are the same number.
pub proof fn lemma_u32_le_bytes_injective(a: u32, b: u32)
    requires
        u32_le_bytes(a) == u32_le_bytes(b),
    ensures
        a == b,
{
    let x = u32_le_bytes(a);
    let y = u32_le_bytes(b);
    assert(x[0] == y[0] && x[1] == y[1] && x[2] == y[2] && x[3] == y[3]);
}

/// The eight bytes of a `u64` are the four bytes of its low half followed
/// by the four bytes of its high half.
pub proof fn lemma_u64_le_bytes_halves(v: u64)
    ensures
        u64_le_bytes(v) == u32_le_bytes((v % 0x1_0000_0000) as u32) + u32_le_bytes(
            (v / 0x1_0000_0000) as u32,
        ),
        v == (v % 0x1_0000_0000) + 0x1_0000_0000 * (v / 0x1_0000_0000),
{
    let low: u32 = (v % 0x1_0000_0000) as u32;
    let high: u32 = (v / 0x1_0000_0000) as u32;
    assert(v % 256 == (v % 0x1_0000_0000) % 256) by (bit_vector);
    assert((v / 0x100) % 256 == ((v % 0x1_0000_0000) / 0x100) % 256) by (bit_vector);
    assert((v / 0x1_0000) % 256 == ((v % 0x1_0000_0000) / 0x1_0000) % 256) by (bit_vector);
    assert((v / 0x100_0000) % 256 == ((v % 0x1_0000_0000) / 0x100_0000) % 256) by (bit_vector);
    assert((v / 0x1_0000_0000) % 256 == (v / 0x1_0000_0000) % 256) by (bit_vector);
    assert((v / 0x100_0000_0000) % 256 == ((v / 0x1_0000_0000) / 0x100) % 256) by (bit_vector);
    assert((v / 0x1_0000_0000_0000) % 256 == ((v / 0x1_0000_0000) / 0x1_0000) % 256)
        by (bit_vector);
    assert((v / 0x100_0000_0000_0000) % 256 == ((v / 0x1_0000_0000) / 0x100_0000) % 256)
        by (bit_vector);
    assert(u64_le_bytes(v) =~= u32_le_bytes(low) + u32_le_bytes(high));
}

/// Two `u64` with the same bytes are the same number.
pub proof fn lemma_u64_le_bytes_injective(a: u64, b: u64)
    requires
        u64_le_bytes(a) == u64_le_bytes(b),
    ensures
        a == b,
{
    lemma_u64_le_bytes_halves(a);
    lemma_u64_le_bytes_halves(b);
    let a_low: u32 = (a % 0x1_0000_0000) as u32;
    let a_high: u32 = (a / 0x1_0000_0000) as u32;
    let b_low: u32 = (b % 0x1_0000_0000) as u32;
    let b_high: u32 = (b / 0x1_0000_0000) as u32;
    let x = u64_le_bytes(a);
    assert(x.subrange(0, 4) =~= u32_le_bytes(a_low));
    assert(x.subrange(0, 4) =~= u32_le_bytes(b_low));
    assert(x.subrange(4, 8) =~= u32_le_bytes(a_high));
    assert(x.subrange(4, 8) =~= u32_le_bytes(b_high));
    lemma_u32_le_bytes_injective(a_low, b_low);
    lemma_u32_le_bytes_injective(a_high, b_high);
}

} // verus!
