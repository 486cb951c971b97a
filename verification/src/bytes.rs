//! Little-endian field decoding over raw byte buffers.
//!
//! Every multi-byte field of an ELF structure is read through one of the
//! functions here, so the byte-level meaning of each record is stated once.

use vstd::prelude::*;
use vstd::slice::slice_index_get;
use vstd::slice::slice_subrange;
use vstd::slice::slice_to_vec;

verus! {

/// The unsigned 16-bit value stored little-endian at offset `i` of `b`.
pub open spec fn le16(b: Seq<u8>, i: int) -> u16 {
    (b[i] as int + b[i + 1] as int * 0x100) as u16
}

/// The unsigned 32-bit value stored little-endian at offset `i` of `b`.
pub open spec fn le32(b: Seq<u8>, i: int) -> u32 {
    (b[i] as int + b[i + 1] as int * 0x100 + b[i + 2] as int * 0x10000 + b[i + 3] as int
        * 0x1000000) as u32
}

/// The unsigned 64-bit value stored little-endian at offset `i` of `b`.
pub open spec fn le64(b: Seq<u8>, i: int) -> u64 {
    (le32(b, i) as int + le32(b, i + 4) as int * 0x100000000) as u64
}

/// The four-byte little-endian encoding of `x`.
pub open spec fn enc32(x: u32) -> Seq<u8> {
    seq![
        (x % 0x100) as u8,
        (x / 0x100 % 0x100) as u8,
        (x / 0x10000 % 0x100) as u8,
        (x / 0x1000000 % 0x100) as u8,
    ]
}

/// The eight-byte little-endian encoding of `x`.
pub open spec fn enc64(x: u64) -> Seq<u8> {
    enc32((x % 0x100000000) as u32) + enc32((x / 0x100000000) as u32)
}

/// Decoding the four-byte encoding of a value gives the value back.
pub proof fn lemma_le32_enc32(x: u32)
    ensures
        le32(enc32(x), 0) == x,
{
    assert(x % 0x100 + x / 0x100 % 0x100 * 0x100 + x / 0x10000 % 0x100 * 0x10000 + x / 0x1000000
        % 0x100 * 0x1000000 == x) by (bit_vector);
}

/// Decoding the eight-byte encoding of a value gives the value back.
pub proof fn lemma_le64_enc64(x: u64)
    ensures
        le64(enc64(x), 0) == x,
{
    let lo = (x % 0x100000000) as u32;
    let hi = (x / 0x100000000) as u32;
    assert(enc64(x).subrange(0, 4) =~= enc32(lo));
    assert(enc64(x).subrange(4, 8) =~= enc32(hi));
    lemma_le32_subrange(enc64(x), 0);
    lemma_le32_subrange(enc64(x), 4);
    lemma_le32_enc32(lo);
    lemma_le32_enc32(hi);
    assert(lo + hi * 0x100000000 == x) by (bit_vector)
        requires
            lo == (x % 0x100000000) as u32 && hi == (x / 0x100000000) as u32,
    ;
}

/// `le32` reads only the four bytes at its offset.
pub proof fn lemma_le32_subrange(b: Seq<u8>, i: int)
    requires
        0 <= i,
        i + 4 <= b.len(),
    ensures
        le32(b, i) == le32(b.subrange(i, i + 4), 0),
{
}

/// `le64` reads only the eight bytes at its offset.
pub proof fn lemma_le64_subrange(b: Seq<u8>, i: int)
    requires
        0 <= i,
        i + 8 <= b.len(),
    ensures
        le64(b, i) == le64(b.subrange(i, i + 8), 0),
{
    assert(le32(b, i) == le32(b.subrange(i, i + 8), 0));
    assert(le32(b, i + 4) == le32(b.subrange(i, i + 8), 4));
}

/// Reads the little-endian `u16` at offset `off`.
pub fn read_u16(b: &[u8], off: usize) -> (r: u16)
    requires
        off + 2 <= b@.len(),
    ensures
        r == le16(b@, off as int),
{
    let _len = b.len();
    let b0 = *slice_index_get(b, off) as u16;
    let b1 = *slice_index_get(b, off + 1) as u16;
    b0 + b1 * 0x100
}

/// Reads the little-endian `u32` at offset `off`.
pub fn read_u32(b: &[u8], off: usize) -> (r: u32)
    requires
        off + 4 <= b@.len(),
    ensures
        r == le32(b@, off as int),
{
    let _len = b.len();
    let b0 = *slice_index_get(b, off) as u32;
    let b1 = *slice_index_get(b, off + 1) as u32;
    let b2 = *slice_index_get(b, off + 2) as u32;
    let b3 = *slice_index_get(b, off + 3) as u32;
    b0 + b1 * 0x100 + b2 * 0x10000 + b3 * 0x1000000
}

/// Reads the little-endian `u64` at offset `off`.
pub fn read_u64(b: &[u8], off: usize) -> (r: u64)
    requires
        off + 8 <= b@.len(),
    ensures
        r == le64(b@, off as int),
{
    let _len = b.len();
    let lo = read_u32(b, off) as u64;
    let hi = read_u32(b, off + 4) as u64;
    lo + hi * 0x100000000
}

/// Copies the byte range `[start, end)` of `b` into an owned vector.
pub fn copy_range(b: &[u8], start: usize, end: usize) -> (r: Vec<u8>)
    requires
        start <= end,
        end <= b@.len(),
    ensures
        r@ == b@.subrange(start as int, end as int),
{
    slice_to_vec(slice_subrange(b, start, end))
}

/// The position of the first NUL byte of `b` at or after `i`, if any.
pub open spec fn find_nul(b: Seq<u8>, i: int) -> Option<int>
    decreases b.len() - i,
{
    if i < 0 || i >= b.len() {
        None
    } else if b[i] == 0 {
        Some(i)
    } else {
        find_nul(b, i + 1)
    }
}

/// A found NUL position lies in `[from, b.len())` and is the first one.
pub proof fn lemma_find_nul_bounds(b: Seq<u8>, from: int)
    requires
        0 <= from,
    ensures
        match find_nul(b, from) {
            Some(q) => from <= q < b.len() && b[q] == 0 && (forall|j: int|
                from <= j < q ==> b[j] != 0),
            None => forall|j: int| from <= j < b.len() ==> b[j] != 0,
        },
    decreases b.len() - from,
{
    if from < b.len() && b[from] != 0 {
        lemma_find_nul_bounds(b, from + 1);
    }
}

/// Scans `b` from `from` for the first NUL byte.
pub fn scan_nul(b: &[u8], from: usize) -> (r: Option<usize>)
    ensures
        match r {
            Some(q) => Some(q as int) == find_nul(b@, from as int),
            None => None::<int> == find_nul(b@, from as int),
        },
{
    let len = b.len();
    if from >= len {
        return None;
    }
    let mut i = from;
    while i < len && *slice_index_get(b, i) != 0
        invariant
            from <= i <= len,
            len == b@.len(),
            find_nul(b@, from as int) == find_nul(b@, i as int),
        decreases len - i,
    {
        i = i + 1;
    }
    if i < len {
        Some(i)
    } else {
        None
    }
}

} // verus!
