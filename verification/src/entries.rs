//! The fixed-size records that typed section payloads are arrays of, and
//! the bounds-checked decoders that read those arrays out of a payload.

use vstd::prelude::*;
use vstd::slice::slice_index_get;
use vstd::slice::slice_subrange;
use crate::bytes::le16;
use crate::bytes::le32;
use crate::bytes::le64;
use crate::bytes::read_u16;
use crate::bytes::read_u32;
use crate::bytes::read_u64;
use crate::error::ParseError;

verus! {

/// A relocation with an explicit addend; `P` is the file's word width.
#[derive(Clone, Copy, Debug, PartialEq, Eq, Structural)]
pub struct Rela<P> {
    pub offset: P,
    pub info: P,
    pub addend: P,
}

/// A relocation without an addend; `P` is the file's word width.
#[derive(Clone, Copy, Debug, PartialEq, Eq, Structural)]
pub struct Rel<P> {
    pub offset: P,
    pub info: P,
}

/// A dynamic-linking entry: a tag and its value, exposed raw.
#[derive(Clone, Copy, Debug, PartialEq, Eq, Structural)]
pub struct Dynamic<P> {
    pub tag: P,
    pub val: P,
}

/// A 32-bit symbol-table entry; field interpretation is left to callers.
#[derive(Clone, Copy, Debug, PartialEq, Eq, Structural)]
pub struct Entry32 {
    pub name: u32,
    pub value: u32,
    pub size: u32,
    pub info: u8,
    pub other: u8,
    pub shndx: u16,
}

/// A 64-bit symbol-table entry; field interpretation is left to callers.
#[derive(Clone, Copy, Debug, PartialEq, Eq, Structural)]
pub struct Entry64 {
    pub name: u32,
    pub info: u8,
    pub other: u8,
    pub shndx: u16,
    pub value: u64,
    pub size: u64,
}

/// A 32-bit dynamic-symbol-table entry; same layout as `Entry32`.
#[derive(Clone, Copy, Debug, PartialEq, Eq, Structural)]
pub struct DynEntry32 {
    pub name: u32,
    pub value: u32,
    pub size: u32,
    pub info: u8,
    pub other: u8,
    pub shndx: u16,
}

/// A 64-bit dynamic-symbol-table entry; same layout as `Entry64`.
#[derive(Clone, Copy, Debug, PartialEq, Eq, Structural)]
pub struct DynEntry64 {
    pub name: u32,
    pub info: u8,
    pub other: u8,
    pub shndx: u16,
    pub value: u64,
    pub size: u64,
}

/// The fixed bucket/chain count header of a hash-table section; bucket
/// and chain traversal is a collaborator's concern.
#[derive(Clone, Copy, Debug, PartialEq, Eq, Structural)]
pub struct HashTable {
    pub bucket_count: u32,
    pub chain_count: u32,
    pub first_bucket: u32,
}

impl Rela<u32> {
    pub fn get_offset(&self) -> (r: u32)
        ensures
            r == self.offset,
    {
        self.offset
    }

    pub fn get_addend(&self) -> (r: u32)
        ensures
            r == self.addend,
    {
        self.addend
    }

    /// The symbol-table index packed into the high 24 bits of `info`.
    pub fn get_symbol_table_index(&self) -> (r: u32)
        ensures
            r == self.info >> 8u32,
    {
        self.info >> 8
    }

    /// The relocation type code packed into the low 8 bits of `info`.
    pub fn get_type(&self) -> (r: u8)
        ensures
            r == self.info as u8,
    {
        self.info as u8
    }
}

impl Rela<u64> {
    pub fn get_offset(&self) -> (r: u64)
        ensures
            r == self.offset,
    {
        self.offset
    }

    pub fn get_addend(&self) -> (r: u64)
        ensures
            r == self.addend,
    {
        self.addend
    }

    /// The symbol-table index packed into the high 32 bits of `info`.
    pub fn get_symbol_table_index(&self) -> (r: u32)
        ensures
            r == (self.info >> 32u64) as u32,
    {
        (self.info >> 32) as u32
    }

    /// The relocation type code packed into the low 32 bits of `info`.
    pub fn get_type(&self) -> (r: u32)
        ensures
            r == (self.info & 0xffffffff) as u32,
    {
        (self.info & 0xffffffff) as u32
    }
}

impl Rel<u32> {
    pub fn get_offset(&self) -> (r: u32)
        ensures
            r == self.offset,
    {
        self.offset
    }

    /// The symbol-table index packed into the high 24 bits of `info`.
    pub fn get_symbol_table_index(&self) -> (r: u32)
        ensures
            r == self.info >> 8u32,
    {
        self.info >> 8
    }

    /// The relocation type code packed into the low 8 bits of `info`.
    pub fn get_type(&self) -> (r: u8)
        ensures
            r == self.info as u8,
    {
        self.info as u8
    }
}

impl Rel<u64> {
    pub fn get_offset(&self) -> (r: u64)
        ensures
            r == self.offset,
    {
        self.offset
    }

    /// The symbol-table index packed into the high 32 bits of `info`.
    pub fn get_symbol_table_index(&self) -> (r: u32)
        ensures
            r == (self.info >> 32u64) as u32,
    {
        (self.info >> 32) as u32
    }

    /// The relocation type code packed into the low 32 bits of `info`.
    pub fn get_type(&self) -> (r: u32)
        ensures
            r == (self.info & 0xffffffff) as u32,
    {
        (self.info & 0xffffffff) as u32
    }
}

// The records stored at position `k` of each kind of array payload.

pub open spec fn spec_u32_at(b: Seq<u8>, k: int) -> u32 {
    le32(b, 4 * k)
}

pub open spec fn spec_u64_at(b: Seq<u8>, k: int) -> u64 {
    le64(b, 8 * k)
}

pub open spec fn spec_rela32_at(b: Seq<u8>, k: int) -> Rela<u32> {
    Rela { offset: le32(b, 12 * k), info: le32(b, 12 * k + 4), addend: le32(b, 12 * k + 8) }
}

pub open spec fn spec_rela64_at(b: Seq<u8>, k: int) -> Rela<u64> {
    Rela { offset: le64(b, 24 * k), info: le64(b, 24 * k + 8), addend: le64(b, 24 * k + 16) }
}

pub open spec fn spec_rel32_at(b: Seq<u8>, k: int) -> Rel<u32> {
    Rel { offset: le32(b, 8 * k), info: le32(b, 8 * k + 4) }
}

pub open spec fn spec_rel64_at(b: Seq<u8>, k: int) -> Rel<u64> {
    Rel { offset: le64(b, 16 * k), info: le64(b, 16 * k + 8) }
}

pub open spec fn spec_dyn32_at(b: Seq<u8>, k: int) -> Dynamic<u32> {
    Dynamic { tag: le32(b, 8 * k), val: le32(b, 8 * k + 4) }
}

pub open spec fn spec_dyn64_at(b: Seq<u8>, k: int) -> Dynamic<u64> {
    Dynamic { tag: le64(b, 16 * k), val: le64(b, 16 * k + 8) }
}

pub open spec fn spec_sym32_at(b: Seq<u8>, k: int) -> Entry32 {
    Entry32 {
        name: le32(b, 16 * k),
        value: le32(b, 16 * k + 4),
        size: le32(b, 16 * k + 8),
        info: b[16 * k + 12],
        other: b[16 * k + 13],
        shndx: le16(b, 16 * k + 14),
    }
}

pub open spec fn spec_sym64_at(b: Seq<u8>, k: int) -> Entry64 {
    Entry64 {
        name: le32(b, 24 * k),
        info: b[24 * k + 4],
        other: b[24 * k + 5],
        shndx: le16(b, 24 * k + 6),
        value: le64(b, 24 * k + 8),
        size: le64(b, 24 * k + 16),
    }
}

pub open spec fn spec_dynsym32_at(b: Seq<u8>, k: int) -> DynEntry32 {
    DynEntry32 {
        name: le32(b, 16 * k),
        value: le32(b, 16 * k + 4),
        size: le32(b, 16 * k + 8),
        info: b[16 * k + 12],
        other: b[16 * k + 13],
        shndx: le16(b, 16 * k + 14),
    }
}

pub open spec fn spec_dynsym64_at(b: Seq<u8>, k: int) -> DynEntry64 {
    DynEntry64 {
        name: le32(b, 24 * k),
        info: b[24 * k + 4],
        other: b[24 * k + 5],
        shndx: le16(b, 24 * k + 6),
        value: le64(b, 24 * k + 8),
        size: le64(b, 24 * k + 16),
    }
}

// The full array payloads: one record per whole chunk of the slice.

pub open spec fn spec_u32_array(b: Seq<u8>) -> Seq<u32> {
    Seq::new((b.len() / 4) as nat, |k: int| spec_u32_at(b, k))
}

pub open spec fn spec_u64_array(b: Seq<u8>) -> Seq<u64> {
    Seq::new((b.len() / 8) as nat, |k: int| spec_u64_at(b, k))
}

pub open spec fn spec_rela32_array(b: Seq<u8>) -> Seq<Rela<u32>> {
    Seq::new((b.len() / 12) as nat, |k: int| spec_rela32_at(b, k))
}

pub open spec fn spec_rela64_array(b: Seq<u8>) -> Seq<Rela<u64>> {
    Seq::new((b.len() / 24) as nat, |k: int| spec_rela64_at(b, k))
}

pub open spec fn spec_rel32_array(b: Seq<u8>) -> Seq<Rel<u32>> {
    Seq::new((b.len() / 8) as nat, |k: int| spec_rel32_at(b, k))
}

pub open spec fn spec_rel64_array(b: Seq<u8>) -> Seq<Rel<u64>> {
    Seq::new((b.len() / 16) as nat, |k: int| spec_rel64_at(b, k))
}

pub open spec fn spec_dyn32_array(b: Seq<u8>) -> Seq<Dynamic<u32>> {
    Seq::new((b.len() / 8) as nat, |k: int| spec_dyn32_at(b, k))
}

pub open spec fn spec_dyn64_array(b: Seq<u8>) -> Seq<Dynamic<u64>> {
    Seq::new((b.len() / 16) as nat, |k: int| spec_dyn64_at(b, k))
}

pub open spec fn spec_sym32_array(b: Seq<u8>) -> Seq<Entry32> {
    Seq::new((b.len() / 16) as nat, |k: int| spec_sym32_at(b, k))
}

pub open spec fn spec_sym64_array(b: Seq<u8>) -> Seq<Entry64> {
    Seq::new((b.len() / 24) as nat, |k: int| spec_sym64_at(b, k))
}

pub open spec fn spec_dynsym32_array(b: Seq<u8>) -> Seq<DynEntry32> {
    Seq::new((b.len() / 16) as nat, |k: int| spec_dynsym32_at(b, k))
}

pub open spec fn spec_dynsym64_array(b: Seq<u8>) -> Seq<DynEntry64> {
    Seq::new((b.len() / 24) as nat, |k: int| spec_dynsym64_at(b, k))
}

/// Decodes a payload that is an array of `u32` words.
pub fn parse_u32_array(b: &[u8]) -> (r: Result<Vec<u32>, ParseError>)
    ensures
        r is Ok <==> b@.len() % 4 == 0,
        r matches Ok(v) ==> v@ == spec_u32_array(b@),
        r is Err ==> r == Err::<Vec<u32>, ParseError>(ParseError::BufferTooShort),
{
    let len = b.len();
    if len % 4 != 0 {
        return Err(ParseError::BufferTooShort);
    }
    let n = len / 4;
    proof {
        assert(n * 4 == len) by (nonlinear_arith)
            requires
                n == len / 4 && len % 4 == 0,
        ;
    }
    let mut v: Vec<u32> = Vec::new();
    let mut k: usize = 0;
    while k < n
        invariant
            len == b@.len(),
            n * 4 == len,
            k <= n,
            v@.len() == k,
            forall|j: int| 0 <= j < k ==> v@[j] == spec_u32_at(b@, j),
        decreases n - k,
    {
        proof {
            assert(k * 4 + 4 <= len) by (nonlinear_arith)
                requires
                    k < n && n * 4 == len,
            ;
        }
        let base = k * 4;
        v.push(read_u32(b, base));
        k = k + 1;
    }
    proof {
        assert(v@ =~= spec_u32_array(b@));
    }
    Ok(v)
}

/// Decodes a payload that is an array of `u64` words.
pub fn parse_u64_array(b: &[u8]) -> (r: Result<Vec<u64>, ParseError>)
    ensures
        r is Ok <==> b@.len() % 8 == 0,
        r matches Ok(v) ==> v@ == spec_u64_array(b@),
        r is Err ==> r == Err::<Vec<u64>, ParseError>(ParseError::BufferTooShort),
{
    let len = b.len();
    if len % 8 != 0 {
        return Err(ParseError::BufferTooShort);
    }
    let n = len / 8;
    proof {
        assert(n * 8 == len) by (nonlinear_arith)
            requires
                n == len / 8 && len % 8 == 0,
        ;
    }
    let mut v: Vec<u64> = Vec::new();
    let mut k: usize = 0;
    while k < n
        invariant
            len == b@.len(),
            n * 8 == len,
            k <= n,
            v@.len() == k,
            forall|j: int| 0 <= j < k ==> v@[j] == spec_u64_at(b@, j),
        decreases n - k,
    {
        proof {
            assert(k * 8 + 8 <= len) by (nonlinear_arith)
                requires
                    k < n && n * 8 == len,
            ;
        }
        let base = k * 8;
        v.push(read_u64(b, base));
        k = k + 1;
    }
    proof {
        assert(v@ =~= spec_u64_array(b@));
    }
    Ok(v)
}

/// Decodes a payload that is an array of 32-bit `Rela` records.
pub fn parse_rela32_array(b: &[u8]) -> (r: Result<Vec<Rela<u32>>, ParseError>)
    ensures
        r is Ok <==> b@.len() % 12 == 0,
        r matches Ok(v) ==> v@ == spec_rela32_array(b@),
        r is Err ==> r == Err::<Vec<Rela<u32>>, ParseError>(ParseError::BufferTooShort),
{
    let len = b.len();
    if len % 12 != 0 {
        return Err(ParseError::BufferTooShort);
    }
    let n = len / 12;
    proof {
        assert(n * 12 == len) by (nonlinear_arith)
            requires
                n == len / 12 && len % 12 == 0,
        ;
    }
    let mut v: Vec<Rela<u32>> = Vec::new();
    let mut k: usize = 0;
    while k < n
        invariant
            len == b@.len(),
            n * 12 == len,
            k <= n,
            v@.len() == k,
            forall|j: int| 0 <= j < k ==> v@[j] == spec_rela32_at(b@, j),
        decreases n - k,
    {
        proof {
            assert(k * 12 + 12 <= len) by (nonlinear_arith)
                requires
                    k < n && n * 12 == len,
            ;
        }
        let base = k * 12;
        v.push(
            Rela {
                offset: read_u32(b, base),
                info: read_u32(b, base + 4),
                addend: read_u32(b, base + 8),
            },
        );
        k = k + 1;
    }
    proof {
        assert(v@ =~= spec_rela32_array(b@));
    }
    Ok(v)
}

/// Decodes a payload that is an array of 64-bit `Rela` records.
pub fn parse_rela64_array(b: &[u8]) -> (r: Result<Vec<Rela<u64>>, ParseError>)
    ensures
        r is Ok <==> b@.len() % 24 == 0,
        r matches Ok(v) ==> v@ == spec_rela64_array(b@),
        r is Err ==> r == Err::<Vec<Rela<u64>>, ParseError>(ParseError::BufferTooShort),
{
    let len = b.len();
    if len % 24 != 0 {
        return Err(ParseError::BufferTooShort);
    }
    let n = len / 24;
    proof {
        assert(n * 24 == len) by (nonlinear_arith)
            requires
                n == len / 24 && len % 24 == 0,
        ;
    }
    let mut v: Vec<Rela<u64>> = Vec::new();
    let mut k: usize = 0;
    while k < n
        invariant
            len == b@.len(),
            n * 24 == len,
            k <= n,
            v@.len() == k,
            forall|j: int| 0 <= j < k ==> v@[j] == spec_rela64_at(b@, j),
        decreases n - k,
    {
        proof {
            assert(k * 24 + 24 <= len) by (nonlinear_arith)
                requires
                    k < n && n * 24 == len,
            ;
        }
        let base = k * 24;
        v.push(
            Rela {
                offset: read_u64(b, base),
                info: read_u64(b, base + 8),
                addend: read_u64(b, base + 16),
            },
        );
        k = k + 1;
    }
    proof {
        assert(v@ =~= spec_rela64_array(b@));
    }
    Ok(v)
}

/// Decodes a payload that is an array of 32-bit `Rel` records.
pub fn parse_rel32_array(b: &[u8]) -> (r: Result<Vec<Rel<u32>>, ParseError>)
    ensures
        r is Ok <==> b@.len() % 8 == 0,
        r matches Ok(v) ==> v@ == spec_rel32_array(b@),
        r is Err ==> r == Err::<Vec<Rel<u32>>, ParseError>(ParseError::BufferTooShort),
{
    let len = b.len();
    if len % 8 != 0 {
        return Err(ParseError::BufferTooShort);
    }
    let n = len / 8;
    proof {
        assert(n * 8 == len) by (nonlinear_arith)
            requires
                n == len / 8 && len % 8 == 0,
        ;
    }
    let mut v: Vec<Rel<u32>> = Vec::new();
    let mut k: usize = 0;
    while k < n
        invariant
            len == b@.len(),
            n * 8 == len,
            k <= n,
            v@.len() == k,
            forall|j: int| 0 <= j < k ==> v@[j] == spec_rel32_at(b@, j),
        decreases n - k,
    {
        proof {
            assert(k * 8 + 8 <= len) by (nonlinear_arith)
                requires
                    k < n && n * 8 == len,
            ;
        }
        let base = k * 8;
        v.push(Rel { offset: read_u32(b, base), info: read_u32(b, base + 4) });
        k = k + 1;
    }
    proof {
        assert(v@ =~= spec_rel32_array(b@));
    }
    Ok(v)
}

/// Decodes a payload that is an array of 64-bit `Rel` records.
pub fn parse_rel64_array(b: &[u8]) -> (r: Result<Vec<Rel<u64>>, ParseError>)
    ensures
        r is Ok <==> b@.len() % 16 == 0,
        r matches Ok(v) ==> v@ == spec_rel64_array(b@),
        r is Err ==> r == Err::<Vec<Rel<u64>>, ParseError>(ParseError::BufferTooShort),
{
    let len = b.len();
    if len % 16 != 0 {
        return Err(ParseError::BufferTooShort);
    }
    let n = len / 16;
    proof {
        assert(n * 16 == len) by (nonlinear_arith)
            requires
                n == len / 16 && len % 16 == 0,
        ;
    }
    let mut v: Vec<Rel<u64>> = Vec::new();
    let mut k: usize = 0;
    while k < n
        invariant
            len == b@.len(),
            n * 16 == len,
            k <= n,
            v@.len() == k,
            forall|j: int| 0 <= j < k ==> v@[j] == spec_rel64_at(b@, j),
        decreases n - k,
    {
        proof {
            assert(k * 16 + 16 <= len) by (nonlinear_arith)
                requires
                    k < n && n * 16 == len,
            ;
        }
        let base = k * 16;
        v.push(Rel { offset: read_u64(b, base), info: read_u64(b, base + 8) });
        k = k + 1;
    }
    proof {
        assert(v@ =~= spec_rel64_array(b@));
    }
    Ok(v)
}

/// Decodes a payload that is an array of 32-bit dynamic entries.
pub fn parse_dyn32_array(b: &[u8]) -> (r: Result<Vec<Dynamic<u32>>, ParseError>)
    ensures
        r is Ok <==> b@.len() % 8 == 0,
        r matches Ok(v) ==> v@ == spec_dyn32_array(b@),
        r is Err ==> r == Err::<Vec<Dynamic<u32>>, ParseError>(ParseError::BufferTooShort),
{
    let len = b.len();
    if len % 8 != 0 {
        return Err(ParseError::BufferTooShort);
    }
    let n = len / 8;
    proof {
        assert(n * 8 == len) by (nonlinear_arith)
            requires
                n == len / 8 && len % 8 == 0,
        ;
    }
    let mut v: Vec<Dynamic<u32>> = Vec::new();
    let mut k: usize = 0;
    while k < n
        invariant
            len == b@.len(),
            n * 8 == len,
            k <= n,
            v@.len() == k,
            forall|j: int| 0 <= j < k ==> v@[j] == spec_dyn32_at(b@, j),
        decreases n - k,
    {
        proof {
            assert(k * 8 + 8 <= len) by (nonlinear_arith)
                requires
                    k < n && n * 8 == len,
            ;
        }
        let base = k * 8;
        v.push(Dynamic { tag: read_u32(b, base), val: read_u32(b, base + 4) });
        k = k + 1;
    }
    proof {
        assert(v@ =~= spec_dyn32_array(b@));
    }
    Ok(v)
}

/// Decodes a payload that is an array of 64-bit dynamic entries.
pub fn parse_dyn64_array(b: &[u8]) -> (r: Result<Vec<Dynamic<u64>>, ParseError>)
    ensures
        r is Ok <==> b@.len() % 16 == 0,
        r matches Ok(v) ==> v@ == spec_dyn64_array(b@),
        r is Err ==> r == Err::<Vec<Dynamic<u64>>, ParseError>(ParseError::BufferTooShort),
{
    let len = b.len();
    if len % 16 != 0 {
        return Err(ParseError::BufferTooShort);
    }
    let n = len / 16;
    proof {
        assert(n * 16 == len) by (nonlinear_arith)
            requires
                n == len / 16 && len % 16 == 0,
        ;
    }
    let mut v: Vec<Dynamic<u64>> = Vec::new();
    let mut k: usize = 0;
    while k < n
        invariant
            len == b@.len(),
            n * 16 == len,
            k <= n,
            v@.len() == k,
            forall|j: int| 0 <= j < k ==> v@[j] == spec_dyn64_at(b@, j),
        decreases n - k,
    {
        proof {
            assert(k * 16 + 16 <= len) by (nonlinear_arith)
                requires
                    k < n && n * 16 == len,
            ;
        }
        let base = k * 16;
        v.push(Dynamic { tag: read_u64(b, base), val: read_u64(b, base + 8) });
        k = k + 1;
    }
    proof {
        assert(v@ =~= spec_dyn64_array(b@));
    }
    Ok(v)
}

/// Decodes a payload that is an array of 32-bit symbol-table entries.
pub fn parse_sym32_array(b: &[u8]) -> (r: Result<Vec<Entry32>, ParseError>)
    ensures
        r is Ok <==> b@.len() % 16 == 0,
        r matches Ok(v) ==> v@ == spec_sym32_array(b@),
        r is Err ==> r == Err::<Vec<Entry32>, ParseError>(ParseError::BufferTooShort),
{
    let len = b.len();
    if len % 16 != 0 {
        return Err(ParseError::BufferTooShort);
    }
    let n = len / 16;
    proof {
        assert(n * 16 == len) by (nonlinear_arith)
            requires
                n == len / 16 && len % 16 == 0,
        ;
    }
    let mut v: Vec<Entry32> = Vec::new();
    let mut k: usize = 0;
    while k < n
        invariant
            len == b@.len(),
            n * 16 == len,
            k <= n,
            v@.len() == k,
            forall|j: int| 0 <= j < k ==> v@[j] == spec_sym32_at(b@, j),
        decreases n - k,
    {
        proof {
            assert(k * 16 + 16 <= len) by (nonlinear_arith)
                requires
                    k < n && n * 16 == len,
            ;
        }
        let base = k * 16;
        v.push(
            Entry32 {
                name: read_u32(b, base),
                value: read_u32(b, base + 4),
                size: read_u32(b, base + 8),
                info: *slice_index_get(b, base + 12),
                other: *slice_index_get(b, base + 13),
                shndx: read_u16(b, base + 14),
            },
        );
        k = k + 1;
    }
    proof {
        assert(v@ =~= spec_sym32_array(b@));
    }
    Ok(v)
}

/// Decodes a payload that is an array of 64-bit symbol-table entries.
pub fn parse_sym64_array(b: &[u8]) -> (r: Result<Vec<Entry64>, ParseError>)
    ensures
        r is Ok <==> b@.len() % 24 == 0,
        r matches Ok(v) ==> v@ == spec_sym64_array(b@),
        r is Err ==> r == Err::<Vec<Entry64>, ParseError>(ParseError::BufferTooShort),
{
    let len = b.len();
    if len % 24 != 0 {
        return Err(ParseError::BufferTooShort);
    }
    let n = len / 24;
    proof {
        assert(n * 24 == len) by (nonlinear_arith)
            requires
                n == len / 24 && len % 24 == 0,
        ;
    }
    let mut v: Vec<Entry64> = Vec::new();
    let mut k: usize = 0;
    while k < n
        invariant
            len == b@.len(),
            n * 24 == len,
            k <= n,
            v@.len() == k,
            forall|j: int| 0 <= j < k ==> v@[j] == spec_sym64_at(b@, j),
        decreases n - k,
    {
        proof {
            assert(k * 24 + 24 <= len) by (nonlinear_arith)
                requires
                    k < n && n * 24 == len,
            ;
        }
        let base = k * 24;
        v.push(
            Entry64 {
                name: read_u32(b, base),
                info: *slice_index_get(b, base + 4),
                other: *slice_index_get(b, base + 5),
                shndx: read_u16(b, base + 6),
                value: read_u64(b, base + 8),
                size: read_u64(b, base + 16),
            },
        );
        k = k + 1;
    }
    proof {
        assert(v@ =~= spec_sym64_array(b@));
    }
    Ok(v)
}

/// Decodes a payload that is an array of 32-bit dynamic-symbol entries.
pub fn parse_dynsym32_array(b: &[u8]) -> (r: Result<Vec<DynEntry32>, ParseError>)
    ensures
        r is Ok <==> b@.len() % 16 == 0,
        r matches Ok(v) ==> v@ == spec_dynsym32_array(b@),
        r is Err ==> r == Err::<Vec<DynEntry32>, ParseError>(ParseError::BufferTooShort),
{
    let len = b.len();
    if len % 16 != 0 {
        return Err(ParseError::BufferTooShort);
    }
    let n = len / 16;
    proof {
        assert(n * 16 == len) by (nonlinear_arith)
            requires
                n == len / 16 && len % 16 == 0,
        ;
    }
    let mut v: Vec<DynEntry32> = Vec::new();
    let mut k: usize = 0;
    while k < n
        invariant
            len == b@.len(),
            n * 16 == len,
            k <= n,
            v@.len() == k,
            forall|j: int| 0 <= j < k ==> v@[j] == spec_dynsym32_at(b@, j),
        decreases n - k,
    {
        proof {
            assert(k * 16 + 16 <= len) by (nonlinear_arith)
                requires
                    k < n && n * 16 == len,
            ;
        }
        let base = k * 16;
        v.push(
            DynEntry32 {
                name: read_u32(b, base),
                value: read_u32(b, base + 4),
                size: read_u32(b, base + 8),
                info: *slice_index_get(b, base + 12),
                other: *slice_index_get(b, base + 13),
                shndx: read_u16(b, base + 14),
            },
        );
        k = k + 1;
    }
    proof {
        assert(v@ =~= spec_dynsym32_array(b@));
    }
    Ok(v)
}

/// Decodes a payload that is an array of 64-bit dynamic-symbol entries.
pub fn parse_dynsym64_array(b: &[u8]) -> (r: Result<Vec<DynEntry64>, ParseError>)
    ensures
        r is Ok <==> b@.len() % 24 == 0,
        r matches Ok(v) ==> v@ == spec_dynsym64_array(b@),
        r is Err ==> r == Err::<Vec<DynEntry64>, ParseError>(ParseError::BufferTooShort),
{
    let len = b.len();
    if len % 24 != 0 {
        return Err(ParseError::BufferTooShort);
    }
    let n = len / 24;
    proof {
        assert(n * 24 == len) by (nonlinear_arith)
            requires
                n == len / 24 && len % 24 == 0,
        ;
    }
    let mut v: Vec<DynEntry64> = Vec::new();
    let mut k: usize = 0;
    while k < n
        invariant
            len == b@.len(),
            n * 24 == len,
            k <= n,
            v@.len() == k,
            forall|j: int| 0 <= j < k ==> v@[j] == spec_dynsym64_at(b@, j),
        decreases n - k,
    {
        proof {
            assert(k * 24 + 24 <= len) by (nonlinear_arith)
                requires
                    k < n && n * 24 == len,
            ;
        }
        let base = k * 24;
        v.push(
            DynEntry64 {
                name: read_u32(b, base),
                info: *slice_index_get(b, base + 4),
                other: *slice_index_get(b, base + 5),
                shndx: read_u16(b, base + 6),
                value: read_u64(b, base + 8),
                size: read_u64(b, base + 16),
            },
        );
        k = k + 1;
    }
    proof {
        assert(v@ =~= spec_dynsym64_array(b@));
    }
    Ok(v)
}

/// The hash-table header stored in the first 12 bytes of a payload.
pub open spec fn spec_hash_table(b: Seq<u8>) -> HashTable {
    HashTable { bucket_count: le32(b, 0), chain_count: le32(b, 4), first_bucket: le32(b, 8) }
}

/// Decodes the fixed hash-table header at the start of a payload.
pub fn parse_hash_table(b: &[u8]) -> (r: HashTable)
    requires
        b@.len() >= 12,
    ensures
        r == spec_hash_table(b@),
{
    let _len = b.len();
    HashTable { bucket_count: read_u32(b, 0), chain_count: read_u32(b, 4), first_bucket: read_u32(b, 8) }
}

} // verus!
