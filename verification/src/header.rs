//! Section-header records: decoding one table entry and reading its fields.

use vstd::prelude::*;
use vstd::slice::slice_subrange;
use crate::bytes::copy_range;
use crate::bytes::enc32;
use crate::bytes::enc64;
use crate::bytes::find_nul;
use crate::bytes::le32;
use crate::bytes::le64;
use crate::bytes::lemma_find_nul_bounds;
use crate::bytes::lemma_le32_enc32;
use crate::bytes::lemma_le32_subrange;
use crate::bytes::lemma_le64_enc64;
use crate::bytes::lemma_le64_subrange;
use crate::bytes::read_u32;
use crate::bytes::read_u64;
use crate::bytes::scan_nul;
use crate::error::ParseError;
use crate::file::Class;
use crate::file::ElfFile;
use crate::file::HeaderSummary;
use crate::file::SHN_LORESERVE;
use crate::shtype::classify;
use crate::shtype::ShType;
use crate::shtype::ShType_;

verus! {

// Flag bits of the section's 64-bit flag word.
pub const SHF_WRITE: u64 = 0x1;

pub const SHF_ALLOC: u64 = 0x2;

pub const SHF_EXECINSTR: u64 = 0x4;

pub const SHF_MERGE: u64 = 0x10;

pub const SHF_STRINGS: u64 = 0x20;

pub const SHF_INFO_LINK: u64 = 0x40;

pub const SHF_LINK_ORDER: u64 = 0x80;

pub const SHF_OS_NONCONFORMING: u64 = 0x100;

pub const SHF_GROUP: u64 = 0x200;

pub const SHF_TLS: u64 = 0x400;

pub const SHF_COMPRESSED: u64 = 0x800;

pub const SHF_MASKOS: u64 = 0x0ff00000;

pub const SHF_MASKPROC: u64 = 0xf0000000;

/// One section-header entry with the on-disk field layout; `P` is `u32`
/// in a 32-bit file and `u64` in a 64-bit file.
#[derive(Clone, Copy, Debug, PartialEq, Eq, Structural)]
pub struct SectionHeader_<P> {
    pub name: u32,
    pub type_: ShType_,
    pub flags: P,
    pub address: P,
    pub offset: P,
    pub size: P,
    pub link: u32,
    pub info: u32,
    pub align: P,
    pub entry_size: P,
}

/// A decoded entry tagged with the width it was read at.
#[derive(Clone, Copy, Debug, PartialEq, Eq, Structural)]
pub enum SectionHeader {
    Sh32(SectionHeader_<u32>),
    Sh64(SectionHeader_<u64>),
}

/// The width-independent meaning of an entry: every field widened to its
/// largest on-disk representation, plus the width it was read at.
pub struct SectionHeaderView {
    pub class: Class,
    pub name: u32,
    pub type_code: u32,
    pub flags: u64,
    pub address: u64,
    pub offset: u64,
    pub size: u64,
    pub link: u32,
    pub info: u32,
    pub align: u64,
    pub entry_size: u64,
}

impl View for SectionHeader {
    type V = SectionHeaderView;

    open spec fn view(&self) -> SectionHeaderView {
        match self {
            SectionHeader::Sh32(h) => SectionHeaderView {
                class: Class::ThirtyTwo,
                name: h.name,
                type_code: h.type_.0,
                flags: h.flags as u64,
                address: h.address as u64,
                offset: h.offset as u64,
                size: h.size as u64,
                link: h.link,
                info: h.info,
                align: h.align as u64,
                entry_size: h.entry_size as u64,
            },
            SectionHeader::Sh64(h) => SectionHeaderView {
                class: Class::SixtyFour,
                name: h.name,
                type_code: h.type_.0,
                flags: h.flags,
                address: h.address,
                offset: h.offset,
                size: h.size,
                link: h.link,
                info: h.info,
                align: h.align,
                entry_size: h.entry_size,
            },
        }
    }
}

/// The size in bytes of one entry at the given width.
pub open spec fn record_size(c: Class) -> int {
    match c {
        Class::ThirtyTwo => 40,
        Class::SixtyFour => 64,
    }
}

/// The 32-bit record stored in a 40-byte window.
pub open spec fn spec_record32(b: Seq<u8>) -> SectionHeader_<u32> {
    SectionHeader_ {
        name: le32(b, 0),
        type_: ShType_(le32(b, 4)),
        flags: le32(b, 8),
        address: le32(b, 12),
        offset: le32(b, 16),
        size: le32(b, 20),
        link: le32(b, 24),
        info: le32(b, 28),
        align: le32(b, 32),
        entry_size: le32(b, 36),
    }
}

/// The 64-bit record stored in a 64-byte window.
pub open spec fn spec_record64(b: Seq<u8>) -> SectionHeader_<u64> {
    SectionHeader_ {
        name: le32(b, 0),
        type_: ShType_(le32(b, 4)),
        flags: le64(b, 8),
        address: le64(b, 16),
        offset: le64(b, 24),
        size: le64(b, 32),
        link: le32(b, 40),
        info: le32(b, 44),
        align: le64(b, 48),
        entry_size: le64(b, 56),
    }
}

/// The 40-byte encoding of a 32-bit record.
pub open spec fn spec_encode32(h: SectionHeader_<u32>) -> Seq<u8> {
    enc32(h.name) + enc32(h.type_.0) + enc32(h.flags) + enc32(h.address) + enc32(h.offset) + enc32(
        h.size,
    ) + enc32(h.link) + enc32(h.info) + enc32(h.align) + enc32(h.entry_size)
}

/// The 64-byte encoding of a 64-bit record.
pub open spec fn spec_encode64(h: SectionHeader_<u64>) -> Seq<u8> {
    enc32(h.name) + enc32(h.type_.0) + enc64(h.flags) + enc64(h.address) + enc64(h.offset) + enc64(
        h.size,
    ) + enc32(h.link) + enc32(h.info) + enc64(h.align) + enc64(h.entry_size)
}

/// Round trip at width 32: decoding an encoded record reads back exactly
/// the fields that were encoded.
pub proof fn lemma_record32_round_trip(h: SectionHeader_<u32>)
    ensures
        spec_encode32(h).len() == 40,
        spec_record32(spec_encode32(h)) == h,
{
    let e = spec_encode32(h);
    assert(e.subrange(0, 4) =~= enc32(h.name));
    assert(e.subrange(4, 8) =~= enc32(h.type_.0));
    assert(e.subrange(8, 12) =~= enc32(h.flags));
    assert(e.subrange(12, 16) =~= enc32(h.address));
    assert(e.subrange(16, 20) =~= enc32(h.offset));
    assert(e.subrange(20, 24) =~= enc32(h.size));
    assert(e.subrange(24, 28) =~= enc32(h.link));
    assert(e.subrange(28, 32) =~= enc32(h.info));
    assert(e.subrange(32, 36) =~= enc32(h.align));
    assert(e.subrange(36, 40) =~= enc32(h.entry_size));
    lemma_le32_subrange(e, 0);
    lemma_le32_subrange(e, 4);
    lemma_le32_subrange(e, 8);
    lemma_le32_subrange(e, 12);
    lemma_le32_subrange(e, 16);
    lemma_le32_subrange(e, 20);
    lemma_le32_subrange(e, 24);
    lemma_le32_subrange(e, 28);
    lemma_le32_subrange(e, 32);
    lemma_le32_subrange(e, 36);
    lemma_le32_enc32(h.name);
    lemma_le32_enc32(h.type_.0);
    lemma_le32_enc32(h.flags);
    lemma_le32_enc32(h.address);
    lemma_le32_enc32(h.offset);
    lemma_le32_enc32(h.size);
    lemma_le32_enc32(h.link);
    lemma_le32_enc32(h.info);
    lemma_le32_enc32(h.align);
    lemma_le32_enc32(h.entry_size);
}

/// Round trip at width 64: decoding an encoded record reads back exactly
/// the fields that were encoded.
#[verifier::rlimit(100)]
pub proof fn lemma_record64_round_trip(h: SectionHeader_<u64>)
    ensures
        spec_encode64(h).len() == 64,
        spec_record64(spec_encode64(h)) == h,
{
    let e = spec_encode64(h);
    assert(e.subrange(0, 4) =~= enc32(h.name));
    assert(e.subrange(4, 8) =~= enc32(h.type_.0));
    assert(e.subrange(8, 16) =~= enc64(h.flags));
    assert(e.subrange(16, 24) =~= enc64(h.address));
    assert(e.subrange(24, 32) =~= enc64(h.offset));
    assert(e.subrange(32, 40) =~= enc64(h.size));
    assert(e.subrange(40, 44) =~= enc32(h.link));
    assert(e.subrange(44, 48) =~= enc32(h.info));
    assert(e.subrange(48, 56) =~= enc64(h.align));
    assert(e.subrange(56, 64) =~= enc64(h.entry_size));
    lemma_le32_subrange(e, 0);
    lemma_le32_subrange(e, 4);
    lemma_le64_subrange(e, 8);
    lemma_le64_subrange(e, 16);
    lemma_le64_subrange(e, 24);
    lemma_le64_subrange(e, 32);
    lemma_le32_subrange(e, 40);
    lemma_le32_subrange(e, 44);
    lemma_le64_subrange(e, 48);
    lemma_le64_subrange(e, 56);
    lemma_le32_enc32(h.name);
    lemma_le32_enc32(h.type_.0);
    lemma_le64_enc64(h.flags);
    lemma_le64_enc64(h.address);
    lemma_le64_enc64(h.offset);
    lemma_le64_enc64(h.size);
    lemma_le32_enc32(h.link);
    lemma_le32_enc32(h.info);
    lemma_le64_enc64(h.align);
    lemma_le64_enc64(h.entry_size);
}

/// Decodes the 32-bit record held in a 40-byte window.
pub fn parse_record32(b: &[u8]) -> (r: SectionHeader_<u32>)
    requires
        b@.len() == 40,
    ensures
        r == spec_record32(b@),
{
    SectionHeader_ {
        name: read_u32(b, 0),
        type_: ShType_(read_u32(b, 4)),
        flags: read_u32(b, 8),
        address: read_u32(b, 12),
        offset: read_u32(b, 16),
        size: read_u32(b, 20),
        link: read_u32(b, 24),
        info: read_u32(b, 28),
        align: read_u32(b, 32),
        entry_size: read_u32(b, 36),
    }
}

/// Decodes the 64-bit record held in a 64-byte window.
pub fn parse_record64(b: &[u8]) -> (r: SectionHeader_<u64>)
    requires
        b@.len() == 64,
    ensures
        r == spec_record64(b@),
{
    SectionHeader_ {
        name: read_u32(b, 0),
        type_: ShType_(read_u32(b, 4)),
        flags: read_u64(b, 8),
        address: read_u64(b, 16),
        offset: read_u64(b, 24),
        size: read_u64(b, 32),
        link: read_u32(b, 40),
        info: read_u32(b, 44),
        align: read_u64(b, 48),
        entry_size: read_u64(b, 56),
    }
}

/// What `parse_section_header` returns on every input: the reserved-index
/// check, then the window computation, then the width-tagged decode.
pub open spec fn spec_parse_section_header(
    input: Seq<u8>,
    header: HeaderSummary,
    index: u16,
) -> Result<SectionHeader, ParseError> {
    if index >= SHN_LORESERVE {
        Err(ParseError::IndexOutOfRange)
    } else {
        let start = index as int * header.sh_entry_size as int + header.sh_offset as int;
        let end = start + header.sh_entry_size as int;
        if header.sh_entry_size as int != record_size(header.class) || end > input.len() {
            Err(ParseError::BufferTooShort)
        } else {
            match header.class {
                Class::ThirtyTwo => Ok(SectionHeader::Sh32(spec_record32(input.subrange(start, end)))),
                Class::SixtyFour => Ok(SectionHeader::Sh64(spec_record64(input.subrange(start, end)))),
            }
        }
    }
}

/// Decodes the section-header entry at `index`.
///
/// Indices in the reserved range are refused without touching the buffer;
/// a window that overruns the buffer, or an entry size that does not match
/// the file's width, is a `BufferTooShort` error.
pub fn parse_section_header(input: &[u8], header: HeaderSummary, index: u16) -> (r: Result<
    SectionHeader,
    ParseError,
>)
    ensures
        r == spec_parse_section_header(input@, header, index),
{
    if index >= SHN_LORESERVE {
        return Err(ParseError::IndexOutOfRange);
    }
    let rec: u16 = match header.class {
        Class::ThirtyTwo => 40,
        Class::SixtyFour => 64,
    };
    if header.sh_entry_size != rec {
        return Err(ParseError::BufferTooShort);
    }
    let len = input.len();
    let idx_wide: u128 = index as u128;
    let esz_wide: u128 = header.sh_entry_size as u128;
    proof {
        assert(idx_wide * esz_wide <= 0xffff * 0xffff) by (nonlinear_arith)
            requires
                idx_wide <= 0xffff && esz_wide <= 0xffff,
        ;
    }
    let start_wide: u128 = idx_wide * esz_wide + header.sh_offset as u128;
    let end_wide: u128 = start_wide + esz_wide;
    if end_wide > len as u128 {
        return Err(ParseError::BufferTooShort);
    }
    let start = start_wide as usize;
    let end = end_wide as usize;
    let window = slice_subrange(input, start, end);
    match header.class {
        Class::ThirtyTwo => Ok(SectionHeader::Sh32(parse_record32(window))),
        Class::SixtyFour => Ok(SectionHeader::Sh64(parse_record64(window))),
    }
}

/// What `get_name` returns: the bytes of the entry's name, read from the
/// file's designated string-table section up to the NUL terminator.
pub open spec fn spec_get_name(
    input: Seq<u8>,
    header: HeaderSummary,
    view: SectionHeaderView,
) -> Result<Seq<u8>, ParseError> {
    if view.type_code == 0 {
        Err(ParseError::NullSectionHasNoName)
    } else {
        match spec_parse_section_header(input, header, header.sh_str_index) {
            Err(e) => Err(e),
            Ok(tab) => {
                let off = tab@.offset as int;
                let sz = tab@.size as int;
                if tab@.type_code == 0 {
                    Err(ParseError::NullSectionHasNoData)
                } else if off + sz > input.len() {
                    Err(ParseError::BufferTooShort)
                } else {
                    let strtab = input.subrange(off, off + sz);
                    match find_nul(strtab, view.name as int) {
                        None => Err(ParseError::BufferTooShort),
                        Some(q) => Ok(strtab.subrange(view.name as int, q)),
                    }
                }
            },
        }
    }
}

impl SectionHeader {
    /// The raw name offset into the section-name string table.
    pub fn name(&self) -> (r: u32)
        ensures
            r == self@.name,
    {
        match self {
            SectionHeader::Sh32(h) => h.name,
            SectionHeader::Sh64(h) => h.name,
        }
    }

    /// The raw type code of the entry.
    pub fn type_(&self) -> (r: ShType_)
        ensures
            r == ShType_(self@.type_code),
    {
        match self {
            SectionHeader::Sh32(h) => h.type_,
            SectionHeader::Sh64(h) => h.type_,
        }
    }

    /// The flag bits, widened to the 64-bit flag word.
    pub fn flags(&self) -> (r: u64)
        ensures
            r == self@.flags,
    {
        match self {
            SectionHeader::Sh32(h) => h.flags as u64,
            SectionHeader::Sh64(h) => h.flags,
        }
    }

    /// The virtual address, widened.
    pub fn address(&self) -> (r: u64)
        ensures
            r == self@.address,
    {
        match self {
            SectionHeader::Sh32(h) => h.address as u64,
            SectionHeader::Sh64(h) => h.address,
        }
    }

    /// The file offset of the section's bytes, widened.
    pub fn offset(&self) -> (r: u64)
        ensures
            r == self@.offset,
    {
        match self {
            SectionHeader::Sh32(h) => h.offset as u64,
            SectionHeader::Sh64(h) => h.offset,
        }
    }

    /// The size in bytes of the section's contents, widened.
    pub fn size(&self) -> (r: u64)
        ensures
            r == self@.size,
    {
        match self {
            SectionHeader::Sh32(h) => h.size as u64,
            SectionHeader::Sh64(h) => h.size,
        }
    }

    /// The link field: an associated section index.
    pub fn link(&self) -> (r: u32)
        ensures
            r == self@.link,
    {
        match self {
            SectionHeader::Sh32(h) => h.link,
            SectionHeader::Sh64(h) => h.link,
        }
    }

    /// The info field, whose meaning depends on the section type.
    pub fn info(&self) -> (r: u32)
        ensures
            r == self@.info,
    {
        match self {
            SectionHeader::Sh32(h) => h.info,
            SectionHeader::Sh64(h) => h.info,
        }
    }

    /// The required alignment, widened.
    pub fn align(&self) -> (r: u64)
        ensures
            r == self@.align,
    {
        match self {
            SectionHeader::Sh32(h) => h.align as u64,
            SectionHeader::Sh64(h) => h.align,
        }
    }

    /// The per-entry size for sections that hold fixed-size records,
    /// widened.
    pub fn entry_size(&self) -> (r: u64)
        ensures
            r == self@.entry_size,
    {
        match self {
            SectionHeader::Sh32(h) => h.entry_size as u64,
            SectionHeader::Sh64(h) => h.entry_size,
        }
    }

    /// Classifies the entry's type code.
    pub fn get_type(&self) -> (r: Result<ShType, ParseError>)
        ensures
            r == classify(self@.type_code),
    {
        self.type_().as_sh_type()
    }

    /// The byte window `[offset, offset + size)` of the file buffer.
    ///
    /// A Null section yields no data, and a window that overruns the
    /// buffer is refused rather than truncated.
    pub fn raw_data<'a>(&self, elf_file: &'a ElfFile) -> (r: Result<&'a [u8], ParseError>)
        ensures
            match r {
                Ok(d) => self@.type_code != 0 && self@.offset + self@.size
                    <= elf_file.input@.len() && d@ == elf_file.input@.subrange(
                    self@.offset as int,
                    self@.offset + self@.size,
                ),
                Err(e) => (self@.type_code == 0 && e == ParseError::NullSectionHasNoData) || (
                self@.type_code != 0 && self@.offset + self@.size > elf_file.input@.len() && e
                    == ParseError::BufferTooShort),
            },
    {
        if self.type_().0 == 0 {
            return Err(ParseError::NullSectionHasNoData);
        }
        let off = self.offset();
        let sz = self.size();
        let len = elf_file.input.len();
        if off as u128 + sz as u128 > len as u128 {
            return Err(ParseError::BufferTooShort);
        }
        let start = off as usize;
        let end = start + sz as usize;
        Ok(slice_subrange(elf_file.input.as_slice(), start, end))
    }

    /// Looks the entry's name up in the file's section-name string table.
    ///
    /// Null sections have no name; for every other entry the result is
    /// exactly the bytes at the name offset up to the NUL terminator.
    pub fn get_name(&self, elf_file: &ElfFile) -> (r: Result<Vec<u8>, ParseError>)
        ensures
            match r {
                Ok(v) => spec_get_name(elf_file.input@, elf_file.header, self@) == Ok::<
                    Seq<u8>,
                    ParseError,
                >(v@),
                Err(e) => spec_get_name(elf_file.input@, elf_file.header, self@) == Err::<
                    Seq<u8>,
                    ParseError,
                >(e),
            },
    {
        if self.type_().0 == 0 {
            return Err(ParseError::NullSectionHasNoName);
        }
        let tab = match parse_section_header(
            elf_file.input.as_slice(),
            elf_file.header,
            elf_file.header.sh_str_index,
        ) {
            Ok(t) => t,
            Err(e) => return Err(e),
        };
        let data = match tab.raw_data(elf_file) {
            Ok(d) => d,
            Err(e) => return Err(e),
        };
        let name = self.name() as usize;
        match scan_nul(data, name) {
            None => Err(ParseError::BufferTooShort),
            Some(q) => {
                proof {
                    lemma_find_nul_bounds(data@, name as int);
                }
                Ok(copy_range(data, name, q))
            },
        }
    }
}

/// Walks the section table in on-disk order, index 0 upward, stopping at
/// the file's declared section count.
pub struct SectionIter<'a> {
    pub file: &'a ElfFile,
    pub next_index: u16,
}

impl<'a> SectionIter<'a> {
    /// Decodes the next entry, or yields nothing once the declared count
    /// is reached.
    pub fn next(&mut self) -> (r: Option<Result<SectionHeader, ParseError>>)
        ensures
            final(self).file == old(self).file,
            old(self).next_index >= old(self).file.header.sh_count ==> r is None
                && final(self).next_index == old(self).next_index,
            old(self).next_index < old(self).file.header.sh_count ==> final(self).next_index == old(
                self,
            ).next_index + 1 && r == Some(
                spec_parse_section_header(
                    old(self).file.input@,
                    old(self).file.header,
                    old(self).next_index,
                ),
            ),
    {
        let count = self.file.header.sh_count;
        if self.next_index >= count {
            return None;
        }
        let result = parse_section_header(
            self.file.input.as_slice(),
            self.file.header,
            self.next_index,
        );
        self.next_index = self.next_index + 1;
        Some(result)
    }
}

/// A well-formedness check over one decoded header.  No condition beyond
/// what decoding already established is enforced, so every header is
/// accepted; a Null header in particular is always well formed.
pub fn sanity_check(header: SectionHeader, file: &ElfFile) -> (r: Result<(), ParseError>)
    ensures
        r is Ok,
{
    if header.type_().0 == 0 {
        return Ok(());
    }
    Ok(())
}

} // verus!
