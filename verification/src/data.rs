//! The section-data materializer: turning a header's raw byte window
//! into the typed payload its classified type calls for.

use vstd::prelude::*;
use vstd::slice::slice_subrange;
use crate::bytes::le32;
use crate::bytes::read_u32;
use crate::entries::parse_dyn32_array;
use crate::entries::parse_dyn64_array;
use crate::entries::parse_dynsym32_array;
use crate::entries::parse_dynsym64_array;
use crate::entries::parse_hash_table;
use crate::entries::parse_rel32_array;
use crate::entries::parse_rel64_array;
use crate::entries::parse_rela32_array;
use crate::entries::parse_rela64_array;
use crate::entries::parse_sym32_array;
use crate::entries::parse_sym64_array;
use crate::entries::parse_u32_array;
use crate::entries::parse_u64_array;
use crate::entries::spec_dyn32_array;
use crate::entries::spec_dyn64_array;
use crate::entries::spec_dynsym32_array;
use crate::entries::spec_dynsym64_array;
use crate::entries::spec_hash_table;
use crate::entries::spec_rel32_array;
use crate::entries::spec_rel64_array;
use crate::entries::spec_rela32_array;
use crate::entries::spec_rela64_array;
use crate::entries::spec_sym32_array;
use crate::entries::spec_sym64_array;
use crate::entries::spec_u32_array;
use crate::entries::spec_u64_array;
use crate::entries::Dynamic;
use crate::entries::DynEntry32;
use crate::entries::DynEntry64;
use crate::entries::Entry32;
use crate::entries::Entry64;
use crate::entries::HashTable;
use crate::entries::Rel;
use crate::entries::Rela;
use crate::error::ParseError;
use crate::file::Class;
use crate::file::ElfFile;
use crate::header::SectionHeader;
use crate::note::parse_note_header;
use crate::note::spec_note_header;
use crate::note::NoteHeader;
use crate::shtype::classify;
use crate::shtype::ShType;

verus! {

// Group flags.
pub const GRP_COMDAT: u64 = 0x1;

pub const GRP_MASKOS: u64 = 0x0ff00000;

pub const GRP_MASKPROC: u64 = 0xf0000000;

/// A section's typed payload.  Raw byte payloads borrow the file buffer;
/// record arrays are decoded into owned vectors.
#[derive(Debug)]
pub enum SectionData<'a> {
    Empty,
    Undefined(&'a [u8]),
    Group { flags: u32, indicies: Vec<u32> },
    StrArray(&'a [u8]),
    FnArray32(Vec<u32>),
    FnArray64(Vec<u64>),
    SymbolTable32(Vec<Entry32>),
    SymbolTable64(Vec<Entry64>),
    DynSymbolTable32(Vec<DynEntry32>),
    DynSymbolTable64(Vec<DynEntry64>),
    SymTabShIndex(Vec<u32>),
    Note64(NoteHeader, &'a [u8]),
    Rela32(Vec<Rela<u32>>),
    Rela64(Vec<Rela<u64>>),
    Rel32(Vec<Rel<u32>>),
    Rel64(Vec<Rel<u64>>),
    Dynamic32(Vec<Dynamic<u32>>),
    Dynamic64(Vec<Dynamic<u64>>),
    HashTable(HashTable),
}

/// The payload shapes, one name per `SectionData` variant.
pub enum DataShape {
    Empty,
    Undefined,
    Group,
    StrArray,
    FnArray32,
    FnArray64,
    SymbolTable32,
    SymbolTable64,
    DynSymbolTable32,
    DynSymbolTable64,
    SymTabShIndex,
    Note64,
    Rela32,
    Rela64,
    Rel32,
    Rel64,
    Dynamic32,
    Dynamic64,
    HashTable,
}

/// The shape of a payload value.
pub open spec fn shape(d: SectionData) -> DataShape {
    match d {
        SectionData::Empty => DataShape::Empty,
        SectionData::Undefined(_) => DataShape::Undefined,
        SectionData::Group { .. } => DataShape::Group,
        SectionData::StrArray(_) => DataShape::StrArray,
        SectionData::FnArray32(_) => DataShape::FnArray32,
        SectionData::FnArray64(_) => DataShape::FnArray64,
        SectionData::SymbolTable32(_) => DataShape::SymbolTable32,
        SectionData::SymbolTable64(_) => DataShape::SymbolTable64,
        SectionData::DynSymbolTable32(_) => DataShape::DynSymbolTable32,
        SectionData::DynSymbolTable64(_) => DataShape::DynSymbolTable64,
        SectionData::SymTabShIndex(_) => DataShape::SymTabShIndex,
        SectionData::Note64(_, _) => DataShape::Note64,
        SectionData::Rela32(_) => DataShape::Rela32,
        SectionData::Rela64(_) => DataShape::Rela64,
        SectionData::Rel32(_) => DataShape::Rel32,
        SectionData::Rel64(_) => DataShape::Rel64,
        SectionData::Dynamic32(_) => DataShape::Dynamic32,
        SectionData::Dynamic64(_) => DataShape::Dynamic64,
        SectionData::HashTable(_) => DataShape::HashTable,
    }
}

/// The one payload shape each classified type materializes to at the
/// given width.  The match is total: every kind has exactly one shape.
pub open spec fn shape_of(t: ShType, c: Class) -> DataShape {
    match t {
        ShType::Null => DataShape::Empty,
        ShType::NoBits => DataShape::Empty,
        ShType::ProgBits => DataShape::Undefined,
        ShType::ShLib => DataShape::Undefined,
        ShType::OsSpecific(_) => DataShape::Undefined,
        ShType::ProcessorSpecific(_) => DataShape::Undefined,
        ShType::User(_) => DataShape::Undefined,
        ShType::SymTab => match c {
            Class::ThirtyTwo => DataShape::SymbolTable32,
            Class::SixtyFour => DataShape::SymbolTable64,
        },
        ShType::DynSym => match c {
            Class::ThirtyTwo => DataShape::DynSymbolTable32,
            Class::SixtyFour => DataShape::DynSymbolTable64,
        },
        ShType::StrTab => DataShape::StrArray,
        ShType::InitArray => match c {
            Class::ThirtyTwo => DataShape::FnArray32,
            Class::SixtyFour => DataShape::FnArray64,
        },
        ShType::FiniArray => match c {
            Class::ThirtyTwo => DataShape::FnArray32,
            Class::SixtyFour => DataShape::FnArray64,
        },
        ShType::PreInitArray => match c {
            Class::ThirtyTwo => DataShape::FnArray32,
            Class::SixtyFour => DataShape::FnArray64,
        },
        ShType::Rela => match c {
            Class::ThirtyTwo => DataShape::Rela32,
            Class::SixtyFour => DataShape::Rela64,
        },
        ShType::Rel => match c {
            Class::ThirtyTwo => DataShape::Rel32,
            Class::SixtyFour => DataShape::Rel64,
        },
        ShType::Dynamic => match c {
            Class::ThirtyTwo => DataShape::Dynamic32,
            Class::SixtyFour => DataShape::Dynamic64,
        },
        ShType::Group => DataShape::Group,
        ShType::SymTabShIndex => DataShape::SymTabShIndex,
        ShType::Note => DataShape::Note64,
        ShType::Hash => DataShape::HashTable,
    }
}

/// Whether a payload of `n` bytes divides into whole records of the kind
/// and width given, with any fixed leading part accounted for.
pub open spec fn len_ok(t: ShType, c: Class, n: int) -> bool {
    match t {
        ShType::SymTab => match c {
            Class::ThirtyTwo => n % 16 == 0,
            Class::SixtyFour => n % 24 == 0,
        },
        ShType::DynSym => match c {
            Class::ThirtyTwo => n % 16 == 0,
            Class::SixtyFour => n % 24 == 0,
        },
        ShType::InitArray | ShType::FiniArray | ShType::PreInitArray => match c {
            Class::ThirtyTwo => n % 4 == 0,
            Class::SixtyFour => n % 8 == 0,
        },
        ShType::Rela => match c {
            Class::ThirtyTwo => n % 12 == 0,
            Class::SixtyFour => n % 24 == 0,
        },
        ShType::Rel => match c {
            Class::ThirtyTwo => n % 8 == 0,
            Class::SixtyFour => n % 16 == 0,
        },
        ShType::Dynamic => match c {
            Class::ThirtyTwo => n % 8 == 0,
            Class::SixtyFour => n % 16 == 0,
        },
        ShType::Group => n >= 4 && (n - 4) % 4 == 0,
        ShType::SymTabShIndex => n % 4 == 0,
        ShType::Note => n >= 12,
        ShType::Hash => n >= 12,
        _ => true,
    }
}

/// The payload `d` is exactly what the raw bytes `raw` hold for a section
/// of kind `t` in a file of width `c`.
pub open spec fn data_ok(d: SectionData, t: ShType, c: Class, raw: Seq<u8>) -> bool {
    match t {
        ShType::Null | ShType::NoBits => d matches SectionData::Empty,
        ShType::ProgBits | ShType::ShLib | ShType::OsSpecific(_) | ShType::ProcessorSpecific(_)
            | ShType::User(_) => d matches SectionData::Undefined(v) && v@ == raw,
        ShType::SymTab => match c {
            Class::ThirtyTwo => d matches SectionData::SymbolTable32(v) && v@ == spec_sym32_array(
                raw,
            ),
            Class::SixtyFour => d matches SectionData::SymbolTable64(v) && v@ == spec_sym64_array(
                raw,
            ),
        },
        ShType::DynSym => match c {
            Class::ThirtyTwo => d matches SectionData::DynSymbolTable32(v) && v@
                == spec_dynsym32_array(raw),
            Class::SixtyFour => d matches SectionData::DynSymbolTable64(v) && v@
                == spec_dynsym64_array(raw),
        },
        ShType::StrTab => d matches SectionData::StrArray(v) && v@ == raw,
        ShType::InitArray | ShType::FiniArray | ShType::PreInitArray => match c {
            Class::ThirtyTwo => d matches SectionData::FnArray32(v) && v@ == spec_u32_array(raw),
            Class::SixtyFour => d matches SectionData::FnArray64(v) && v@ == spec_u64_array(raw),
        },
        ShType::Rela => match c {
            Class::ThirtyTwo => d matches SectionData::Rela32(v) && v@ == spec_rela32_array(raw),
            Class::SixtyFour => d matches SectionData::Rela64(v) && v@ == spec_rela64_array(raw),
        },
        ShType::Rel => match c {
            Class::ThirtyTwo => d matches SectionData::Rel32(v) && v@ == spec_rel32_array(raw),
            Class::SixtyFour => d matches SectionData::Rel64(v) && v@ == spec_rel64_array(raw),
        },
        ShType::Dynamic => match c {
            Class::ThirtyTwo => d matches SectionData::Dynamic32(v) && v@ == spec_dyn32_array(raw),
            Class::SixtyFour => d matches SectionData::Dynamic64(v) && v@ == spec_dyn64_array(raw),
        },
        ShType::Group => d matches SectionData::Group { flags, indicies } && flags == le32(raw, 0)
            && indicies@ == spec_u32_array(raw.subrange(4, raw.len() as int)),
        ShType::SymTabShIndex => d matches SectionData::SymTabShIndex(v) && v@ == spec_u32_array(
            raw,
        ),
        ShType::Note => c == Class::SixtyFour && (d matches SectionData::Note64(h, tr) && h
            == spec_note_header(raw) && tr@ == raw.subrange(12, raw.len() as int)),
        ShType::Hash => d matches SectionData::HashTable(h) && h == spec_hash_table(raw),
    }
}

/// A well-materialized payload has exactly the one shape its section kind
/// dispatches to: the materializer's type-to-variant mapping is total and
/// deterministic.
pub proof fn lemma_materializer_total(d: SectionData, t: ShType, c: Class, raw: Seq<u8>)
    requires
        data_ok(d, t, c, raw),
    ensures
        shape(d) == shape_of(t, c),
{
}

impl SectionHeader {
    /// Materializes the section's payload from its raw byte window.
    ///
    /// The classified type picks the payload shape; the bytes are decoded
    /// into that shape or the malformed window is reported.
    pub fn get_data<'a>(&self, elf_file: &'a ElfFile) -> (r: Result<SectionData<'a>, ParseError>)
        ensures
            ({
                let c = elf_file.header.class;
                let b = elf_file.input@;
                let off = self@.offset as int;
                let sz = self@.size as int;
                match classify(self@.type_code) {
                    Err(e) => r matches Err(x) && x == e,
                    Ok(t) => {
                        if t == ShType::Null || t == ShType::NoBits {
                            r matches Ok(d) && d matches SectionData::Empty
                        } else if off + sz > b.len() {
                            r matches Err(x) && x == ParseError::BufferTooShort
                        } else if t == ShType::Note && c == Class::ThirtyTwo {
                            r matches Err(x) && x == ParseError::UnsupportedNoteWidth
                        } else if !len_ok(t, c, sz) {
                            r matches Err(x) && x == ParseError::BufferTooShort
                        } else {
                            r matches Ok(d) && data_ok(d, t, c, b.subrange(off, off + sz))
                        }
                    },
                }
            }),
    {
        let t = match self.get_type() {
            Ok(t) => t,
            Err(e) => {
                return Err(e);
            },
        };
        match t {
            ShType::Null | ShType::NoBits => Ok(SectionData::Empty),
            _ => {
                let data = match self.raw_data(elf_file) {
                    Ok(d) => d,
                    Err(e) => {
                        return Err(e);
                    },
                };
                match t {
                    ShType::Null | ShType::NoBits => Ok(SectionData::Empty),
                    ShType::ProgBits | ShType::ShLib | ShType::OsSpecific(_)
                        | ShType::ProcessorSpecific(_) | ShType::User(_) => Ok(
                        SectionData::Undefined(data),
                    ),
                    ShType::SymTab => match elf_file.header.class {
                        Class::ThirtyTwo => match parse_sym32_array(data) {
                            Ok(v) => Ok(SectionData::SymbolTable32(v)),
                            Err(e) => Err(e),
                        },
                        Class::SixtyFour => match parse_sym64_array(data) {
                            Ok(v) => Ok(SectionData::SymbolTable64(v)),
                            Err(e) => Err(e),
                        },
                    },
                    ShType::DynSym => match elf_file.header.class {
                        Class::ThirtyTwo => match parse_dynsym32_array(data) {
                            Ok(v) => Ok(SectionData::DynSymbolTable32(v)),
                            Err(e) => Err(e),
                        },
                        Class::SixtyFour => match parse_dynsym64_array(data) {
                            Ok(v) => Ok(SectionData::DynSymbolTable64(v)),
                            Err(e) => Err(e),
                        },
                    },
                    ShType::StrTab => Ok(SectionData::StrArray(data)),
                    ShType::InitArray | ShType::FiniArray | ShType::PreInitArray => match elf_file
                        .header
                        .class {
                        Class::ThirtyTwo => match parse_u32_array(data) {
                            Ok(v) => Ok(SectionData::FnArray32(v)),
                            Err(e) => Err(e),
                        },
                        Class::SixtyFour => match parse_u64_array(data) {
                            Ok(v) => Ok(SectionData::FnArray64(v)),
                            Err(e) => Err(e),
                        },
                    },
                    ShType::Rela => match elf_file.header.class {
                        Class::ThirtyTwo => match parse_rela32_array(data) {
                            Ok(v) => Ok(SectionData::Rela32(v)),
                            Err(e) => Err(e),
                        },
                        Class::SixtyFour => match parse_rela64_array(data) {
                            Ok(v) => Ok(SectionData::Rela64(v)),
                            Err(e) => Err(e),
                        },
                    },
                    ShType::Rel => match elf_file.header.class {
                        Class::ThirtyTwo => match parse_rel32_array(data) {
                            Ok(v) => Ok(SectionData::Rel32(v)),
                            Err(e) => Err(e),
                        },
                        Class::SixtyFour => match parse_rel64_array(data) {
                            Ok(v) => Ok(SectionData::Rel64(v)),
                            Err(e) => Err(e),
                        },
                    },
                    ShType::Dynamic => match elf_file.header.class {
                        Class::ThirtyTwo => match parse_dyn32_array(data) {
                            Ok(v) => Ok(SectionData::Dynamic32(v)),
                            Err(e) => Err(e),
                        },
                        Class::SixtyFour => match parse_dyn64_array(data) {
                            Ok(v) => Ok(SectionData::Dynamic64(v)),
                            Err(e) => Err(e),
                        },
                    },
                    ShType::Group => {
                        if data.len() < 4 {
                            return Err(ParseError::BufferTooShort);
                        }
                        let flags = read_u32(data, 0);
                        let rest = slice_subrange(data, 4, data.len());
                        match parse_u32_array(rest) {
                            Ok(v) => Ok(SectionData::Group { flags, indicies: v }),
                            Err(e) => Err(e),
                        }
                    },
                    ShType::SymTabShIndex => match parse_u32_array(data) {
                        Ok(v) => Ok(SectionData::SymTabShIndex(v)),
                        Err(e) => Err(e),
                    },
                    ShType::Note => match elf_file.header.class {
                        Class::ThirtyTwo => Err(ParseError::UnsupportedNoteWidth),
                        Class::SixtyFour => {
                            if data.len() < 12 {
                                return Err(ParseError::BufferTooShort);
                            }
                            let h = parse_note_header(data);
                            let trail = slice_subrange(data, 12, data.len());
                            Ok(SectionData::Note64(h, trail))
                        },
                    },
                    ShType::Hash => {
                        if data.len() < 12 {
                            return Err(ParseError::BufferTooShort);
                        }
                        Ok(SectionData::HashTable(parse_hash_table(data)))
                    },
                }
            },
        }
    }
}

} // verus!
