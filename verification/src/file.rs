//! The file-level context a section lookup needs: the raw buffer and a
//! summary of the fields of the file header that locate the section table.

use vstd::prelude::*;

verus! {

// Distinguished section indices.
pub const SHN_UNDEF: u16 = 0;

pub const SHN_LORESERVE: u16 = 0xff00;

pub const SHN_LOPROC: u16 = 0xff00;

pub const SHN_HIPROC: u16 = 0xff1f;

pub const SHN_LOOS: u16 = 0xff20;

pub const SHN_HIOS: u16 = 0xff3f;

pub const SHN_ABS: u16 = 0xfff1;

pub const SHN_COMMON: u16 = 0xfff2;

pub const SHN_XINDEX: u16 = 0xffff;

pub const SHN_HIRESERVE: u16 = 0xffff;

/// The word width of the file: 32-bit or 64-bit records.
#[derive(Clone, Copy, Debug, PartialEq, Eq, Structural)]
pub enum Class {
    ThirtyTwo,
    SixtyFour,
}

/// What the decoder reads from the file header: word width, where the
/// section table lies, how large each entry is, how many entries there
/// are, and which section holds the section names.
#[derive(Clone, Copy, Debug, PartialEq, Eq, Structural)]
pub struct HeaderSummary {
    pub class: Class,
    pub sh_offset: u64,
    pub sh_entry_size: u16,
    pub sh_count: u16,
    pub sh_str_index: u16,
}

/// An object file held in memory: the raw bytes and the header summary.
///
/// The buffer is adversarial; nothing here is trusted until an accessor
/// has bounds-checked the window it reads.
pub struct ElfFile {
    pub input: Vec<u8>,
    pub header: HeaderSummary,
}

} // verus!
