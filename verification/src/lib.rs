//! Safe, verified decoding of ELF section-header tables.
//!
//! Given a raw byte buffer holding an object file, the crate exposes a
//! width-polymorphic view onto one section-header entry and the typed
//! payload that entry describes: symbol tables, relocation arrays,
//! dynamic-linking entries, hash tables, note records, string tables,
//! section groups and compressed-section headers.  Every byte window is
//! bounds-checked and every accessor returns a recoverable error on
//! malformed input, so adversarial buffers can be rejected without
//! aborting the host process.

pub mod bytes;
pub mod compress;
pub mod data;
pub mod entries;
pub mod error;
pub mod file;
pub mod header;
pub mod note;
pub mod shtype;
pub mod strings;

pub use note::NoteHeader;
pub use strings::SectionStrings;

pub use error::ParseError;
pub use file::Class;
pub use file::ElfFile;
pub use file::HeaderSummary;
pub use file::SHN_ABS;
pub use file::SHN_COMMON;
pub use file::SHN_HIOS;
pub use file::SHN_HIPROC;
pub use file::SHN_HIRESERVE;
pub use file::SHN_LOOS;
pub use file::SHN_LOPROC;
pub use file::SHN_LORESERVE;
pub use file::SHN_UNDEF;
pub use file::SHN_XINDEX;
pub use compress::CompressionHeader32;
pub use compress::CompressionHeader64;
pub use compress::CompressionType;
pub use compress::CompressionType_;
pub use compress::COMPRESS_HIOS;
pub use compress::COMPRESS_HIPROC;
pub use compress::COMPRESS_LOOS;
pub use compress::COMPRESS_LOPROC;
pub use data::SectionData;
pub use data::GRP_COMDAT;
pub use data::GRP_MASKOS;
pub use data::GRP_MASKPROC;
pub use entries::Dynamic;
pub use entries::DynEntry32;
pub use entries::DynEntry64;
pub use entries::Entry32;
pub use entries::Entry64;
pub use entries::HashTable;
pub use entries::Rel;
pub use entries::Rela;
pub use header::parse_section_header;
pub use header::sanity_check;
pub use header::SectionHeader;
pub use header::SectionHeader_;
pub use header::SectionHeaderView;
pub use header::SectionIter;
pub use shtype::SHT_HIOS;
pub use shtype::SHT_HIPROC;
pub use shtype::SHT_HIUSER;
pub use shtype::SHT_LOOS;
pub use shtype::SHT_LOPROC;
pub use shtype::SHT_LOUSER;
pub use shtype::ShType;
pub use shtype::ShType_;
pub use bytes::le16;
pub use bytes::le32;
pub use bytes::le64;
