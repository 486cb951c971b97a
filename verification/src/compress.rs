//! Compressed-section headers and the classification of compression
//! type codes.

use vstd::prelude::*;
use crate::bytes::le32;
use crate::bytes::le64;
use crate::bytes::read_u32;
use crate::bytes::read_u64;
use crate::error::ParseError;

verus! {

// Boundaries of the open compression type-code ranges.
pub const COMPRESS_LOOS: u32 = 0x60000000;

pub const COMPRESS_HIOS: u32 = 0x6fffffff;

pub const COMPRESS_LOPROC: u32 = 0x70000000;

pub const COMPRESS_HIPROC: u32 = 0x7fffffff;

/// A raw, unclassified compression type code as stored on disk.
#[derive(Clone, Copy, Debug, PartialEq, Eq, Structural)]
pub struct CompressionType_(pub u32);

/// The known compression kinds plus the two open ranges, which carry the
/// raw code.
#[derive(Clone, Copy, Debug, PartialEq, Eq, Structural)]
pub enum CompressionType {
    Zlib,
    OsSpecific(u32),
    ProcessorSpecific(u32),
}

/// Total classification of a raw compression code; every code outside
/// the defined sets is a recoverable error.
pub open spec fn classify_compression(code: u32) -> Result<CompressionType, ParseError> {
    if code == 1 {
        Ok(CompressionType::Zlib)
    } else if COMPRESS_LOOS <= code && code <= COMPRESS_HIOS {
        Ok(CompressionType::OsSpecific(code))
    } else if COMPRESS_LOPROC <= code && code <= COMPRESS_HIPROC {
        Ok(CompressionType::ProcessorSpecific(code))
    } else {
        Err(ParseError::InvalidTypeCode(code))
    }
}

impl CompressionType_ {
    /// Classifies the raw code; undefined codes are a recoverable error.
    pub fn as_compression_type(&self) -> (r: Result<CompressionType, ParseError>)
        ensures
            r == classify_compression(self.0),
    {
        let code = self.0;
        if code == 1 {
            Ok(CompressionType::Zlib)
        } else if COMPRESS_LOOS <= code && code <= COMPRESS_HIOS {
            Ok(CompressionType::OsSpecific(code))
        } else if COMPRESS_LOPROC <= code && code <= COMPRESS_HIPROC {
            Ok(CompressionType::ProcessorSpecific(code))
        } else {
            Err(ParseError::InvalidTypeCode(code))
        }
    }
}

/// Every code outside the defined compression sets is rejected rather
/// than mapped to a wrong kind.
pub proof fn lemma_undefined_compression_rejected(code: u32)
    requires
        code != 1,
        !(COMPRESS_LOOS <= code && code <= COMPRESS_HIPROC),
    ensures
        classify_compression(code) == Err::<CompressionType, ParseError>(
            ParseError::InvalidTypeCode(code),
        ),
{
}

/// The compressed-section header of a 64-bit file: type, a reserved
/// word, then 64-bit size and alignment.
#[derive(Clone, Copy, Debug)]
pub struct CompressionHeader64 {
    pub type_: CompressionType_,
    pub _reserved: u32,
    pub size: u64,
    pub align: u64,
}

/// The compressed-section header of a 32-bit file: type, then 32-bit
/// size and alignment.
#[derive(Clone, Copy, Debug)]
pub struct CompressionHeader32 {
    pub type_: CompressionType_,
    pub size: u32,
    pub align: u32,
}

/// The 64-bit compression header stored in the first 24 bytes.
pub open spec fn spec_compression_header64(b: Seq<u8>) -> CompressionHeader64 {
    CompressionHeader64 {
        type_: CompressionType_(le32(b, 0)),
        _reserved: le32(b, 4),
        size: le64(b, 8),
        align: le64(b, 16),
    }
}

/// The 32-bit compression header stored in the first 12 bytes.
pub open spec fn spec_compression_header32(b: Seq<u8>) -> CompressionHeader32 {
    CompressionHeader32 { type_: CompressionType_(le32(b, 0)), size: le32(b, 4), align: le32(b, 8) }
}

/// Decodes the compressed-section header at the start of a 64-bit
/// compressed payload.
pub fn parse_compression_header64(b: &[u8]) -> (r: Result<CompressionHeader64, ParseError>)
    ensures
        b@.len() >= 24 ==> (r matches Ok(h) && h == spec_compression_header64(b@)),
        b@.len() < 24 ==> (r matches Err(e) && e == ParseError::BufferTooShort),
{
    let len = b.len();
    if len < 24 {
        return Err(ParseError::BufferTooShort);
    }
    Ok(
        CompressionHeader64 {
            type_: CompressionType_(read_u32(b, 0)),
            _reserved: read_u32(b, 4),
            size: read_u64(b, 8),
            align: read_u64(b, 16),
        },
    )
}

/// Decodes the compressed-section header at the start of a 32-bit
/// compressed payload.
pub fn parse_compression_header32(b: &[u8]) -> (r: Result<CompressionHeader32, ParseError>)
    ensures
        b@.len() >= 12 ==> (r matches Ok(h) && h == spec_compression_header32(b@)),
        b@.len() < 12 ==> (r matches Err(e) && e == ParseError::BufferTooShort),
{
    let len = b.len();
    if len < 12 {
        return Err(ParseError::BufferTooShort);
    }
    Ok(
        CompressionHeader32 {
            type_: CompressionType_(read_u32(b, 0)),
            size: read_u32(b, 4),
            align: read_u32(b, 8),
        },
    )
}

} // verus!
