//! Classification of raw section type codes.

use vstd::prelude::*;
use crate::error::ParseError;

verus! {

// Boundaries of the open type-code ranges.
pub const SHT_LOOS: u32 = 0x60000000;

pub const SHT_HIOS: u32 = 0x6fffffff;

pub const SHT_LOPROC: u32 = 0x70000000;

pub const SHT_HIPROC: u32 = 0x7fffffff;

pub const SHT_LOUSER: u32 = 0x80000000;

pub const SHT_HIUSER: u32 = 0xffffffff;

/// A raw, unclassified section type code as stored on disk.
#[derive(Clone, Copy, Debug, PartialEq, Eq, Structural)]
pub struct ShType_(pub u32);

/// The closed set of known section kinds plus the three open ranges,
/// which carry the raw code.
#[derive(Clone, Copy, Debug, PartialEq, Eq, Structural)]
pub enum ShType {
    Null,
    ProgBits,
    SymTab,
    StrTab,
    Rela,
    Hash,
    Dynamic,
    Note,
    NoBits,
    Rel,
    ShLib,
    DynSym,
    InitArray,
    FiniArray,
    PreInitArray,
    Group,
    SymTabShIndex,
    OsSpecific(u32),
    ProcessorSpecific(u32),
    User(u32),
}

/// Total classification of a raw type code.
///
/// The codes 12 and 13 are left undefined by the format and fall, with
/// every other unmatched code, into the error case.
pub open spec fn classify(code: u32) -> Result<ShType, ParseError> {
    if code == 0 {
        Ok(ShType::Null)
    } else if code == 1 {
        Ok(ShType::ProgBits)
    } else if code == 2 {
        Ok(ShType::SymTab)
    } else if code == 3 {
        Ok(ShType::StrTab)
    } else if code == 4 {
        Ok(ShType::Rela)
    } else if code == 5 {
        Ok(ShType::Hash)
    } else if code == 6 {
        Ok(ShType::Dynamic)
    } else if code == 7 {
        Ok(ShType::Note)
    } else if code == 8 {
        Ok(ShType::NoBits)
    } else if code == 9 {
        Ok(ShType::Rel)
    } else if code == 10 {
        Ok(ShType::ShLib)
    } else if code == 11 {
        Ok(ShType::DynSym)
    } else if code == 14 {
        Ok(ShType::InitArray)
    } else if code == 15 {
        Ok(ShType::FiniArray)
    } else if code == 16 {
        Ok(ShType::PreInitArray)
    } else if code == 17 {
        Ok(ShType::Group)
    } else if code == 18 {
        Ok(ShType::SymTabShIndex)
    } else if SHT_LOOS <= code && code <= SHT_HIOS {
        Ok(ShType::OsSpecific(code))
    } else if SHT_LOPROC <= code && code <= SHT_HIPROC {
        Ok(ShType::ProcessorSpecific(code))
    } else if SHT_LOUSER <= code {
        Ok(ShType::User(code))
    } else {
        Err(ParseError::InvalidTypeCode(code))
    }
}

impl ShType_ {
    /// Classifies the raw code; undefined codes are a recoverable error.
    pub fn as_sh_type(self) -> (r: Result<ShType, ParseError>)
        ensures
            r == classify(self.0),
    {
        let code = self.0;
        match code {
            0 => Ok(ShType::Null),
            1 => Ok(ShType::ProgBits),
            2 => Ok(ShType::SymTab),
            3 => Ok(ShType::StrTab),
            4 => Ok(ShType::Rela),
            5 => Ok(ShType::Hash),
            6 => Ok(ShType::Dynamic),
            7 => Ok(ShType::Note),
            8 => Ok(ShType::NoBits),
            9 => Ok(ShType::Rel),
            10 => Ok(ShType::ShLib),
            11 => Ok(ShType::DynSym),
            14 => Ok(ShType::InitArray),
            15 => Ok(ShType::FiniArray),
            16 => Ok(ShType::PreInitArray),
            17 => Ok(ShType::Group),
            18 => Ok(ShType::SymTabShIndex),
            _ => {
                if SHT_LOOS <= code && code <= SHT_HIOS {
                    Ok(ShType::OsSpecific(code))
                } else if SHT_LOPROC <= code && code <= SHT_HIPROC {
                    Ok(ShType::ProcessorSpecific(code))
                } else if SHT_LOUSER <= code {
                    Ok(ShType::User(code))
                } else {
                    Err(ParseError::InvalidTypeCode(code))
                }
            },
        }
    }
}

/// The gap codes 12 and 13, and every code between the closed set and the
/// first open range, are rejected rather than mapped to a wrong kind.
pub proof fn lemma_undefined_codes_rejected(code: u32)
    requires
        code == 12 || code == 13 || (19 <= code && code < SHT_LOOS),
    ensures
        classify(code) == Err::<ShType, ParseError>(ParseError::InvalidTypeCode(code)),
{
}

/// Every classified code maps to exactly one kind: classification is a
/// function, and the open-range kinds carry the code they came from.
pub proof fn lemma_classification_total(code: u32)
    ensures
        classify(code) is Ok <==> (code <= 11 || (14 <= code && code <= 18) || code >= SHT_LOOS),
        classify(code) is Err ==> classify(code) == Err::<ShType, ParseError>(
            ParseError::InvalidTypeCode(code),
        ),
{
}

} // verus!
