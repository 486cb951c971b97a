//! The single error type returned by every fallible accessor.

use vstd::prelude::*;

verus! {

/// Why a section-table query was rejected.
///
/// Input buffers are untrusted, so every accessor reports malformed input
/// through this type instead of aborting.
#[derive(Clone, Copy, Debug, PartialEq, Eq, Structural)]
pub enum ParseError {
    /// A section lookup used an index at or above the reserved threshold.
    IndexOutOfRange,
    /// A computed byte window falls outside the buffer, or a typed overlay
    /// needs more bytes than the given slice holds.
    BufferTooShort,
    /// A section or compression type code lies outside every defined set;
    /// the offending code is carried.
    InvalidTypeCode(u32),
    /// A name lookup was made on a Null-type section.
    NullSectionHasNoName,
    /// A Null-type section was asked for its raw bytes.
    NullSectionHasNoData,
    /// A string scan was requested on a payload that is not a string table.
    NotAStringTable,
    /// A note section in a 32-bit file; that layout is not supported.
    UnsupportedNoteWidth,
}

impl ParseError {
    /// A short human-readable description of the error.
    pub fn describe(&self) -> (r: &'static str)
        ensures
            r@.len() > 0,
    {
        let s = match self {
            ParseError::IndexOutOfRange => "section index is in the reserved range",
            ParseError::BufferTooShort => "byte window exceeds the buffer",
            ParseError::InvalidTypeCode(_) => "type code is outside every defined set",
            ParseError::NullSectionHasNoName => "null section has no name",
            ParseError::NullSectionHasNoData => "null section has no data",
            ParseError::NotAStringTable => "payload is not a string table",
            ParseError::UnsupportedNoteWidth => "32-bit note sections are not supported",
        };
        proof {
            reveal_strlit("section index is in the reserved range");
            reveal_strlit("byte window exceeds the buffer");
            reveal_strlit("type code is outside every defined set");
            reveal_strlit("null section has no name");
            reveal_strlit("null section has no data");
            reveal_strlit("payload is not a string table");
            reveal_strlit("32-bit note sections are not supported");
        }
        s
    }
}

} // verus!
