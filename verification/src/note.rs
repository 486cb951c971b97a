//! Note records: a fixed three-word header followed by a NUL-terminated,
//! padded name and a descriptor.

use vstd::prelude::*;
use vstd::slice::slice_subrange;
use crate::bytes::find_nul;
use crate::bytes::le32;
use crate::bytes::lemma_find_nul_bounds;
use crate::bytes::read_u32;
use crate::bytes::scan_nul;
use crate::error::ParseError;

verus! {

/// The leading 12 bytes of a note section: the declared lengths of the
/// name and the descriptor, and the note's type.
#[derive(Clone, Copy, Debug, PartialEq, Eq, Structural)]
pub struct NoteHeader {
    pub name_size: u32,
    pub desc_size: u32,
    pub type_: u32,
}

/// The note header stored in the first 12 bytes of a payload.
pub open spec fn spec_note_header(b: Seq<u8>) -> NoteHeader {
    NoteHeader { name_size: le32(b, 0), desc_size: le32(b, 4), type_: le32(b, 8) }
}

/// Decodes the fixed note header at the start of a payload.
pub fn parse_note_header(b: &[u8]) -> (r: NoteHeader)
    requires
        b@.len() >= 12,
    ensures
        r == spec_note_header(b@),
{
    let _len = b.len();
    NoteHeader { name_size: read_u32(b, 0), desc_size: read_u32(b, 4), type_: read_u32(b, 8) }
}

/// `name_size` rounded up to the next multiple of four: where the
/// descriptor starts inside the trailing region.
pub open spec fn spec_desc_start(name_size: u32) -> int {
    (name_size as int + 3) / 4 * 4
}

impl NoteHeader {
    /// The note's name: the NUL-terminated bytes at the start of the
    /// trailing region.  A name whose length does not match the declared
    /// `name_size` (which counts the NUL terminator) is rejected.
    pub fn name<'a>(&self, input: &'a [u8]) -> (r: Result<&'a [u8], ParseError>)
        ensures
            match r {
                Ok(d) => find_nul(input@, 0) == Some(self.name_size as int - 1) && d@
                    == input@.subrange(0, self.name_size as int - 1),
                Err(e) => e == ParseError::BufferTooShort && (match find_nul(input@, 0) {
                    Some(q) => q != self.name_size as int - 1,
                    None => true,
                }),
            },
    {
        match scan_nul(input, 0) {
            None => Err(ParseError::BufferTooShort),
            Some(q) => {
                proof {
                    lemma_find_nul_bounds(input@, 0);
                }
                if self.name_size == 0 || q != (self.name_size - 1) as usize {
                    return Err(ParseError::BufferTooShort);
                }
                Ok(slice_subrange(input, 0, q))
            },
        }
    }

    /// The descriptor: `desc_size` bytes starting at the name length
    /// rounded up to four-byte alignment inside the trailing region.
    pub fn desc<'a>(&self, input: &'a [u8]) -> (r: Result<&'a [u8], ParseError>)
        ensures
            match r {
                Ok(d) => spec_desc_start(self.name_size) + self.desc_size <= input@.len() && d@
                    == input@.subrange(
                    spec_desc_start(self.name_size),
                    spec_desc_start(self.name_size) + self.desc_size,
                ),
                Err(e) => e == ParseError::BufferTooShort && spec_desc_start(self.name_size)
                    + self.desc_size > input@.len(),
            },
    {
        let len = input.len();
        let start: u64 = (self.name_size as u64 + 3) / 4 * 4;
        let end: u64 = start + self.desc_size as u64;
        if end > len as u64 {
            return Err(ParseError::BufferTooShort);
        }
        Ok(slice_subrange(input, start as usize, end as usize))
    }
}

} // verus!
