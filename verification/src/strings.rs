//! The string-table scanner: a single-pass producer of the NUL-delimited
//! strings held in a string-table payload.

use vstd::prelude::*;
use crate::bytes::copy_range;
use crate::bytes::find_nul;
use crate::bytes::lemma_find_nul_bounds;
use crate::bytes::scan_nul;
use crate::data::SectionData;
use crate::error::ParseError;

verus! {

/// What one scan step yields from position `pos` of payload `b`: the
/// next non-empty string and the position after its terminator, or
/// nothing once the payload is exhausted.  Empty strings (adjacent NUL
/// bytes, or the conventional leading NUL) are skipped; a trailing
/// fragment without a terminator is still yielded.
pub open spec fn spec_next_str(b: Seq<u8>, pos: int) -> Option<(Seq<u8>, int)>
    decreases b.len() - pos,
{
    if pos < 0 || pos >= b.len() {
        None
    } else if b[pos] == 0 {
        spec_next_str(b, pos + 1)
    } else {
        match find_nul(b, pos) {
            Some(q) => Some((b.subrange(pos, q), q + 1)),
            None => Some((b.subrange(pos, b.len() as int), b.len() as int)),
        }
    }
}

/// A scan in progress: the payload bytes and the next position to read.
/// Re-scanning means constructing a fresh scanner; no rewind state is
/// kept here.
pub struct SectionStrings<'a> {
    pub data: &'a [u8],
    pub pos: usize,
}

impl<'a> SectionStrings<'a> {
    /// Yields the next string, or nothing once the payload is exhausted.
    pub fn next(&mut self) -> (r: Option<Vec<u8>>)
        ensures
            final(self).data == old(self).data,
            match spec_next_str(old(self).data@, old(self).pos as int) {
                None => r is None && final(self).pos == old(self).pos,
                Some((s, p)) => (r matches Some(v) && v@ == s) && final(self).pos == p,
            },
    {
        let len = self.data.len();
        let mut pos = self.pos;
        if pos >= len {
            return None;
        }
        while pos < len && *vstd::slice::slice_index_get(self.data, pos) == 0
            invariant
                pos <= len,
                len == self.data@.len(),
                spec_next_str(self.data@, self.pos as int) == spec_next_str(
                    self.data@,
                    pos as int,
                ),
            decreases len - pos,
        {
            pos = pos + 1;
        }
        if pos >= len {
            return None;
        }
        match scan_nul(self.data, pos) {
            Some(q) => {
                proof {
                    lemma_find_nul_bounds(self.data@, pos as int);
                }
                let out = copy_range(self.data, pos, q);
                self.pos = q + 1;
                Some(out)
            },
            None => {
                let out = copy_range(self.data, pos, len);
                self.pos = len;
                Some(out)
            },
        }
    }
}

impl<'a> SectionData<'a> {
    /// Starts a scan over a string-table payload; any other payload kind
    /// is refused.
    pub fn strings(&self) -> (r: Result<SectionStrings<'a>, ParseError>)
        ensures
            match r {
                Ok(it) => (self matches SectionData::StrArray(d) && it.data@ == d@) && it.pos == 0,
                Err(e) => !(self matches SectionData::StrArray(_)) && e
                    == ParseError::NotAStringTable,
            },
    {
        match self {
            SectionData::StrArray(d) => Ok(SectionStrings { data: d, pos: 0 }),
            _ => Err(ParseError::NotAStringTable),
        }
    }
}

} // verus!
