//! Years of the century, and the calendar years they stand for.

use super::{agrees, lemma_read_written, Field};
use crate::error::Error;
use vstd::prelude::*;
use vstd::slice::slice_subrange;

verus! {

/// The least two-digit year that belongs to the twentieth century.
pub const FIRST_OF_LAST_CENTURY: u8 = 92;

/// `YY`: a year of the century, from 00 to 99.
#[derive(Clone, Copy, Debug, PartialEq, Eq, Structural)]
pub struct Years(u8);

impl View for Years {
    type V = int;

    closed spec fn view(&self) -> int {
        self.0 as int
    }
}

impl Years {
    #[verifier::type_invariant]
    spec fn in_range(self) -> bool {
        Field::Years.admits(self.0 as int)
    }

    /// The value `val`, if it lies in the field's range.
    pub fn new(val: u8) -> (r: Option<Self>)
        ensures
            r is Some <==> Field::Years.admits(val as int),
            r matches Some(year) ==> year@ == val,
    {
        if val > 99 {
            return None;
        }
        Some(Years(val))
    }

    /// The number held.
    pub fn value(&self) -> (r: u8)
        ensures
            r == self@,
            Field::Years.admits(r as int),
    {
        proof {
            use_type_invariant(self);
        }
        self.0
    }

    /// Reads the field at offset `at` of `input`.
    pub(crate) fn read_at(input: &[u8], at: usize) -> (r: Result<Self, Error>)
        requires
            at <= input.len(),
        ensures
            agrees(r, Field::Years.read(input@, at as nat)),
    {
        match Field::Years.read_at(input, at) {
            Ok(value) => Ok(Years(value as u8)),
            Err(e) => Err(e),
        }
    }

    /// Reads the field from the front of `input`, and hands back the bytes
    /// that follow it.
    pub fn from_bytes(input: &[u8]) -> (r: Result<(&[u8], Self), Error>)
        ensures
            match Field::Years.read(input@, 0) {
                Ok(value) => r matches Ok((rest, year)) && year@ == value && rest@
                    == input@.skip(2),
                Err(e) => r matches Err(x) && x == e,
            },
    {
        match Field::Years.read_at(input, 0) {
            Ok(value) => Ok((slice_subrange(input, 2, input.len()), Years(value as u8))),
            Err(e) => Err(e),
        }
    }

    /// Appends the field to `out` as it goes over the wire.
    pub fn write(&self, out: &mut Vec<u8>)
        ensures
            final(out)@ == old(out)@ + Field::Years.text_of(self@),
            Field::Years.admits(self@),
    {
        proof {
            use_type_invariant(self);
        }
        Field::Years.write(out, self.0 as i16);
    }

    /// The field as it goes over the wire. The bytes read back as this value.
    pub fn format(&self) -> (out: Vec<u8>)
        ensures
            out@ == Field::Years.text_of(self@),
            Field::Years.admits(self@),
            Field::Years.read(out@, 0) == Ok::<int, Error>(self@),
    {
        let mut out = Vec::new();
        self.write(&mut out);
        proof {
            lemma_read_written(Field::Years, self@, Seq::empty(), Seq::empty());
        }
        out
    }

    /// The calendar year meant: `92` to `99` stand for 1992 to 1999, `00` to
    /// `91` for 2000 to 2091.
    pub open spec fn calendar(year: int) -> int {
        if year >= FIRST_OF_LAST_CENTURY {
            1900 + year
        } else {
            2000 + year
        }
    }

    /// The calendar year meant.
    pub fn calendar_year(&self) -> (r: u16)
        ensures
            r == Years::calendar(self@),
            1992 <= r <= 2091,
    {
        proof {
            use_type_invariant(self);
        }
        if self.0 >= FIRST_OF_LAST_CENTURY {
            1900 + self.0 as u16
        } else {
            2000 + self.0 as u16
        }
    }
}

} // verus!
