//! Months of the year.

use super::{agrees, lemma_read_written, Field};
use crate::error::Error;
use vstd::prelude::*;
use vstd::slice::slice_subrange;

verus! {

/// `MM`: a month of the year, from 01 to 12.
#[derive(Clone, Copy, Debug, PartialEq, Eq, Structural)]
pub struct Months(u8);

impl View for Months {
    type V = int;

    closed spec fn view(&self) -> int {
        self.0 as int
    }
}

impl Months {
    #[verifier::type_invariant]
    spec fn in_range(self) -> bool {
        Field::Months.admits(self.0 as int)
    }

    /// The value `val`, if it lies in the field's range.
    pub fn new(val: u8) -> (r: Option<Self>)
        ensures
            r is Some <==> Field::Months.admits(val as int),
            r matches Some(month) ==> month@ == val,
    {
        if val < 1 || val > 12 {
            return None;
        }
        Some(Months(val))
    }

    /// The number held.
    pub fn value(&self) -> (r: u8)
        ensures
            r == self@,
            Field::Months.admits(r as int),
    {
        proof {
            use_type_invariant(self);
        }
        self.0
    }

    /// Reads the field at offset `at` of `input`.
    pub(crate) fn read_at(input: &[u8], at: usize) -> (r: Result<Self, Error>)
        requires
            at <= input.len(),
        ensures
            agrees(r, Field::Months.read(input@, at as nat)),
    {
        match Field::Months.read_at(input, at) {
            Ok(value) => Ok(Months(value as u8)),
            Err(e) => Err(e),
        }
    }

    /// Reads the field from the front of `input`, and hands back the bytes
    /// that follow it.
    pub fn from_bytes(input: &[u8]) -> (r: Result<(&[u8], Self), Error>)
        ensures
            match Field::Months.read(input@, 0) {
                Ok(value) => r matches Ok((rest, month)) && month@ == value && rest@
                    == input@.skip(2),
                Err(e) => r matches Err(x) && x == e,
            },
    {
        match Field::Months.read_at(input, 0) {
            Ok(value) => Ok((slice_subrange(input, 2, input.len()), Months(value as u8))),
            Err(e) => Err(e),
        }
    }

    /// Appends the field to `out` as it goes over the wire.
    pub fn write(&self, out: &mut Vec<u8>)
        ensures
            final(out)@ == old(out)@ + Field::Months.text_of(self@),
            Field::Months.admits(self@),
    {
        proof {
            use_type_invariant(self);
        }
        Field::Months.write(out, self.0 as i16);
    }

    /// The field as it goes over the wire. The bytes read back as this value.
    pub fn format(&self) -> (out: Vec<u8>)
        ensures
            out@ == Field::Months.text_of(self@),
            Field::Months.admits(self@),
            Field::Months.read(out@, 0) == Ok::<int, Error>(self@),
    {
        let mut out = Vec::new();
        self.write(&mut out);
        proof {
            lemma_read_written(Field::Months, self@, Seq::empty(), Seq::empty());
        }
        out
    }
}

} // verus!
