//! Minutes and tenths of a minute.

use super::{agrees, lemma_read_written, Field};
use crate::error::Error;
use vstd::prelude::*;
use vstd::slice::slice_subrange;

verus! {

/// `MM`: minutes of time or of arc, from 00 to 59.
#[derive(Clone, Copy, Debug, PartialEq, Eq, Structural)]
pub struct Minutes(u8);

impl View for Minutes {
    type V = int;

    closed spec fn view(&self) -> int {
        self.0 as int
    }
}

impl Minutes {
    #[verifier::type_invariant]
    spec fn in_range(self) -> bool {
        Field::Minutes.admits(self.0 as int)
    }

    /// The value `val`, if it lies in the field's range.
    pub fn new(val: u8) -> (r: Option<Self>)
        ensures
            r is Some <==> Field::Minutes.admits(val as int),
            r matches Some(minutes) ==> minutes@ == val,
    {
        if val > 59 {
            return None;
        }
        Some(Minutes(val))
    }

    /// The number held.
    pub fn value(&self) -> (r: u8)
        ensures
            r == self@,
            Field::Minutes.admits(r as int),
    {
        proof {
            use_type_invariant(self);
        }
        self.0
    }

    /// Reads the field at offset `at` of `input`.
    pub(crate) fn read_at(input: &[u8], at: usize) -> (r: Result<Self, Error>)
        requires
            at <= input.len(),
        ensures
            agrees(r, Field::Minutes.read(input@, at as nat)),
    {
        match Field::Minutes.read_at(input, at) {
            Ok(value) => Ok(Minutes(value as u8)),
            Err(e) => Err(e),
        }
    }

    /// Reads the field from the front of `input`, and hands back the bytes
    /// that follow it.
    pub fn from_bytes(input: &[u8]) -> (r: Result<(&[u8], Self), Error>)
        ensures
            match Field::Minutes.read(input@, 0) {
                Ok(value) => r matches Ok((rest, minutes)) && minutes@ == value && rest@
                    == input@.skip(2),
                Err(e) => r matches Err(x) && x == e,
            },
    {
        match Field::Minutes.read_at(input, 0) {
            Ok(value) => Ok((slice_subrange(input, 2, input.len()), Minutes(value as u8))),
            Err(e) => Err(e),
        }
    }

    /// Appends the field to `out` as it goes over the wire.
    pub fn write(&self, out: &mut Vec<u8>)
        ensures
            final(out)@ == old(out)@ + Field::Minutes.text_of(self@),
            Field::Minutes.admits(self@),
    {
        proof {
            use_type_invariant(self);
        }
        Field::Minutes.write(out, self.0 as i16);
    }

    /// The field as it goes over the wire. The bytes read back as this value.
    pub fn format(&self) -> (out: Vec<u8>)
        ensures
            out@ == Field::Minutes.text_of(self@),
            Field::Minutes.admits(self@),
            Field::Minutes.read(out@, 0) == Ok::<int, Error>(self@),
    {
        let mut out = Vec::new();
        self.write(&mut out);
        proof {
            lemma_read_written(Field::Minutes, self@, Seq::empty(), Seq::empty());
        }
        out
    }
}

/// `T`: tenths of a minute, from 0 to 9.
#[derive(Clone, Copy, Debug, PartialEq, Eq, Structural)]
pub struct Tenths(u8);

impl View for Tenths {
    type V = int;

    closed spec fn view(&self) -> int {
        self.0 as int
    }
}

impl Tenths {
    #[verifier::type_invariant]
    spec fn in_range(self) -> bool {
        Field::Tenths.admits(self.0 as int)
    }

    /// The value `val`, if it lies in the field's range.
    pub fn new(val: u8) -> (r: Option<Self>)
        ensures
            r is Some <==> Field::Tenths.admits(val as int),
            r matches Some(tenths) ==> tenths@ == val,
    {
        if val > 9 {
            return None;
        }
        Some(Tenths(val))
    }

    /// The number held.
    pub fn value(&self) -> (r: u8)
        ensures
            r == self@,
            Field::Tenths.admits(r as int),
    {
        proof {
            use_type_invariant(self);
        }
        self.0
    }

    /// Reads the field at offset `at` of `input`.
    pub(crate) fn read_at(input: &[u8], at: usize) -> (r: Result<Self, Error>)
        requires
            at <= input.len(),
        ensures
            agrees(r, Field::Tenths.read(input@, at as nat)),
    {
        match Field::Tenths.read_at(input, at) {
            Ok(value) => Ok(Tenths(value as u8)),
            Err(e) => Err(e),
        }
    }

    /// Reads the field from the front of `input`, and hands back the bytes
    /// that follow it.
    pub fn from_bytes(input: &[u8]) -> (r: Result<(&[u8], Self), Error>)
        ensures
            match Field::Tenths.read(input@, 0) {
                Ok(value) => r matches Ok((rest, tenths)) && tenths@ == value && rest@
                    == input@.skip(1),
                Err(e) => r matches Err(x) && x == e,
            },
    {
        match Field::Tenths.read_at(input, 0) {
            Ok(value) => Ok((slice_subrange(input, 1, input.len()), Tenths(value as u8))),
            Err(e) => Err(e),
        }
    }

    /// Appends the field to `out` as it goes over the wire.
    pub fn write(&self, out: &mut Vec<u8>)
        ensures
            final(out)@ == old(out)@ + Field::Tenths.text_of(self@),
            Field::Tenths.admits(self@),
    {
        proof {
            use_type_invariant(self);
        }
        Field::Tenths.write(out, self.0 as i16);
    }

    /// The field as it goes over the wire. The bytes read back as this value.
    pub fn format(&self) -> (out: Vec<u8>)
        ensures
            out@ == Field::Tenths.text_of(self@),
            Field::Tenths.admits(self@),
            Field::Tenths.read(out@, 0) == Ok::<int, Error>(self@),
    {
        let mut out = Vec::new();
        self.write(&mut out);
        proof {
            lemma_read_written(Field::Tenths, self@, Seq::empty(), Seq::empty());
        }
        out
    }
}

} // verus!
