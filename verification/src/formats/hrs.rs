//! Hours, plain and signed.

use super::{agrees, lemma_read_written, Field};
use crate::error::Error;
use vstd::prelude::*;
use vstd::slice::slice_subrange;

verus! {

/// `HH`: an hour of the day or of right ascension, from 00 to 24.
#[derive(Clone, Copy, Debug, PartialEq, Eq, Structural)]
pub struct Hours(u8);

impl View for Hours {
    type V = int;

    closed spec fn view(&self) -> int {
        self.0 as int
    }
}

impl Hours {
    #[verifier::type_invariant]
    spec fn in_range(self) -> bool {
        Field::Hours.admits(self.0 as int)
    }

    /// The value `val`, if it lies in the field's range.
    pub fn new(val: u8) -> (r: Option<Self>)
        ensures
            r is Some <==> Field::Hours.admits(val as int),
            r matches Some(hours) ==> hours@ == val,
    {
        if val > 24 {
            return None;
        }
        Some(Hours(val))
    }

    /// The number held.
    pub fn value(&self) -> (r: u8)
        ensures
            r == self@,
            Field::Hours.admits(r as int),
    {
        proof {
            use_type_invariant(self);
        }
        self.0
    }

    /// Reads the field at offset `at` of `input`.
    pub(crate) fn read_at(input: &[u8], at: usize) -> (r: Result<Self, Error>)
        requires
            at <= input.len(),
        ensures
            agrees(r, Field::Hours.read(input@, at as nat)),
    {
        match Field::Hours.read_at(input, at) {
            Ok(value) => Ok(Hours(value as u8)),
            Err(e) => Err(e),
        }
    }

    /// Reads the field from the front of `input`, and hands back the bytes
    /// that follow it.
    pub fn from_bytes(input: &[u8]) -> (r: Result<(&[u8], Self), Error>)
        ensures
            match Field::Hours.read(input@, 0) {
                Ok(value) => r matches Ok((rest, hours)) && hours@ == value && rest@
                    == input@.skip(2),
                Err(e) => r matches Err(x) && x == e,
            },
    {
        match Field::Hours.read_at(input, 0) {
            Ok(value) => Ok((slice_subrange(input, 2, input.len()), Hours(value as u8))),
            Err(e) => Err(e),
        }
    }

    /// Appends the field to `out` as it goes over the wire.
    pub fn write(&self, out: &mut Vec<u8>)
        ensures
            final(out)@ == old(out)@ + Field::Hours.text_of(self@),
            Field::Hours.admits(self@),
    {
        proof {
            use_type_invariant(self);
        }
        Field::Hours.write(out, self.0 as i16);
    }

    /// The field as it goes over the wire. The bytes read back as this value.
    pub fn format(&self) -> (out: Vec<u8>)
        ensures
            out@ == Field::Hours.text_of(self@),
            Field::Hours.admits(self@),
            Field::Hours.read(out@, 0) == Ok::<int, Error>(self@),
    {
        let mut out = Vec::new();
        self.write(&mut out);
        proof {
            lemma_read_written(Field::Hours, self@, Seq::empty(), Seq::empty());
        }
        out
    }
}

/// `sHH`: an offset in hours, from -24 to +24, written with its sign.
#[derive(Clone, Copy, Debug, PartialEq, Eq, Structural)]
pub struct SignedHours(i8);

impl View for SignedHours {
    type V = int;

    closed spec fn view(&self) -> int {
        self.0 as int
    }
}

impl SignedHours {
    #[verifier::type_invariant]
    spec fn in_range(self) -> bool {
        Field::SignedHours.admits(self.0 as int)
    }

    /// The value `val`, if it lies in the field's range.
    pub fn new(val: i8) -> (r: Option<Self>)
        ensures
            r is Some <==> Field::SignedHours.admits(val as int),
            r matches Some(offset) ==> offset@ == val,
    {
        if val < -24 || val > 24 {
            return None;
        }
        Some(SignedHours(val))
    }

    /// The number held.
    pub fn value(&self) -> (r: i8)
        ensures
            r == self@,
            Field::SignedHours.admits(r as int),
    {
        proof {
            use_type_invariant(self);
        }
        self.0
    }

    /// Reads the field at offset `at` of `input`.
    pub(crate) fn read_at(input: &[u8], at: usize) -> (r: Result<Self, Error>)
        requires
            at <= input.len(),
        ensures
            agrees(r, Field::SignedHours.read(input@, at as nat)),
    {
        match Field::SignedHours.read_at(input, at) {
            Ok(value) => Ok(SignedHours(value as i8)),
            Err(e) => Err(e),
        }
    }

    /// Reads the field from the front of `input`, and hands back the bytes
    /// that follow it.
    pub fn from_bytes(input: &[u8]) -> (r: Result<(&[u8], Self), Error>)
        ensures
            match Field::SignedHours.read(input@, 0) {
                Ok(value) => r matches Ok((rest, offset)) && offset@ == value && rest@
                    == input@.skip(3),
                Err(e) => r matches Err(x) && x == e,
            },
    {
        match Field::SignedHours.read_at(input, 0) {
            Ok(value) => Ok((slice_subrange(input, 3, input.len()), SignedHours(value as i8))),
            Err(e) => Err(e),
        }
    }

    /// Appends the field to `out` as it goes over the wire.
    pub fn write(&self, out: &mut Vec<u8>)
        ensures
            final(out)@ == old(out)@ + Field::SignedHours.text_of(self@),
            Field::SignedHours.admits(self@),
    {
        proof {
            use_type_invariant(self);
        }
        Field::SignedHours.write(out, self.0 as i16);
    }

    /// The field as it goes over the wire. The bytes read back as this value.
    pub fn format(&self) -> (out: Vec<u8>)
        ensures
            out@ == Field::SignedHours.text_of(self@),
            Field::SignedHours.admits(self@),
            Field::SignedHours.read(out@, 0) == Ok::<int, Error>(self@),
    {
        let mut out = Vec::new();
        self.write(&mut out);
        proof {
            lemma_read_written(Field::SignedHours, self@, Seq::empty(), Seq::empty());
        }
        out
    }
}

} // verus!
