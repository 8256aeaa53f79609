//! Degrees, plain and signed.

use super::{agrees, lemma_read_written, Field};
use crate::error::Error;
use vstd::prelude::*;
use vstd::slice::slice_subrange;

verus! {

/// `DDD`: degrees round the horizon, from 000 to 359.
#[derive(Clone, Copy, Debug, PartialEq, Eq, Structural)]
pub struct Degrees(u16);

impl View for Degrees {
    type V = int;

    closed spec fn view(&self) -> int {
        self.0 as int
    }
}

impl Degrees {
    #[verifier::type_invariant]
    spec fn in_range(self) -> bool {
        Field::Degrees.admits(self.0 as int)
    }

    /// The value `val`, if it lies in the field's range.
    pub fn new(val: u16) -> (r: Option<Self>)
        ensures
            r is Some <==> Field::Degrees.admits(val as int),
            r matches Some(degrees) ==> degrees@ == val,
    {
        if val > 359 {
            return None;
        }
        Some(Degrees(val))
    }

    /// The number held.
    pub fn value(&self) -> (r: u16)
        ensures
            r == self@,
            Field::Degrees.admits(r as int),
    {
        proof {
            use_type_invariant(self);
        }
        self.0
    }

    /// Reads the field at offset `at` of `input`.
    pub(crate) fn read_at(input: &[u8], at: usize) -> (r: Result<Self, Error>)
        requires
            at <= input.len(),
        ensures
            agrees(r, Field::Degrees.read(input@, at as nat)),
    {
        match Field::Degrees.read_at(input, at) {
            Ok(value) => Ok(Degrees(value as u16)),
            Err(e) => Err(e),
        }
    }

    /// Reads the field from the front of `input`, and hands back the bytes
    /// that follow it.
    pub fn from_bytes(input: &[u8]) -> (r: Result<(&[u8], Self), Error>)
        ensures
            match Field::Degrees.read(input@, 0) {
                Ok(value) => r matches Ok((rest, degrees)) && degrees@ == value && rest@
                    == input@.skip(3),
                Err(e) => r matches Err(x) && x == e,
            },
    {
        match Field::Degrees.read_at(input, 0) {
            Ok(value) => Ok((slice_subrange(input, 3, input.len()), Degrees(value as u16))),
            Err(e) => Err(e),
        }
    }

    /// Appends the field to `out` as it goes over the wire.
    pub fn write(&self, out: &mut Vec<u8>)
        ensures
            final(out)@ == old(out)@ + Field::Degrees.text_of(self@),
            Field::Degrees.admits(self@),
    {
        proof {
            use_type_invariant(self);
        }
        Field::Degrees.write(out, self.0 as i16);
    }

    /// The field as it goes over the wire. The bytes read back as this value.
    pub fn format(&self) -> (out: Vec<u8>)
        ensures
            out@ == Field::Degrees.text_of(self@),
            Field::Degrees.admits(self@),
            Field::Degrees.read(out@, 0) == Ok::<int, Error>(self@),
    {
        let mut out = Vec::new();
        self.write(&mut out);
        proof {
            lemma_read_written(Field::Degrees, self@, Seq::empty(), Seq::empty());
        }
        out
    }
}

/// `sDD`: degrees above or below a reference plane, from -90 to +90, written with their sign.
#[derive(Clone, Copy, Debug, PartialEq, Eq, Structural)]
pub struct SignedDegrees(i8);

impl View for SignedDegrees {
    type V = int;

    closed spec fn view(&self) -> int {
        self.0 as int
    }
}

impl SignedDegrees {
    #[verifier::type_invariant]
    spec fn in_range(self) -> bool {
        Field::SignedDegrees.admits(self.0 as int)
    }

    /// The value `val`, if it lies in the field's range.
    pub fn new(val: i8) -> (r: Option<Self>)
        ensures
            r is Some <==> Field::SignedDegrees.admits(val as int),
            r matches Some(degrees) ==> degrees@ == val,
    {
        if val < -90 || val > 90 {
            return None;
        }
        Some(SignedDegrees(val))
    }

    /// The number held.
    pub fn value(&self) -> (r: i8)
        ensures
            r == self@,
            Field::SignedDegrees.admits(r as int),
    {
        proof {
            use_type_invariant(self);
        }
        self.0
    }

    /// Reads the field at offset `at` of `input`.
    pub(crate) fn read_at(input: &[u8], at: usize) -> (r: Result<Self, Error>)
        requires
            at <= input.len(),
        ensures
            agrees(r, Field::SignedDegrees.read(input@, at as nat)),
    {
        match Field::SignedDegrees.read_at(input, at) {
            Ok(value) => Ok(SignedDegrees(value as i8)),
            Err(e) => Err(e),
        }
    }

    /// Reads the field from the front of `input`, and hands back the bytes
    /// that follow it.
    pub fn from_bytes(input: &[u8]) -> (r: Result<(&[u8], Self), Error>)
        ensures
            match Field::SignedDegrees.read(input@, 0) {
                Ok(value) => r matches Ok((rest, degrees)) && degrees@ == value && rest@
                    == input@.skip(3),
                Err(e) => r matches Err(x) && x == e,
            },
    {
        match Field::SignedDegrees.read_at(input, 0) {
            Ok(value) => Ok((slice_subrange(input, 3, input.len()), SignedDegrees(value as i8))),
            Err(e) => Err(e),
        }
    }

    /// Appends the field to `out` as it goes over the wire.
    pub fn write(&self, out: &mut Vec<u8>)
        ensures
            final(out)@ == old(out)@ + Field::SignedDegrees.text_of(self@),
            Field::SignedDegrees.admits(self@),
    {
        proof {
            use_type_invariant(self);
        }
        Field::SignedDegrees.write(out, self.0 as i16);
    }

    /// The field as it goes over the wire. The bytes read back as this value.
    pub fn format(&self) -> (out: Vec<u8>)
        ensures
            out@ == Field::SignedDegrees.text_of(self@),
            Field::SignedDegrees.admits(self@),
            Field::SignedDegrees.read(out@, 0) == Ok::<int, Error>(self@),
    {
        let mut out = Vec::new();
        self.write(&mut out);
        proof {
            lemma_read_written(Field::SignedDegrees, self@, Seq::empty(), Seq::empty());
        }
        out
    }
}

} // verus!
