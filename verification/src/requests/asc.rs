//! The right ascension: of the telescope, or of the object it is to find.

use super::grammar::{
    emit, emit_body, emit_prefix, expect, fill_prefix, fills, frame_width, lemma_scan_errors,
    lemma_scan_frame, scan, scan_prefix, set_command, set_frame, width_prefix, Token, COLON, POINT,
    SET, TERMINATOR,
};
use super::Precision;
use crate::error::Error;
use crate::formats::hrs::Hours;
use crate::formats::mins::{Minutes, Tenths};
use crate::formats::numeral::PLUS;
use crate::formats::secs::Seconds;
use crate::formats::Field;
use vstd::prelude::*;

verus! {

/// The request for the right ascension of the telescope: `:GR#`.
pub const GET_RIGHT_ASCENSION: [u8; 4] = [58, 71, 82, 35];

/// The request for the right ascension of the object: `:Gr#`.
pub const GET_OBJECT_RIGHT_ASCENSION: [u8; 4] = [58, 71, 114, 35];

/// ASCII `r`, the second letter of the command that sets the right ascension
/// of the object.
pub const RIGHT_ASCENSION: u8 = 114;

/// What a right ascension holds below the minute.
#[derive(Clone, Copy, Debug, PartialEq, Eq)]
pub enum Fraction {
    /// Tenths of a minute, at low precision.
    Tenths(Tenths),
    /// Seconds, at high precision.
    Seconds(Seconds),
}

/// A right ascension: `+HH:MM.T` at low precision, `+HH:MM:SS` at high.
#[derive(Clone, Copy, Debug, PartialEq, Eq)]
pub struct Ascension {
    pub hours: Hours,
    pub minutes: Minutes,
    pub fraction: Fraction,
}

impl Ascension {
    /// How many bytes the mount answers to a request for a right ascension.
    #[verifier::allow_in_spec]
    pub fn size(precision: Precision) -> usize
        returns
            (match precision {
                Precision::Low => 9usize,
                Precision::High => 10usize,
            }),
    {
        match precision {
            Precision::Low => 9,
            Precision::High => 10,
        }
    }

    /// The frame of a right ascension: `+HH:MM.T#` at low precision,
    /// `+HH:MM:SS#` at high.
    pub open spec fn grammar(precision: Precision) -> Seq<Token> {
        match precision {
            Precision::Low => seq![
                Token::Literal(PLUS),
                Token::Field(Field::Hours),
                Token::Literal(COLON),
                Token::Field(Field::Minutes),
                Token::Literal(POINT),
                Token::Field(Field::Tenths),
                Token::Literal(TERMINATOR),
            ],
            Precision::High => seq![
                Token::Literal(PLUS),
                Token::Field(Field::Hours),
                Token::Literal(COLON),
                Token::Field(Field::Minutes),
                Token::Literal(COLON),
                Token::Field(Field::Seconds),
                Token::Literal(TERMINATOR),
            ],
        }
    }

    /// The reply to a request is as long as the frame is wide.
    pub proof fn lemma_frame_width(precision: Precision)
        ensures
            frame_width(Ascension::grammar(precision)) == Ascension::size(precision),
    {
        reveal_with_fuel(width_prefix, 8);
    }

    /// The precision at which this right ascension is held.
    pub open spec fn precision(self) -> Precision {
        match self.fraction {
            Fraction::Tenths(_) => Precision::Low,
            Fraction::Seconds(_) => Precision::High,
        }
    }

    /// The values of the fields, in the order of the frame.
    pub open spec fn values(self) -> Seq<int> {
        seq![
            self.hours@,
            self.minutes@,
            match self.fraction {
                Fraction::Tenths(tenths) => tenths@,
                Fraction::Seconds(seconds) => seconds@,
            },
        ]
    }

    /// Whether `r` is what reading `input` by the frame of the given
    /// precision gives: the value with the fields that the frame holds, at
    /// that precision, or the first error met.
    pub open spec fn parsed(
        input: Seq<u8>,
        precision: Precision,
        r: Result<Ascension, Error>,
    ) -> bool {
        match scan(Ascension::grammar(precision), input) {
            Ok(values) => {
                &&& r matches Ok(ascension)
                &&& ascension.values() =~= values
                &&& ascension.precision() == precision
            },
            Err(e) => r matches Err(x) && x == e,
        }
    }

    /// Reads a right ascension from a reply of the mount, which answers at
    /// the given precision.
    pub fn parse(input: &[u8], precision: Precision) -> (r: Result<Ascension, Error>)
        ensures
            Ascension::parsed(input@, precision, r),
            r matches Err(e) ==> e is Format || e is Boundary,
    {
        proof {
            lemma_scan_errors(Ascension::grammar(precision), input@, 7);
        }
        match precision {
            Precision::Low => Ascension::parse_tenths(input),
            Precision::High => Ascension::parse_seconds(input),
        }
    }

    /// Reads a right ascension held to the tenth of a minute: `+HH:MM.T#`.
    fn parse_tenths(input: &[u8]) -> (r: Result<Ascension, Error>)
        ensures
            match scan(Ascension::grammar(Precision::Low), input@) {
                Ok(values) => r matches Ok(ascension) && ascension.values() =~= values
                    && ascension.fraction is Tenths,
                Err(e) => r matches Err(x) && x == e,
            },
    {
        proof {
            reveal_with_fuel(scan_prefix, 8);
        }
        expect(input, 0, PLUS)?;
        let hours = Hours::read_at(input, 1)?;
        expect(input, 3, COLON)?;
        let minutes = Minutes::read_at(input, 4)?;
        expect(input, 6, POINT)?;
        let tenths = Tenths::read_at(input, 7)?;
        expect(input, 8, TERMINATOR)?;
        Ok(Ascension { hours, minutes, fraction: Fraction::Tenths(tenths) })
    }

    /// Reads a right ascension held to the second: `+HH:MM:SS#`.
    fn parse_seconds(input: &[u8]) -> (r: Result<Ascension, Error>)
        ensures
            match scan(Ascension::grammar(Precision::High), input@) {
                Ok(values) => r matches Ok(ascension) && ascension.values() =~= values
                    && ascension.fraction is Seconds,
                Err(e) => r matches Err(x) && x == e,
            },
    {
        proof {
            reveal_with_fuel(scan_prefix, 8);
        }
        expect(input, 0, PLUS)?;
        let hours = Hours::read_at(input, 1)?;
        expect(input, 3, COLON)?;
        let minutes = Minutes::read_at(input, 4)?;
        expect(input, 6, COLON)?;
        let seconds = Seconds::read_at(input, 7)?;
        expect(input, 9, TERMINATOR)?;
        Ok(Ascension { hours, minutes, fraction: Fraction::Seconds(seconds) })
    }

    /// The right ascension as it stands in a frame, without the terminator. With
    /// the terminator behind them, the bytes read back as this value.
    pub fn format(&self) -> (out: Vec<u8>)
        ensures
            out@ == emit_body(Ascension::grammar(self.precision()), self.values()),
            fills(Ascension::grammar(self.precision()), self.values()),
            Ascension::parsed(out@.push(TERMINATOR), self.precision(), Ok(*self)),
    {
        proof {
            reveal_with_fuel(fill_prefix, 8);
            reveal_with_fuel(emit_prefix, 8);
        }
        let mut out = Vec::new();
        out.push(PLUS);
        self.hours.write(&mut out);
        out.push(COLON);
        self.minutes.write(&mut out);
        match self.fraction {
            Fraction::Tenths(tenths) => {
                out.push(POINT);
                tenths.write(&mut out);
            },
            Fraction::Seconds(seconds) => {
                out.push(COLON);
                seconds.write(&mut out);
            },
        }
        proof {
            lemma_scan_frame(Ascension::grammar(self.precision()), self.values());
        }
        out
    }

    /// The command that sets the right ascension of the object:
    /// `:Sr +HH:MM.T#` or `:Sr +HH:MM:SS#`.
    pub fn set_request(&self) -> (out: Vec<u8>)
        ensures
            out@ == set_frame(
                SET,
                RIGHT_ASCENSION,
                emit(Ascension::grammar(self.precision()), self.values()),
            ),
    {
        proof {
            reveal_with_fuel(emit_prefix, 8);
        }
        let body = self.format();
        set_command(SET, RIGHT_ASCENSION, body.as_slice())
    }
}

} // verus!
