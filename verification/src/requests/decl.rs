//! The declination: of the telescope, or of the object it is to find.

use super::grammar::{
    emit, emit_body, emit_prefix, expect, fill_prefix, fills, frame_width, lemma_scan_errors,
    lemma_scan_frame, scan, scan_prefix, set_command, set_frame, width_prefix, Token, DEGREE, PRIME,
    SET, TERMINATOR,
};
use super::Precision;
use crate::error::Error;
use crate::formats::degs::SignedDegrees;
use crate::formats::mins::Minutes;
use crate::formats::secs::Seconds;
use crate::formats::Field;
use vstd::prelude::*;

verus! {

/// The request for the declination of the telescope: `:GD#`.
pub const GET_DECLANATION: [u8; 4] = [58, 71, 68, 35];

/// The request for the declination of the object: `:Gd#`.
pub const GET_OBJECT_DECLANATION: [u8; 4] = [58, 71, 100, 35];

/// ASCII `d`, the second letter of the command that sets the declination of
/// the object.
pub const DECLINATION: u8 = 100;

/// A declination: `sDD°MM` at low precision, `sDD°MM'SS` at high.
#[derive(Clone, Copy, Debug, PartialEq, Eq)]
pub struct Declination {
    pub degrees: SignedDegrees,
    pub minutes: Minutes,
    /// Seconds of arc, held at high precision only.
    pub arc_seconds: Option<Seconds>,
}

impl Declination {
    /// How many bytes the mount answers to a request for a declination.
    #[verifier::allow_in_spec]
    pub fn size(precision: Precision) -> usize
        returns
            (match precision {
                Precision::Low => 7usize,
                Precision::High => 10usize,
            }),
    {
        match precision {
            Precision::Low => 7,
            Precision::High => 10,
        }
    }

    /// The frame of a declination: `sDD°MM#` at low precision, `sDD°MM'SS#`
    /// at high.
    pub open spec fn grammar(precision: Precision) -> Seq<Token> {
        match precision {
            Precision::Low => seq![
                Token::Field(Field::SignedDegrees),
                Token::Literal(DEGREE),
                Token::Field(Field::Minutes),
                Token::Literal(TERMINATOR),
            ],
            Precision::High => seq![
                Token::Field(Field::SignedDegrees),
                Token::Literal(DEGREE),
                Token::Field(Field::Minutes),
                Token::Literal(PRIME),
                Token::Field(Field::Seconds),
                Token::Literal(TERMINATOR),
            ],
        }
    }

    /// The reply to a request is as long as the frame is wide.
    pub proof fn lemma_frame_width(precision: Precision)
        ensures
            frame_width(Declination::grammar(precision)) == Declination::size(precision),
    {
        reveal_with_fuel(width_prefix, 7);
    }

    /// The precision at which this declination is held.
    pub open spec fn precision(self) -> Precision {
        match self.arc_seconds {
            None => Precision::Low,
            Some(_) => Precision::High,
        }
    }

    /// The values of the fields, in the order of the frame.
    pub open spec fn values(self) -> Seq<int> {
        match self.arc_seconds {
            None => seq![self.degrees@, self.minutes@],
            Some(seconds) => seq![self.degrees@, self.minutes@, seconds@],
        }
    }

    /// Whether `r` is what reading `input` by the frame of the given
    /// precision gives: the value with the fields that the frame holds, at
    /// that precision, or the first error met.
    pub open spec fn parsed(
        input: Seq<u8>,
        precision: Precision,
        r: Result<Declination, Error>,
    ) -> bool {
        match scan(Declination::grammar(precision), input) {
            Ok(values) => {
                &&& r matches Ok(declination)
                &&& declination.values() =~= values
                &&& declination.precision() == precision
            },
            Err(e) => r matches Err(x) && x == e,
        }
    }

    /// Reads a declination from a reply of the mount, which answers at the
    /// given precision.
    pub fn parse(input: &[u8], precision: Precision) -> (r: Result<Declination, Error>)
        ensures
            Declination::parsed(input@, precision, r),
            r matches Err(e) ==> e is Format || e is Boundary,
    {
        proof {
            lemma_scan_errors(Declination::grammar(precision), input@, 4);
            lemma_scan_errors(Declination::grammar(precision), input@, 6);
        }
        match precision {
            Precision::Low => Declination::parse_minutes(input),
            Precision::High => Declination::parse_seconds(input),
        }
    }

    /// Reads a declination held to the minute: `sDD°MM#`.
    fn parse_minutes(input: &[u8]) -> (r: Result<Declination, Error>)
        ensures
            match scan(Declination::grammar(Precision::Low), input@) {
                Ok(values) => r matches Ok(declination) && declination.values() =~= values
                    && declination.arc_seconds is None,
                Err(e) => r matches Err(x) && x == e,
            },
    {
        proof {
            reveal_with_fuel(scan_prefix, 5);
        }
        let degrees = SignedDegrees::read_at(input, 0)?;
        expect(input, 3, DEGREE)?;
        let minutes = Minutes::read_at(input, 4)?;
        expect(input, 6, TERMINATOR)?;
        Ok(Declination { degrees, minutes, arc_seconds: None })
    }

    /// Reads a declination held to the second: `sDD°MM'SS#`.
    fn parse_seconds(input: &[u8]) -> (r: Result<Declination, Error>)
        ensures
            match scan(Declination::grammar(Precision::High), input@) {
                Ok(values) => r matches Ok(declination) && declination.values() =~= values
                    && declination.arc_seconds is Some,
                Err(e) => r matches Err(x) && x == e,
            },
    {
        proof {
            reveal_with_fuel(scan_prefix, 7);
        }
        let degrees = SignedDegrees::read_at(input, 0)?;
        expect(input, 3, DEGREE)?;
        let minutes = Minutes::read_at(input, 4)?;
        expect(input, 6, PRIME)?;
        let seconds = Seconds::read_at(input, 7)?;
        expect(input, 9, TERMINATOR)?;
        Ok(Declination { degrees, minutes, arc_seconds: Some(seconds) })
    }

    /// The declination as it stands in a frame, without the terminator. With
    /// the terminator behind them, the bytes read back as this value.
    pub fn format(&self) -> (out: Vec<u8>)
        ensures
            out@ == emit_body(Declination::grammar(self.precision()), self.values()),
            fills(Declination::grammar(self.precision()), self.values()),
            Declination::parsed(out@.push(TERMINATOR), self.precision(), Ok(*self)),
    {
        proof {
            reveal_with_fuel(fill_prefix, 8);
            reveal_with_fuel(emit_prefix, 7);
        }
        let mut out = Vec::new();
        self.degrees.write(&mut out);
        out.push(DEGREE);
        self.minutes.write(&mut out);
        match self.arc_seconds {
            None => {},
            Some(seconds) => {
                out.push(PRIME);
                seconds.write(&mut out);
            },
        }
        proof {
            lemma_scan_frame(Declination::grammar(self.precision()), self.values());
        }
        out
    }

    /// The command that sets the declination of the object: `:Sd sDD°MM#` or
    /// `:Sd sDD°MM'SS#`.
    pub fn set_request(&self) -> (out: Vec<u8>)
        ensures
            out@ == set_frame(
                SET,
                DECLINATION,
                emit(Declination::grammar(self.precision()), self.values()),
            ),
    {
        proof {
            reveal_with_fuel(emit_prefix, 7);
        }
        let body = self.format();
        set_command(SET, DECLINATION, body.as_slice())
    }
}

} // verus!
