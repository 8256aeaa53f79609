//! The altitude of the telescope above the horizon.

use super::grammar::{
    emit_body, emit_prefix, expect, fill_prefix, fills, frame_width, lemma_scan_frame, scan,
    scan_prefix, width_prefix, Token, DEGREE, TERMINATOR,
};
use crate::error::Error;
use crate::formats::degs::SignedDegrees;
use crate::formats::mins::Minutes;
use crate::formats::Field;
use vstd::prelude::*;

verus! {

/// The request for the altitude: `:GA#`.
pub const GET_ALTITUDE: [u8; 4] = [58, 71, 65, 35];

/// How many bytes the mount answers to [`GET_ALTITUDE`]: `sDD`, the degree
/// byte, `MM`, `#`.
pub const GET_ALTITUDE_SIZE: usize = 7;

/// An altitude, `sDD°MM`.
#[derive(Clone, Copy, Debug, PartialEq, Eq)]
pub struct Altitude {
    pub degrees: SignedDegrees,
    pub minutes: Minutes,
}

impl Altitude {
    /// The frame of an altitude: `sDD°MM#`.
    pub open spec fn grammar() -> Seq<Token> {
        seq![
            Token::Field(Field::SignedDegrees),
            Token::Literal(DEGREE),
            Token::Field(Field::Minutes),
            Token::Literal(TERMINATOR),
        ]
    }

    /// The reply to a request is as long as the frame is wide.
    pub proof fn lemma_frame_width()
        ensures
            frame_width(Altitude::grammar()) == GET_ALTITUDE_SIZE,
    {
        reveal_with_fuel(width_prefix, 5);
    }

    /// The values of the fields, in the order of the frame.
    pub open spec fn values(self) -> Seq<int> {
        seq![self.degrees@, self.minutes@]
    }

    /// Whether `r` is what reading `input` by the frame gives: the value with
    /// the fields that the frame holds, or the first error met.
    pub open spec fn parsed(input: Seq<u8>, r: Result<Altitude, Error>) -> bool {
        match scan(Altitude::grammar(), input) {
            Ok(values) => r matches Ok(altitude) && altitude.values() =~= values,
            Err(e) => r matches Err(x) && x == e,
        }
    }

    /// Reads an altitude from a reply of the mount.
    pub fn parse(input: &[u8]) -> (r: Result<Altitude, Error>)
        ensures
            Altitude::parsed(input@, r),
            r matches Err(e) ==> e is Format || e is Boundary,
    {
        proof {
            reveal_with_fuel(scan_prefix, 5);
        }
        let degrees = SignedDegrees::read_at(input, 0)?;
        expect(input, 3, DEGREE)?;
        let minutes = Minutes::read_at(input, 4)?;
        expect(input, 6, TERMINATOR)?;
        Ok(Altitude { degrees, minutes })
    }

    /// The altitude as it stands in a frame, without the terminator. With
    /// the terminator behind them, the bytes read back as this value.
    pub fn format(&self) -> (out: Vec<u8>)
        ensures
            out@ == emit_body(Altitude::grammar(), self.values()),
            fills(Altitude::grammar(), self.values()),
            Altitude::parsed(out@.push(TERMINATOR), Ok(*self)),
    {
        proof {
            reveal_with_fuel(fill_prefix, 8);
            reveal_with_fuel(emit_prefix, 5);
        }
        let mut out = Vec::new();
        self.degrees.write(&mut out);
        out.push(DEGREE);
        self.minutes.write(&mut out);
        proof {
            lemma_scan_frame(Altitude::grammar(), self.values());
        }
        out
    }
}

} // verus!
