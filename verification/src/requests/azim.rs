//! The azimuth of the telescope round the horizon.

use super::grammar::{
    emit_body, emit_prefix, expect, fill_prefix, fills, frame_width, lemma_scan_frame, scan,
    scan_prefix, width_prefix, Token, DEGREE, TERMINATOR,
};
use crate::error::Error;
use crate::formats::degs::Degrees;
use crate::formats::mins::Minutes;
use crate::formats::Field;
use vstd::prelude::*;

verus! {

/// The request for the azimuth: `:GZ#`.
pub const GET_AZMITH: [u8; 4] = [58, 71, 90, 35];

/// How many bytes the mount answers to [`GET_AZMITH`]: `DDD`, the degree
/// byte, `MM`, `#`.
pub const GET_AZMITH_SIZE: usize = 7;

/// An azimuth, `DDD°MM`.
#[derive(Clone, Copy, Debug, PartialEq, Eq)]
pub struct Azimuth {
    pub degrees: Degrees,
    pub minutes: Minutes,
}

impl Azimuth {
    /// The frame of an azimuth: `DDD°MM#`.
    pub open spec fn grammar() -> Seq<Token> {
        seq![
            Token::Field(Field::Degrees),
            Token::Literal(DEGREE),
            Token::Field(Field::Minutes),
            Token::Literal(TERMINATOR),
        ]
    }

    /// The reply to a request is as long as the frame is wide.
    pub proof fn lemma_frame_width()
        ensures
            frame_width(Azimuth::grammar()) == GET_AZMITH_SIZE,
    {
        reveal_with_fuel(width_prefix, 5);
    }

    /// The values of the fields, in the order of the frame.
    pub open spec fn values(self) -> Seq<int> {
        seq![self.degrees@, self.minutes@]
    }

    /// Whether `r` is what reading `input` by the frame gives: the value with
    /// the fields that the frame holds, or the first error met.
    pub open spec fn parsed(input: Seq<u8>, r: Result<Azimuth, Error>) -> bool {
        match scan(Azimuth::grammar(), input) {
            Ok(values) => r matches Ok(azimuth) && azimuth.values() =~= values,
            Err(e) => r matches Err(x) && x == e,
        }
    }

    /// Reads an azimuth from a reply of the mount.
    pub fn parse(input: &[u8]) -> (r: Result<Azimuth, Error>)
        ensures
            Azimuth::parsed(input@, r),
            r matches Err(e) ==> e is Format || e is Boundary,
    {
        proof {
            reveal_with_fuel(scan_prefix, 5);
        }
        let degrees = Degrees::read_at(input, 0)?;
        expect(input, 3, DEGREE)?;
        let minutes = Minutes::read_at(input, 4)?;
        expect(input, 6, TERMINATOR)?;
        Ok(Azimuth { degrees, minutes })
    }

    /// The azimuth as it stands in a frame, without the terminator. With
    /// the terminator behind them, the bytes read back as this value.
    pub fn format(&self) -> (out: Vec<u8>)
        ensures
            out@ == emit_body(Azimuth::grammar(), self.values()),
            fills(Azimuth::grammar(), self.values()),
            Azimuth::parsed(out@.push(TERMINATOR), Ok(*self)),
    {
        proof {
            reveal_with_fuel(fill_prefix, 8);
            reveal_with_fuel(emit_prefix, 5);
        }
        let mut out = Vec::new();
        self.degrees.write(&mut out);
        out.push(DEGREE);
        self.minutes.write(&mut out);
        proof {
            lemma_scan_frame(Azimuth::grammar(), self.values());
        }
        out
    }
}

} // verus!
