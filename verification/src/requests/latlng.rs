//! The latitude and longitude of the observing site.

use super::grammar::{
    emit, emit_body, emit_prefix, expect, fill_prefix, fills, frame_width, lemma_scan_frame, scan,
    scan_prefix, set_command, set_frame, width_prefix, Token, DEGREE, SET, TERMINATOR,
};
use crate::error::Error;
use crate::formats::degs::{Degrees, SignedDegrees};
use crate::formats::mins::Minutes;
use crate::formats::Field;
use vstd::prelude::*;

verus! {

/// The request for the latitude of the site: `:Gt#`.
pub const GET_LATITUDE: [u8; 4] = [58, 71, 116, 35];

/// The request for the longitude of the site: `:Gg#`.
pub const GET_LONGITUDE: [u8; 4] = [58, 71, 103, 35];

/// How many bytes the mount answers to [`GET_LATITUDE`].
pub const GET_LATITUDE_SIZE: usize = 7;

/// How many bytes the mount answers to [`GET_LONGITUDE`].
pub const GET_LONGITUDE_SIZE: usize = 7;

/// ASCII `t`, the second letter of the command that sets the latitude.
pub const LATITUDE: u8 = 116;

/// ASCII `g`, the second letter of the command that sets the longitude.
pub const LONGITUDE: u8 = 103;

/// A latitude, `sDD°MM`.
#[derive(Clone, Copy, Debug, PartialEq, Eq)]
pub struct Latitude {
    pub degrees: SignedDegrees,
    pub minutes: Minutes,
}

impl Latitude {
    /// The frame of a latitude: `sDD°MM#`.
    pub open spec fn grammar() -> Seq<Token> {
        seq![
            Token::Field(Field::SignedDegrees),
            Token::Literal(DEGREE),
            Token::Field(Field::Minutes),
            Token::Literal(TERMINATOR),
        ]
    }

    /// The reply to a request is as long as the frame is wide.
    pub proof fn lemma_frame_width()
        ensures
            frame_width(Latitude::grammar()) == GET_LATITUDE_SIZE,
    {
        reveal_with_fuel(width_prefix, 5);
    }

    /// The values of the fields, in the order of the frame.
    pub open spec fn values(self) -> Seq<int> {
        seq![self.degrees@, self.minutes@]
    }

    /// Whether `r` is what reading `input` by the frame gives: the value with
    /// the fields that the frame holds, or the first error met.
    pub open spec fn parsed(input: Seq<u8>, r: Result<Latitude, Error>) -> bool {
        match scan(Latitude::grammar(), input) {
            Ok(values) => r matches Ok(latitude) && latitude.values() =~= values,
            Err(e) => r matches Err(x) && x == e,
        }
    }

    /// Reads a latitude from a reply of the mount.
    pub fn parse(input: &[u8]) -> (r: Result<Latitude, Error>)
        ensures
            Latitude::parsed(input@, r),
            r matches Err(e) ==> e is Format || e is Boundary,
    {
        proof {
            reveal_with_fuel(scan_prefix, 5);
        }
        let degrees = SignedDegrees::read_at(input, 0)?;
        expect(input, 3, DEGREE)?;
        let minutes = Minutes::read_at(input, 4)?;
        expect(input, 6, TERMINATOR)?;
        Ok(Latitude { degrees, minutes })
    }

    /// The latitude as it stands in a frame, without the terminator. With
    /// the terminator behind them, the bytes read back as this value.
    pub fn format(&self) -> (out: Vec<u8>)
        ensures
            out@ == emit_body(Latitude::grammar(), self.values()),
            fills(Latitude::grammar(), self.values()),
            Latitude::parsed(out@.push(TERMINATOR), Ok(*self)),
    {
        proof {
            reveal_with_fuel(fill_prefix, 8);
            reveal_with_fuel(emit_prefix, 5);
        }
        let mut out = Vec::new();
        self.degrees.write(&mut out);
        out.push(DEGREE);
        self.minutes.write(&mut out);
        proof {
            lemma_scan_frame(Latitude::grammar(), self.values());
        }
        out
    }

    /// The command that sets the latitude of the site: `:St sDD°MM#`.
    pub fn set_request(&self) -> (out: Vec<u8>)
        ensures
            out@ == set_frame(SET, LATITUDE, emit(Latitude::grammar(), self.values())),
    {
        proof {
            reveal_with_fuel(emit_prefix, 5);
        }
        let body = self.format();
        set_command(SET, LATITUDE, body.as_slice())
    }
}

/// A longitude, `DDD°MM`.
#[derive(Clone, Copy, Debug, PartialEq, Eq)]
pub struct Longitude {
    pub degrees: Degrees,
    pub minutes: Minutes,
}

impl Longitude {
    /// The frame of a longitude: `DDD°MM#`.
    pub open spec fn grammar() -> Seq<Token> {
        seq![
            Token::Field(Field::Degrees),
            Token::Literal(DEGREE),
            Token::Field(Field::Minutes),
            Token::Literal(TERMINATOR),
        ]
    }

    /// The reply to a request is as long as the frame is wide.
    pub proof fn lemma_frame_width()
        ensures
            frame_width(Longitude::grammar()) == GET_LONGITUDE_SIZE,
    {
        reveal_with_fuel(width_prefix, 5);
    }

    /// The values of the fields, in the order of the frame.
    pub open spec fn values(self) -> Seq<int> {
        seq![self.degrees@, self.minutes@]
    }

    /// Whether `r` is what reading `input` by the frame gives: the value with
    /// the fields that the frame holds, or the first error met.
    pub open spec fn parsed(input: Seq<u8>, r: Result<Longitude, Error>) -> bool {
        match scan(Longitude::grammar(), input) {
            Ok(values) => r matches Ok(longitude) && longitude.values() =~= values,
            Err(e) => r matches Err(x) && x == e,
        }
    }

    /// Reads a longitude from a reply of the mount.
    pub fn parse(input: &[u8]) -> (r: Result<Longitude, Error>)
        ensures
            Longitude::parsed(input@, r),
            r matches Err(e) ==> e is Format || e is Boundary,
    {
        proof {
            reveal_with_fuel(scan_prefix, 5);
        }
        let degrees = Degrees::read_at(input, 0)?;
        expect(input, 3, DEGREE)?;
        let minutes = Minutes::read_at(input, 4)?;
        expect(input, 6, TERMINATOR)?;
        Ok(Longitude { degrees, minutes })
    }

    /// The longitude as it stands in a frame, without the terminator. With
    /// the terminator behind them, the bytes read back as this value.
    pub fn format(&self) -> (out: Vec<u8>)
        ensures
            out@ == emit_body(Longitude::grammar(), self.values()),
            fills(Longitude::grammar(), self.values()),
            Longitude::parsed(out@.push(TERMINATOR), Ok(*self)),
    {
        proof {
            reveal_with_fuel(fill_prefix, 8);
            reveal_with_fuel(emit_prefix, 5);
        }
        let mut out = Vec::new();
        self.degrees.write(&mut out);
        out.push(DEGREE);
        self.minutes.write(&mut out);
        proof {
            lemma_scan_frame(Longitude::grammar(), self.values());
        }
        out
    }

    /// The command that sets the longitude of the site: `:Sg DDD°MM#`.
    pub fn set_request(&self) -> (out: Vec<u8>)
        ensures
            out@ == set_frame(SET, LONGITUDE, emit(Longitude::grammar(), self.values())),
    {
        proof {
            reveal_with_fuel(emit_prefix, 5);
        }
        let body = self.format();
        set_command(SET, LONGITUDE, body.as_slice())
    }
}

} // verus!
