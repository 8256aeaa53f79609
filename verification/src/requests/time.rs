//! The time of day, local or sidereal, and the offset from Greenwich.

use super::grammar::{
    emit, emit_body, emit_prefix, expect, fill_prefix, fills, frame_width, lemma_scan_frame, scan,
    scan_prefix, set_command, set_frame, width_prefix, Token, COLON, SET, TERMINATOR,
};
use crate::error::Error;
use crate::formats::hrs::{Hours, SignedHours};
use crate::formats::mins::Minutes;
use crate::formats::secs::Seconds;
use crate::formats::Field;
use vstd::prelude::*;

verus! {

/// The request for the sidereal time: `:GS#`.
pub const GET_SIDREAL_TIME: [u8; 4] = [58, 71, 83, 35];

/// The request for the local time on a 24 hour clock: `:GL#`.
pub const GET_LOCAL_24_HOUR_TIME: [u8; 4] = [58, 71, 76, 35];

/// The request for the local time on a 12 hour clock: `:Ga#`.
pub const GET_LOCAL_12_HOUR_TIME: [u8; 4] = [58, 71, 97, 35];

/// How many bytes the mount answers to a request for a time: `HH:MM:SS#`.
pub const GET_TIME_SIZE: usize = 9;

/// The request for the offset from Greenwich Mean Time: `:GG#`.
pub const GET_GREENWICH_MEAN_TIME: [u8; 4] = [58, 71, 71, 35];

/// How many bytes the mount answers to [`GET_GREENWICH_MEAN_TIME`]: `sHH#`.
pub const GET_GREENWICH_MEAN_TIME_SIZE: usize = 4;

/// ASCII `S`, the second letter of the command that sets the sidereal time.
pub const SIDEREAL: u8 = 83;

/// ASCII `L`, the second letter of the command that sets the local time.
pub const LOCAL: u8 = 76;

/// ASCII `G`, the second letter of the command that sets the offset from
/// Greenwich Mean Time.
pub const GREENWICH: u8 = 71;

/// A time of day, `HH:MM:SS`.
#[derive(Clone, Copy, Debug, PartialEq, Eq)]
pub struct Time {
    pub hours: Hours,
    pub minutes: Minutes,
    pub seconds: Seconds,
}

impl Time {
    /// The frame of a time: `HH:MM:SS#`.
    pub open spec fn grammar() -> Seq<Token> {
        seq![
            Token::Field(Field::Hours),
            Token::Literal(COLON),
            Token::Field(Field::Minutes),
            Token::Literal(COLON),
            Token::Field(Field::Seconds),
            Token::Literal(TERMINATOR),
        ]
    }

    /// The reply to a request is as long as the frame is wide.
    pub proof fn lemma_frame_width()
        ensures
            frame_width(Time::grammar()) == GET_TIME_SIZE,
    {
        reveal_with_fuel(width_prefix, 7);
    }

    /// The values of the fields, in the order of the frame.
    pub open spec fn values(self) -> Seq<int> {
        seq![self.hours@, self.minutes@, self.seconds@]
    }

    /// Whether `r` is what reading `input` by the frame gives: the value with
    /// the fields that the frame holds, or the first error met.
    pub open spec fn parsed(input: Seq<u8>, r: Result<Time, Error>) -> bool {
        match scan(Time::grammar(), input) {
            Ok(values) => r matches Ok(time) && time.values() =~= values,
            Err(e) => r matches Err(x) && x == e,
        }
    }

    /// Reads a time from a reply of the mount.
    pub fn parse(input: &[u8]) -> (r: Result<Time, Error>)
        ensures
            Time::parsed(input@, r),
            r matches Err(e) ==> e is Format || e is Boundary,
    {
        proof {
            reveal_with_fuel(scan_prefix, 7);
        }
        let hours = Hours::read_at(input, 0)?;
        expect(input, 2, COLON)?;
        let minutes = Minutes::read_at(input, 3)?;
        expect(input, 5, COLON)?;
        let seconds = Seconds::read_at(input, 6)?;
        expect(input, 8, TERMINATOR)?;
        Ok(Time { hours, minutes, seconds })
    }

    /// The time as it stands in a frame, without the terminator. With the
    /// terminator behind them, the bytes read back as this time.
    pub fn format(&self) -> (out: Vec<u8>)
        ensures
            out@ == emit_body(Time::grammar(), self.values()),
            fills(Time::grammar(), self.values()),
            Time::parsed(out@.push(TERMINATOR), Ok(*self)),
    {
        proof {
            reveal_with_fuel(fill_prefix, 8);
            reveal_with_fuel(emit_prefix, 7);
        }
        let mut out = Vec::new();
        self.hours.write(&mut out);
        out.push(COLON);
        self.minutes.write(&mut out);
        out.push(COLON);
        self.seconds.write(&mut out);
        proof {
            lemma_scan_frame(Time::grammar(), self.values());
        }
        out
    }

    /// The command that sets the sidereal time: `:SS HH:MM:SS#`.
    pub fn set_sidereal_request(&self) -> (out: Vec<u8>)
        ensures
            out@ == set_frame(SET, SIDEREAL, emit(Time::grammar(), self.values())),
    {
        proof {
            reveal_with_fuel(emit_prefix, 7);
        }
        let body = self.format();
        set_command(SET, SIDEREAL, body.as_slice())
    }

    /// The command that sets the local time, always on a 24 hour clock:
    /// `:SL HH:MM:SS#`.
    pub fn set_local_request(&self) -> (out: Vec<u8>)
        ensures
            out@ == set_frame(SET, LOCAL, emit(Time::grammar(), self.values())),
    {
        proof {
            reveal_with_fuel(emit_prefix, 7);
        }
        let body = self.format();
        set_command(SET, LOCAL, body.as_slice())
    }
}

/// The frame in which an offset from Greenwich Mean Time is set: `sHH#`.
pub open spec fn offset_frame(offset: int) -> Seq<u8> {
    Field::SignedHours.text_of(offset).push(TERMINATOR)
}

/// The command that sets the offset from Greenwich Mean Time: `:SG sHH#`.
pub fn set_offset_request(offset: &SignedHours) -> (out: Vec<u8>)
    ensures
        out@ == set_frame(SET, GREENWICH, offset_frame(offset@)),
{
    let body = offset.format();
    set_command(SET, GREENWICH, body.as_slice())
}

} // verus!
