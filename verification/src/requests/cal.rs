//! The calendar date.

use super::grammar::{
    emit, emit_body, emit_prefix, expect, fill_prefix, fills, frame_width, lemma_scan_frame, scan,
    scan_prefix, set_command, set_frame, width_prefix, Token, SET, SLASH, TERMINATOR,
};
use crate::error::Error;
use crate::formats::days::Days;
use crate::formats::months::Months;
use crate::formats::yrs::Years;
use crate::formats::Field;
use vstd::prelude::*;

verus! {

/// The request for the calendar date: `:GC#`.
pub const GET_DATE: [u8; 4] = [58, 71, 67, 35];

/// How many bytes the mount answers to [`GET_DATE`]: `MM/DD/YY#`.
pub const GET_DATE_SIZE: usize = 9;

/// ASCII `C`, the second letter of the command that sets the date.
pub const CALENDAR: u8 = 67;

/// A date from 01/01/00 to 12/31/99, `MM/DD/YY`: month, day and year of the
/// century.
#[derive(Clone, Copy, Debug, PartialEq, Eq)]
pub struct Date {
    pub months: Months,
    pub days: Days,
    pub years: Years,
}

impl Date {
    /// The frame of a date: `MM/DD/YY#`.
    pub open spec fn grammar() -> Seq<Token> {
        seq![
            Token::Field(Field::Months),
            Token::Literal(SLASH),
            Token::Field(Field::Days),
            Token::Literal(SLASH),
            Token::Field(Field::Years),
            Token::Literal(TERMINATOR),
        ]
    }

    /// The reply to a request is as long as the frame is wide.
    pub proof fn lemma_frame_width()
        ensures
            frame_width(Date::grammar()) == GET_DATE_SIZE,
    {
        reveal_with_fuel(width_prefix, 7);
    }

    /// The values of the fields, in the order of the frame.
    pub open spec fn values(self) -> Seq<int> {
        seq![self.months@, self.days@, self.years@]
    }

    /// Whether `r` is what reading `input` by the frame gives: the value with
    /// the fields that the frame holds, or the first error met.
    pub open spec fn parsed(input: Seq<u8>, r: Result<Date, Error>) -> bool {
        match scan(Date::grammar(), input) {
            Ok(values) => r matches Ok(date) && date.values() =~= values,
            Err(e) => r matches Err(x) && x == e,
        }
    }

    /// Reads a date from a reply of the mount.
    pub fn parse(input: &[u8]) -> (r: Result<Date, Error>)
        ensures
            Date::parsed(input@, r),
            r matches Err(e) ==> e is Format || e is Boundary,
    {
        proof {
            reveal_with_fuel(scan_prefix, 7);
        }
        let months = Months::read_at(input, 0)?;
        expect(input, 2, SLASH)?;
        let days = Days::read_at(input, 3)?;
        expect(input, 5, SLASH)?;
        let years = Years::read_at(input, 6)?;
        expect(input, 8, TERMINATOR)?;
        Ok(Date { months, days, years })
    }

    /// The date as it stands in a frame, without the terminator. With
    /// the terminator behind them, the bytes read back as this value.
    pub fn format(&self) -> (out: Vec<u8>)
        ensures
            out@ == emit_body(Date::grammar(), self.values()),
            fills(Date::grammar(), self.values()),
            Date::parsed(out@.push(TERMINATOR), Ok(*self)),
    {
        proof {
            reveal_with_fuel(fill_prefix, 8);
            reveal_with_fuel(emit_prefix, 7);
        }
        let mut out = Vec::new();
        self.months.write(&mut out);
        out.push(SLASH);
        self.days.write(&mut out);
        out.push(SLASH);
        self.years.write(&mut out);
        proof {
            lemma_scan_frame(Date::grammar(), self.values());
        }
        out
    }

    /// The command that sets the date: `:SC MM/DD/YY#`.
    pub fn set_request(&self) -> (out: Vec<u8>)
        ensures
            out@ == set_frame(SET, CALENDAR, emit(Date::grammar(), self.values())),
    {
        proof {
            reveal_with_fuel(emit_prefix, 7);
        }
        let body = self.format();
        set_command(SET, CALENDAR, body.as_slice())
    }
}

} // verus!
