use lx200::error::{Error, Malformed};
use lx200::formats::days::Days;
use lx200::formats::degs::{Degrees, SignedDegrees};
use lx200::formats::hrs::{Hours, SignedHours};
use lx200::formats::mins::{Minutes, Tenths};
use lx200::formats::months::Months;
use lx200::formats::secs::Seconds;
use lx200::formats::yrs::Years;
use lx200::formats::Field;

fn boundary(r: Result<i64, Error>, field: Field, inspected: usize) -> bool {
    matches!(r, Err(Error::Boundary { field: f, inspected: n }) if f == field && n == inspected)
}

fn not_a_numeral(r: Result<i64, Error>, field: Field, inspected: usize) -> bool {
    matches!(
        r,
        Err(Error::Format { cause: Malformed::Numeral(f), inspected: n })
            if f == field && n == inspected
    )
}

fn incomplete(r: Result<i64, Error>, needed: usize, inspected: usize) -> bool {
    matches!(
        r,
        Err(Error::Format { cause: Malformed::Incomplete { needed: m }, inspected: n })
            if m == needed && n == inspected
    )
}

fn hours(input: &[u8]) -> Result<i64, Error> {
    Hours::from_bytes(input).map(|(_, v)| v.value() as i64)
}

fn signed_hours(input: &[u8]) -> Result<i64, Error> {
    SignedHours::from_bytes(input).map(|(_, v)| v.value() as i64)
}

fn minutes(input: &[u8]) -> Result<i64, Error> {
    Minutes::from_bytes(input).map(|(_, v)| v.value() as i64)
}

fn tenths(input: &[u8]) -> Result<i64, Error> {
    Tenths::from_bytes(input).map(|(_, v)| v.value() as i64)
}

fn seconds(input: &[u8]) -> Result<i64, Error> {
    Seconds::from_bytes(input).map(|(_, v)| v.value() as i64)
}

fn degrees(input: &[u8]) -> Result<i64, Error> {
    Degrees::from_bytes(input).map(|(_, v)| v.value() as i64)
}

fn signed_degrees(input: &[u8]) -> Result<i64, Error> {
    SignedDegrees::from_bytes(input).map(|(_, v)| v.value() as i64)
}

fn days(input: &[u8]) -> Result<i64, Error> {
    Days::from_bytes(input).map(|(_, v)| v.value() as i64)
}

fn months(input: &[u8]) -> Result<i64, Error> {
    Months::from_bytes(input).map(|(_, v)| v.value() as i64)
}

fn years(input: &[u8]) -> Result<i64, Error> {
    Years::from_bytes(input).map(|(_, v)| v.value() as i64)
}

#[test]
fn field_metadata() {
    let all = [
        (Field::Hours, 2, false, 0, 24),
        (Field::SignedHours, 3, true, -24, 24),
        (Field::Minutes, 2, false, 0, 59),
        (Field::Tenths, 1, false, 0, 9),
        (Field::Seconds, 2, false, 0, 59),
        (Field::Degrees, 3, false, 0, 359),
        (Field::SignedDegrees, 3, true, -90, 90),
        (Field::Days, 2, false, 1, 31),
        (Field::Months, 2, false, 1, 12),
        (Field::Years, 2, false, 0, 99),
    ];
    for (field, width, signed, min, max) in all {
        assert_eq!(field.width(), width);
        assert_eq!(field.signed(), signed);
        assert_eq!(field.min(), min);
        assert_eq!(field.max(), max);
    }
}

#[test]
fn new_keeps_to_the_range() {
    assert_eq!(Hours::new(0).unwrap().value(), 0);
    assert_eq!(Hours::new(24).unwrap().value(), 24);
    assert!(Hours::new(25).is_none());
    assert!(Hours::new(255).is_none());
    assert_eq!(SignedHours::new(-24).unwrap().value(), -24);
    assert_eq!(SignedHours::new(24).unwrap().value(), 24);
    assert!(SignedHours::new(-25).is_none());
    assert!(SignedHours::new(25).is_none());
    assert_eq!(Minutes::new(59).unwrap().value(), 59);
    assert!(Minutes::new(60).is_none());
    assert_eq!(Tenths::new(9).unwrap().value(), 9);
    assert!(Tenths::new(10).is_none());
    assert_eq!(Seconds::new(59).unwrap().value(), 59);
    assert!(Seconds::new(60).is_none());
    assert_eq!(Degrees::new(359).unwrap().value(), 359);
    assert!(Degrees::new(360).is_none());
    assert!(Degrees::new(65535).is_none());
    assert_eq!(SignedDegrees::new(-90).unwrap().value(), -90);
    assert_eq!(SignedDegrees::new(90).unwrap().value(), 90);
    assert!(SignedDegrees::new(-91).is_none());
    assert!(SignedDegrees::new(91).is_none());
    assert!(SignedDegrees::new(-128).is_none());
    assert!(Days::new(0).is_none());
    assert_eq!(Days::new(1).unwrap().value(), 1);
    assert_eq!(Days::new(31).unwrap().value(), 31);
    assert!(Days::new(32).is_none());
    assert!(Months::new(0).is_none());
    assert_eq!(Months::new(1).unwrap().value(), 1);
    assert_eq!(Months::new(12).unwrap().value(), 12);
    assert!(Months::new(13).is_none());
    assert_eq!(Years::new(0).unwrap().value(), 0);
    assert_eq!(Years::new(99).unwrap().value(), 99);
    assert!(Years::new(100).is_none());
}

#[test]
fn format_pads_with_zeros_and_signs() {
    assert_eq!(Hours::new(0).unwrap().format(), b"00");
    assert_eq!(Hours::new(7).unwrap().format(), b"07");
    assert_eq!(Hours::new(24).unwrap().format(), b"24");
    assert_eq!(SignedHours::new(0).unwrap().format(), b"+00");
    assert_eq!(SignedHours::new(5).unwrap().format(), b"+05");
    assert_eq!(SignedHours::new(-5).unwrap().format(), b"-05");
    assert_eq!(SignedHours::new(-24).unwrap().format(), b"-24");
    assert_eq!(Minutes::new(5).unwrap().format(), b"05");
    assert_eq!(Tenths::new(0).unwrap().format(), b"0");
    assert_eq!(Tenths::new(9).unwrap().format(), b"9");
    assert_eq!(Seconds::new(45).unwrap().format(), b"45");
    assert_eq!(Degrees::new(0).unwrap().format(), b"000");
    assert_eq!(Degrees::new(7).unwrap().format(), b"007");
    assert_eq!(Degrees::new(42).unwrap().format(), b"042");
    assert_eq!(Degrees::new(359).unwrap().format(), b"359");
    assert_eq!(SignedDegrees::new(45).unwrap().format(), b"+45");
    assert_eq!(SignedDegrees::new(-9).unwrap().format(), b"-09");
    assert_eq!(SignedDegrees::new(-90).unwrap().format(), b"-90");
    assert_eq!(Days::new(1).unwrap().format(), b"01");
    assert_eq!(Months::new(12).unwrap().format(), b"12");
    assert_eq!(Years::new(4).unwrap().format(), b"04");
}

#[test]
fn write_appends() {
    let mut out = b":SG ".to_vec();
    SignedHours::new(-8).unwrap().write(&mut out);
    Minutes::new(3).unwrap().write(&mut out);
    assert_eq!(out, b":SG -0803");
}

#[test]
fn from_bytes_takes_the_width_and_leaves_the_rest() {
    let (rest, hours) = Hours::from_bytes(b"12:30:45#").unwrap();
    assert_eq!(hours.value(), 12);
    assert_eq!(rest, b":30:45#");
    let (rest, tenths) = Tenths::from_bytes(b"7#").unwrap();
    assert_eq!(tenths.value(), 7);
    assert_eq!(rest, b"#");
    let (rest, degrees) = Degrees::from_bytes(b"3591").unwrap();
    assert_eq!(degrees.value(), 359);
    assert_eq!(rest, b"1");
    let (rest, degrees) = SignedDegrees::from_bytes(b"-45\xDF30#").unwrap();
    assert_eq!(degrees.value(), -45);
    assert_eq!(rest, b"\xDF30#");
    let (rest, offset) = SignedHours::from_bytes(b"+05").unwrap();
    assert_eq!(offset.value(), 5);
    assert!(rest.is_empty());
}

#[test]
fn signed_fields_take_a_sign_or_none() {
    assert_eq!(signed_degrees(b"+45").unwrap(), 45);
    assert_eq!(signed_degrees(b"-45").unwrap(), -45);
    assert_eq!(signed_degrees(b"045").unwrap(), 45);
    assert_eq!(signed_degrees(b"-00").unwrap(), 0);
    assert_eq!(signed_hours(b"-24").unwrap(), -24);
    assert_eq!(signed_hours(b"024").unwrap(), 24);
    assert!(not_a_numeral(signed_degrees(b"4+5"), Field::SignedDegrees, 3));
    assert!(not_a_numeral(signed_degrees(b"+-5"), Field::SignedDegrees, 3));
    assert!(not_a_numeral(signed_degrees(b"45+"), Field::SignedDegrees, 3));
    assert!(not_a_numeral(signed_degrees(b" 45"), Field::SignedDegrees, 3));
}

#[test]
fn unsigned_fields_take_no_sign() {
    assert!(not_a_numeral(hours(b"+5"), Field::Hours, 2));
    assert!(not_a_numeral(hours(b"-5"), Field::Hours, 2));
    assert!(not_a_numeral(degrees(b"+35"), Field::Degrees, 3));
    assert!(not_a_numeral(tenths(b"+"), Field::Tenths, 1));
}

#[test]
fn round_trip_over_every_value() {
    for v in 0..=24u8 {
        let text = Hours::new(v).unwrap().format();
        assert_eq!(text.len(), 2);
        assert_eq!(hours(&text).unwrap(), v as i64);
    }
    for v in -24..=24i8 {
        let text = SignedHours::new(v).unwrap().format();
        assert_eq!(text.len(), 3);
        assert_eq!(signed_hours(&text).unwrap(), v as i64);
    }
    for v in 0..=59u8 {
        assert_eq!(minutes(&Minutes::new(v).unwrap().format()).unwrap(), v as i64);
        assert_eq!(seconds(&Seconds::new(v).unwrap().format()).unwrap(), v as i64);
    }
    for v in 0..=9u8 {
        let text = Tenths::new(v).unwrap().format();
        assert_eq!(text.len(), 1);
        assert_eq!(tenths(&text).unwrap(), v as i64);
    }
    for v in 0..=359u16 {
        let text = Degrees::new(v).unwrap().format();
        assert_eq!(text.len(), 3);
        assert_eq!(degrees(&text).unwrap(), v as i64);
    }
    for v in -90..=90i8 {
        let text = SignedDegrees::new(v).unwrap().format();
        assert_eq!(text.len(), 3);
        assert_eq!(signed_degrees(&text).unwrap(), v as i64);
    }
    for v in 1..=31u8 {
        assert_eq!(days(&Days::new(v).unwrap().format()).unwrap(), v as i64);
    }
    for v in 1..=12u8 {
        assert_eq!(months(&Months::new(v).unwrap().format()).unwrap(), v as i64);
    }
    for v in 0..=99u8 {
        assert_eq!(years(&Years::new(v).unwrap().format()).unwrap(), v as i64);
    }
}

#[test]
fn out_of_range_is_a_boundary_error() {
    for v in 25..=99 {
        assert!(Hours::new(v).is_none());
        assert!(boundary(hours(format!("{:02}", v).as_bytes()), Field::Hours, 2));
    }
    for v in 60..=99 {
        assert!(Minutes::new(v).is_none());
        assert!(boundary(minutes(format!("{:02}", v).as_bytes()), Field::Minutes, 2));
        assert!(boundary(seconds(format!("{:02}", v).as_bytes()), Field::Seconds, 2));
    }
    for v in 360..=999 {
        assert!(Degrees::new(v).is_none());
        assert!(boundary(degrees(format!("{:03}", v).as_bytes()), Field::Degrees, 3));
    }
    for v in 91..=99 {
        assert!(SignedDegrees::new(v).is_none());
        assert!(SignedDegrees::new(-v).is_none());
        assert!(boundary(
            signed_degrees(format!("+{:02}", v).as_bytes()),
            Field::SignedDegrees,
            3
        ));
        assert!(boundary(
            signed_degrees(format!("-{:02}", v).as_bytes()),
            Field::SignedDegrees,
            3
        ));
    }
    for v in 25..=99 {
        assert!(boundary(
            signed_hours(format!("-{:02}", v).as_bytes()),
            Field::SignedHours,
            3
        ));
        assert!(boundary(
            signed_hours(format!("+{:02}", v).as_bytes()),
            Field::SignedHours,
            3
        ));
    }
    for v in 100..=999 {
        assert!(boundary(
            signed_degrees(format!("{:03}", v).as_bytes()),
            Field::SignedDegrees,
            3
        ));
    }
    assert!(boundary(days(b"00"), Field::Days, 2));
    assert!(boundary(months(b"00"), Field::Months, 2));
    for v in 32..=99 {
        assert!(boundary(days(format!("{:02}", v).as_bytes()), Field::Days, 2));
    }
    for v in 13..=99 {
        assert!(boundary(months(format!("{:02}", v).as_bytes()), Field::Months, 2));
    }
}

#[test]
fn malformed_bytes_are_a_format_error() {
    assert!(not_a_numeral(hours(b"ab"), Field::Hours, 2));
    assert!(not_a_numeral(hours(b"1a"), Field::Hours, 2));
    assert!(not_a_numeral(hours(b"a1"), Field::Hours, 2));
    assert!(not_a_numeral(hours(b"\xFF\xFE"), Field::Hours, 2));
    assert!(not_a_numeral(hours(b" 1"), Field::Hours, 2));
    assert!(not_a_numeral(hours(b"1_"), Field::Hours, 2));
    assert!(not_a_numeral(minutes(b"\xDF0"), Field::Minutes, 2));
    assert!(not_a_numeral(tenths(b"#"), Field::Tenths, 1));
    assert!(not_a_numeral(seconds(b"5:"), Field::Seconds, 2));
    assert!(not_a_numeral(degrees(b"12/"), Field::Degrees, 3));
    assert!(not_a_numeral(degrees(b"1.2"), Field::Degrees, 3));
    assert!(not_a_numeral(signed_degrees(b"+4a"), Field::SignedDegrees, 3));
    assert!(not_a_numeral(signed_hours(b"--1"), Field::SignedHours, 3));
    assert!(not_a_numeral(days(b"1 "), Field::Days, 2));
    assert!(not_a_numeral(months(b"\x00\x00"), Field::Months, 2));
    assert!(not_a_numeral(years(b"9\x3A"), Field::Years, 2));
    assert!(not_a_numeral(years(b"\x2F9"), Field::Years, 2));
}

#[test]
fn short_input_is_incomplete() {
    assert!(incomplete(hours(b""), 2, 0));
    assert!(incomplete(hours(b"1"), 1, 1));
    assert!(incomplete(tenths(b""), 1, 0));
    assert!(incomplete(degrees(b"35"), 1, 2));
    assert!(incomplete(signed_degrees(b"+"), 2, 1));
    assert!(incomplete(signed_hours(b"-2"), 1, 2));
}

#[test]
fn years_stand_for_calendar_years() {
    assert_eq!(Years::new(92).unwrap().calendar_year(), 1992);
    assert_eq!(Years::new(99).unwrap().calendar_year(), 1999);
    assert_eq!(Years::new(0).unwrap().calendar_year(), 2000);
    assert_eq!(Years::new(24).unwrap().calendar_year(), 2024);
    assert_eq!(Years::new(91).unwrap().calendar_year(), 2091);
}
