use std::io::Cursor;

use lx200::drain::Drain;
use lx200::error::{Error, Malformed};
use lx200::formats::days::Days;
use lx200::formats::degs::{Degrees, SignedDegrees};
use lx200::formats::hrs::{Hours, SignedHours};
use lx200::formats::mins::{Minutes, Tenths};
use lx200::formats::months::Months;
use lx200::formats::secs::Seconds;
use lx200::formats::yrs::Years;
use lx200::formats::Field;
use lx200::requests::asc::{Ascension, Fraction};
use lx200::requests::cal::Date;
use lx200::requests::decl::Declination;
use lx200::requests::latlng::{Latitude, Longitude};
use lx200::requests::site::Site;
use lx200::requests::time::Time;
use lx200::requests::{AlignmentStatus, Direction, MotionRate, Precision, SlewStatus};
use lx200::{BoxedClient, Client, Stream};

#[test]
fn test_init() {
    let cursor = Cursor::new(Vec::<u8>::new());
    let _ = Client::new(cursor);
}

/// The mount's side of a conversation, fixed in advance: hands out `incoming`
/// in reads of at most `chunk` bytes, keeps what is written, and notes the
/// size of each read that was asked for.
struct Script {
    incoming: Vec<u8>,
    chunk: usize,
    outgoing: Vec<u8>,
    asked: Vec<usize>,
    broken: bool,
}

impl Script {
    fn new(incoming: &[u8]) -> Script {
        Script {
            incoming: incoming.to_vec(),
            chunk: usize::MAX,
            outgoing: Vec::new(),
            asked: Vec::new(),
            broken: false,
        }
    }

    fn broken() -> Script {
        Script { broken: true, ..Script::new(b"") }
    }
}

impl Stream for Script {
    fn write_all(&mut self, bytes: &[u8]) -> Result<(), std::io::Error> {
        if self.broken {
            return Err(std::io::Error::from(std::io::ErrorKind::BrokenPipe));
        }
        self.outgoing.extend_from_slice(bytes);
        Ok(())
    }

    fn read_exact(&mut self, len: usize) -> Result<Vec<u8>, std::io::Error> {
        self.asked.push(len);
        if self.incoming.len() < len {
            return Err(std::io::Error::from(std::io::ErrorKind::UnexpectedEof));
        }
        Ok(self.incoming.drain(..len).collect())
    }

    fn read(&mut self, max: usize) -> Result<Vec<u8>, std::io::Error> {
        self.asked.push(max);
        if self.broken {
            return Err(std::io::Error::from(std::io::ErrorKind::BrokenPipe));
        }
        let len = max.min(self.chunk).min(self.incoming.len());
        Ok(self.incoming.drain(..len).collect())
    }
}

fn client(incoming: &[u8]) -> Client<Script> {
    Client::new(Script::new(incoming))
}

/// What the client wrote, the sizes of the reads it asked for, and what the
/// mount has left to say.
fn traffic(client: &mut Client<Script>) -> (Vec<u8>, Vec<usize>, Vec<u8>) {
    let stream = client.get_mut();
    (stream.outgoing.clone(), stream.asked.clone(), stream.incoming.clone())
}

fn is_io<T>(r: &Result<T, Error>, kind: std::io::ErrorKind) -> bool {
    matches!(r, Err(Error::IO(e)) if e.kind() == kind)
}

fn date(month: u8, day: u8, year: u8) -> Date {
    Date {
        months: Months::new(month).unwrap(),
        days: Days::new(day).unwrap(),
        years: Years::new(year).unwrap(),
    }
}

fn time(hours: u8, minutes: u8, seconds: u8) -> Time {
    Time {
        hours: Hours::new(hours).unwrap(),
        minutes: Minutes::new(minutes).unwrap(),
        seconds: Seconds::new(seconds).unwrap(),
    }
}

fn latitude() -> Latitude {
    Latitude { degrees: SignedDegrees::new(-33).unwrap(), minutes: Minutes::new(52).unwrap() }
}

fn longitude() -> Longitude {
    Longitude { degrees: Degrees::new(151).unwrap(), minutes: Minutes::new(12).unwrap() }
}

fn ascension() -> Ascension {
    Ascension {
        hours: Hours::new(5).unwrap(),
        minutes: Minutes::new(34).unwrap(),
        fraction: Fraction::Tenths(Tenths::new(5).unwrap()),
    }
}

fn declination() -> Declination {
    Declination {
        degrees: SignedDegrees::new(22).unwrap(),
        minutes: Minutes::new(1).unwrap(),
        arc_seconds: None,
    }
}

#[test]
fn get_altitude() {
    let mut client = client(b"+45\xDF30#next");
    let altitude = client.get_altitude().unwrap();
    assert_eq!(altitude.degrees.value(), 45);
    assert_eq!(altitude.minutes.value(), 30);
    assert_eq!(traffic(&mut client), (b":GA#".to_vec(), vec![7], b"next".to_vec()));
}

#[test]
fn get_azmith() {
    let mut client = client(b"180\xDF15#");
    let azimuth = client.get_azmith().unwrap();
    assert_eq!(azimuth.degrees.value(), 180);
    assert_eq!(azimuth.minutes.value(), 15);
    assert_eq!(traffic(&mut client), (b":GZ#".to_vec(), vec![7], Vec::new()));
}

#[test]
fn get_times() {
    let mut client = client(b"01:02:03#04:05:06#07:08:09#");
    assert_eq!(client.get_sidreal_time().unwrap(), time(1, 2, 3));
    assert_eq!(client.get_local_24_hour_time().unwrap(), time(4, 5, 6));
    assert_eq!(client.get_local_12_hour_time().unwrap(), time(7, 8, 9));
    assert_eq!(traffic(&mut client), (b":GS#:GL#:Ga#".to_vec(), vec![9, 9, 9], Vec::new()));
}

#[test]
fn get_calendar_date() {
    let mut client = client(b"12/31/99#");
    assert_eq!(client.get_calendar_date().unwrap(), date(12, 31, 99));
    assert_eq!(traffic(&mut client), (b":GC#".to_vec(), vec![9], Vec::new()));
}

#[test]
fn get_site_coordinates() {
    let mut client = client(b"-33\xDF52#151\xDF12#");
    assert_eq!(client.get_latitude().unwrap(), latitude());
    assert_eq!(client.get_longitude().unwrap(), longitude());
    assert_eq!(traffic(&mut client), (b":Gt#:Gg#".to_vec(), vec![7, 7], Vec::new()));
}

#[test]
fn get_gmt() {
    let mut client = client(b"-08#");
    assert_eq!(client.get_gmt().unwrap().value(), -8);
    assert_eq!(traffic(&mut client), (b":GG#".to_vec(), vec![4], Vec::new()));
}

#[test]
fn get_gmt_does_not_read_the_last_byte() {
    let mut client = client(b"+05!");
    assert_eq!(client.get_gmt().unwrap().value(), 5);
    let mut client = crate::client(b"+25#");
    assert!(matches!(
        client.get_gmt(),
        Err(Error::Boundary { field: Field::SignedHours, inspected: 3 })
    ));
}

#[test]
fn get_coordinates_at_low_precision() {
    let mut client = client(b"+05:34.5#+22\xDF01#+05:34.5#+22\xDF01#");
    assert_eq!(client.get_right_ascension().unwrap(), ascension());
    assert_eq!(client.get_declination().unwrap(), declination());
    assert_eq!(client.get_object_right_ascension().unwrap(), ascension());
    assert_eq!(client.get_object_declination().unwrap(), declination());
    assert_eq!(
        traffic(&mut client),
        (b":GR#:GD#:Gr#:Gd#".to_vec(), vec![9, 7, 9, 7], Vec::new())
    );
}

#[test]
fn get_coordinates_at_high_precision() {
    let script = Script::new(b"+05:34:30#+22\xDF01'59#+05:34:30#+22\xDF01'59#");
    let mut client = Client::with_precision(script, Precision::High);
    let ascension = client.get_right_ascension().unwrap();
    assert_eq!(ascension.fraction, Fraction::Seconds(Seconds::new(30).unwrap()));
    let declination = client.get_declination().unwrap();
    assert_eq!(declination.arc_seconds, Some(Seconds::new(59).unwrap()));
    assert_eq!(client.get_object_right_ascension().unwrap(), ascension);
    assert_eq!(client.get_object_declination().unwrap(), declination);
    assert_eq!(
        traffic(&mut client),
        (b":GR#:GD#:Gr#:Gd#".to_vec(), vec![10, 10, 10, 10], Vec::new())
    );
}

#[test]
fn get_alignment_status() {
    let mut client = client(b"P");
    assert_eq!(client.alignment_status().unwrap(), AlignmentStatus::Polar);
    assert_eq!(traffic(&mut client), (vec![6], vec![1], Vec::new()));
}

#[test]
fn get_alignment_status_unrecognized() {
    let mut client = client(b"Q");
    assert!(matches!(
        client.alignment_status(),
        Err(Error::Format { cause: Malformed::Unrecognized(b'Q'), inspected: 1 })
    ));
}

#[test]
fn slew() {
    let mut client = client(b"012");
    assert_eq!(client.slew().unwrap(), SlewStatus::CanComplete);
    assert_eq!(client.slew().unwrap(), SlewStatus::BelowHorizon);
    assert_eq!(client.slew().unwrap(), SlewStatus::BelowLimit);
    assert_eq!(traffic(&mut client), (b":MS#:MS#:MS#".to_vec(), vec![1, 1, 1], Vec::new()));
}

#[test]
fn bare_commands_read_nothing() {
    let mut client = client(b"untouched");
    client.set_site(&Site::Two).unwrap();
    client.start_motion(&Direction::North).unwrap();
    client.stop_motion(&Direction::West).unwrap();
    client.stop_slew().unwrap();
    client.set_motion_rate(&MotionRate::Find).unwrap();
    client.sync().unwrap();
    assert_eq!(
        traffic(&mut client),
        (b":W2#:Mn#:Qw#:Q#:RM#:GM#".to_vec(), Vec::new(), b"untouched".to_vec())
    );
}

#[test]
fn set_commands_accepted() {
    let mut client = client(b"1111111");
    client.set_sidreal_time(&time(1, 2, 3)).unwrap();
    client.set_local_time(&time(23, 59, 59)).unwrap();
    client.set_latitude(&latitude()).unwrap();
    client.set_longitude(&longitude()).unwrap();
    client.set_gmt_offset(&SignedHours::new(-8).unwrap()).unwrap();
    client.set_object_right_ascension(&ascension()).unwrap();
    client.set_object_declination(&declination()).unwrap();
    let (written, asked, left) = traffic(&mut client);
    assert_eq!(
        written,
        b":SS 01:02:03#:SL 23:59:59#:St -33\xDF52#:Sg 151\xDF12#:SG -08#:Sr +05:34.5#:Sd +22\xDF01#"
    );
    assert_eq!(asked, vec![1; 7]);
    assert!(left.is_empty());
}

#[test]
fn set_commands_rejected() {
    let mut client = client(&[0; 8]);
    assert!(matches!(client.set_sidreal_time(&time(1, 2, 3)), Err(Error::Status)));
    assert!(matches!(client.set_local_time(&time(1, 2, 3)), Err(Error::Status)));
    assert!(matches!(client.set_calendar_date(&date(1, 15, 24)), Err(Error::Status)));
    assert!(matches!(client.set_latitude(&latitude()), Err(Error::Status)));
    assert!(matches!(client.set_longitude(&longitude()), Err(Error::Status)));
    assert!(matches!(client.set_gmt_offset(&SignedHours::new(1).unwrap()), Err(Error::Status)));
    assert!(matches!(client.set_object_right_ascension(&ascension()), Err(Error::Status)));
    assert!(matches!(client.set_object_declination(&declination()), Err(Error::Status)));
    let (_, asked, left) = traffic(&mut client);
    assert_eq!(asked, vec![1; 8]);
    assert!(left.is_empty());
}

#[test]
fn any_other_byte_accepts() {
    for byte in 1..=255u8 {
        let mut client = client(&[byte]);
        assert!(client.set_local_time(&time(1, 2, 3)).is_ok());
    }
}

#[test]
fn set_calendar_date_waits_for_two_messages() {
    let mut client = client(b"1updating\xDF     \xDF");
    let mut drain: Drain = client.set_calendar_date(&date(1, 15, 24)).unwrap();
    assert_eq!(
        traffic(&mut client),
        (b":SC 01/15/24#".to_vec(), vec![1], b"updating\xDF     \xDF".to_vec())
    );
    assert!(!drain.is_complete());
    assert!(!client.await_calendar_date(&mut drain).unwrap());
    assert_eq!(client.get_mut().incoming, b"\xDF     \xDF");
    assert!(client.await_calendar_date(&mut drain).unwrap());
    assert!(drain.is_complete());
    assert_eq!(traffic(&mut client), (b":SC 01/15/24#".to_vec(), vec![1, 8, 8], Vec::new()));
}

#[test]
fn calendar_wait_takes_the_bytes_as_they_come() {
    let mut script = Script::new(b"\x01ab\xDF \xDFrest");
    script.chunk = 1;
    let mut client = Client::new(script);
    let mut drain = client.set_calendar_date(&date(12, 31, 99)).unwrap();
    let mut steps = 0;
    while !client.await_calendar_date(&mut drain).unwrap() {
        steps += 1;
        assert!(steps < 10);
    }
    assert_eq!(steps, 4);
    assert_eq!(client.get_mut().incoming, b"rest");
    assert_eq!(client.get_mut().outgoing, b":SC 12/31/99#");
}

#[test]
fn calendar_wait_tries_again_after_an_empty_read() {
    let mut client = client(b"1");
    let mut drain = client.set_calendar_date(&date(1, 15, 24)).unwrap();
    for _ in 0..5 {
        assert!(!client.await_calendar_date(&mut drain).unwrap());
    }
    client.get_mut().incoming.extend_from_slice(b"\xDF\xDF");
    assert!(client.await_calendar_date(&mut drain).unwrap());
}

#[test]
fn calendar_wait_gives_up_when_the_stream_fails() {
    let mut client = client(b"1");
    let mut drain = client.set_calendar_date(&date(1, 15, 24)).unwrap();
    client.get_mut().broken = true;
    let r = client.await_calendar_date(&mut drain);
    assert!(is_io(&r, std::io::ErrorKind::BrokenPipe));
    assert!(!drain.is_complete());
}

#[test]
fn stream_errors_come_through() {
    let mut client = Client::new(Script::broken());
    assert!(is_io(&client.get_altitude(), std::io::ErrorKind::BrokenPipe));
    assert!(is_io(&client.sync(), std::io::ErrorKind::BrokenPipe));
    assert!(is_io(&client.set_site(&Site::One), std::io::ErrorKind::BrokenPipe));
    assert!(is_io(&client.set_latitude(&latitude()), std::io::ErrorKind::BrokenPipe));
    assert!(client.get_mut().asked.is_empty());
    let mut client = crate::client(b"12:30");
    assert!(is_io(&client.get_sidreal_time(), std::io::ErrorKind::UnexpectedEof));
    assert_eq!(client.get_mut().outgoing, b":GS#");
    let mut client = crate::client(b"");
    assert!(is_io(&client.set_local_time(&time(1, 2, 3)), std::io::ErrorKind::UnexpectedEof));
}

#[test]
fn malformed_replies_fail_the_operation() {
    let mut client = client(b"+45:30#+95\xDF30#12:30:4x#");
    assert!(matches!(
        client.get_altitude(),
        Err(Error::Format {
            cause: Malformed::Literal { expected: 0xDF, found: b':' },
            inspected: 4
        })
    ));
    assert!(matches!(
        client.get_altitude(),
        Err(Error::Boundary { field: Field::SignedDegrees, inspected: 3 })
    ));
    assert!(matches!(
        client.get_sidreal_time(),
        Err(Error::Format { cause: Malformed::Numeral(Field::Seconds), inspected: 8 })
    ));
}

#[test]
fn boxed_client() {
    let mut boxed: BoxedClient = client(b"+45\xDF30#1").into_boxed();
    let altitude = boxed.get_altitude().unwrap();
    assert_eq!(altitude.degrees.value(), 45);
    boxed.set_site(&Site::Four).unwrap();
    boxed.set_local_time(&time(1, 2, 3)).unwrap();
    let others: Vec<BoxedClient> = vec![
        Client::with_precision(Script::new(b"+05:34:30#"), Precision::High).into_boxed(),
        Client::new(Script::new(b"+05:34.5#")).into_boxed(),
    ];
    for mut other in others {
        assert_eq!(other.get_right_ascension().unwrap().hours.value(), 5);
    }
}
