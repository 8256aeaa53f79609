//! The client: one request at a time over a stream it owns, each answered
//! by a reply of known size.

use crate::drain::{Drain, SCRATCH};
use crate::error::Error;
use crate::formats::hrs::SignedHours;
use crate::formats::{agrees, Field};
use crate::requests::alt::{Altitude, GET_ALTITUDE, GET_ALTITUDE_SIZE};
use crate::requests::asc::{
    Ascension, GET_OBJECT_RIGHT_ASCENSION, GET_RIGHT_ASCENSION, RIGHT_ASCENSION,
};
use crate::requests::azim::{Azimuth, GET_AZMITH, GET_AZMITH_SIZE};
use crate::requests::cal::{Date, CALENDAR, GET_DATE, GET_DATE_SIZE};
use crate::requests::decl::{Declination, DECLINATION, GET_DECLANATION, GET_OBJECT_DECLANATION};
use crate::requests::grammar::{bare_command, bare_frame, emit, set_frame, SET};
use crate::requests::latlng::{
    Latitude, Longitude, GET_LATITUDE, GET_LATITUDE_SIZE, GET_LONGITUDE, GET_LONGITUDE_SIZE,
    LATITUDE, LONGITUDE,
};
use crate::requests::site::Site;
use crate::requests::time::{
    offset_frame, set_offset_request, Time, GET_GREENWICH_MEAN_TIME, GET_GREENWICH_MEAN_TIME_SIZE,
    GET_LOCAL_12_HOUR_TIME, GET_LOCAL_24_HOUR_TIME, GET_SIDREAL_TIME, GET_TIME_SIZE, GREENWICH,
    LOCAL, SIDEREAL,
};
use crate::requests::{
    AlignmentStatus, Direction, MotionRate, Precision, SlewStatus, ACKNOWLEDGMENT_SIZE,
    GET_ALIGNMENT_STATUS, GET_ALIGNMENT_STATUS_SIZE, MOVE, QUIT, SLEW, SLEW_SIZE, STOP_SLEW, SYNC,
};
use crate::stream::Stream;
use vstd::prelude::*;

verus! {

/// One call that the client has made on its stream and that succeeded, with
/// what it handed over and what it got back.
pub enum Event {
    /// `bytes` were written whole.
    Written { bytes: Seq<u8> },
    /// Exactly `asked` bytes were asked for, and `bytes` came back.
    Delivered { asked: nat, bytes: Seq<u8> },
    /// At most `asked` bytes were asked for, and `bytes` came back.
    Trickled { asked: nat, bytes: Seq<u8> },
}

/// A client of the mount's command set.
///
/// The client keeps a record, for proofs only, of the calls it has made on
/// its stream: its contracts say by that record what each operation writes
/// and asks for, and by what came back what it returns.
pub struct Client<T> {
    stream: T,
    precision: Precision,
    record: Ghost<Seq<Event>>,
}

impl<T> Client<T> {
    /// The stream that the client owns.
    pub closed spec fn stream(self) -> T {
        self.stream
    }

    /// The precision at which the mount is taken to answer.
    pub closed spec fn precision(self) -> Precision {
        self.precision
    }

    /// The calls that the client has made on its stream and that succeeded,
    /// oldest first.
    pub closed spec fn record(self) -> Seq<Event> {
        self.record@
    }

    /// What the last call of the record brought back from the stream.
    pub open spec fn reply(self) -> Seq<u8> {
        if self.record().len() == 0 {
            Seq::empty()
        } else {
            match self.record().last() {
                Event::Written { .. } => Seq::empty(),
                Event::Delivered { bytes, .. } => bytes,
                Event::Trickled { bytes, .. } => bytes,
            }
        }
    }

    /// Whether, since the client was as `before`, it has made no call that
    /// succeeded.
    pub open spec fn idle(self, before: Self) -> bool {
        &&& self.precision() == before.precision()
        &&& self.record() == before.record()
    }

    /// Whether, since the client was as `before`, it has written `request`
    /// and made no other call that succeeded.
    pub open spec fn wrote(self, before: Self, request: Seq<u8>) -> bool {
        &&& self.precision() == before.precision()
        &&& self.record() == before.record().push(Event::Written { bytes: request })
    }

    /// Whether, since the client was as `before`, one exchange has taken
    /// place and nothing else: the client has written `request`, then asked
    /// for exactly `size` bytes, and got [`Client::reply`].
    pub open spec fn exchanged(self, before: Self, request: Seq<u8>, size: nat) -> bool {
        &&& self.precision() == before.precision()
        &&& self.record() == before.record().push(Event::Written { bytes: request }).push(
            Event::Delivered { asked: size, bytes: self.reply() },
        )
    }

    /// Whether, since the client was as `before`, it has told the mount
    /// `request`, a command that is not answered, with the outcome `r`: it
    /// has written the command, or the stream failed before it had.
    pub open spec fn told(self, before: Self, request: Seq<u8>, r: Result<(), Error>) -> bool {
        match r {
            Ok(()) => self.wrote(before, request),
            Err(e) => e is IO && self.idle(before),
        }
    }

    /// Whether, since the client was as `before`, it has asked the mount
    /// `request`, to which a reply of `size` bytes is due, with the outcome
    /// `r`: one exchange has taken place, or the stream failed on the way.
    pub open spec fn asked<V>(
        self,
        before: Self,
        request: Seq<u8>,
        size: nat,
        r: Result<V, Error>,
    ) -> bool {
        if Error::stream_failed(r) {
            self.idle(before) || self.wrote(before, request)
        } else {
            self.exchanged(before, request, size)
        }
    }

    /// Whether, since the client was as `before`, it has given the mount the
    /// command `request`, with the outcome `r`: an exchange in which the
    /// mount answered with one byte, and `r` is what that byte means; or the
    /// stream failed on the way.
    pub open spec fn commanded(self, before: Self, request: Seq<u8>, r: Result<(), Error>) -> bool {
        &&& self.asked(before, request, ACKNOWLEDGMENT_SIZE as nat, r)
        &&& !Error::stream_failed(r) ==> r == Error::acknowledgment(self.reply())
    }

    /// A client of a mount that answers at low precision.
    pub fn new(stream: T) -> (r: Self)
        ensures
            r.stream() == stream,
            r.precision() == Precision::Low,
            r.record() == Seq::<Event>::empty(),
    {
        Client { stream, precision: Precision::Low, record: Ghost(Seq::empty()) }
    }

    /// A client of a mount that answers at the given precision.
    pub fn with_precision(stream: T, precision: Precision) -> (r: Self)
        ensures
            r.stream() == stream,
            r.precision() == precision,
            r.record() == Seq::<Event>::empty(),
    {
        Client { stream, precision, record: Ghost(Seq::empty()) }
    }

    /// The stream, to use it directly. What is done with it there is not in
    /// the client's record.
    pub fn get_mut(&mut self) -> (r: &mut T)
        ensures
            *r == old(self).stream(),
            final(self).stream() == *final(r),
            final(self).idle(*old(self)),
    {
        &mut self.stream
    }
}

impl<T: Stream> Client<T> {
    /// Writes `request` whole.
    fn send(&mut self, request: &[u8]) -> (r: Result<(), Error>)
        ensures
            final(self).told(*old(self), request@, r),
    {
        match self.stream.write_all(request) {
            Ok(()) => {
                proof {
                    self.record@ = self.record@.push(Event::Written { bytes: request@ });
                }
                Ok(())
            },
            Err(e) => Err(Error::IO(e)),
        }
    }

    /// Writes `request` whole, then reads the `size` bytes of the reply.
    fn ask(&mut self, request: &[u8], size: usize) -> (r: Result<Vec<u8>, Error>)
        ensures
            final(self).asked(*old(self), request@, size as nat, r),
            r matches Ok(reply) ==> reply@ == final(self).reply(),
            r is Err ==> Error::stream_failed(r),
    {
        self.send(request)?;
        match self.stream.read_exact(size) {
            Ok(reply) => {
                proof {
                    self.record@ = self.record@.push(
                        Event::Delivered { asked: size as nat, bytes: reply@ },
                    );
                }
                Ok(reply)
            },
            Err(e) => Err(Error::IO(e)),
        }
    }

    /// Writes the command `request`, then reads the byte by which the mount
    /// accepts or rejects it.
    fn command(&mut self, request: &[u8]) -> (r: Result<(), Error>)
        ensures
            final(self).commanded(*old(self), request@, r),
    {
        let reply = self.ask(request, ACKNOWLEDGMENT_SIZE)?;
        Error::parse(reply.as_slice())
    }
}

/// General telescope information.
impl<T: Stream> Client<T> {
    /// Gets the alignment status.
    pub fn alignment_status(&mut self) -> (r: Result<AlignmentStatus, Error>)
        ensures
            final(self).asked(
                *old(self),
                GET_ALIGNMENT_STATUS@,
                GET_ALIGNMENT_STATUS_SIZE as nat,
                r,
            ),
            !Error::stream_failed(r) ==> r == AlignmentStatus::decode(final(self).reply()),
    {
        let reply = self.ask(&GET_ALIGNMENT_STATUS, GET_ALIGNMENT_STATUS_SIZE)?;
        AlignmentStatus::parse(reply.as_slice())
    }

    /// Gets the right ascension of the telescope.
    pub fn get_right_ascension(&mut self) -> (r: Result<Ascension, Error>)
        ensures
            final(self).asked(
                *old(self),
                GET_RIGHT_ASCENSION@,
                Ascension::size(old(self).precision()) as nat,
                r,
            ),
            !Error::stream_failed(r) ==> Ascension::parsed(
                final(self).reply(),
                old(self).precision(),
                r,
            ),
    {
        let reply = self.ask(&GET_RIGHT_ASCENSION, Ascension::size(self.precision))?;
        Ascension::parse(reply.as_slice(), self.precision)
    }

    /// Gets the declination of the telescope.
    pub fn get_declination(&mut self) -> (r: Result<Declination, Error>)
        ensures
            final(self).asked(
                *old(self),
                GET_DECLANATION@,
                Declination::size(old(self).precision()) as nat,
                r,
            ),
            !Error::stream_failed(r) ==> Declination::parsed(
                final(self).reply(),
                old(self).precision(),
                r,
            ),
    {
        let reply = self.ask(&GET_DECLANATION, Declination::size(self.precision))?;
        Declination::parse(reply.as_slice(), self.precision)
    }

    /// Gets the altitude of the telescope.
    pub fn get_altitude(&mut self) -> (r: Result<Altitude, Error>)
        ensures
            final(self).asked(*old(self), GET_ALTITUDE@, GET_ALTITUDE_SIZE as nat, r),
            !Error::stream_failed(r) ==> Altitude::parsed(final(self).reply(), r),
    {
        let reply = self.ask(&GET_ALTITUDE, GET_ALTITUDE_SIZE)?;
        Altitude::parse(reply.as_slice())
    }

    /// Gets the azimuth of the telescope.
    pub fn get_azmith(&mut self) -> (r: Result<Azimuth, Error>)
        ensures
            final(self).asked(*old(self), GET_AZMITH@, GET_AZMITH_SIZE as nat, r),
            !Error::stream_failed(r) ==> Azimuth::parsed(final(self).reply(), r),
    {
        let reply = self.ask(&GET_AZMITH, GET_AZMITH_SIZE)?;
        Azimuth::parse(reply.as_slice())
    }

    /// Gets the sidereal time.
    pub fn get_sidreal_time(&mut self) -> (r: Result<Time, Error>)
        ensures
            final(self).asked(*old(self), GET_SIDREAL_TIME@, GET_TIME_SIZE as nat, r),
            !Error::stream_failed(r) ==> Time::parsed(final(self).reply(), r),
    {
        let reply = self.ask(&GET_SIDREAL_TIME, GET_TIME_SIZE)?;
        Time::parse(reply.as_slice())
    }

    /// Gets the local time on a 24 hour clock.
    pub fn get_local_24_hour_time(&mut self) -> (r: Result<Time, Error>)
        ensures
            final(self).asked(*old(self), GET_LOCAL_24_HOUR_TIME@, GET_TIME_SIZE as nat, r),
            !Error::stream_failed(r) ==> Time::parsed(final(self).reply(), r),
    {
        let reply = self.ask(&GET_LOCAL_24_HOUR_TIME, GET_TIME_SIZE)?;
        Time::parse(reply.as_slice())
    }

    /// Gets the local time on a 12 hour clock.
    pub fn get_local_12_hour_time(&mut self) -> (r: Result<Time, Error>)
        ensures
            final(self).asked(*old(self), GET_LOCAL_12_HOUR_TIME@, GET_TIME_SIZE as nat, r),
            !Error::stream_failed(r) ==> Time::parsed(final(self).reply(), r),
    {
        let reply = self.ask(&GET_LOCAL_12_HOUR_TIME, GET_TIME_SIZE)?;
        Time::parse(reply.as_slice())
    }

    /// Gets the calendar date.
    pub fn get_calendar_date(&mut self) -> (r: Result<Date, Error>)
        ensures
            final(self).asked(*old(self), GET_DATE@, GET_DATE_SIZE as nat, r),
            !Error::stream_failed(r) ==> Date::parsed(final(self).reply(), r),
    {
        let reply = self.ask(&GET_DATE, GET_DATE_SIZE)?;
        Date::parse(reply.as_slice())
    }

    /// Gets the latitude of the site that is selected.
    pub fn get_latitude(&mut self) -> (r: Result<Latitude, Error>)
        ensures
            final(self).asked(*old(self), GET_LATITUDE@, GET_LATITUDE_SIZE as nat, r),
            !Error::stream_failed(r) ==> Latitude::parsed(final(self).reply(), r),
    {
        let reply = self.ask(&GET_LATITUDE, GET_LATITUDE_SIZE)?;
        Latitude::parse(reply.as_slice())
    }

    /// Gets the longitude of the site that is selected.
    pub fn get_longitude(&mut self) -> (r: Result<Longitude, Error>)
        ensures
            final(self).asked(*old(self), GET_LONGITUDE@, GET_LONGITUDE_SIZE as nat, r),
            !Error::stream_failed(r) ==> Longitude::parsed(final(self).reply(), r),
    {
        let reply = self.ask(&GET_LONGITUDE, GET_LONGITUDE_SIZE)?;
        Longitude::parse(reply.as_slice())
    }

    /// Gets the offset from Greenwich Mean Time. Of the reply `sHH#` the
    /// hours are read; its last byte is not looked at.
    pub fn get_gmt(&mut self) -> (r: Result<SignedHours, Error>)
        ensures
            final(self).asked(
                *old(self),
                GET_GREENWICH_MEAN_TIME@,
                GET_GREENWICH_MEAN_TIME_SIZE as nat,
                r,
            ),
            !Error::stream_failed(r) ==> agrees(
                r,
                Field::SignedHours.read(final(self).reply(), 0),
            ),
    {
        let reply = self.ask(&GET_GREENWICH_MEAN_TIME, GET_GREENWICH_MEAN_TIME_SIZE)?;
        SignedHours::read_at(reply.as_slice(), 0)
    }

    /// Sets the sidereal time.
    pub fn set_sidreal_time(&mut self, time: &Time) -> (r: Result<(), Error>)
        ensures
            final(self).commanded(
                *old(self),
                set_frame(SET, SIDEREAL, emit(Time::grammar(), time.values())),
                r,
            ),
    {
        let request = time.set_sidereal_request();
        self.command(request.as_slice())
    }

    /// Sets the local time, which is always given on a 24 hour clock.
    pub fn set_local_time(&mut self, time: &Time) -> (r: Result<(), Error>)
        ensures
            final(self).commanded(
                *old(self),
                set_frame(SET, LOCAL, emit(Time::grammar(), time.values())),
                r,
            ),
    {
        let request = time.set_local_request();
        self.command(request.as_slice())
    }

    /// Sets the calendar date. If the mount accepts the date, it goes on to
    /// recompute its planetary data, and the wait for that begins: see
    /// [`Client::await_calendar_date`].
    pub fn set_calendar_date(&mut self, date: &Date) -> (r: Result<Drain, Error>)
        ensures
            final(self).asked(
                *old(self),
                set_frame(SET, CALENDAR, emit(Date::grammar(), date.values())),
                ACKNOWLEDGMENT_SIZE as nat,
                r,
            ),
            !Error::stream_failed(r) ==> match Error::acknowledgment(final(self).reply()) {
                Ok(()) => r matches Ok(drain) && drain@ == 0,
                Err(e) => r matches Err(x) && x == e,
            },
    {
        let request = date.set_request();
        let reply = self.ask(request.as_slice(), ACKNOWLEDGMENT_SIZE)?;
        Error::parse(reply.as_slice())?;
        Ok(Drain::new())
    }

    /// Takes one step of the wait that follows a new date: reads what the
    /// stream has, at most [`SCRATCH`] bytes and possibly none, and says
    /// whether the mount has finished. The caller repeats the step until it
    /// has; nothing else may be asked of the mount before.
    pub fn await_calendar_date(&mut self, drain: &mut Drain) -> (r: Result<bool, Error>)
        ensures
            final(self).precision() == old(self).precision(),
            match r {
                Ok(done) => {
                    &&& final(self).record() == old(self).record().push(
                        Event::Trickled { asked: SCRATCH as nat, bytes: final(self).reply() },
                    )
                    &&& final(drain)@ == Drain::after(old(drain)@, final(self).reply())
                    &&& done == final(drain).complete()
                },
                Err(e) => e is IO && final(self).idle(*old(self)) && final(drain)@ == old(
                    drain,
                )@,
            },
    {
        match self.stream.read(SCRATCH) {
            Ok(chunk) => {
                proof {
                    self.record@ = self.record@.push(
                        Event::Trickled { asked: SCRATCH as nat, bytes: chunk@ },
                    );
                }
                let mut chunk = chunk;
                Ok(drain.feed(&mut chunk))
            },
            Err(e) => Err(Error::IO(e)),
        }
    }

    /// Sets the latitude of the site that is selected.
    pub fn set_latitude(&mut self, latitude: &Latitude) -> (r: Result<(), Error>)
        ensures
            final(self).commanded(
                *old(self),
                set_frame(SET, LATITUDE, emit(Latitude::grammar(), latitude.values())),
                r,
            ),
    {
        let request = latitude.set_request();
        self.command(request.as_slice())
    }

    /// Sets the longitude of the site that is selected.
    pub fn set_longitude(&mut self, longitude: &Longitude) -> (r: Result<(), Error>)
        ensures
            final(self).commanded(
                *old(self),
                set_frame(SET, LONGITUDE, emit(Longitude::grammar(), longitude.values())),
                r,
            ),
    {
        let request = longitude.set_request();
        self.command(request.as_slice())
    }

    /// Sets the offset from Greenwich Mean Time.
    pub fn set_gmt_offset(&mut self, offset: &SignedHours) -> (r: Result<(), Error>)
        ensures
            final(self).commanded(
                *old(self),
                set_frame(SET, GREENWICH, offset_frame(offset@)),
                r,
            ),
    {
        let request = set_offset_request(offset);
        self.command(request.as_slice())
    }

    /// Selects the site.
    pub fn set_site(&mut self, site: &Site) -> (r: Result<(), Error>)
        ensures
            final(self).told(*old(self), bare_frame(site.text()), r),
    {
        let name = site.format();
        let request = bare_command(name.as_slice());
        self.send(request.as_slice())
    }
}

/// Telescope motion.
impl<T: Stream> Client<T> {
    /// Starts a motion in the given direction, at the rate that is set.
    pub fn start_motion(&mut self, direction: &Direction) -> (r: Result<(), Error>)
        ensures
            final(self).told(*old(self), bare_frame(seq![MOVE, direction.letter()]), r),
    {
        let mut name = Vec::new();
        name.push(MOVE);
        name.push(direction.letter());
        assert(name@ =~= seq![MOVE, direction.letter()]);
        let request = bare_command(name.as_slice());
        self.send(request.as_slice())
    }

    /// Slews the telescope to the coordinates of the object, and says
    /// whether it can get there.
    pub fn slew(&mut self) -> (r: Result<SlewStatus, Error>)
        ensures
            final(self).asked(*old(self), SLEW@, SLEW_SIZE as nat, r),
            !Error::stream_failed(r) ==> r == SlewStatus::decode(final(self).reply()),
    {
        let reply = self.ask(&SLEW, SLEW_SIZE)?;
        SlewStatus::parse(reply.as_slice())
    }

    /// Stops the motion in the given direction, and a slew to the object if
    /// one is under way.
    pub fn stop_motion(&mut self, direction: &Direction) -> (r: Result<(), Error>)
        ensures
            final(self).told(*old(self), bare_frame(seq![QUIT, direction.letter()]), r),
    {
        let mut name = Vec::new();
        name.push(QUIT);
        name.push(direction.letter());
        assert(name@ =~= seq![QUIT, direction.letter()]);
        let request = bare_command(name.as_slice());
        self.send(request.as_slice())
    }

    /// Stops a slew to the object.
    pub fn stop_slew(&mut self) -> (r: Result<(), Error>)
        ensures
            final(self).told(*old(self), STOP_SLEW@, r),
    {
        self.send(&STOP_SLEW)
    }

    /// Sets the rate of motion.
    pub fn set_motion_rate(&mut self, motion_rate: &MotionRate) -> (r: Result<(), Error>)
        ensures
            final(self).told(*old(self), bare_frame(motion_rate.text()), r),
    {
        let name = motion_rate.format();
        let request = bare_command(name.as_slice());
        self.send(request.as_slice())
    }
}

/// The object that the telescope is to find.
impl<T: Stream> Client<T> {
    /// Gets the right ascension of the object.
    pub fn get_object_right_ascension(&mut self) -> (r: Result<Ascension, Error>)
        ensures
            final(self).asked(
                *old(self),
                GET_OBJECT_RIGHT_ASCENSION@,
                Ascension::size(old(self).precision()) as nat,
                r,
            ),
            !Error::stream_failed(r) ==> Ascension::parsed(
                final(self).reply(),
                old(self).precision(),
                r,
            ),
    {
        let reply = self.ask(&GET_OBJECT_RIGHT_ASCENSION, Ascension::size(self.precision))?;
        Ascension::parse(reply.as_slice(), self.precision)
    }

    /// Gets the declination of the object.
    pub fn get_object_declination(&mut self) -> (r: Result<Declination, Error>)
        ensures
            final(self).asked(
                *old(self),
                GET_OBJECT_DECLANATION@,
                Declination::size(old(self).precision()) as nat,
                r,
            ),
            !Error::stream_failed(r) ==> Declination::parsed(
                final(self).reply(),
                old(self).precision(),
                r,
            ),
    {
        let reply = self.ask(&GET_OBJECT_DECLANATION, Declination::size(self.precision))?;
        Declination::parse(reply.as_slice(), self.precision)
    }

    /// Sets the right ascension of the object.
    pub fn set_object_right_ascension(&mut self, right_ascension: &Ascension) -> (r: Result<
        (),
        Error,
    >)
        ensures
            final(self).commanded(
                *old(self),
                set_frame(
                    SET,
                    RIGHT_ASCENSION,
                    emit(
                        Ascension::grammar(right_ascension.precision()),
                        right_ascension.values(),
                    ),
                ),
                r,
            ),
    {
        let request = right_ascension.set_request();
        self.command(request.as_slice())
    }

    /// Sets the declination of the object.
    pub fn set_object_declination(&mut self, declination: &Declination) -> (r: Result<(), Error>)
        ensures
            final(self).commanded(
                *old(self),
                set_frame(
                    SET,
                    DECLINATION,
                    emit(Declination::grammar(declination.precision()), declination.values()),
                ),
                r,
            ),
    {
        let request = declination.set_request();
        self.command(request.as_slice())
    }

    /// Matches the coordinates of the telescope to those of the object.
    pub fn sync(&mut self) -> (r: Result<(), Error>)
        ensures
            final(self).told(*old(self), SYNC@, r),
    {
        self.send(&SYNC)
    }
}

/// A client whose stream is behind a pointer, so that clients of different
/// streams have one type.
pub struct BoxedClient(Client<Box<dyn Stream>>);

impl<T: Stream + 'static> Client<T> {
    /// The same client, its stream moved behind a pointer.
    pub fn into_boxed(self) -> (r: BoxedClient)
        ensures
            r.client().precision() == self.precision(),
            r.client().record() == self.record(),
    {
        BoxedClient(
            Client {
                stream: Box::new(self.stream),
                precision: self.precision,
                record: self.record,
            },
        )
    }
}

impl BoxedClient {
    /// The client inside.
    pub closed spec fn client(self) -> Client<Box<dyn Stream>> {
        self.0
    }
}

impl core::ops::Deref for BoxedClient {
    type Target = Client<Box<dyn Stream>>;

    fn deref(&self) -> (r: &Self::Target)
        ensures
            *r == self.client(),
    {
        &self.0
    }
}

impl core::ops::DerefMut for BoxedClient {
    fn deref_mut(&mut self) -> (r: &mut Self::Target)
        ensures
            *r == old(self).client(),
            final(self).client() == *final(r),
    {
        &mut self.0
    }
}

} // verus!
