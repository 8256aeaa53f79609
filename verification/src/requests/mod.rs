//! What goes over the wire: the requests, and the values that answer them.

pub mod alt;
pub mod asc;
pub mod azim;
pub mod cal;
pub mod decl;
pub mod grammar;
pub mod latlng;
pub mod site;
pub mod time;

use crate::error::{Error, Malformed};
use vstd::prelude::*;

verus! {

/// The request for the alignment status: the single byte ACK.
pub const GET_ALIGNMENT_STATUS: [u8; 1] = [6];

/// How many bytes the mount answers to [`GET_ALIGNMENT_STATUS`].
pub const GET_ALIGNMENT_STATUS_SIZE: usize = 1;

/// The command that matches the telescope's coordinates to those of the
/// object: `:GM#`.
pub const SYNC: [u8; 4] = [58, 71, 77, 35];

/// The command that slews the telescope to the object: `:MS#`.
pub const SLEW: [u8; 4] = [58, 77, 83, 35];

/// How many bytes the mount answers to [`SLEW`].
pub const SLEW_SIZE: usize = 1;

/// The command that stops a slew: `:Q#`.
pub const STOP_SLEW: [u8; 3] = [58, 81, 35];

/// How many bytes the mount answers to a command that sets a value.
pub const ACKNOWLEDGMENT_SIZE: usize = 1;

/// ASCII `M`, the letter of the command that starts a motion.
pub const MOVE: u8 = 77;

/// ASCII `Q`, the letter of the command that stops a motion.
pub const QUIT: u8 = 81;

/// ASCII `R`, the letter of the commands that set the rate of motion.
pub const RATE: u8 = 82;

/// How finely the mount reports right ascension and declination. A mount
/// answers at one precision throughout, fixed by its firmware.
#[derive(Clone, Copy, Debug, PartialEq, Eq, Structural)]
pub enum Precision {
    /// Right ascension to tenths of a minute, declination to minutes.
    Low,
    /// Both to seconds.
    High,
}

/// ASCII `A`, by which the mount reports an altitude and azimuth alignment.
pub const ALTITUDE_AZIMUTH: u8 = 65;

/// ASCII `L`, by which the mount reports a land alignment.
pub const LAND: u8 = 76;

/// ASCII `P`, by which the mount reports a polar alignment.
pub const POLAR: u8 = 80;

/// ASCII `G`, by which the mount reports a German polar alignment.
pub const GERMAN_POLAR: u8 = 71;

/// How the telescope is aligned.
#[derive(Clone, Copy, Debug, PartialEq, Eq, Structural)]
pub enum AlignmentStatus {
    AltitudeAzmuth,
    Land,
    Polar,
    GermanPolar,
}

impl AlignmentStatus {
    /// What the first byte of `input` says of the alignment: `A`, `L`, `P` or
    /// `G`, tried in that order.
    pub open spec fn decode(input: Seq<u8>) -> Result<AlignmentStatus, Error> {
        if input.len() == 0 {
            Err(Error::incomplete(0, 1))
        } else if input[0] == ALTITUDE_AZIMUTH {
            Ok(AlignmentStatus::AltitudeAzmuth)
        } else if input[0] == LAND {
            Ok(AlignmentStatus::Land)
        } else if input[0] == POLAR {
            Ok(AlignmentStatus::Polar)
        } else if input[0] == GERMAN_POLAR {
            Ok(AlignmentStatus::GermanPolar)
        } else {
            Err(Error::Format { cause: Malformed::Unrecognized(input[0]), inspected: 1 })
        }
    }

    /// Reads the alignment status from a reply of the mount.
    pub fn parse(input: &[u8]) -> (r: Result<AlignmentStatus, Error>)
        ensures
            r == AlignmentStatus::decode(input@),
    {
        if input.len() == 0 {
            return Err(
                Error::Format { cause: Malformed::Incomplete { needed: 1 }, inspected: 0 },
            );
        }
        let byte = input[0];
        if byte == ALTITUDE_AZIMUTH {
            Ok(AlignmentStatus::AltitudeAzmuth)
        } else if byte == LAND {
            Ok(AlignmentStatus::Land)
        } else if byte == POLAR {
            Ok(AlignmentStatus::Polar)
        } else if byte == GERMAN_POLAR {
            Ok(AlignmentStatus::GermanPolar)
        } else {
            Err(Error::Format { cause: Malformed::Unrecognized(byte), inspected: 1 })
        }
    }
}

/// A direction in which the telescope can be moved.
#[derive(Clone, Copy, Debug, PartialEq, Eq, Structural)]
pub enum Direction {
    North,
    Easth,
    South,
    West,
}

impl Direction {
    /// The letter that names the direction on the wire: `n`, `e`, `s` or `w`.
    #[verifier::allow_in_spec]
    pub fn letter(self) -> u8
        returns
            (match self {
                Direction::North => 110u8,
                Direction::Easth => 101u8,
                Direction::South => 115u8,
                Direction::West => 119u8,
            }),
    {
        match self {
            Direction::North => 110,
            Direction::Easth => 101,
            Direction::South => 115,
            Direction::West => 119,
        }
    }

    /// The direction as it stands in a command: its letter.
    pub fn format(&self) -> (out: Vec<u8>)
        ensures
            out@ == seq![self.letter()],
    {
        let mut out = Vec::new();
        out.push(self.letter());
        out
    }
}

/// ASCII `0`, by which the mount reports that it can complete a slew.
pub const CAN_COMPLETE: u8 = 48;

/// ASCII `1`, by which the mount reports an object below the horizon.
pub const BELOW_HORIZON: u8 = 49;

/// ASCII `2`, by which the mount reports an object below the higher limit.
pub const BELOW_LIMIT: u8 = 50;

/// What the mount answers when asked to slew to the object.
#[derive(Clone, Copy, Debug, PartialEq, Eq, Structural)]
pub enum SlewStatus {
    /// The telescope can complete the slew.
    CanComplete,
    /// The object is below the horizon.
    BelowHorizon,
    /// The object is below the higher limit.
    BelowLimit,
}

impl SlewStatus {
    /// What the first byte of `input` says of the slew: `0`, `1` or `2`,
    /// tried in that order.
    pub open spec fn decode(input: Seq<u8>) -> Result<SlewStatus, Error> {
        if input.len() == 0 {
            Err(Error::incomplete(0, 1))
        } else if input[0] == CAN_COMPLETE {
            Ok(SlewStatus::CanComplete)
        } else if input[0] == BELOW_HORIZON {
            Ok(SlewStatus::BelowHorizon)
        } else if input[0] == BELOW_LIMIT {
            Ok(SlewStatus::BelowLimit)
        } else {
            Err(Error::Format { cause: Malformed::Unrecognized(input[0]), inspected: 1 })
        }
    }

    /// Reads the slew status from a reply of the mount.
    pub fn parse(input: &[u8]) -> (r: Result<SlewStatus, Error>)
        ensures
            r == SlewStatus::decode(input@),
    {
        if input.len() == 0 {
            return Err(
                Error::Format { cause: Malformed::Incomplete { needed: 1 }, inspected: 0 },
            );
        }
        let byte = input[0];
        if byte == CAN_COMPLETE {
            Ok(SlewStatus::CanComplete)
        } else if byte == BELOW_HORIZON {
            Ok(SlewStatus::BelowHorizon)
        } else if byte == BELOW_LIMIT {
            Ok(SlewStatus::BelowLimit)
        } else {
            Err(Error::Format { cause: Malformed::Unrecognized(byte), inspected: 1 })
        }
    }
}

/// The rates at which the telescope can be moved.
#[derive(Clone, Copy, Debug, PartialEq, Eq, Structural)]
pub enum MotionRate {
    Guide,
    Center,
    Find,
    Slew,
}

impl MotionRate {
    /// The letter that names the rate on the wire: `G`, `C`, `M` or `S`.
    #[verifier::allow_in_spec]
    pub fn letter(self) -> u8
        returns
            (match self {
                MotionRate::Guide => 71u8,
                MotionRate::Center => 67u8,
                MotionRate::Find => 77u8,
                MotionRate::Slew => 83u8,
            }),
    {
        match self {
            MotionRate::Guide => 71,
            MotionRate::Center => 67,
            MotionRate::Find => 77,
            MotionRate::Slew => 83,
        }
    }

    /// The name of the command that sets the rate: `RG`, `RC`, `RM` or `RS`.
    pub open spec fn text(self) -> Seq<u8> {
        seq![RATE, self.letter()]
    }

    /// The name of the command that sets the rate.
    pub fn format(&self) -> (out: Vec<u8>)
        ensures
            out@ == self.text(),
    {
        let mut out = Vec::new();
        out.push(RATE);
        out.push(self.letter());
        out
    }
}

} // verus!
