//! Positions in the media, and how they are handed to the backend.

use crate::speed::Speed;
use crate::time::duration_nanos;
use std::time::Duration;
use vstd::prelude::*;

verus! {

/// Position in the media.
#[derive(Debug, Clone, Copy, PartialEq, Eq, PartialOrd, Ord, Hash)]
pub enum Position {
    /// Position based on time.
    ///
    /// Not the most accurate format for videos.
    Time(Duration),
    /// Position based on nth frame.
    Frame(u64),
}

/// The unit in which the backend counts a position.
#[derive(Debug, Clone, Copy, PartialEq, Eq, Structural)]
pub enum Unit {
    /// Nanoseconds.
    Time,
    /// Frames.
    Frame,
}

/// From where the backend measures one end of a seek.
#[derive(Debug, Clone, Copy, PartialEq, Eq, Structural)]
pub enum Origin {
    /// From the start of the media.
    Start,
    /// From the end of the media.
    End,
}

/// One seek, as the backend takes it.
#[derive(Debug, Clone, Copy, PartialEq, Eq, Structural)]
pub struct SeekRequest {
    /// The rate at which playback goes on after the seek.
    pub rate: Speed,
    /// Drop what the pipeline has buffered, so that the seek takes effect at
    /// once. Every seek of a session does.
    pub flush: bool,
    /// Land on the exact position instead of the nearest key frame.
    pub accurate: bool,
    /// The unit of `start` and `stop`; both ends are always in the same unit.
    pub unit: Unit,
    /// From where `start` is measured.
    pub start_from: Origin,
    /// Where playback starts; `None` leaves that end open.
    pub start: Option<u64>,
    /// From where `stop` is measured.
    pub stop_from: Origin,
    /// Where playback stops; `None` leaves that end open.
    pub stop: Option<u64>,
}

/// The count that the backend keeps for "no position". No position can have it.
pub const NO_POSITION: u64 = 0xffff_ffff_ffff_ffff;

/// The number of values of the backend's counter, `2^64`.
pub open spec fn counter_range() -> int {
    0x1_0000_0000_0000_0000
}

impl Position {
    /// The unit in which the backend counts this position.
    pub open spec fn unit(self) -> Unit {
        match self {
            Position::Time(_) => Unit::Time,
            Position::Frame(_) => Unit::Frame,
        }
    }

    /// The position in the backend's units: the nanoseconds of a time, cut to
    /// the 64 bits of the backend's counter, or the frame number.
    pub open spec fn raw(self) -> int {
        match self {
            Position::Time(t) => duration_nanos(t) as int % counter_range(),
            Position::Frame(f) => f as int,
        }
    }

    /// The backend can be asked for this position.
    pub open spec fn representable(self) -> bool {
        self.raw() != NO_POSITION
    }

    /// The seek that moves the play head to this position at the given rate:
    /// it starts there and leaves the stop open, both in the position's unit.
    pub open spec fn seek_at(self, rate: Speed, accurate: bool) -> SeekRequest {
        SeekRequest {
            rate,
            flush: true,
            accurate,
            unit: self.unit(),
            start_from: Origin::Start,
            start: Some(self.raw() as u64),
            stop_from: Origin::Start,
            stop: None,
        }
    }

    /// The unit in which the backend counts this position.
    pub fn to_unit(&self) -> (unit: Unit)
        ensures
            unit == self.unit(),
    {
        match self {
            Position::Time(_) => Unit::Time,
            Position::Frame(_) => Unit::Frame,
        }
    }

    /// The position in the backend's units.
    pub fn to_raw(&self) -> (raw: u64)
        ensures
            raw == self.raw(),
    {
        match self {
            Position::Time(t) => {
                let nanos: u128 = t.as_nanos();
                let low: u64 = (nanos % 0x1_0000_0000_0000_0000u128) as u64;
                low
            },
            Position::Frame(f) => *f,
        }
    }

    /// Whether the backend can be asked for this position.
    pub fn is_representable(&self) -> (r: bool)
        ensures
            r == self.representable(),
    {
        self.to_raw() != NO_POSITION
    }
}

impl From<Duration> for Position {
    fn from(t: Duration) -> (position: Self) {
        Position::Time(t)
    }
}

impl vstd::std_specs::convert::FromSpecImpl<Duration> for Position {
    open spec fn obeys_from_spec() -> bool {
        true
    }

    open spec fn from_spec(t: Duration) -> Self {
        Position::Time(t)
    }
}

impl From<u64> for Position {
    fn from(f: u64) -> (position: Self) {
        Position::Frame(f)
    }
}

impl vstd::std_specs::convert::FromSpecImpl<u64> for Position {
    open spec fn obeys_from_spec() -> bool {
        true
    }

    open spec fn from_spec(f: u64) -> Self {
        Position::Frame(f)
    }
}

} // verus!
