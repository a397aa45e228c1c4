//! The errors of a playback session.

use crate::speed::Speed;
use vstd::prelude::*;

verus! {

/// A frame rate as the backend reports it: a fraction of frames per second.
#[derive(Debug, Clone, Copy, PartialEq, Eq, Structural)]
pub struct Framerate {
    /// Frames.
    pub numer: i32,
    /// Seconds.
    pub denom: i32,
}

impl Framerate {
    /// The rate is a positive number: the quotient is neither zero, negative,
    /// infinite nor undefined.
    pub open spec fn valid(self) -> bool {
        (self.numer > 0 && self.denom > 0) || (self.numer < 0 && self.denom < 0)
    }

    /// Whether the rate is a positive number.
    pub fn is_valid(&self) -> (r: bool)
        ensures
            r == self.valid(),
    {
        (self.numer > 0 && self.denom > 0) || (self.numer < 0 && self.denom < 0)
    }
}

/// What can go wrong in a playback session. Errors that the backend raised
/// carry the backend's own message.
#[derive(Debug, Clone, PartialEq, Eq)]
pub enum Error {
    /// The backend could not be started or could not build the pipeline.
    Glib(String),
    /// A backend call reported failure; a refused seek is the usual case.
    Bool(String),
    /// The backend has no message bus.
    Bus,
    /// The pipeline holds no sink of the given name.
    AppSink(String),
    /// The backend could not change its state.
    StateChange,
    /// A pipeline element is not of the expected kind.
    Cast,
    /// Reading or writing failed.
    Io(String),
    /// The URI is not valid.
    Uri,
    /// The media's capabilities could not be read.
    Caps,
    /// The media's duration or position could not be queried.
    Duration,
    /// Waiting for the decode worker failed.
    Sync,
    /// A shared cell could not be locked or read.
    Lock,
    /// The media reports a frame rate that is no positive number.
    Framerate(Framerate),
    /// The playback rate asked for is zero, infinite or not a number.
    Speed(Speed),
}

} // verus!
