//! The decisions of the decode worker.
//!
//! The worker runs beside the session for as long as the session lives. Each
//! round it pulls one sample from the video sink, installs it in the frame
//! store, and looks after the subtitle cue. Pulling is the caller's part;
//! what to do with what was pulled is decided here. Nothing that goes wrong
//! in a round ends the worker: the round is given up and the next one begins.

use crate::frame::{Frame, FrameStore};
use crate::position::NO_POSITION;
use crate::subtitle::{cue_overlaps, overlaps, CueStore};
use crate::video::State;
use vstd::prelude::*;
use vstd::utf8::{decode_utf8, valid_utf8};

verus! {

/// How long one pull may wait for a sample, in milliseconds.
pub const PULL_TIMEOUT_MILLIS: u64 = 16;

/// How the worker asks the video sink for a sample.
#[derive(Debug, Clone, Copy, PartialEq, Eq, Structural)]
pub enum Pull {
    /// Take the frame that the pipeline holds ready while it is not playing:
    /// the first frame after a seek, for one.
    Preroll,
    /// Take the next frame of the running stream.
    Stream,
}

/// Why a round of the worker was given up.
#[derive(Debug, Clone, Copy, PartialEq, Eq, Structural)]
pub enum FlowError {
    /// No sample came within the timeout. This is expected and not reported.
    Eos,
    /// A sample was malformed or a cell could not be reached. This is
    /// reported, and the worker goes on.
    Error,
}

/// The timing of a sample, as far as the backend attached it.
#[derive(Debug, Clone, Copy, PartialEq, Eq, Structural)]
pub struct Timing {
    /// The sample names the segment that it belongs to.
    pub has_segment: bool,
    /// The sample holds a buffer.
    pub has_buffer: bool,
    /// When the buffer is due, in nanoseconds of stream time.
    pub pts: Option<u64>,
    /// For how long the buffer is shown, in nanoseconds.
    pub duration: Option<u64>,
}

/// The stretch of stream time over which a buffer is shown.
#[derive(Debug, Clone, Copy, PartialEq, Eq, Structural)]
pub struct Span {
    /// Where the stretch starts, in nanoseconds.
    pub start: u64,
    /// How long it is, in nanoseconds.
    pub length: u64,
}

/// The four points of stream time that decide whether a cue is due with a
/// frame. The caller asks each segment for the running time of its two.
#[derive(Debug, Clone, Copy, PartialEq, Eq, Structural)]
pub struct Marks {
    /// Where the frame starts.
    pub frame_start: u64,
    /// Where the frame ends.
    pub frame_end: u64,
    /// Where the cue starts.
    pub text_start: u64,
    /// Where the cue ends.
    pub text_end: u64,
}

/// The running times of the four marks, as the backend counts them; it
/// gives `-1` for a point outside the segment.
#[derive(Debug, Clone, Copy, PartialEq, Eq, Structural)]
pub struct Running {
    /// Where the frame starts.
    pub frame_start: i64,
    /// Where the frame ends.
    pub frame_end: i64,
    /// Where the cue starts.
    pub text_start: i64,
    /// Where the cue ends.
    pub text_end: i64,
}

impl Timing {
    /// The stretch over which the sample is shown, if its timing is whole.
    pub open spec fn span(self) -> Option<Span> {
        if self.has_segment && self.has_buffer && self.pts is Some && self.duration is Some {
            Some(Span { start: self.pts->0, length: self.duration->0 })
        } else {
            None
        }
    }

    /// The stretch over which the sample is shown, if its timing is whole.
    pub fn to_span(&self) -> (span: Option<Span>)
        ensures
            span == self.span(),
    {
        if !self.has_segment || !self.has_buffer {
            return None;
        }
        match (self.pts, self.duration) {
            (Some(start), Some(length)) => Some(Span { start, length }),
            _ => None,
        }
    }
}

impl Span {
    /// Where the stretch ends.
    pub open spec fn end(self) -> int {
        self.start + self.length
    }

    /// The backend can count the end of the stretch.
    pub open spec fn bounded(self) -> bool {
        self.end() < NO_POSITION
    }

    /// Where the stretch ends, if the backend can count that far.
    pub fn to_end(&self) -> (end: Option<u64>)
        ensures
            end == if self.bounded() {
                Some(self.end() as u64)
            } else {
                None
            },
    {
        if self.length < NO_POSITION - self.start {
            Some(self.start + self.length)
        } else {
            None
        }
    }
}

/// How the worker pulls while the pipeline is in the given state: from the
/// stream while it plays, else the frame held ready.
pub fn pull_for(state: State) -> (pull: Pull)
    ensures
        pull == if state == State::Playing {
            Pull::Stream
        } else {
            Pull::Preroll
        },
{
    match state {
        State::Playing => Pull::Stream,
        _ => Pull::Preroll,
    }
}

/// The marks of a frame and a cue, or nothing where the timing of the cue is
/// not whole or the backend cannot count an end.
pub open spec fn marks_of(frame: Span, text: Timing) -> Option<Marks> {
    match text.span() {
        Some(cue) => if frame.bounded() && cue.bounded() {
            Some(
                Marks {
                    frame_start: frame.start,
                    frame_end: frame.end() as u64,
                    text_start: cue.start,
                    text_end: cue.end() as u64,
                },
            )
        } else {
            None
        },
        None => None,
    }
}

/// `String::from_utf8` turns bytes into the text that they encode, and
/// refuses bytes that are not UTF-8.
#[verifier::external_body]
fn decode_text(bytes: Vec<u8>) -> (text: Option<String>)
    ensures
        match text {
            Some(t) => valid_utf8(bytes@) && t@ == decode_utf8(bytes@),
            None => !valid_utf8(bytes@),
        },
{
    String::from_utf8(bytes).ok()
}

/// What the worker keeps from one round to the next.
#[derive(Debug)]
pub struct Worker {
    clear_subtitles_at: Option<u64>,
}

impl View for Worker {
    /// When the cue on screen runs out, in nanoseconds of stream time.
    type V = Option<u64>;

    closed spec fn view(&self) -> Option<u64> {
        self.clear_subtitles_at
    }
}

/// Whether a frame that starts at `start` ends the cue that runs out at
/// `expiry`.
pub open spec fn expires(expiry: Option<u64>, start: u64) -> bool {
    expiry matches Some(at) && start >= at
}

impl Worker {
    /// A worker that has no cue to look after.
    pub fn new() -> (worker: Worker)
        ensures
            worker@ is None,
    {
        Worker { clear_subtitles_at: None }
    }

    /// Takes what a pull returned.
    ///
    /// Without a sample the round is over, and nothing is reported. A sample
    /// whose timing is not whole is reported and dropped. Any other sample is
    /// installed in the frame store as the newest frame, and the cue on
    /// screen is cleared if it has run out by the time the frame starts. The
    /// stretch of the frame is returned for the subtitle step.
    pub fn on_sample(
        &mut self,
        sample: Option<(Timing, Frame)>,
        store: &mut FrameStore,
        cues: &mut CueStore,
    ) -> (span: Result<Span, FlowError>)
        ensures
            match sample {
                None => {
                    &&& span == Err::<Span, FlowError>(FlowError::Eos)
                    &&& final(self)@ == old(self)@
                    &&& final(store)@ == old(store)@
                    &&& final(cues)@ == old(cues)@
                },
                Some((timing, frame)) => match timing.span() {
                    None => {
                        &&& span == Err::<Span, FlowError>(FlowError::Error)
                        &&& final(self)@ == old(self)@
                        &&& final(store)@ == old(store)@
                        &&& final(cues)@ == old(cues)@
                    },
                    Some(shown) => {
                        &&& span == Ok::<Span, FlowError>(shown)
                        &&& final(store)@ == old(store)@.written(frame@)
                        &&& final(self)@ == if expires(old(self)@, shown.start) {
                            None
                        } else {
                            old(self)@
                        }
                        &&& final(cues)@ == if expires(old(self)@, shown.start) {
                            old(cues)@.cleared()
                        } else {
                            old(cues)@
                        }
                    },
                },
            },
    {
        let Some((timing, frame)) = sample else {
            return Err(FlowError::Eos);
        };
        let Some(shown) = timing.to_span() else {
            return Err(FlowError::Error);
        };
        store.write(frame);
        if let Some(at) = self.clear_subtitles_at {
            if shown.start >= at {
                cues.clear();
                self.clear_subtitles_at = None;
            }
        }
        Ok(shown)
    }

    /// The points of stream time to turn into running time once a subtitle
    /// sample came with a frame. A sample whose timing is not whole, or an
    /// end that the backend cannot count, is reported.
    pub fn marks(frame: Span, text: Timing) -> (marks: Result<Marks, FlowError>)
        ensures
            match marks {
                Ok(m) => marks_of(frame, text) == Some(m),
                Err(e) => marks_of(frame, text) is None && e == FlowError::Error,
            },
    {
        let Some(cue) = text.to_span() else {
            return Err(FlowError::Error);
        };
        let Some(frame_end) = frame.to_end() else {
            return Err(FlowError::Error);
        };
        let Some(text_end) = cue.to_end() else {
            return Err(FlowError::Error);
        };
        Ok(Marks { frame_start: frame.start, frame_end, text_start: cue.start, text_end })
    }

    /// Takes a subtitle sample whose running times are known.
    ///
    /// A cue that is not due while the frame is shown is left aside. A cue
    /// that is due goes on screen, to run out where it ends; `bytes` is its
    /// text as the sample holds it, `None` where the buffer could not be
    /// read. An unreadable buffer and text that is not UTF-8 are reported,
    /// and the cue on screen stays.
    pub fn on_text(
        &mut self,
        marks: Marks,
        running: Running,
        bytes: Option<Vec<u8>>,
        cues: &mut CueStore,
    ) -> (done: Result<(), FlowError>)
        ensures
            if !overlaps(
                running.text_start as int,
                running.text_end as int,
                running.frame_start as int,
                running.frame_end as int,
            ) {
                &&& done == Ok::<(), FlowError>(())
                &&& final(self)@ == old(self)@
                &&& final(cues)@ == old(cues)@
            } else if bytes is Some && valid_utf8(bytes->0@) {
                &&& done == Ok::<(), FlowError>(())
                &&& final(self)@ == Some(marks.text_end)
                &&& final(cues)@ == old(cues)@.shown(decode_utf8(bytes->0@))
            } else {
                &&& done == Err::<(), FlowError>(FlowError::Error)
                &&& final(self)@ == old(self)@
                &&& final(cues)@ == old(cues)@
            },
    {
        if !cue_overlaps(
            running.text_start,
            running.text_end,
            running.frame_start,
            running.frame_end,
        ) {
            return Ok(());
        }
        let Some(bytes) = bytes else {
            return Err(FlowError::Error);
        };
        let Some(text) = decode_text(bytes) else {
            return Err(FlowError::Error);
        };
        cues.show(text);
        self.clear_subtitles_at = Some(marks.text_end);
        Ok(())
    }
}

} // verus!
