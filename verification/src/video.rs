//! The playback controller: the transport state of one session and the
//! transitions that transport calls and the periodic tick make.
//!
//! The controller never touches the media backend. Each operation returns the
//! commands that the caller hands to the backend, in order, and takes what the
//! backend answered as plain values.

use crate::error::{Error, Framerate};
use crate::position::{Position, SeekRequest, Origin, Unit, NO_POSITION};
use crate::speed::Speed;
use crate::subtitle::CueStore;
use crate::sync::{delay_nanos, AvSync};
use crate::time::duration_nanos;
use vstd::prelude::*;

verus! {

/// A state of the backend's pipeline.
#[derive(Debug, Clone, Copy, PartialEq, Eq, Structural)]
pub enum State {
    /// Torn down: nothing is held.
    Null,
    /// Ready to open the media.
    Ready,
    /// Holding the frame at the play head.
    Paused,
    /// Playing.
    Playing,
}

/// One order to the backend.
#[derive(Debug, Clone, PartialEq, Eq)]
pub enum Command {
    /// Bring the pipeline to a state.
    SetState(State),
    /// Move the play head.
    Seek(SeekRequest),
    /// Delay the audio by this many nanoseconds; a negative offset plays it
    /// earlier.
    SetAvOffset(i64),
    /// Mute or unmute the audio without changing the volume.
    SetMuted(bool),
    /// Load subtitles from this URI.
    SetSubtitleUri(String),
}

/// One message from the backend's bus.
#[derive(Debug, Clone, PartialEq, Eq)]
pub enum BusMessage {
    /// The stream failed; the session goes on.
    Error(String),
    /// The stream has ended.
    EndOfStream,
}

/// One notice to the caller of a tick.
#[derive(Debug, Clone, PartialEq, Eq)]
pub enum Notice {
    /// The backend reported an error.
    Error(String),
    /// The stream has ended.
    EndOfStream,
    /// A frame that was not presented yet is in the frame store.
    NewFrame,
    /// The subtitle text changed to this, or went away.
    SubtitleText(Option<String>),
}

/// What one tick asks of its caller.
#[derive(Debug)]
pub struct Tick {
    /// Orders for the backend, to be carried out first to last.
    pub commands: Vec<Command>,
    /// Notices for the caller's handlers, first to last.
    pub notices: Vec<Notice>,
    /// Whether the session is running: the next tick is then due with the
    /// next frame, else after `IDLE_TICK_MILLIS`.
    pub active: bool,
}

/// The pause between two ticks of a session that is not running.
pub const IDLE_TICK_MILLIS: u64 = 32;

/// The state of one playback session.
#[derive(Debug, Clone, Copy)]
pub struct PlaybackState {
    /// Playback is halted at the play head.
    pub paused: bool,
    /// The stream starts over when it ends.
    pub looping: bool,
    /// The playback rate.
    pub speed: Speed,
    /// The stream has ended and was not restarted.
    pub is_eos: bool,
    /// The next tick restarts the stream.
    pub restart_pending: bool,
    /// The length of the media; zero for a live source.
    pub duration: std::time::Duration,
    /// Frames per second.
    pub framerate: Framerate,
    /// The width of a frame in pixels, a multiple of four.
    pub width: i32,
    /// The height of a frame in pixels.
    pub height: i32,
}

/// Where a session stands, as its caller sees it.
#[derive(Debug, Clone, Copy, PartialEq, Eq, Structural)]
pub enum Phase {
    /// The stream plays.
    Playing,
    /// The stream is halted at the play head.
    Paused,
    /// The stream has ended, and the session waits for its caller.
    Eos,
    /// The stream starts over with the next tick.
    Restarting,
}

/// Whether one of the first `n` messages says that the stream has ended.
pub open spec fn ended_within(messages: Seq<BusMessage>, n: int) -> bool {
    exists|i: int| 0 <= i < n && messages[i] is EndOfStream
}

/// Whether one of the messages says that the stream has ended.
pub open spec fn ended(messages: Seq<BusMessage>) -> bool {
    ended_within(messages, messages.len() as int)
}

/// The notice that passes a bus message on to the caller.
pub open spec fn notice_of(message: BusMessage) -> Notice {
    match message {
        BusMessage::Error(detail) => Notice::Error(detail),
        BusMessage::EndOfStream => Notice::EndOfStream,
    }
}

/// The notices that pass the messages on, in their order.
pub open spec fn notices_of(messages: Seq<BusMessage>) -> Seq<Notice> {
    Seq::new(messages.len(), |i: int| notice_of(messages[i]))
}

/// The pipeline state that a pause flag asks for.
pub open spec fn state_for(paused: bool) -> State {
    if paused {
        State::Paused
    } else {
        State::Playing
    }
}

/// The seek that a restart makes: to the first frame, at the given rate, to
/// the nearest key frame.
pub open spec fn restart_seek(rate: Speed) -> SeekRequest {
    Position::Frame(0).seek_at(rate, false)
}

/// The seek that changes the rate at a position given in nanoseconds. A
/// forward rate plays from the position to the end of the media, a backward
/// rate from the position back to the start of the media.
pub open spec fn speed_seek(rate: Speed, position: u64) -> SeekRequest {
    if rate.forward() {
        SeekRequest {
            rate,
            flush: true,
            accurate: true,
            unit: Unit::Time,
            start_from: Origin::Start,
            start: Some(position),
            stop_from: Origin::End,
            stop: Some(0u64),
        }
    } else {
        SeekRequest {
            rate,
            flush: true,
            accurate: true,
            unit: Unit::Time,
            start_from: Origin::Start,
            start: Some(0u64),
            stop_from: Origin::Start,
            stop: Some(position),
        }
    }
}

/// What a change of speed plans: the seek at the new rate from the current
/// position, or the reason why nothing is planned. The position comes first:
/// without it the call fails whatever the rate.
pub open spec fn speed_plan(rate: Speed, position: Option<u64>) -> Result<SeekRequest, Error> {
    if !known(position) {
        Err(Error::Duration)
    } else if !rate.playable() {
        Err(Error::Speed(rate))
    } else {
        Ok(speed_seek(rate, position->0))
    }
}

/// Whether the backend answered a query for the position: it did not where
/// it gave none, or gave the count that stands for none.
pub open spec fn known(position: Option<u64>) -> bool {
    position matches Some(p) && p != NO_POSITION
}

impl PlaybackState {
    /// The state after `set_paused`. Leaving the pause once the stream has
    /// ended asks for a restart: playback cannot go on past the end.
    pub open spec fn with_paused(self, paused: bool) -> PlaybackState {
        PlaybackState {
            paused,
            restart_pending: self.restart_pending || (self.is_eos && !paused),
            ..self
        }
    }

    /// The state with the pause flag set and all else as it was. This is how
    /// a job that borrows the session halts and resumes it: the job is no
    /// request of the caller, so it asks for no restart.
    pub open spec fn with_pause_flag(self, paused: bool) -> PlaybackState {
        PlaybackState { paused, ..self }
    }

    /// The state after the backend answered the seek of a change of speed:
    /// the new rate is taken if a stream can play at it and the seek went
    /// through, and nothing changes otherwise.
    pub open spec fn with_speed(self, speed: Speed, accepted: bool) -> PlaybackState {
        if speed.playable() && accepted {
            PlaybackState { speed, ..self }
        } else {
            self
        }
    }

    /// The state after a restart of the stream.
    pub open spec fn restarted(self) -> PlaybackState {
        PlaybackState { is_eos: false, paused: false, ..self }
    }

    /// Where the session stands.
    pub open spec fn phase(self) -> Phase {
        if self.restart_pending {
            Phase::Restarting
        } else if self.is_eos {
            Phase::Eos
        } else if self.paused {
            Phase::Paused
        } else {
            Phase::Playing
        }
    }

    /// A session at the end of its stream is either halted there or about to
    /// start over: no session plays on past the end.
    pub open spec fn coherent(self) -> bool {
        self.is_eos ==> self.paused || self.restart_pending
    }

    /// Whether a tick reads the backend's bus: not while a restart is
    /// pending, and only while the stream plays.
    pub open spec fn drains(self) -> bool {
        !self.restart_pending && !self.is_eos && !self.paused
    }

    /// Whether the session is running.
    pub open spec fn active(self) -> bool {
        self.restart_pending || (!self.is_eos && !self.paused)
    }

    /// The state after a tick that found the given messages on the bus.
    ///
    /// A pending restart is carried out and nothing else happens to the
    /// state. Otherwise, if the stream plays and has now ended, a looping
    /// session asks for a restart on the next tick, and any other session
    /// stops at the end, paused.
    pub open spec fn ticked(self, messages: Seq<BusMessage>) -> PlaybackState {
        if self.restart_pending {
            PlaybackState { restart_pending: false, ..self.restarted() }
        } else if self.drains() && ended(messages) {
            if self.looping {
                PlaybackState { restart_pending: true, ..self }
            } else {
                PlaybackState { is_eos: true, ..self.with_paused(true) }
            }
        } else {
            self
        }
    }

    /// The orders that a tick gives to change the transport.
    pub open spec fn tick_transport(self, messages: Seq<BusMessage>) -> Seq<Command> {
        if self.restart_pending {
            seq![Command::SetState(State::Playing), Command::Seek(restart_seek(self.speed))]
        } else if self.drains() && ended(messages) && !self.looping {
            seq![Command::SetState(State::Paused)]
        } else {
            Seq::empty()
        }
    }

    /// The notices that a tick gives for the messages on the bus.
    pub open spec fn tick_news(self, messages: Seq<BusMessage>) -> Seq<Notice> {
        if self.drains() {
            notices_of(messages)
        } else {
            Seq::empty()
        }
    }
}

/// The order that passes a latency report on to the backend.
pub open spec fn report_commands(report: Option<i64>) -> Seq<Command> {
    match report {
        Some(offset) => seq![Command::SetAvOffset(offset)],
        None => Seq::empty(),
    }
}

/// The notice for a frame that waits in the frame store.
pub open spec fn frame_notices(waiting: bool) -> Seq<Notice> {
    if waiting {
        seq![Notice::NewFrame]
    } else {
        Seq::empty()
    }
}

/// The notice for a change of the subtitle text.
pub open spec fn subtitle_notices(change: Option<Option<String>>) -> Seq<Notice> {
    match change {
        Some(text) => seq![Notice::SubtitleText(text)],
        None => Seq::empty(),
    }
}

/// Whether a frame width can be widened to a multiple of four.
pub open spec fn alignable(width: int) -> bool {
    width <= i32::MAX - 4
}

/// A frame width widened to the next multiple of four. The quotient is
/// rounded towards zero, so a negative width is widened towards zero too.
pub open spec fn aligned(width: int) -> int {
    if width + 3 >= 0 {
        (width + 3) / 4 * 4
    } else {
        -((-(width + 3)) / 4 * 4)
    }
}

/// Widens a frame width to the next multiple of four, if the result fits.
pub fn align_width(width: i32) -> (out: Option<i32>)
    ensures
        match out {
            Some(w) => alignable(width as int) && w == aligned(width as int),
            None => !alignable(width as int),
        },
{
    if width > i32::MAX - 4 {
        None
    } else if width + 3 >= 0 {
        let padded: u32 = (width + 3) as u32;
        let out: u32 = padded / 4 * 4;
        Some(out as i32)
    } else {
        let padded: u32 = (-(width + 3)) as u32;
        let out: u32 = padded / 4 * 4;
        Some(-(out as i32))
    }
}

/// What a session holds.
pub struct VideoView {
    /// The number that tells this session from every other one.
    pub id: u64,
    /// The transport state.
    pub state: PlaybackState,
    /// Whether the backend takes an audio offset.
    pub sync_av: bool,
    /// The latency estimate.
    pub sync: AvSync,
}

/// A multimedia video: the controller of one playback session.
#[derive(Debug)]
pub struct Video {
    id: u64,
    state: PlaybackState,
    sync_av: bool,
    sync: AvSync,
}

impl View for Video {
    type V = VideoView;

    closed spec fn view(&self) -> VideoView {
        VideoView { id: self.id, state: self.state, sync_av: self.sync_av, sync: self.sync }
    }
}

/// What opening a session answers to what the backend negotiated: the aligned
/// width, the height and the frame rate, or the reason why no session opens.
pub open spec fn negotiated(
    width: Option<i32>,
    height: Option<i32>,
    framerate: Option<Framerate>,
) -> Result<(int, int, Framerate), Error> {
    match (width, height, framerate) {
        (Some(w), Some(h), Some(f)) => if !alignable(w as int) {
            Err(Error::Caps)
        } else if !f.valid() {
            Err(Error::Framerate(f))
        } else {
            Ok((aligned(w as int), h as int, f))
        },
        _ => Err(Error::Caps),
    }
}

impl Video {
    /// Every session plays at a rate that is finite and not zero, and shows
    /// a positive number of frames a second.
    #[verifier::type_invariant]
    spec fn well_formed(self) -> bool {
        self.state.speed.playable() && self.state.framerate.valid()
    }

    /// Opens a session on what a pipeline negotiated for its video sink.
    ///
    /// `width`, `height` and `framerate` are `None` where the pipeline's
    /// capabilities did not hold them, `duration` is the length of the media
    /// in nanoseconds where the backend knows it, `sync_av` tells whether the
    /// backend takes an audio offset, and `paused` whether the pipeline was
    /// started paused. On an error the caller tears the pipeline down.
    pub fn from_gst_pipeline(
        id: u64,
        width: Option<i32>,
        height: Option<i32>,
        framerate: Option<Framerate>,
        duration: Option<u64>,
        sync_av: bool,
        paused: bool,
    ) -> (video: Result<Video, Error>)
        ensures
            match video {
                Ok(v) => {
                    &&& negotiated(width, height, framerate) == Ok::<(int, int, Framerate), Error>(
                        (v@.state.width as int, v@.state.height as int, v@.state.framerate),
                    )
                    &&& v@.id == id
                    &&& v@.sync_av == sync_av
                    &&& v@.sync == (AvSync { average: 0, samples: 0 })
                    &&& v@.state.paused == paused
                    &&& !v@.state.looping
                    &&& !v@.state.is_eos
                    &&& !v@.state.restart_pending
                    &&& v@.state.speed == (Speed { bits: crate::speed::NORMAL_BITS })
                    &&& duration_nanos(v@.state.duration) == match duration {
                        Some(d) => d as nat,
                        None => 0,
                    }
                },
                Err(e) => negotiated(width, height, framerate) == Err::<(int, int, Framerate), Error>(e),
            },
    {
        let (Some(w), Some(h), Some(f)) = (width, height, framerate) else {
            return Err(Error::Caps);
        };
        let Some(w) = align_width(w) else {
            return Err(Error::Caps);
        };
        if !f.is_valid() {
            return Err(Error::Framerate(f));
        }
        let nanos: u64 = match duration {
            Some(d) => d,
            None => 0,
        };
        Ok(
            Video {
                id,
                state: PlaybackState {
                    paused,
                    looping: false,
                    speed: Speed::normal(),
                    is_eos: false,
                    restart_pending: false,
                    duration: std::time::Duration::from_nanos(nanos),
                    framerate: f,
                    width: w,
                    height: h,
                },
                sync_av,
                sync: AvSync::new(),
            },
        )
    }

    /// The number that tells this session from every other one.
    pub fn id(&self) -> (id: u64)
        ensures
            id == self@.id,
    {
        self.id
    }

    /// Get the size/resolution of the video as `(width, height)`.
    pub fn size(&self) -> (size: (i32, i32))
        ensures
            size == (self@.state.width, self@.state.height),
    {
        (self.state.width, self.state.height)
    }

    /// Get the framerate of the video as frames per second. The rate of a
    /// session is always a positive number.
    pub fn framerate(&self) -> (framerate: Framerate)
        ensures
            framerate == self@.state.framerate,
            framerate.valid(),
    {
        proof {
            use_type_invariant(self);
        }
        self.state.framerate
    }

    /// Get if the stream ended or not.
    pub fn eos(&self) -> (eos: bool)
        ensures
            eos == self@.state.is_eos,
    {
        self.state.is_eos
    }

    /// Get if the media will loop or not.
    pub fn looping(&self) -> (looping: bool)
        ensures
            looping == self@.state.looping,
    {
        self.state.looping
    }

    /// Set if the media will loop or not.
    pub fn set_looping(&mut self, looping: bool)
        ensures
            final(self)@ == (VideoView {
                state: PlaybackState { looping, ..old(self)@.state },
                ..old(self)@
            }),
    {
        proof {
            use_type_invariant(&*self);
        }
        self.state.looping = looping;
    }

    /// Get if the media is paused or not.
    pub fn paused(&self) -> (paused: bool)
        ensures
            paused == self@.state.paused,
    {
        self.state.paused
    }

    /// Where the session stands.
    pub fn phase(&self) -> (phase: Phase)
        ensures
            phase == self@.state.phase(),
    {
        if self.state.restart_pending {
            Phase::Restarting
        } else if self.state.is_eos {
            Phase::Eos
        } else if self.state.paused {
            Phase::Paused
        } else {
            Phase::Playing
        }
    }

    /// Get if the next tick restarts the stream.
    pub fn restart_pending(&self) -> (pending: bool)
        ensures
            pending == self@.state.restart_pending,
    {
        self.state.restart_pending
    }

    /// Get the current playback speed. The speed of a session is always
    /// finite and not zero.
    pub fn speed(&self) -> (speed: Speed)
        ensures
            speed == self@.state.speed,
            speed.playable(),
    {
        proof {
            use_type_invariant(self);
        }
        self.state.speed
    }

    /// Get the media duration.
    pub fn duration(&self) -> (duration: std::time::Duration)
        ensures
            duration == self@.state.duration,
    {
        self.state.duration
    }

    /// The latency estimate.
    pub fn sync(&self) -> (sync: AvSync)
        ensures
            sync == self@.sync,
    {
        self.sync
    }

    /// Get the current playback position in time, from what the backend
    /// answered when asked for it in nanoseconds; zero where it gave none.
    pub fn position(&self, queried: Option<u64>) -> (position: std::time::Duration)
        ensures
            duration_nanos(position) == match queried {
                Some(nanos) => nanos as nat,
                None => 0,
            },
    {
        let nanos: u64 = match queried {
            Some(nanos) => nanos,
            None => 0,
        };
        std::time::Duration::from_nanos(nanos)
    }

    /// Set if the media is paused or not. Returns the state to bring the
    /// pipeline to.
    pub fn set_paused(&mut self, paused: bool) -> (state: State)
        ensures
            state == state_for(paused),
            final(self)@ == (VideoView {
                state: old(self)@.state.with_paused(paused),
                ..old(self)@
            }),
    {
        proof {
            use_type_invariant(&*self);
        }
        self.state.paused = paused;
        if self.state.is_eos && !paused {
            self.state.restart_pending = true;
        }
        if paused {
            State::Paused
        } else {
            State::Playing
        }
    }

    /// Sets the pause flag and nothing else, and returns the state to bring
    /// the pipeline to. A job that borrows the session halts and resumes it
    /// this way; unlike `set_paused` it asks for no restart.
    pub(crate) fn set_pause_flag(&mut self, paused: bool) -> (state: State)
        ensures
            state == state_for(paused),
            final(self)@ == (VideoView {
                state: old(self)@.state.with_pause_flag(paused),
                ..old(self)@
            }),
    {
        proof {
            use_type_invariant(&*self);
        }
        self.state.paused = paused;
        if paused {
            State::Paused
        } else {
            State::Playing
        }
    }

    /// Plans a jump to a position in the media. Passing `true` for `accurate`
    /// lands on the exact position, which is slower; for most seeks, such as
    /// scrubbing, the nearest key frame will do.
    ///
    /// The seek keeps the current rate. Once the backend has answered, hand
    /// the answer to [`seek_done`].
    pub fn seek(&self, position: Position, accurate: bool) -> (request: SeekRequest)
        requires
            position.representable(),
        ensures
            request == position.seek_at(self@.state.speed, accurate),
    {
        SeekRequest {
            rate: self.state.speed,
            flush: true,
            accurate,
            unit: position.to_unit(),
            start_from: Origin::Start,
            start: Some(position.to_raw()),
            stop_from: Origin::Start,
            stop: None,
        }
    }

    /// Plans a jump to a position, or returns `None` for a position that the
    /// backend cannot be asked for.
    pub fn try_seek(&self, position: Position, accurate: bool) -> (request: Option<SeekRequest>)
        ensures
            request == if position.representable() {
                Some(position.seek_at(self@.state.speed, accurate))
            } else {
                None
            },
    {
        if position.is_representable() {
            Some(self.seek(position, accurate))
        } else {
            None
        }
    }

    /// Plans a change of the playback speed, given the current position in
    /// nanoseconds as the backend answered it. Fails with `Error::Duration`
    /// where the position is not known, and with `Error::Speed` for a rate at
    /// which no stream can play: zero, an infinity or a NaN. A call that
    /// fails plans nothing.
    ///
    /// Once the backend has answered the seek, hand the answer to
    /// [`Video::speed_changed`].
    pub fn set_speed(&self, speed: Speed, position: Option<u64>) -> (request: Result<
        SeekRequest,
        Error,
    >)
        ensures
            request == speed_plan(speed, position),
    {
        let at: u64 = match position {
            Some(p) => p,
            None => {
                return Err(Error::Duration);
            },
        };
        if at == NO_POSITION {
            return Err(Error::Duration);
        }
        if !speed.is_playable() {
            return Err(Error::Speed(speed));
        }
        if speed.is_forward() {
            Ok(
                SeekRequest {
                    rate: speed,
                    flush: true,
                    accurate: true,
                    unit: Unit::Time,
                    start_from: Origin::Start,
                    start: Some(at),
                    stop_from: Origin::End,
                    stop: Some(0),
                },
            )
        } else {
            Ok(
                SeekRequest {
                    rate: speed,
                    flush: true,
                    accurate: true,
                    unit: Unit::Time,
                    start_from: Origin::Start,
                    start: Some(0),
                    stop_from: Origin::Start,
                    stop: Some(at),
                },
            )
        }
    }

    /// Takes the backend's answer to the seek that `set_speed` planned: the
    /// new speed holds from now on if the seek went through, and nothing
    /// changes if it was refused. A rate at which no stream can play is never
    /// taken: it fails with `Error::Speed`, whatever the backend answered.
    pub fn speed_changed(&mut self, speed: Speed, outcome: Result<(), String>) -> (result: Result<
        (),
        Error,
    >)
        ensures
            final(self)@ == (VideoView {
                state: old(self)@.state.with_speed(speed, outcome is Ok),
                ..old(self)@
            }),
            result == if !speed.playable() {
                Err::<(), Error>(Error::Speed(speed))
            } else {
                match outcome {
                    Ok(_) => Ok::<(), Error>(()),
                    Err(detail) => Err::<(), Error>(Error::Bool(detail)),
                }
            },
    {
        proof {
            use_type_invariant(&*self);
        }
        if !speed.is_playable() {
            return Err(Error::Speed(speed));
        }
        match outcome {
            Ok(_) => {
                self.state.speed = speed;
                Ok(())
            },
            Err(detail) => Err(Error::Bool(detail)),
        }
    }

    /// Restarts a stream: clears the end-of-stream flag, leaves the pause and
    /// plans a seek to the first frame. Returns the state to bring the
    /// pipeline to and the seek to make after that.
    pub fn restart_stream(&mut self) -> (plan: (State, SeekRequest))
        ensures
            plan == (State::Playing, restart_seek(old(self)@.state.speed)),
            final(self)@ == (VideoView { state: old(self)@.state.restarted(), ..old(self)@ }),
    {
        proof {
            use_type_invariant(&*self);
        }
        self.state.is_eos = false;
        self.state.paused = false;
        (
            State::Playing,
            SeekRequest {
                rate: self.state.speed,
                flush: true,
                accurate: false,
                unit: Unit::Frame,
                start_from: Origin::Start,
                start: Some(0),
                stop_from: Origin::Start,
                stop: None,
            },
        )
    }

    /// Takes the delay between the arrival of a frame and its presentation
    /// into the latency estimate. Returns the audio offset to hand to the
    /// backend when a report is due. A session whose backend takes no audio
    /// offset keeps no estimate.
    pub fn set_av_offset(&mut self, offset: std::time::Duration) -> (report: Option<i64>)
        ensures
            final(self)@ == (VideoView {
                sync: old(self)@.after_delay(offset),
                ..old(self)@
            }),
            report == old(self)@.delay_report(offset),
    {
        proof {
            use_type_invariant(&*self);
        }
        if self.sync_av {
            let mut sync = self.sync;
            let report = sync.update(offset);
            self.sync = sync;
            report
        } else {
            None
        }
    }

    /// One tick of the session, made once for every redraw.
    ///
    /// `messages` are the error and end-of-stream messages that the caller
    /// took off the backend's bus, oldest first, after [`Video::drains`] said
    /// that this tick reads the bus; a tick that does not read it leaves them
    /// aside. `latency` is the time since the decode worker delivered the
    /// frame in the frame store, given while that frame waits to be
    /// presented. `subtitle` is the change that the cue store gave up, if the
    /// subtitle text changed since the last tick.
    ///
    /// In order, the tick
    /// 1. carries out a pending restart: the stream is no longer at its end,
    ///    playback resumes from the first frame, and the bus is left alone;
    /// 2. otherwise, while the stream plays, passes each message on to the
    ///    caller, and at the end of the stream either asks for a restart on
    ///    the next tick, if the session loops, or halts at the end, paused;
    /// 3. announces the waiting frame and takes its latency into the estimate;
    /// 4. announces the change of subtitle text.
    pub fn poll(
        &mut self,
        messages: Vec<BusMessage>,
        latency: Option<std::time::Duration>,
        subtitle: Option<Option<String>>,
    ) -> (tick: Tick)
        ensures
            final(self)@ == (VideoView {
                state: old(self)@.state.ticked(messages@),
                sync: match latency {
                    Some(delay) => old(self)@.after_delay(delay),
                    None => old(self)@.sync,
                },
                ..old(self)@
            }),
            tick.commands@ == old(self)@.state.tick_transport(messages@) + report_commands(
                match latency {
                    Some(delay) => old(self)@.delay_report(delay),
                    None => None,
                },
            ),
            tick.notices@ == old(self)@.state.tick_news(messages@) + frame_notices(latency is Some)
                + subtitle_notices(subtitle),
            tick.active == old(self)@.state.active(),
    {
        proof {
            use_type_invariant(&*self);
        }
        let active = self.state.restart_pending || (!self.state.is_eos && !self.state.paused);
        let mut commands: Vec<Command> = Vec::new();
        let mut notices: Vec<Notice> = Vec::new();
        if self.state.restart_pending {
            self.state.restart_pending = false;
            let (state, seek) = self.restart_stream();
            commands.push(Command::SetState(state));
            commands.push(Command::Seek(seek));
        } else if self.drains() {
            let mut ended_now = false;
            let mut i: usize = 0;
            while i < messages.len()
                invariant
                    i <= messages.len(),
                    notices@ == notices_of(messages@).take(i as int),
                    ended_now == ended_within(messages@, i as int),
                decreases messages.len() - i,
            {
                match &messages[i] {
                    BusMessage::Error(detail) => {
                        notices.push(Notice::Error(detail.clone()));
                    },
                    BusMessage::EndOfStream => {
                        notices.push(Notice::EndOfStream);
                        ended_now = true;
                    },
                }
                i += 1;
            }
            if ended_now {
                if self.state.looping {
                    self.state.restart_pending = true;
                } else {
                    self.state.is_eos = true;
                    let state = self.set_paused(true);
                    commands.push(Command::SetState(state));
                }
            }
        }
        if let Some(delay) = latency {
            notices.push(Notice::NewFrame);
            if let Some(offset) = self.set_av_offset(delay) {
                commands.push(Command::SetAvOffset(offset));
            }
        }
        if let Some(text) = subtitle {
            notices.push(Notice::SubtitleText(text));
        }
        Tick { commands, notices, active }
    }

    /// Whether the next tick reads the backend's bus. A caller takes the
    /// messages off the bus only when this says so.
    pub fn drains(&self) -> (drains: bool)
        ensures
            drains == self@.state.drains(),
    {
        !self.state.restart_pending && !self.state.is_eos && !self.state.paused
    }
}

impl VideoView {
    /// The latency estimate after the delay of one more frame.
    pub open spec fn after_delay(self, offset: std::time::Duration) -> AvSync {
        if self.sync_av {
            self.sync.after(delay_nanos(offset))
        } else {
            self.sync
        }
    }

    /// What the backend is told after the delay of one more frame.
    pub open spec fn delay_report(self, offset: std::time::Duration) -> Option<i64> {
        if self.sync_av {
            self.sync.report(delay_nanos(offset))
        } else {
            None
        }
    }
}

/// Takes the backend's answer to a seek that [`Video::seek`] planned. A seek
/// that went through takes the subtitle cue off screen, since the cue belongs
/// to the old position; a refused seek changes nothing and is reported with
/// the backend's words.
pub fn seek_done(outcome: Result<(), String>, cues: &mut CueStore) -> (result: Result<(), Error>)
    ensures
        match outcome {
            Ok(_) => result == Ok::<(), Error>(()) && final(cues)@ == old(cues)@.cleared(),
            Err(detail) => result == Err::<(), Error>(Error::Bool(detail)) && final(cues)@ == old(
                cues,
            )@,
        },
{
    match outcome {
        Ok(_) => {
            cues.clear();
            Ok(())
        },
        Err(detail) => Err(Error::Bool(detail)),
    }
}

} // verus!
