//! Thumbnails: pictures of the media at chosen positions.
//!
//! Taking thumbnails borrows the running session. The session is set playing
//! and muted, and for each position in turn the play head is moved there
//! exactly, the next decoded frame is waited for, and that frame is converted
//! to RGBA. Whether all positions were served or one of them failed, the
//! session is then put back as it was: paused or playing, muted or not, at the
//! position where it stood.
//!
//! Seeking and waiting are the caller's part. A `Thumbnails` value keeps track
//! of the job between the caller's steps.

use crate::color::{fits, rgba, stride_or, try_yuv_to_rgba};
use crate::error::Error;
use crate::frame::{Frame, FrameStore, FrameView};
use crate::position::{Origin, Position, SeekRequest, Unit, NO_POSITION};
use crate::speed::Speed;
use crate::subtitle::CueStore;
use crate::video::{state_for, Command, PlaybackState, State, Video, VideoView};
use vstd::prelude::*;

verus! {

/// What a thumbnail holds.
pub struct ThumbnailView {
    /// The width of the picture in pixels.
    pub width: u32,
    /// The height of the picture in pixels.
    pub height: u32,
    /// The picture, four bytes for each pixel, row after row.
    pub rgba: Seq<u8>,
}

/// One picture in RGBA.
#[derive(Debug, Clone, PartialEq, Eq)]
pub struct Thumbnail {
    /// The width of the picture in pixels.
    pub width: u32,
    /// The height of the picture in pixels.
    pub height: u32,
    /// The picture, four bytes for each pixel, row after row.
    pub rgba: Vec<u8>,
}

impl View for Thumbnail {
    type V = ThumbnailView;

    open spec fn view(&self) -> ThumbnailView {
        ThumbnailView { width: self.width, height: self.height, rgba: self.rgba@ }
    }
}

/// The state of a session that taking thumbnails disturbs.
#[derive(Debug, Clone, Copy, PartialEq, Eq, Structural)]
pub struct Saved {
    /// Whether the session was paused.
    pub paused: bool,
    /// Whether the audio was muted.
    pub muted: bool,
    /// Where the play head stood, in nanoseconds.
    pub position: u64,
}

/// What happened while the job waited on the backend.
pub enum Event {
    /// The backend refused the seek, with these words.
    Refused(String),
    /// No frame came: the wait ran out, or, if the flag is set, the frame
    /// store could not be locked.
    Missed(bool),
    /// The frame for the position arrived.
    Arrived(FrameView),
}

/// What a job holds.
pub struct ThumbnailsView {
    /// The positions to take pictures at.
    pub positions: Seq<Position>,
    /// The pictures taken so far, one for each position served.
    pub images: Seq<ThumbnailView>,
    /// Why the job stopped early, if it did.
    pub failure: Option<Error>,
    /// The state to put the session back into.
    pub saved: Saved,
    /// The width of a frame of the session.
    pub width: i32,
    /// The height of a frame of the session.
    pub height: i32,
    /// By how much the pictures are shrunk.
    pub downscale: u8,
    /// The playback rate of the session.
    pub rate: Speed,
}

/// The position that the backend answered a query with, in nanoseconds; zero
/// where it gave none.
pub open spec fn position_or_start(position: Option<u64>) -> u64 {
    match position {
        Some(p) => if p == NO_POSITION {
            0
        } else {
            p
        },
        None => 0,
    }
}

/// The exact seek to a time given in nanoseconds.
pub open spec fn time_seek(nanos: u64, rate: Speed) -> SeekRequest {
    SeekRequest {
        rate,
        flush: true,
        accurate: true,
        unit: Unit::Time,
        start_from: Origin::Start,
        start: Some(nanos),
        stop_from: Origin::Start,
        stop: None,
    }
}

/// The picture that a frame gives for a session of the given size, or nothing
/// where the frame holds no picture or fewer bytes than a picture of that
/// size has.
pub open spec fn image_of(frame: FrameView, width: i32, height: i32, downscale: u8) -> Option<
    ThumbnailView,
> {
    if width < 0 || height < 0 || frame.data is None {
        None
    } else if !fits(
        frame.data->0.len() as int,
        width as int,
        height as int,
        downscale as int,
        stride_or(frame.stride, width as u32),
    ) {
        None
    } else {
        Some(
            ThumbnailView {
                width: (width as u32 / downscale as u32) as u32,
                height: (height as u32 / downscale as u32) as u32,
                rgba: rgba(
                    frame.data->0,
                    width as int,
                    height as int,
                    downscale as int,
                    stride_or(frame.stride, width as u32),
                ),
            },
        )
    }
}

/// The orders that begin a job: play, and mute the audio.
pub open spec fn begin_commands() -> Seq<Command> {
    seq![Command::SetState(State::Playing), Command::SetMuted(true)]
}

/// The orders that end a job: pause or play as before, mute or unmute as
/// before, and move the play head back exactly to where it stood.
pub open spec fn restore_commands(saved: Saved, rate: Speed) -> Seq<Command> {
    seq![
        Command::SetState(state_for(saved.paused)),
        Command::SetMuted(saved.muted),
        Command::Seek(time_seek(saved.position, rate)),
    ]
}

impl ThumbnailsView {
    /// The job as it begins on a session in the given state.
    pub open spec fn begun(
        state: PlaybackState,
        positions: Seq<Position>,
        downscale: u8,
        muted: bool,
        position: Option<u64>,
    ) -> ThumbnailsView {
        ThumbnailsView {
            positions,
            images: Seq::empty(),
            failure: None,
            saved: Saved { paused: state.paused, muted, position: position_or_start(position) },
            width: state.width,
            height: state.height,
            downscale,
            rate: state.speed,
        }
    }

    /// Whether a position is still to be served.
    pub open spec fn running(self) -> bool {
        self.failure is None && self.images.len() < self.positions.len()
    }

    /// The seek for the next position, while one is still to be served.
    pub open spec fn next_seek(self) -> Option<SeekRequest> {
        if self.running() {
            Some(self.positions[self.images.len() as int].seek_at(self.rate, true))
        } else {
            None
        }
    }

    /// The job after it stopped for the given reason.
    pub open spec fn failed(self, error: Error) -> ThumbnailsView {
        if self.running() {
            ThumbnailsView { failure: Some(error), ..self }
        } else {
            self
        }
    }

    /// The job after the frame for the next position arrived: one picture
    /// more, or a job that stopped because the frame could not be read.
    pub open spec fn arrived(self, frame: FrameView) -> ThumbnailsView {
        if !self.running() {
            self
        } else {
            match image_of(frame, self.width, self.height, self.downscale) {
                Some(image) => ThumbnailsView { images: self.images.push(image), ..self },
                None => ThumbnailsView { failure: Some(Error::Lock), ..self },
            }
        }
    }

    /// The job after an event.
    pub open spec fn on(self, event: Event) -> ThumbnailsView {
        match event {
            Event::Refused(detail) => self.failed(Error::Bool(detail)),
            Event::Missed(poisoned) => self.failed(
                if poisoned {
                    Error::Lock
                } else {
                    Error::Sync
                },
            ),
            Event::Arrived(frame) => self.arrived(frame),
        }
    }

    /// The job after the events, first to last.
    pub open spec fn after(self, events: Seq<Event>) -> ThumbnailsView
        decreases events.len(),
    {
        if events.len() == 0 {
            self
        } else {
            self.after(events.drop_last()).on(events.last())
        }
    }

    /// What the job returns once the session was put back: the error of the
    /// restoring seek if that was refused, else the reason why the job
    /// stopped, else the pictures.
    pub open spec fn outcome(self, restored: Result<(), String>) -> Result<
        Seq<ThumbnailView>,
        Error,
    > {
        match restored {
            Err(detail) => Err(Error::Bool(detail)),
            Ok(_) => match self.failure {
                Some(error) => Err(error),
                None => Ok(self.images),
            },
        }
    }
}

/// The pictures of a list as plain values.
pub open spec fn views(images: Seq<Thumbnail>) -> Seq<ThumbnailView> {
    Seq::new(images.len(), |i: int| images[i]@)
}

/// A job of taking thumbnails.
#[derive(Debug)]
pub struct Thumbnails {
    positions: Vec<Position>,
    images: Vec<Thumbnail>,
    failure: Option<Error>,
    saved: Saved,
    width: i32,
    height: i32,
    downscale: u8,
    rate: Speed,
}

impl View for Thumbnails {
    type V = ThumbnailsView;

    closed spec fn view(&self) -> ThumbnailsView {
        ThumbnailsView {
            positions: self.positions@,
            images: views(self.images@),
            failure: self.failure,
            saved: self.saved,
            width: self.width,
            height: self.height,
            downscale: self.downscale,
            rate: self.rate,
        }
    }
}

/// Whether the backend can be asked for every one of the positions.
pub open spec fn all_representable(positions: Seq<Position>) -> bool {
    forall|i: int| 0 <= i < positions.len() ==> (#[trigger] positions[i]).representable()
}

impl Thumbnails {
    /// The seek to make next, or `None` once the job is over: when every
    /// position was served, or one of them failed.
    pub fn next_seek(&self) -> (request: Option<SeekRequest>)
        ensures
            request == self@.next_seek(),
    {
        if self.failure.is_none() && self.images.len() < self.positions.len() {
            let position = self.positions[self.images.len()];
            Some(
                SeekRequest {
                    rate: self.rate,
                    flush: true,
                    accurate: true,
                    unit: position.to_unit(),
                    start_from: Origin::Start,
                    start: Some(position.to_raw()),
                    stop_from: Origin::Start,
                    stop: None,
                },
            )
        } else {
            None
        }
    }

    /// The backend made the seek. The subtitle cue goes off screen, since it
    /// belongs to the old position, and the frame in the store counts as read,
    /// so that the next frame to arrive is one from the new position.
    pub fn seek_accepted(&self, cues: &mut CueStore, store: &mut FrameStore)
        ensures
            final(cues)@ == old(cues)@.cleared(),
            final(store)@ == old(store)@.read(),
    {
        cues.clear();
        store.clear();
    }

    /// The backend refused the seek: the job stops with the backend's words.
    pub fn seek_refused(&mut self, detail: String)
        ensures
            final(self)@ == old(self)@.on(Event::Refused(detail)),
    {
        if self.failure.is_none() && self.images.len() < self.positions.len() {
            self.failure = Some(Error::Bool(detail));
        }
    }

    /// No frame came for the position. The job stops with `Error::Sync` if
    /// the wait ran out, and with `Error::Lock` if the frame store could not
    /// be locked.
    pub fn frame_missed(&mut self, poisoned: bool)
        ensures
            final(self)@ == old(self)@.on(Event::Missed(poisoned)),
    {
        if self.failure.is_none() && self.images.len() < self.positions.len() {
            self.failure = Some(
                if poisoned {
                    Error::Lock
                } else {
                    Error::Sync
                },
            );
        }
    }

    /// The frame for the position arrived: it is converted and kept. The job
    /// stops with `Error::Lock` if the frame cannot be read at the size of
    /// the session.
    pub fn frame_arrived(&mut self, frame: &Frame)
        ensures
            final(self)@ == old(self)@.on(Event::Arrived(frame@)),
    {
        if self.failure.is_some() || self.images.len() >= self.positions.len() {
            return ;
        }
        let converted: Option<Thumbnail> = if self.width < 0 || self.height < 0 {
            None
        } else {
            let width: u32 = self.width as u32;
            let height: u32 = self.height as u32;
            let downscale: u32 = self.downscale as u32;
            match frame.readable() {
                Some(bytes) => match try_yuv_to_rgba(
                    bytes.as_slice(),
                    width,
                    height,
                    downscale,
                    frame.stride(),
                ) {
                    Some(rgba) => Some(
                        Thumbnail { width: width / downscale, height: height / downscale, rgba },
                    ),
                    None => None,
                },
                None => None,
            }
        };
        match converted {
            Some(image) => {
                let ghost before = views(self.images@);
                self.images.push(image);
                assert(views(self.images@) =~= before.push(image@));
            },
            None => {
                self.failure = Some(Error::Lock);
            },
        }
    }

    /// Puts the session back as it was before the job, whether the job was
    /// finished or stopped early. Returns the orders for the backend; the
    /// answer to the seek among them goes to [`Thumbnails::finish`].
    pub fn restore(&self, video: &mut Video) -> (commands: Vec<Command>)
        ensures
            commands@ == restore_commands(self@.saved, old(video)@.state.speed),
            final(video)@ == (VideoView {
                state: old(video)@.state.with_pause_flag(self@.saved.paused),
                ..old(video)@
            }),
    {
        let state = video.set_pause_flag(self.saved.paused);
        let seek = SeekRequest {
            rate: video.speed(),
            flush: true,
            accurate: true,
            unit: Unit::Time,
            start_from: Origin::Start,
            start: Some(self.saved.position),
            stop_from: Origin::Start,
            stop: None,
        };
        let mut commands: Vec<Command> = Vec::new();
        commands.push(Command::SetState(state));
        commands.push(Command::SetMuted(self.saved.muted));
        commands.push(Command::Seek(seek));
        commands
    }

    /// Ends the job, given the backend's answer to the restoring seek.
    /// Returns the pictures, one for each position, in the order of the
    /// positions; or the error of the restoring seek; or the reason why the
    /// job stopped.
    pub fn finish(self, restored: Result<(), String>) -> (outcome: Result<Vec<Thumbnail>, Error>)
        ensures
            match outcome {
                Ok(images) => self@.outcome(restored) == Ok::<Seq<ThumbnailView>, Error>(
                    views(images@),
                ),
                Err(error) => self@.outcome(restored) == Err::<Seq<ThumbnailView>, Error>(error),
            },
    {
        match restored {
            Err(detail) => Err(Error::Bool(detail)),
            Ok(_) => match self.failure {
                Some(error) => Err(error),
                None => Ok(self.images),
            },
        }
    }
}

impl Video {
    /// Begins a job that generates a list of thumbnails based on a set of
    /// positions in the media, downscaled by a given factor.
    ///
    /// `muted` tells whether the audio is muted now, and `position` is where
    /// the backend says the play head stands, in nanoseconds. Returns the job
    /// and the orders that prepare the backend for it.
    ///
    /// Slow; only needs to be called once for each instance. It's best to
    /// call this at the very start of playback, otherwise the position may
    /// shift.
    pub fn thumbnails(
        &mut self,
        positions: Vec<Position>,
        downscale: u8,
        muted: bool,
        position: Option<u64>,
    ) -> (job: (Thumbnails, Vec<Command>))
        requires
            downscale > 0,
            all_representable(positions@),
        ensures
            job.0@ == ThumbnailsView::begun(old(self)@.state, positions@, downscale, muted, position),
            job.1@ == begin_commands(),
            final(self)@ == (VideoView {
                state: old(self)@.state.with_pause_flag(false),
                ..old(self)@
            }),
    {
        let at: u64 = match position {
            Some(p) => if p == NO_POSITION {
                0
            } else {
                p
            },
            None => 0,
        };
        let saved = Saved { paused: self.paused(), muted, position: at };
        let (width, height) = self.size();
        let rate = self.speed();
        let state = self.set_pause_flag(false);
        let mut commands: Vec<Command> = Vec::new();
        commands.push(Command::SetState(state));
        commands.push(Command::SetMuted(true));
        let job = Thumbnails {
            positions,
            images: Vec::new(),
            failure: None,
            saved,
            width,
            height,
            downscale,
            rate,
        };
        assert(views(job.images@) =~= Seq::<ThumbnailView>::empty());
        (job, commands)
    }

    /// Begins a job of taking thumbnails, or returns `None`, and leaves the
    /// session alone, where `downscale` is zero or the backend cannot be
    /// asked for one of the positions.
    pub fn try_thumbnails(
        &mut self,
        positions: Vec<Position>,
        downscale: u8,
        muted: bool,
        position: Option<u64>,
    ) -> (job: Option<(Thumbnails, Vec<Command>)>)
        ensures
            match job {
                Some(begun) => {
                    &&& downscale > 0
                    &&& all_representable(positions@)
                    &&& begun.0@ == ThumbnailsView::begun(
                        old(self)@.state,
                        positions@,
                        downscale,
                        muted,
                        position,
                    )
                    &&& begun.1@ == begin_commands()
                    &&& final(self)@ == (VideoView {
                        state: old(self)@.state.with_pause_flag(false),
                        ..old(self)@
                    })
                },
                None => {
                    &&& !(downscale > 0 && all_representable(positions@))
                    &&& final(self)@ == old(self)@
                },
            },
    {
        if downscale == 0 {
            return None;
        }
        let mut i: usize = 0;
        while i < positions.len()
            invariant
                i <= positions.len(),
                forall|j: int| 0 <= j < i ==> (#[trigger] positions@[j]).representable(),
            decreases positions.len() - i,
        {
            if !positions[i].is_representable() {
                return None;
            }
            i += 1;
        }
        Some(self.thumbnails(positions, downscale, muted, position))
    }
}

} // verus!
