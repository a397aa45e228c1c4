//! What holds of the transport state machine over whole runs of calls.

use crate::frame::{FrameStoreView, FrameView};
use crate::position::Position;
use crate::thumbnail::{
    all_representable, begin_commands, position_or_start, restore_commands, time_seek, Event,
    Saved, ThumbnailsView,
};
use crate::speed::Speed;
use crate::video::{
    ended, frame_notices, report_commands, restart_seek, state_for, BusMessage, Command, Notice,
    Phase, PlaybackState, State,
};
use vstd::prelude::*;

verus! {

/// The state after `set_paused` was called with each of the flags in turn.
pub open spec fn after_pauses(state: PlaybackState, calls: Seq<bool>) -> PlaybackState
    decreases calls.len(),
{
    if calls.len() == 0 {
        state
    } else {
        after_pauses(state, calls.drop_last()).with_paused(calls.last())
    }
}

/// The orders that those calls of `set_paused` gave.
pub open spec fn pause_commands(calls: Seq<bool>) -> Seq<Command> {
    Seq::new(calls.len(), |i: int| Command::SetState(state_for(calls[i])))
}

/// The state of a pipeline that was in state `before` and then carried out
/// the commands, first to last: the state that the last change of state
/// named.
pub open spec fn pipeline_state(before: State, commands: Seq<Command>) -> State
    decreases commands.len(),
{
    if commands.len() == 0 {
        before
    } else {
        match commands.last() {
            Command::SetState(state) => state,
            _ => pipeline_state(before, commands.drop_last()),
        }
    }
}

/// The state after one tick for each of the given batches of bus messages.
pub open spec fn after_ticks(state: PlaybackState, batches: Seq<Seq<BusMessage>>) -> PlaybackState
    decreases batches.len(),
{
    if batches.len() == 0 {
        state
    } else {
        after_ticks(state, batches.drop_last()).ticked(batches.last())
    }
}

/// After any run of `set_paused` calls the pause flag and the pipeline are
/// as the last call asked.
pub proof fn law_pause_follows_last_call(state: PlaybackState, before: State, calls: Seq<bool>)
    requires
        calls.len() > 0,
    ensures
        after_pauses(state, calls).paused == calls.last(),
        pipeline_state(before, pause_commands(calls)) == state_for(calls.last()),
{
}

/// After any run of `set_paused` calls and one tick the pause flag and the
/// pipeline are still as the last call asked, whatever the tick reported of
/// latency.
///
/// Two runs are left out, since there the stream itself overrules the caller.
/// One ends paused with a restart pending: the tick carries the restart out
/// and playback resumes. In the other the stream plays, does not loop, and
/// the tick finds that it has ended: the session halts at the end, paused.
pub proof fn law_pause_survives_tick(
    state: PlaybackState,
    before: State,
    calls: Seq<bool>,
    messages: Seq<BusMessage>,
    report: Option<i64>,
)
    requires
        calls.len() > 0,
        !(after_pauses(state, calls).restart_pending && calls.last()),
        !(after_pauses(state, calls).drains() && ended(messages) && !after_pauses(
            state,
            calls,
        ).looping),
    ensures
        after_pauses(state, calls).ticked(messages).paused == calls.last(),
        pipeline_state(
            before,
            pause_commands(calls) + after_pauses(state, calls).tick_transport(messages)
                + report_commands(report),
        ) == state_for(calls.last()),
{
    let settled = after_pauses(state, calls);
    let transport = pause_commands(calls) + settled.tick_transport(messages);
    let all = transport + report_commands(report);
    law_pause_follows_last_call(state, before, calls);
    assert(pipeline_state(before, transport) == state_for(calls.last())) by {
        if settled.restart_pending {
            // the restart ends with a seek, and plays just before it
            assert(pipeline_state(before, transport.drop_last()) == State::Playing);
        }
    }
    if report is Some {
        // a report of latency leaves the state of the pipeline alone
        assert(all.drop_last() =~= transport);
    }
}

/// A looping session never stops at the end of the stream. The tick that
/// finds the end leaves the session playing, not at its end, with a restart
/// pending and no order to the pipeline; the tick after it, whatever is on
/// the bus, resumes playback from the first frame and leaves the session
/// playing, not at its end.
pub proof fn law_loop_restarts(
    state: PlaybackState,
    messages: Seq<BusMessage>,
    next: Seq<BusMessage>,
)
    requires
        state.drains(),
        state.looping,
        ended(messages),
    ensures
        !state.ticked(messages).is_eos,
        !state.ticked(messages).paused,
        state.ticked(messages).restart_pending,
        state.tick_transport(messages) == Seq::<Command>::empty(),
        !state.ticked(messages).ticked(next).is_eos,
        !state.ticked(messages).ticked(next).paused,
        !state.ticked(messages).ticked(next).restart_pending,
        state.ticked(messages).tick_transport(next) == seq![
            Command::SetState(State::Playing),
            Command::Seek(restart_seek(state.speed)),
        ],
{
}

/// A session that does not loop stops at the end of the stream: the tick
/// that finds the end pauses the pipeline and leaves the session paused at
/// its end, and however many ticks follow, whatever is on the bus, the state
/// stays as it is and no tick orders anything of the transport.
pub proof fn law_end_of_stream_holds(
    state: PlaybackState,
    messages: Seq<BusMessage>,
    batches: Seq<Seq<BusMessage>>,
)
    requires
        state.drains(),
        !state.looping,
        ended(messages),
    ensures
        state.ticked(messages).is_eos,
        state.ticked(messages).paused,
        !state.ticked(messages).restart_pending,
        state.tick_transport(messages) == seq![Command::SetState(State::Paused)],
        after_ticks(state.ticked(messages), batches) == state.ticked(messages),
        forall|i: int|
            0 <= i < batches.len() ==> #[trigger] after_ticks(
                state.ticked(messages),
                batches.take(i),
            ).tick_transport(batches[i]) == Seq::<Command>::empty(),
{
    let halted = state.ticked(messages);
    lemma_halted_stays(halted, batches);
    assert forall|i: int| 0 <= i < batches.len() implies #[trigger] after_ticks(
        halted,
        batches.take(i),
    ).tick_transport(batches[i]) == Seq::<Command>::empty() by {
        lemma_halted_stays(halted, batches.take(i));
    }
}

/// Ticks do not move a session that is paused at the end of its stream with
/// no restart pending.
pub proof fn lemma_halted_stays(halted: PlaybackState, batches: Seq<Seq<BusMessage>>)
    requires
        halted.is_eos,
        halted.paused,
        !halted.restart_pending,
    ensures
        after_ticks(halted, batches) == halted,
    decreases batches.len(),
{
    if batches.len() > 0 {
        lemma_halted_stays(halted, batches.drop_last());
    }
}

/// Only the caller ends the halt at the end of a stream: leaving the pause
/// asks for a restart, which the next tick carries out, and a restart clears
/// the end-of-stream flag at once.
pub proof fn law_halt_ends_on_request(halted: PlaybackState, messages: Seq<BusMessage>)
    requires
        halted.is_eos,
        halted.paused,
        !halted.restart_pending,
    ensures
        halted.with_paused(false).restart_pending,
        !halted.with_paused(false).ticked(messages).is_eos,
        !halted.with_paused(false).ticked(messages).paused,
        !halted.restarted().is_eos,
        !halted.restarted().paused,
{
}

/// No session plays on past the end of its stream. A session opens with the
/// stream not at its end. Whatever its caller then does to it, a pause or the
/// end of one, a restart, a tick, a change of looping or of speed, a session
/// at the end of its stream is halted there or about to start over. A job of
/// thumbnails borrows the session and hands it back as it was.
pub proof fn law_sessions_stay_coherent(
    state: PlaybackState,
    paused: bool,
    looping: bool,
    speed: Speed,
    accepted: bool,
    messages: Seq<BusMessage>,
)
    requires
        state.coherent(),
    ensures
        state.with_paused(paused).coherent(),
        state.restarted().coherent(),
        state.ticked(messages).coherent(),
        (PlaybackState { looping, ..state }).coherent(),
        state.with_speed(speed, accepted).coherent(),
        state.with_pause_flag(false).with_pause_flag(state.paused).coherent(),
{
}

/// The speed of a session is always finite and not zero. A session opens at
/// normal speed; a change of speed is taken only for a rate at which a
/// stream can play, and only once the backend made the seek; and nothing
/// else that is done to a session touches its speed.
pub proof fn law_speed_stays_playable(
    state: PlaybackState,
    paused: bool,
    looping: bool,
    speed: Speed,
    accepted: bool,
    messages: Seq<BusMessage>,
)
    requires
        state.speed.playable(),
    ensures
        state.with_speed(speed, accepted).speed.playable(),
        !speed.playable() || !accepted ==> state.with_speed(speed, accepted) == state,
        state.with_paused(paused).speed == state.speed,
        state.with_pause_flag(paused).speed == state.speed,
        state.restarted().speed == state.speed,
        state.ticked(messages).speed == state.speed,
        (PlaybackState { looping, ..state }).speed == state.speed,
{
}

/// The notices of a new frame that a run of rounds gives while the decode
/// worker writes nothing. In each round the tick is handed the frame in the
/// store if that frame waits, and the presenter then reads the store.
pub open spec fn announcements(store: FrameStoreView, rounds: nat) -> Seq<Notice>
    decreases rounds,
{
    if rounds == 0 {
        Seq::empty()
    } else {
        frame_notices(store.dirty) + announcements(store.read(), (rounds - 1) as nat)
    }
}

/// A frame is announced exactly once. Once the decode worker has written a
/// frame, the first round announces it, and however many rounds follow, none
/// announces it again; a store whose frame was read announces nothing.
pub proof fn law_new_frame_announced_once(store: FrameStoreView, frame: FrameView, rounds: nat)
    ensures
        announcements(store.read(), rounds) == Seq::<Notice>::empty(),
        rounds > 0 ==> announcements(store.written(frame), rounds) == seq![Notice::NewFrame],
    decreases rounds,
{
    if rounds > 0 {
        law_new_frame_announced_once(store.read(), frame, (rounds - 1) as nat);
        law_new_frame_announced_once(store.written(frame), frame, (rounds - 1) as nat);
    }
}

/// The tick moves a session between its four phases in one way only. A
/// session that is about to start over plays after the tick. A session that
/// plays goes on playing unless the stream has ended; then it starts over
/// with the next tick if it loops, and waits at the end if it does not. A
/// session that is paused, or waits at the end, stays where it is.
pub proof fn law_tick_moves_phases(state: PlaybackState, messages: Seq<BusMessage>)
    requires
        state.coherent(),
    ensures
        state.ticked(messages).phase() == match state.phase() {
            Phase::Restarting => Phase::Playing,
            Phase::Playing => if !ended(messages) {
                Phase::Playing
            } else if state.looping {
                Phase::Restarting
            } else {
                Phase::Eos
            },
            Phase::Paused => Phase::Paused,
            Phase::Eos => Phase::Eos,
        },
{
}

/// Whether the audio is muted once the commands were carried out, first to
/// last, on a backend whose audio was muted or not as `before` says.
pub open spec fn audio_muted(before: bool, commands: Seq<Command>) -> bool
    decreases commands.len(),
{
    if commands.len() == 0 {
        before
    } else {
        match commands.last() {
            Command::SetMuted(muted) => muted,
            _ => audio_muted(before, commands.drop_last()),
        }
    }
}

/// Events move a job of thumbnails along, and leave alone what it was asked
/// for and what it saved of the session.
pub proof fn lemma_job_keeps_saved(job: ThumbnailsView, events: Seq<Event>)
    ensures
        job.after(events).saved == job.saved,
        job.after(events).positions == job.positions,
        job.after(events).rate == job.rate,
        job.after(events).images.len() <= job.images.len() + events.len(),
        job.images.len() <= job.positions.len() ==> job.after(events).images.len()
            <= job.positions.len(),
    decreases events.len(),
{
    if events.len() > 0 {
        lemma_job_keeps_saved(job, events.drop_last());
    }
}

/// Taking thumbnails leaves the session as it found it. However the job went,
/// whether every position was served or a seek was refused or a frame never
/// came, the orders that end it pause or play the pipeline as it was before
/// the job, mute or unmute the audio as it was, and move the play head back,
/// exactly, to where it stood; and the state of the session is again what it
/// was, all of it: a session that was halted at the end of its stream is
/// halted there still, with no restart pending.
pub proof fn law_thumbnails_restore(
    state: PlaybackState,
    pipeline: State,
    positions: Seq<Position>,
    downscale: u8,
    muted: bool,
    position: Option<u64>,
    events: Seq<Event>,
)
    ensures
        ({
            let job = ThumbnailsView::begun(state, positions, downscale, muted, position).after(
                events,
            );
            let all = begin_commands() + restore_commands(job.saved, state.speed);
            &&& job.saved == Saved { paused: state.paused, muted, position: position_or_start(position) }
            &&& state.with_pause_flag(false).with_pause_flag(job.saved.paused) == state
            &&& pipeline_state(pipeline, all) == state_for(state.paused)
            &&& audio_muted(!muted, all) == muted
            &&& all.last() == Command::Seek(time_seek(position_or_start(position), state.speed))
        }),
{
    let begun = ThumbnailsView::begun(state, positions, downscale, muted, position);
    lemma_job_keeps_saved(begun, events);
    let all = begin_commands() + restore_commands(begun.after(events).saved, state.speed);
    // the orders end: state, mute, seek
    let but_seek = all.drop_last();
    assert(pipeline_state(pipeline, but_seek) == pipeline_state(pipeline, but_seek.drop_last()));
    assert(audio_muted(!muted, all) == audio_muted(!muted, but_seek));
}

/// A job that was begun on positions that the backend can be asked for never
/// plans a seek to one that it cannot, and every seek it plans is exact.
pub proof fn law_thumbnails_seek_exactly(
    state: PlaybackState,
    positions: Seq<Position>,
    downscale: u8,
    muted: bool,
    position: Option<u64>,
    events: Seq<Event>,
)
    requires
        all_representable(positions),
    ensures
        ({
            let job = ThumbnailsView::begun(state, positions, downscale, muted, position).after(
                events,
            );
            job.next_seek() matches Some(seek) ==> {
                &&& seek.accurate
                &&& seek.rate == state.speed
                &&& seek.start == Some(positions[job.images.len() as int].raw() as u64)
                &&& positions[job.images.len() as int].representable()
            }
        }),
{
    let begun = ThumbnailsView::begun(state, positions, downscale, muted, position);
    lemma_job_keeps_saved(begun, events);
}

} // verus!
