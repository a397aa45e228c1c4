use iced_video_player::error::{Error, Framerate};
use iced_video_player::frame::{Frame, FrameStore};
use iced_video_player::position::{Origin, Position, SeekRequest, Unit};
use iced_video_player::speed::Speed;
use iced_video_player::subtitle::CueStore;
use iced_video_player::thumbnail::Thumbnail;
use iced_video_player::video::{BusMessage, Command, Phase, State, Video};
use std::time::Duration;

fn open(paused: bool) -> Video {
    Video::from_gst_pipeline(
        3,
        Some(4),
        Some(2),
        Some(Framerate { numer: 30, denom: 1 }),
        Some(10_000_000_000),
        true,
        paused,
    )
    .unwrap()
}

/// A frame of four by two pixels, grey of the given luma.
fn grey(luma: u8) -> Frame {
    let mut data = vec![128u8; 4 * 2 + 4];
    for b in data.iter_mut().take(8) {
        *b = luma;
    }
    Frame::new(data, None)
}

fn picture(luma: i32, width: u32, height: u32) -> Thumbnail {
    let c = ((1164 * (luma - 16)) / 1000) as u8;
    Thumbnail { width, height, rgba: [c, c, c, 255].repeat((width * height) as usize) }
}

fn exact_seek(unit: Unit, start: u64) -> SeekRequest {
    SeekRequest {
        rate: Speed::normal(),
        flush: true,
        accurate: true,
        unit,
        start_from: Origin::Start,
        start: Some(start),
        stop_from: Origin::Start,
        stop: None,
    }
}

fn restore_commands(paused: bool, muted: bool, position: u64) -> Vec<Command> {
    vec![
        Command::SetState(if paused { State::Paused } else { State::Playing }),
        Command::SetMuted(muted),
        Command::Seek(exact_seek(Unit::Time, position)),
    ]
}

#[test]
fn job_plays_muted_and_seeks_exactly_to_each_position() {
    let mut video = open(true);
    let positions = vec![Position::Time(Duration::from_secs(1)), Position::Frame(90)];
    let (mut job, commands) = video.thumbnails(positions, 1, false, Some(2_500_000_000));
    assert_eq!(commands, vec![Command::SetState(State::Playing), Command::SetMuted(true)]);
    assert!(!video.paused());

    assert_eq!(job.next_seek(), Some(exact_seek(Unit::Time, 1_000_000_000)));
    job.frame_arrived(&grey(116));
    assert_eq!(job.next_seek(), Some(exact_seek(Unit::Frame, 90)));
    job.frame_arrived(&grey(216));
    assert_eq!(job.next_seek(), None);

    assert_eq!(job.restore(&mut video), restore_commands(true, false, 2_500_000_000));
    assert!(video.paused());
    assert_eq!(job.finish(Ok(())), Ok(vec![picture(116, 4, 2), picture(216, 4, 2)]));
}

#[test]
fn pictures_are_shrunk() {
    let mut video = open(false);
    let (mut job, _) = video.thumbnails(vec![Position::Frame(0)], 2, true, None);
    job.frame_arrived(&grey(116));
    job.restore(&mut video);
    assert_eq!(job.finish(Ok(())), Ok(vec![picture(116, 2, 1)]));
}

#[test]
fn refused_seek_stops_the_job_and_the_session_is_restored() {
    for paused in [false, true] {
        for muted in [false, true] {
            let mut video = open(paused);
            let positions = vec![Position::Frame(1), Position::Frame(2), Position::Frame(3)];
            let (mut job, _) = video.thumbnails(positions, 1, muted, Some(42));
            job.frame_arrived(&grey(50));
            assert!(job.next_seek().is_some());
            job.seek_refused("Failed to seek".to_string());
            assert_eq!(job.next_seek(), None);
            // nothing that comes later revives the job
            job.frame_arrived(&grey(50));
            assert_eq!(job.next_seek(), None);

            assert_eq!(job.restore(&mut video), restore_commands(paused, muted, 42));
            assert_eq!(video.paused(), paused);
            assert_eq!(job.finish(Ok(())), Err(Error::Bool("Failed to seek".to_string())));
        }
    }
}

#[test]
fn frame_that_never_comes_stops_the_job() {
    let mut video = open(false);
    let (mut job, _) = video.thumbnails(vec![Position::Frame(1), Position::Frame(2)], 1, false, Some(9));
    job.frame_missed(false);
    assert_eq!(job.next_seek(), None);
    assert_eq!(job.restore(&mut video), restore_commands(false, false, 9));
    assert_eq!(job.finish(Ok(())), Err(Error::Sync));
}

#[test]
fn poisoned_store_stops_the_job() {
    let mut video = open(false);
    let (mut job, _) = video.thumbnails(vec![Position::Frame(1)], 1, false, None);
    job.frame_missed(true);
    job.restore(&mut video);
    assert_eq!(job.finish(Ok(())), Err(Error::Lock));
}

#[test]
fn first_failure_is_kept() {
    let mut video = open(false);
    let (mut job, _) = video.thumbnails(vec![Position::Frame(1)], 1, false, None);
    job.frame_missed(false);
    job.seek_refused("late".to_string());
    job.frame_missed(true);
    assert_eq!(job.finish(Ok(())), Err(Error::Sync));
}

#[test]
fn unreadable_frame_stops_the_job() {
    let mut video = open(false);
    let (mut job, _) = video.thumbnails(vec![Position::Frame(1)], 1, false, None);
    job.frame_arrived(&Frame::empty());
    assert_eq!(job.next_seek(), None);
    assert_eq!(job.finish(Ok(())), Err(Error::Lock));

    let (mut job, _) = video.thumbnails(vec![Position::Frame(1)], 1, false, None);
    job.frame_arrived(&Frame::new(vec![0; 11], None));
    assert_eq!(job.finish(Ok(())), Err(Error::Lock));

    // the same bytes do not fit once the rows are further apart
    let (mut job, _) = video.thumbnails(vec![Position::Frame(1)], 1, false, None);
    job.frame_arrived(&Frame::new(vec![0; 12], Some(8)));
    assert_eq!(job.finish(Ok(())), Err(Error::Lock));
}

#[test]
fn refused_restore_is_the_error_of_the_job() {
    let mut video = open(false);
    let (mut job, _) = video.thumbnails(vec![Position::Frame(1)], 1, false, None);
    job.frame_arrived(&grey(16));
    job.restore(&mut video);
    assert_eq!(
        job.finish(Err("restore refused".to_string())),
        Err(Error::Bool("restore refused".to_string()))
    );

    let (mut job, _) = video.thumbnails(vec![Position::Frame(1)], 1, false, None);
    job.frame_missed(false);
    assert_eq!(
        job.finish(Err("restore refused".to_string())),
        Err(Error::Bool("restore refused".to_string()))
    );
}

#[test]
fn unknown_position_is_restored_to_the_start() {
    let mut video = open(false);
    let (job, _) = video.thumbnails(Vec::new(), 1, true, None);
    assert_eq!(job.next_seek(), None);
    assert_eq!(job.restore(&mut video), restore_commands(false, true, 0));
    assert_eq!(job.finish(Ok(())), Ok(Vec::new()));
}

#[test]
fn accepted_seek_clears_cue_and_marks_the_frame_read() {
    let mut video = open(false);
    let (job, _) = video.thumbnails(vec![Position::Frame(1)], 1, false, None);
    let mut cues = CueStore::new();
    let mut store = FrameStore::new();
    cues.show("old".to_string());
    cues.take_change();
    store.write(grey(20));
    job.seek_accepted(&mut cues, &mut store);
    assert_eq!(cues.take_change(), Some(None));
    assert!(!store.is_dirty());
}

#[test]
fn job_keeps_the_rate_of_the_session() {
    let mut video = open(false);
    let slow = Speed::from_bits(0.5f64.to_bits());
    video.speed_changed(slow, Ok(())).unwrap();
    let (job, _) = video.thumbnails(vec![Position::Frame(8)], 1, false, Some(5));
    assert_eq!(job.next_seek().unwrap().rate, slow);
    let commands = job.restore(&mut video);
    assert!(matches!(&commands[2], Command::Seek(s) if s.rate == slow && s.start == Some(5)));
}

#[test]
fn thumbnails_leave_a_session_halted_at_the_end_as_it_was() {
    let mut video = open(false);
    video.poll(vec![BusMessage::EndOfStream], None, None);
    assert!(video.eos() && video.paused() && !video.restart_pending());

    let (mut job, _) = video.thumbnails(vec![Position::Frame(1)], 1, false, Some(9));
    // the job plays, and asks for no restart
    assert!(!video.paused());
    assert!(video.eos() && !video.restart_pending());
    job.frame_arrived(&grey(50));
    job.restore(&mut video);
    assert!(video.eos() && video.paused() && !video.restart_pending());
    assert_eq!(video.phase(), Phase::Eos);
    assert!(job.finish(Ok(())).is_ok());

    // ticks leave the session halted at the end: nothing restarts
    for _ in 0..3 {
        let tick = video.poll(vec![BusMessage::EndOfStream], None, None);
        assert!(tick.commands.is_empty());
        assert!(video.eos() && video.paused() && !video.restart_pending());
    }
}

#[test]
fn thumbnails_leave_every_flag_of_the_session_as_it_was() {
    // halted at the end, about to restart, paused, playing; looping or not
    for looping in [false, true] {
        for case in 0..4 {
            for fails in [false, true] {
                let mut video = open(case == 2);
                video.set_looping(looping);
                if case < 2 {
                    video.set_looping(false);
                    video.poll(vec![BusMessage::EndOfStream], None, None);
                    video.set_looping(looping);
                }
                if case == 1 {
                    video.set_paused(false);
                }
                let before = (video.paused(), video.eos(), video.restart_pending(), video.looping(), video.speed(), video.phase());
                let (mut job, _) = video.thumbnails(vec![Position::Frame(1)], 1, true, None);
                if fails {
                    job.seek_refused("no".to_string());
                } else {
                    job.frame_arrived(&grey(50));
                }
                job.restore(&mut video);
                let after = (video.paused(), video.eos(), video.restart_pending(), video.looping(), video.speed(), video.phase());
                assert_eq!(before, after);
            }
        }
    }
}

#[test]
fn try_thumbnails_checks_what_it_is_given() {
    let mut video = open(true);
    assert!(video.try_thumbnails(vec![Position::Frame(1)], 0, false, None).is_none());
    assert!(video
        .try_thumbnails(vec![Position::Frame(1), Position::Frame(u64::MAX)], 1, false, None)
        .is_none());
    assert!(video
        .try_thumbnails(vec![Position::Time(Duration::from_nanos(u64::MAX))], 1, false, None)
        .is_none());
    // a refused job leaves the session alone
    assert!(video.paused());
    let (job, commands) = video.try_thumbnails(vec![Position::Frame(1)], 1, false, None).unwrap();
    assert_eq!(commands.len(), 2);
    assert!(!video.paused());
    assert_eq!(job.next_seek(), Some(exact_seek(Unit::Frame, 1)));
}
