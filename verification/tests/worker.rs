use iced_video_player::frame::{Frame, FrameStore};
use iced_video_player::subtitle::CueStore;
use iced_video_player::video::State;
use iced_video_player::worker::{
    pull_for, FlowError, Marks, Pull, Running, Span, Timing, Worker, PULL_TIMEOUT_MILLIS,
};

fn whole(pts: u64, duration: u64) -> Timing {
    Timing { has_segment: true, has_buffer: true, pts: Some(pts), duration: Some(duration) }
}

fn marks(text_end: u64) -> Marks {
    Marks { frame_start: 0, frame_end: 10, text_start: 0, text_end }
}

fn due() -> Running {
    Running { frame_start: 100, frame_end: 140, text_start: 90, text_end: 120 }
}

#[test]
fn worker_pulls_from_the_stream_only_while_playing() {
    assert_eq!(pull_for(State::Playing), Pull::Stream);
    assert_eq!(pull_for(State::Paused), Pull::Preroll);
    assert_eq!(pull_for(State::Ready), Pull::Preroll);
    assert_eq!(pull_for(State::Null), Pull::Preroll);
    assert_eq!(PULL_TIMEOUT_MILLIS, 16);
}

#[test]
fn round_without_a_sample_changes_nothing() {
    let mut worker = Worker::new();
    let mut store = FrameStore::new();
    let mut cues = CueStore::new();
    assert_eq!(worker.on_sample(None, &mut store, &mut cues), Err(FlowError::Eos));
    assert!(!store.is_dirty());
    assert!(!cues.is_changed());
}

#[test]
fn sample_is_installed_as_the_newest_frame() {
    let mut worker = Worker::new();
    let mut store = FrameStore::new();
    let mut cues = CueStore::new();
    let sample = Some((whole(1_000, 40), Frame::new(vec![1, 2, 3], Some(4))));
    assert_eq!(
        worker.on_sample(sample, &mut store, &mut cues),
        Ok(Span { start: 1_000, length: 40 })
    );
    assert!(store.is_dirty());
    assert_eq!(store.frame().readable(), Some(&vec![1, 2, 3]));
    assert!(!cues.is_changed());
}

#[test]
fn malformed_sample_is_dropped() {
    let broken = [
        Timing { has_segment: false, ..whole(1, 1) },
        Timing { has_buffer: false, ..whole(1, 1) },
        Timing { pts: None, ..whole(1, 1) },
        Timing { duration: None, ..whole(1, 1) },
    ];
    for timing in broken {
        let mut worker = Worker::new();
        let mut store = FrameStore::new();
        let mut cues = CueStore::new();
        let sample = Some((timing, Frame::new(vec![7], None)));
        assert_eq!(worker.on_sample(sample, &mut store, &mut cues), Err(FlowError::Error));
        assert!(!store.is_dirty());
        assert!(store.frame().readable().is_none());
        assert_eq!(timing.to_span(), None);
    }
}

#[test]
fn worker_goes_on_after_a_failed_round() {
    let mut worker = Worker::new();
    let mut store = FrameStore::new();
    let mut cues = CueStore::new();
    let bad = Some((Timing { pts: None, ..whole(1, 1) }, Frame::empty()));
    assert_eq!(worker.on_sample(bad, &mut store, &mut cues), Err(FlowError::Error));
    assert_eq!(worker.on_sample(None, &mut store, &mut cues), Err(FlowError::Eos));
    let good = Some((whole(5, 5), Frame::new(vec![5], None)));
    assert!(worker.on_sample(good, &mut store, &mut cues).is_ok());
    assert!(store.is_dirty());
}

#[test]
fn marks_hold_both_ends_of_frame_and_cue() {
    let frame = Span { start: 1_000, length: 40 };
    assert_eq!(
        Worker::marks(frame, whole(900, 500)),
        Ok(Marks { frame_start: 1_000, frame_end: 1_040, text_start: 900, text_end: 1_400 })
    );
}

#[test]
fn marks_need_whole_text_timing() {
    let frame = Span { start: 1_000, length: 40 };
    assert_eq!(Worker::marks(frame, Timing { has_segment: false, ..whole(1, 1) }), Err(FlowError::Error));
    assert_eq!(Worker::marks(frame, Timing { has_buffer: false, ..whole(1, 1) }), Err(FlowError::Error));
    assert_eq!(Worker::marks(frame, Timing { pts: None, ..whole(1, 1) }), Err(FlowError::Error));
    assert_eq!(Worker::marks(frame, Timing { duration: None, ..whole(1, 1) }), Err(FlowError::Error));
}

#[test]
fn marks_need_ends_that_can_be_counted() {
    let frame = Span { start: 1_000, length: 40 };
    assert_eq!(Worker::marks(frame, whole(u64::MAX - 5, 5)), Err(FlowError::Error));
    assert_eq!(
        Worker::marks(Span { start: u64::MAX, length: 0 }, whole(1, 1)),
        Err(FlowError::Error)
    );
    assert!(Worker::marks(frame, whole(u64::MAX - 5, 4)).is_ok());
    assert_eq!(Span { start: u64::MAX - 5, length: 4 }.to_end(), Some(u64::MAX - 1));
    assert_eq!(Span { start: u64::MAX - 5, length: 5 }.to_end(), None);
    assert_eq!(Span { start: 3, length: u64::MAX }.to_end(), None);
}

#[test]
fn due_cue_goes_on_screen() {
    let mut worker = Worker::new();
    let mut cues = CueStore::new();
    let bytes = Some("h\u{e9}llo \u{4e16}\u{754c}".as_bytes().to_vec());
    assert_eq!(worker.on_text(marks(1_400), due(), bytes, &mut cues), Ok(()));
    assert_eq!(cues.take_change(), Some(Some("h\u{e9}llo \u{4e16}\u{754c}".to_string())));
}

#[test]
fn cue_that_is_not_due_is_left_aside() {
    let mut worker = Worker::new();
    let mut cues = CueStore::new();
    let late = Running { frame_start: 100, frame_end: 140, text_start: 140, text_end: 200 };
    assert_eq!(worker.on_text(marks(1_400), late, Some(b"later".to_vec()), &mut cues), Ok(()));
    assert!(!cues.is_changed());
    let early = Running { frame_start: 100, frame_end: 140, text_start: 50, text_end: 100 };
    // not even broken text is looked at
    assert_eq!(worker.on_text(marks(1_400), early, Some(vec![0xff]), &mut cues), Ok(()));
    assert_eq!(worker.on_text(marks(1_400), early, None, &mut cues), Ok(()));
    assert!(!cues.is_changed());
}

#[test]
fn text_that_is_not_utf8_is_reported() {
    let mut worker = Worker::new();
    let mut cues = CueStore::new();
    cues.show("old".to_string());
    cues.take_change();
    let bytes = Some(vec![b'a', 0xff, b'b']);
    assert_eq!(worker.on_text(marks(1_400), due(), bytes, &mut cues), Err(FlowError::Error));
    assert!(!cues.is_changed());
    let cut = Some(vec![0xe4, 0xb8]);
    assert_eq!(worker.on_text(marks(1_400), due(), cut, &mut cues), Err(FlowError::Error));
}

#[test]
fn unreadable_text_is_reported() {
    let mut worker = Worker::new();
    let mut cues = CueStore::new();
    assert_eq!(worker.on_text(marks(1_400), due(), None, &mut cues), Err(FlowError::Error));
    assert!(!cues.is_changed());
}

#[test]
fn cue_is_cleared_by_the_first_frame_at_its_end() {
    let mut worker = Worker::new();
    let mut store = FrameStore::new();
    let mut cues = CueStore::new();
    worker.on_text(marks(1_400), due(), Some(b"cue".to_vec()), &mut cues).unwrap();
    assert_eq!(cues.take_change(), Some(Some("cue".to_string())));

    let before = Some((whole(1_399, 40), Frame::empty()));
    worker.on_sample(before, &mut store, &mut cues).unwrap();
    assert!(!cues.is_changed());

    let at = Some((whole(1_400, 40), Frame::empty()));
    worker.on_sample(at, &mut store, &mut cues).unwrap();
    assert_eq!(cues.take_change(), Some(None));

    // the expiry is used up: later frames clear nothing
    let after = Some((whole(1_440, 40), Frame::empty()));
    worker.on_sample(after, &mut store, &mut cues).unwrap();
    assert!(!cues.is_changed());
}

#[test]
fn newer_cue_moves_the_expiry() {
    let mut worker = Worker::new();
    let mut store = FrameStore::new();
    let mut cues = CueStore::new();
    worker.on_text(marks(1_000), due(), Some(b"one".to_vec()), &mut cues).unwrap();
    worker.on_text(marks(2_000), due(), Some(b"two".to_vec()), &mut cues).unwrap();
    assert_eq!(cues.take_change(), Some(Some("two".to_string())));
    worker.on_sample(Some((whole(1_500, 40), Frame::empty())), &mut store, &mut cues).unwrap();
    assert!(!cues.is_changed());
    worker.on_sample(Some((whole(2_000, 40), Frame::empty())), &mut store, &mut cues).unwrap();
    assert_eq!(cues.take_change(), Some(None));
}

#[test]
fn empty_text_is_a_cue() {
    let mut worker = Worker::new();
    let mut cues = CueStore::new();
    assert_eq!(worker.on_text(marks(5), due(), Some(Vec::new()), &mut cues), Ok(()));
    assert_eq!(cues.take_change(), Some(Some(String::new())));
}
