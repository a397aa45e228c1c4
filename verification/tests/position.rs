use iced_video_player::position::{Origin, Position, Unit, NO_POSITION};
use iced_video_player::speed::Speed;
use iced_video_player::video::Video;
use iced_video_player::error::Framerate;
use std::time::Duration;

fn session() -> Video {
    Video::from_gst_pipeline(
        7,
        Some(640),
        Some(360),
        Some(Framerate { numer: 30, denom: 1 }),
        Some(10_000_000_000),
        true,
        false,
    )
    .unwrap()
}

#[test]
fn position_from_duration_is_a_time() {
    let p: Position = Duration::from_secs(5).into();
    assert_eq!(p, Position::Time(Duration::from_secs(5)));
}

#[test]
fn position_from_integer_is_a_frame() {
    let p: Position = 42u64.into();
    assert_eq!(p, Position::Frame(42));
}

#[test]
fn time_is_counted_in_nanoseconds() {
    let p = Position::Time(Duration::from_secs(5));
    assert_eq!(p.to_raw(), 5_000_000_000);
    assert_eq!(p.to_unit(), Unit::Time);
    assert!(p.is_representable());
}

#[test]
fn frame_is_counted_as_it_is() {
    let p = Position::Frame(1234);
    assert_eq!(p.to_raw(), 1234);
    assert_eq!(p.to_unit(), Unit::Frame);
    assert!(p.is_representable());
}

#[test]
fn long_time_is_cut_to_64_bits() {
    // 2^64 nanoseconds and five more
    let p = Position::Time(Duration::new(18_446_744_073, 709_551_616 + 5));
    assert_eq!(p.to_raw(), 5);
    assert!(p.is_representable());
}

#[test]
fn reserved_count_is_not_representable() {
    assert!(!Position::Frame(u64::MAX).is_representable());
    assert!(!Position::Time(Duration::from_nanos(u64::MAX)).is_representable());
    assert_eq!(NO_POSITION, u64::MAX);
    assert!(Position::Frame(u64::MAX - 1).is_representable());
}

#[test]
fn seek_starts_at_the_position_and_leaves_the_stop_open() {
    let video = session();
    let request = video.seek(Position::Time(Duration::from_secs(5)), true);
    assert_eq!(request.rate, Speed::from_bits(1.0f64.to_bits()));
    assert!(request.flush);
    assert!(request.accurate);
    assert_eq!(request.unit, Unit::Time);
    assert_eq!(request.start_from, Origin::Start);
    assert_eq!(request.start, Some(5_000_000_000));
    assert_eq!(request.stop_from, Origin::Start);
    assert_eq!(request.stop, None);
}

#[test]
fn seek_to_a_frame_counts_frames() {
    let video = session();
    let request = video.seek(Position::Frame(90), false);
    assert!(request.flush);
    assert!(!request.accurate);
    assert_eq!(request.unit, Unit::Frame);
    assert_eq!(request.start, Some(90));
    assert_eq!(request.stop, None);
}

#[test]
fn try_seek_refuses_the_reserved_count() {
    let video = session();
    assert_eq!(video.try_seek(Position::Frame(u64::MAX), true), None);
    assert_eq!(
        video.try_seek(Position::Frame(3), true),
        Some(video.seek(Position::Frame(3), true))
    );
}

#[test]
fn positions_are_ordered_times_before_frames() {
    assert!(Position::Time(Duration::from_secs(1)) < Position::Time(Duration::from_secs(2)));
    assert!(Position::Frame(1) < Position::Frame(2));
    assert!(Position::Time(Duration::from_secs(9)) < Position::Frame(0));
}
