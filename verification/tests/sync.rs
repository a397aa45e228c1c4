use iced_video_player::sync::{AvSync, MAX_CORRECTION, MAX_SAMPLES, REPORT_EVERY};
use std::time::Duration;

#[test]
fn first_delay_is_the_average() {
    let mut sync = AvSync::new();
    assert_eq!(sync.update(Duration::from_nanos(100)), None);
    assert_eq!(sync, AvSync { average: 100, samples: 1 });
}

#[test]
fn average_blends_with_rounding_down() {
    let mut sync = AvSync::new();
    sync.update(Duration::from_nanos(100));
    sync.update(Duration::from_nanos(200));
    // 100 * 1 / 2 + 200 / 2
    assert_eq!(sync, AvSync { average: 150, samples: 2 });
    sync.update(Duration::from_nanos(100));
    // 150 * 2 / 3 + 100 / 3 = 100 + 33
    assert_eq!(sync, AvSync { average: 133, samples: 3 });
}

#[test]
fn report_comes_every_128_samples() {
    let mut sync = AvSync::new();
    for n in 1..=300u64 {
        let report = sync.update(Duration::from_nanos(1_000_000));
        if n % 128 == 0 {
            assert_eq!(report, Some(-(sync.average as i64)), "sample {n}");
        } else {
            assert_eq!(report, None, "sample {n}");
        }
    }
    assert_eq!(sync.samples, 300);
    assert_eq!(REPORT_EVERY, 128);
}

#[test]
fn report_is_the_negative_average() {
    let mut sync = AvSync { average: 4_000, samples: 127 };
    // 4000 * 127 / 128 + 4000 / 128 = 3968 + 31
    assert_eq!(sync.update(Duration::from_nanos(4_000)), Some(-3_999));
    assert_eq!(sync, AvSync { average: 3_999, samples: 128 });
}

#[test]
fn delay_is_cut_to_64_bits() {
    let mut sync = AvSync::new();
    // 2^64 nanoseconds and seven more
    sync.update(Duration::new(18_446_744_073, 709_551_616 + 7));
    assert_eq!(sync, AvSync { average: 7, samples: 1 });
}

#[test]
fn correction_is_capped() {
    let mut sync = AvSync { average: u64::MAX, samples: 127 };
    let report = sync.update(Duration::from_nanos(u64::MAX));
    assert!(sync.average > MAX_CORRECTION);
    assert_eq!(report, Some(-i64::MAX));
}

#[test]
fn full_estimator_stands_still() {
    let mut sync = AvSync { average: 55, samples: MAX_SAMPLES };
    assert_eq!(sync.update(Duration::from_nanos(1)), None);
    assert_eq!(sync, AvSync { average: 55, samples: MAX_SAMPLES });
}

#[test]
fn average_never_exceeds_the_largest_delay() {
    let mut sync = AvSync::new();
    let delays = [5u64, 900, 17, 1_000_000, 3, 3, 3, 250_000];
    let mut top = 0u64;
    for d in delays {
        top = top.max(d);
        sync.update(Duration::from_nanos(d));
        assert!(sync.average <= top);
    }
}
