//! Tests of replay pacing and of zone detection.

use racing_coach_client::analysis::{
    closed_zones, count_active, extract_zones, first_active, sample_end, Zone, ZoneDetector,
};
use racing_coach_client::pitwall::provider::{
    clamp_speed, frame_interval_nanos, ReplayPacing, MAX_SPEED_PERMILLE, MIN_SPEED_PERMILLE,
};

#[test]
fn test_clamp_speed() {
    assert_eq!(clamp_speed(0), 100);
    assert_eq!(clamp_speed(99), 100);
    assert_eq!(clamp_speed(100), 100);
    assert_eq!(clamp_speed(1000), 1000);
    assert_eq!(clamp_speed(100_000), 100_000);
    assert_eq!(clamp_speed(100_001), 100_000);
    assert_eq!(clamp_speed(u32::MAX), MAX_SPEED_PERMILLE);
    assert_eq!(MIN_SPEED_PERMILLE, 100);
}

#[test]
fn test_frame_interval() {
    // 60 Hz in real time: a sixtieth of a second.
    assert_eq!(frame_interval_nanos(60, 1000), 16_666_666);
    // Ten times as fast: a tenth of that.
    assert_eq!(frame_interval_nanos(60, 10_000), 1_666_666);
    // Half speed: twice that.
    assert_eq!(frame_interval_nanos(60, 500), 33_333_333);
    assert_eq!(frame_interval_nanos(1, 1000), 1_000_000_000);
    assert_eq!(frame_interval_nanos(u32::MAX, u32::MAX), 0);
}

#[test]
fn test_accelerated_replay_takes_duration_over_speed() {
    // Ten seconds of recording at 60 Hz, played at five times the speed.
    let mut pacing = ReplayPacing::new(600, 60, 5000);
    assert_eq!(pacing.speed(), 5000);
    assert_eq!(pacing.tick_rate(), 60);
    let interval = pacing.interval_nanos();
    let mut waited = 0u64;
    let mut read = Vec::new();
    while let Some(index) = pacing.next_frame() {
        waited += interval;
        read.push(index);
    }
    assert_eq!(read, (0..600).collect::<Vec<usize>>());
    // D/S is two seconds; the whole nanoseconds fall short by less than one per frame.
    assert!(waited <= 2_000_000_000);
    assert!(2_000_000_000 - waited < 600);
    // At the end the replay stays at the end.
    assert_eq!(pacing.next_frame(), None);
    assert_eq!(pacing.next_frame(), None);
    assert_eq!(pacing.current_frame, 600);
}

#[test]
fn test_replay_speed_is_clamped() {
    assert_eq!(ReplayPacing::new(10, 60, 1).speed(), 100);
    assert_eq!(ReplayPacing::new(10, 60, 1_000_000).speed(), 100_000);
    assert_eq!(ReplayPacing::new(0, 60, 1000).next_frame(), None);
}

fn flags(pattern: &str) -> Vec<bool> {
    pattern.chars().map(|c| c == 'x').collect()
}

#[test]
fn test_extract_zones() {
    assert_eq!(extract_zones(&flags("")), vec![]);
    assert_eq!(extract_zones(&flags("....")), vec![]);
    assert_eq!(
        extract_zones(&flags("..xxx..x.xx")),
        vec![
            Zone { start_idx: 2, end_idx: 4 },
            Zone { start_idx: 7, end_idx: 7 },
            Zone { start_idx: 9, end_idx: 10 }
        ]
    );
    assert_eq!(extract_zones(&flags("xxxx")), vec![Zone { start_idx: 0, end_idx: 3 }]);
    assert_eq!(extract_zones(&flags("x")), vec![Zone { start_idx: 0, end_idx: 0 }]);
}

#[test]
fn test_closed_zones_leave_out_short_and_open_ones() {
    let lap = flags("..xxx..x.xxxx.xx");
    assert_eq!(
        closed_zones(&lap, 1),
        vec![
            Zone { start_idx: 2, end_idx: 4 },
            Zone { start_idx: 7, end_idx: 7 },
            Zone { start_idx: 9, end_idx: 12 }
        ]
    );
    assert_eq!(
        closed_zones(&lap, 3),
        vec![Zone { start_idx: 2, end_idx: 4 }, Zone { start_idx: 9, end_idx: 12 }]
    );
    assert_eq!(closed_zones(&lap, 4), vec![Zone { start_idx: 9, end_idx: 12 }]);
    assert_eq!(closed_zones(&lap, 5), vec![]);
    assert_eq!(closed_zones(&lap, 0).len(), 3);
}

#[test]
fn test_zone_detector_frame_by_frame() {
    let mut detector = ZoneDetector::new();
    assert_eq!(detector.process_frame(false, 0), None);
    assert_eq!(detector.process_frame(true, 1), None);
    assert_eq!(detector.process_frame(true, 2), None);
    assert_eq!(detector.process_frame(false, 3), Some(Zone { start_idx: 1, end_idx: 2 }));
    assert_eq!(detector.process_frame(false, 4), None);
    assert_eq!(detector.finalize(), None);
    assert_eq!(detector.process_frame(true, 5), None);
    assert_eq!(detector.finalize(), Some(Zone { start_idx: 5, end_idx: 5 }));
    assert_eq!(detector.finalize(), None);
    let _ = detector.process_frame(true, 6);
    detector.reset();
    assert_eq!(detector, ZoneDetector::default());
    assert_eq!(detector.process_frame(false, 7), None);
}

#[test]
fn test_count_and_first_active() {
    let lap = flags(".x.xx..x");
    assert_eq!(count_active(&lap, 0, 8), 4);
    assert_eq!(count_active(&lap, 2, 5), 2);
    assert_eq!(count_active(&lap, 5, 7), 0);
    assert_eq!(count_active(&lap, 3, 3), 0);
    assert_eq!(first_active(&lap, 0, 8), Some(1));
    assert_eq!(first_active(&lap, 2, 8), Some(3));
    assert_eq!(first_active(&lap, 5, 7), None);
    assert_eq!(first_active(&lap, 5, 8), Some(7));
    assert_eq!(first_active(&lap, 4, 4), None);
}

#[test]
fn test_sample_end() {
    assert_eq!(sample_end(100, 10), Some(14));
    assert_eq!(sample_end(14, 10), Some(13));
    assert_eq!(sample_end(12, 10), Some(11));
    assert_eq!(sample_end(11, 10), None);
    assert_eq!(sample_end(10, 10), None);
    assert_eq!(sample_end(15, 10), Some(14));
}
