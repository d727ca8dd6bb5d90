use verso::frame_pacing::{FramePacing, FramePacingConfig, NANOS_TIMES_MILLI};

const MS: u64 = 1_000_000;

#[test]
fn test_default_refresh_rate() {
    let pacing = FramePacing::new(0);
    assert!((pacing.refresh_rate() as f64 / 1000.0 - 60.0).abs() < 0.1);
}

#[test]
fn test_set_refresh_rate() {
    let mut pacing = FramePacing::new(0);
    pacing.set_refresh_rate(144_000);
    assert!((pacing.refresh_rate() as f64 / 1000.0 - 144.0).abs() < 0.1);

    let target = pacing.target_frame_duration();
    let expected = 1.0 / 144.0;
    assert!((target as f64 / 1e9 - expected).abs() < 0.0001);
}

#[test]
fn test_invalid_refresh_rate() {
    let mut pacing = FramePacing::new(0);
    pacing.set_refresh_rate(0);
    assert!((pacing.refresh_rate() as f64 / 1000.0 - 60.0).abs() < 0.1); // Should keep default

    pacing.set_refresh_rate(500_000);
    assert!((pacing.refresh_rate() as f64 / 1000.0 - 60.0).abs() < 0.1); // Should keep default
}

#[test]
fn test_should_generate_frame() {
    let mut pacing = FramePacing::new(0);
    pacing.set_refresh_rate(60_000);

    // Immediately after creation, should wait.
    let _ = pacing.should_generate_frame(0);
}

#[test]
fn test_frame_stats() {
    let mut pacing = FramePacing::new(0);

    // Simulate some frames.
    let mut now: u64 = 0;
    for _ in 0..10 {
        pacing.begin_frame(now);
        now += 16 * MS;
        pacing.on_frame_presented(now);
    }

    let stats = pacing.stats();
    assert_eq!(stats.total_frames, 10);
    assert!(stats.avg_frame_time_ns > 0);
}

#[test]
fn test_vsync_disabled() {
    let config = FramePacingConfig {
        vsync_enabled: false,
        ..Default::default()
    };
    let pacing = FramePacing::with_config(config, 0);

    // With vsync disabled, should always generate.
    assert!(pacing.should_generate_frame(0));
    assert_eq!(pacing.time_until_next_frame(0), 0);
}

#[test]
fn test_reset_stats() {
    let mut pacing = FramePacing::new(0);

    let mut now: u64 = 0;
    for _ in 0..5 {
        now += 16 * MS;
        pacing.on_frame_presented(now);
    }

    assert_eq!(pacing.stats().total_frames, 5);

    pacing.reset_stats();

    assert_eq!(pacing.stats().total_frames, 0);
    assert_eq!(pacing.stats().dropped_frames, 0);
}

#[test]
fn test_target_duration_inverse_of_rate() {
    let mut pacing = FramePacing::new(0);
    pacing.set_refresh_rate(60_000);
    // Exactly 10^12 / 60_000 nanoseconds.
    assert_eq!(pacing.target_frame_duration(), NANOS_TIMES_MILLI / 60_000);
    assert_eq!(pacing.target_frame_duration(), 16_666_666);
    // Within floating tolerance of 1/60 s.
    assert!((pacing.target_frame_duration() as f64 / 1e9 - 1.0 / 60.0).abs() < 1e-6);

    pacing.set_refresh_rate(144_000);
    assert_eq!(pacing.target_frame_duration(), NANOS_TIMES_MILLI / 144_000);

    // Invalid rates leave both the rate and the target unchanged.
    pacing.set_refresh_rate(360_001);
    assert_eq!(pacing.refresh_rate(), 144_000);
    assert_eq!(pacing.target_frame_duration(), NANOS_TIMES_MILLI / 144_000);
}

#[test]
fn test_ten_on_time_frames_drop_none() {
    let mut pacing = FramePacing::new(0);
    pacing.set_refresh_rate(60_000);
    let target = pacing.target_frame_duration();

    let mut now: u64 = 0;
    for _ in 0..10 {
        now += target;
        pacing.on_frame_presented(now);
    }
    assert_eq!(pacing.stats().total_frames, 10);
    assert_eq!(pacing.stats().dropped_frames, 0);

    // One frame beyond threshold x target increments the counter by one.
    now += target * 2;
    pacing.on_frame_presented(now);
    assert_eq!(pacing.stats().dropped_frames, 1);
    assert_eq!(pacing.stats().total_frames, 11);
}

#[test]
fn test_adaptive_vsync_fires_when_behind() {
    let pacing = FramePacing::new(0);
    let target = pacing.target_frame_duration();
    // Not yet due.
    assert!(!pacing.should_generate_frame(target / 2));
    // Due once the target elapsed.
    assert!(pacing.should_generate_frame(target));
    // Far behind schedule: due under adaptive vsync too.
    assert!(pacing.should_generate_frame(target * 3));
}

#[test]
fn test_drop_percentage_and_keeping_up() {
    let mut pacing = FramePacing::new(0);
    assert_eq!(pacing.drop_percentage(), 0);
    assert!(pacing.is_keeping_up());

    let target = pacing.target_frame_duration();
    let mut now: u64 = 0;
    // Two on-time frames, then two heavily dropped frames.
    for _ in 0..2 {
        now += target;
        pacing.on_frame_presented(now);
    }
    for _ in 0..2 {
        now += target * 4;
        pacing.on_frame_presented(now);
    }
    assert_eq!(pacing.stats().total_frames, 4);
    assert_eq!(pacing.stats().dropped_frames, 2);
    assert_eq!(pacing.drop_percentage(), 50);
}

#[test]
fn test_time_until_next_frame_counts_down() {
    let pacing = FramePacing::new(0);
    let target = pacing.target_frame_duration();
    assert_eq!(pacing.time_until_next_frame(0), target);
    assert_eq!(pacing.time_until_next_frame(target / 2), target - target / 2);
    assert_eq!(pacing.time_until_next_frame(target), 0);
    assert_eq!(pacing.time_until_next_frame(target * 2), 0);
}
