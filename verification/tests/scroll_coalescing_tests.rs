use verso::scroll_coalescing::{
    CoalescedScrollEvent, DeviceIntPoint, ScrollCoalescer, ScrollCoalescerConfig, ScrollDelta,
    ScrollLocation, MAX_COALESCED_EVENTS,
};

#[test]
fn test_single_event_no_coalescing() {
    let mut coalescer = ScrollCoalescer::new();
    coalescer.add_event(ScrollDelta::new(0, 10), DeviceIntPoint::new(100, 100), 0);

    assert!(coalescer.has_pending());
    let events = coalescer.flush_all();
    assert_eq!(events.len(), 1);
    assert_eq!(events[0].event_count, 1);
}

#[test]
fn test_coalescing_same_position() {
    let mut coalescer = ScrollCoalescer::new();
    let cursor = DeviceIntPoint::new(100, 100);

    // Add multiple events at the same position.
    for _ in 0..5 {
        coalescer.add_event(ScrollDelta::new(0, 10), cursor, 0);
    }

    let events = coalescer.flush_all();
    assert_eq!(events.len(), 1);
    assert_eq!(events[0].event_count, 5);
    assert_eq!(events[0].delta.y, 50); // 5 * 10
}

#[test]
fn test_no_coalescing_different_positions() {
    let mut coalescer = ScrollCoalescer::new();

    // Add events at very different positions.
    coalescer.add_event(ScrollDelta::new(0, 10), DeviceIntPoint::new(0, 0), 0);
    coalescer.add_event(ScrollDelta::new(0, 10), DeviceIntPoint::new(500, 500), 0);

    let events = coalescer.flush_all();
    assert_eq!(events.len(), 2);
}

#[test]
fn test_max_coalesced_events() {
    let mut coalescer = ScrollCoalescer::new();
    let cursor = DeviceIntPoint::new(100, 100);

    // Add more events than the limit.
    for _ in 0..15 {
        coalescer.add_event(ScrollDelta::new(0, 10), cursor, 0);
    }

    let events = coalescer.flush_all();
    // Should have split into multiple batches.
    assert!(events.len() >= 1);
    assert!(events.iter().all(|e| e.event_count <= MAX_COALESCED_EVENTS));
}

#[test]
fn test_coalescing_disabled() {
    let config = ScrollCoalescerConfig {
        enabled: false,
        ..Default::default()
    };
    let mut coalescer = ScrollCoalescer::with_config(config);
    let cursor = DeviceIntPoint::new(100, 100);

    for _ in 0..5 {
        coalescer.add_event(ScrollDelta::new(0, 10), cursor, 0);
    }

    let events = coalescer.flush_all();
    assert_eq!(events.len(), 5); // No coalescing
}

#[test]
fn test_statistics() {
    let mut coalescer = ScrollCoalescer::new();
    let cursor = DeviceIntPoint::new(100, 100);

    for _ in 0..5 {
        coalescer.add_event(ScrollDelta::new(0, 10), cursor, 0);
    }

    let _ = coalescer.flush_all();

    assert_eq!(coalescer.stats().total_events, 5);
    assert_eq!(coalescer.stats().coalesced_events, 1);
    assert_eq!(coalescer.stats().events_saved, 4);
    assert!((coalescer.stats().coalescing_ratio() as f64 / 1000.0 - 5.0).abs() < 0.01);
}

#[test]
fn test_twelve_event_burst_splits_ten_and_two() {
    // Twelve scroll events with identical cursor (100,100) and delta (0,-5)
    // within the hold window: one full batch of ten, one of two, displacement
    // preserved exactly.
    let mut coalescer = ScrollCoalescer::new();
    let cursor = DeviceIntPoint::new(100, 100);
    for _ in 0..12 {
        coalescer.add_event(ScrollDelta::new(0, -5), cursor, 0);
    }
    let events = coalescer.flush_all();
    assert_eq!(events.len(), 2);
    assert_eq!(events[0].event_count, 10);
    assert_eq!(events[0].delta.x, 0);
    assert_eq!(events[0].delta.y, -50);
    assert_eq!(events[1].event_count, 2);
    assert_eq!(events[1].delta.x, 0);
    assert_eq!(events[1].delta.y, -10);
}

#[test]
fn test_far_cursor_starts_new_batch() {
    // Moving the cursor beyond the proximity threshold between two events
    // starts a new batch; the first batch is left exactly as it was.
    let mut coalescer = ScrollCoalescer::new();
    coalescer.add_event(ScrollDelta::new(3, 4), DeviceIntPoint::new(100, 100), 0);
    // Distance 11 px > 10 px threshold.
    coalescer.add_event(ScrollDelta::new(1, 2), DeviceIntPoint::new(111, 100), 0);
    let events = coalescer.flush_all();
    assert_eq!(events.len(), 2);
    assert_eq!(events[0].event_count, 1);
    assert_eq!(events[0].delta.x, 3);
    assert_eq!(events[0].delta.y, 4);
    assert_eq!(events[1].event_count, 1);
    assert_eq!(events[1].delta.x, 1);
    assert_eq!(events[1].delta.y, 2);
}

#[test]
fn test_near_cursor_within_threshold_merges() {
    // Exactly 10 px away: squared distance 100 is within the threshold.
    let mut coalescer = ScrollCoalescer::new();
    coalescer.add_event(ScrollDelta::new(0, -7), DeviceIntPoint::new(100, 100), 0);
    coalescer.add_event(ScrollDelta::new(0, -7), DeviceIntPoint::new(110, 100), 0);
    let events = coalescer.flush_all();
    assert_eq!(events.len(), 1);
    assert_eq!(events[0].event_count, 2);
    assert_eq!(events[0].delta.y, -14);
    // The batch's cursor follows the most recent event.
    assert_eq!(events[0].cursor, DeviceIntPoint::new(110, 100));
}

#[test]
fn test_hold_time_starts_new_batch() {
    // An event arriving after the hold time opens a fresh batch.
    let mut coalescer = ScrollCoalescer::new();
    let cursor = DeviceIntPoint::new(50, 50);
    coalescer.add_event(ScrollDelta::new(0, 1), cursor, 0);
    coalescer.add_event(ScrollDelta::new(0, 1), cursor, 17);
    let events = coalescer.flush_all();
    assert_eq!(events.len(), 2);
}

#[test]
fn test_flush_returns_only_due_batches() {
    let mut coalescer = ScrollCoalescer::new();
    let cursor = DeviceIntPoint::new(0, 0);
    // A full batch of ten is due; a fresh young batch is not.
    for _ in 0..10 {
        coalescer.add_event(ScrollDelta::new(1, 0), cursor, 0);
    }
    coalescer.add_event(ScrollDelta::new(1, 0), DeviceIntPoint::new(400, 400), 0);

    let flushed = coalescer.flush(5);
    assert_eq!(flushed.len(), 1);
    assert_eq!(flushed[0].event_count, 10);
    assert_eq!(flushed[0].delta.x, 10);
    assert!(coalescer.has_pending());

    // After the hold time the young batch is due too.
    let flushed_late = coalescer.flush(17);
    assert_eq!(flushed_late.len(), 1);
    assert_eq!(flushed_late[0].event_count, 1);
    assert!(!coalescer.has_pending());
}

#[test]
fn test_try_coalesce_respects_all_conditions() {
    let cursor = DeviceIntPoint::new(100, 100);
    let mut ev = CoalescedScrollEvent::new(ScrollDelta::new(0, 10), cursor, 0);

    // Within threshold and time: merges.
    assert!(ev.try_coalesce(ScrollDelta::new(0, 10), cursor, 10));
    assert_eq!(ev.event_count, 2);
    assert_eq!(ev.delta.y, 20);

    // Too far away: refused, batch untouched.
    assert!(!ev.try_coalesce(ScrollDelta::new(0, 10), DeviceIntPoint::new(200, 200), 10));
    assert_eq!(ev.event_count, 2);
    assert_eq!(ev.delta.y, 20);

    // Too late: refused.
    assert!(!ev.try_coalesce(ScrollDelta::new(0, 10), cursor, 17));
    assert_eq!(ev.event_count, 2);
}

#[test]
fn test_should_flush_by_count_and_age() {
    let cursor = DeviceIntPoint::new(0, 0);
    let mut ev = CoalescedScrollEvent::new(ScrollDelta::new(1, 1), cursor, 100);
    assert!(!ev.should_flush(100));
    assert!(!ev.should_flush(116));
    assert!(ev.should_flush(117));
    for _ in 0..9 {
        assert!(ev.try_coalesce(ScrollDelta::new(1, 1), cursor, 100));
    }
    assert_eq!(ev.event_count, 10);
    assert!(ev.should_flush(100));
}

#[test]
fn test_average_delta() {
    let cursor = DeviceIntPoint::new(0, 0);
    let mut ev = CoalescedScrollEvent::new(ScrollDelta::new(9, -9), cursor, 0);
    assert!(ev.try_coalesce(ScrollDelta::new(0, 0), cursor, 0));
    let avg = ev.average_delta();
    // Rounded toward zero.
    assert_eq!(avg.x, 4);
    assert_eq!(avg.y, -4);
}

#[test]
fn test_scroll_location_from_event() {
    let ev = CoalescedScrollEvent::new(ScrollDelta::new(2, 3), DeviceIntPoint::new(1, 1), 0);
    let loc = ScrollLocation::from(ev);
    assert_eq!(loc, ScrollLocation::Delta(ScrollDelta::new(2, 3)));
}

#[test]
fn test_stats_reset() {
    let mut coalescer = ScrollCoalescer::new();
    coalescer.add_event(ScrollDelta::new(0, 1), DeviceIntPoint::new(0, 0), 0);
    let _ = coalescer.flush_all();
    let mut stats = *coalescer.stats();
    assert_eq!(stats.total_events, 1);
    stats.reset();
    assert_eq!(stats.total_events, 0);
    assert_eq!(stats.coalesced_events, 0);
    assert_eq!(stats.events_saved, 0);
    assert_eq!(stats.coalescing_ratio(), 1000);
}
