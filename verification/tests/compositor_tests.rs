use verso::compositor::{
    CompositingReason, CompositionRequest, DeviceIntRect, HitTestItem, IOCompositor,
    PaintMetricKind, PaintMetricState, ScrollTreeNode, ShutdownState,
};
use verso::extended_compositor_msg::ExtendedCompositorMsg;
use verso::ids::{Epoch, PipelineId, WebViewId};
use verso::resource_tracker::{FontInstanceKey, FontKey, ImageKey};
use verso::scroll_coalescing::{DeviceIntPoint, ScrollDelta};

fn pipeline_entry<'a>(
    c: &'a IOCompositor,
    pid: PipelineId,
) -> Option<&'a verso::compositor::PipelineDetails> {
    c.pipeline_details
        .iter()
        .find(|(id, _)| *id == pid)
        .map(|(_, d)| d)
}

#[test]
fn test_attach_then_retire_leaves_no_entry() {
    // After retirement the registry holds no entry for the pipeline and its
    // ledger leaves fully drained in one cleanup descriptor.
    let mut c = IOCompositor::new(0);
    let p = PipelineId::new(1, 1);
    let q = PipelineId::new(1, 2);
    c.attach_pipeline(p, None, Some(7));
    c.attach_pipeline(q, Some(p), None);

    c.handle_resource_message(&ExtendedCompositorMsg::AddImage {
        key: ImageKey { namespace_id: 1, key: 1 },
        pipeline_id: p,
    });
    c.handle_resource_message(&ExtendedCompositorMsg::AddFont {
        font_key: FontKey { namespace_id: 1, key: 2 },
        index: 0,
        pipeline_id: p,
    });
    c.handle_resource_message(&ExtendedCompositorMsg::AddFontInstance {
        instance_key: FontInstanceKey { namespace_id: 1, key: 3 },
        font_key: FontKey { namespace_id: 1, key: 2 },
        size_au: 16 * 60,
        pipeline_id: p,
    });

    let cleanup = c.retire_pipeline(p).unwrap();
    assert_eq!(cleanup.image_keys.len(), 1);
    assert_eq!(cleanup.font_keys.len(), 1);
    assert_eq!(cleanup.font_instance_keys.len(), 1);

    // No entry for p remains; its resources are gone with the entry.
    assert!(pipeline_entry(&c, p).is_none());
    let total_tracked: usize = c
        .pipeline_details
        .iter()
        .filter(|(id, _)| *id == p)
        .map(|(_, d)| d.resources.resource_count())
        .sum();
    assert_eq!(total_tracked, 0);

    // The child's dangling parent reference was cleared.
    assert_eq!(pipeline_entry(&c, q).unwrap().parent_pipeline_id, None);

    // Retiring again is ignored.
    assert!(c.retire_pipeline(p).is_none());

    // A later message referencing p causes no mutation.
    let before = c.pipeline_details.len();
    c.note_display_list_received(p, Epoch(1), false, Vec::new());
    assert_eq!(c.pipeline_details.len(), before);
    assert!(pipeline_entry(&c, p).is_none());

    // A fresh attach re-creates it, with metrics waiting again.
    c.attach_pipeline(p, None, None);
    let d = pipeline_entry(&c, p).unwrap();
    assert_eq!(d.first_paint_metric, PaintMetricState::Waiting);
    assert!(d.resources.is_empty());
}

#[test]
fn test_paint_metric_end_to_end() {
    // Pipeline attached; a display list at epoch 3 marked first-reflow moves
    // first paint to Seen(3, true); presenting epoch 3 sends exactly one
    // first-paint event; presenting epoch 5 afterward adds nothing.
    let mut c = IOCompositor::new(0);
    let p = PipelineId::new(2, 1);
    c.attach_pipeline(p, None, None);

    assert_eq!(
        pipeline_entry(&c, p).unwrap().first_paint_metric,
        PaintMetricState::Waiting
    );

    c.note_display_list_received(p, Epoch(3), true, Vec::new());
    let d = pipeline_entry(&c, p).unwrap();
    assert_eq!(d.first_paint_metric, PaintMetricState::Seen(Epoch(3), true));
    assert_eq!(d.most_recent_display_list_epoch, Some(Epoch(3)));

    let events = c.note_frame_presented(&vec![(p, Epoch(3))]);
    let first_paint_events: Vec<_> = events
        .iter()
        .filter(|e| e.kind == PaintMetricKind::FirstPaint && e.pipeline_id == p)
        .collect();
    assert_eq!(first_paint_events.len(), 1);
    assert_eq!(
        pipeline_entry(&c, p).unwrap().first_paint_metric,
        PaintMetricState::Sent
    );

    // A second presentation produces no additional first-paint event.
    let events2 = c.note_frame_presented(&vec![(p, Epoch(5))]);
    assert!(events2.is_empty());
    assert_eq!(
        pipeline_entry(&c, p).unwrap().first_paint_metric,
        PaintMetricState::Sent
    );
}

#[test]
fn test_paint_metric_waits_for_its_epoch() {
    // A frame presented before the seen epoch must not send the metric:
    // that would report paint timing for content never shown.
    let mut c = IOCompositor::new(0);
    let p = PipelineId::new(2, 2);
    c.attach_pipeline(p, None, None);
    c.note_display_list_received(p, Epoch(4), false, Vec::new());

    let early = c.note_frame_presented(&vec![(p, Epoch(3))]);
    assert!(early.is_empty());
    assert_eq!(
        pipeline_entry(&c, p).unwrap().first_paint_metric,
        PaintMetricState::Seen(Epoch(4), false)
    );

    let on_time = c.note_frame_presented(&vec![(p, Epoch(4))]);
    assert_eq!(on_time.len(), 2); // first paint and first contentful paint
}

#[test]
fn test_register_webview_idempotent() {
    let mut c = IOCompositor::new(0);
    let w = WebViewId::new(1, 1);
    c.register_webview(w, PipelineId::new(1, 1));
    c.register_webview(w, PipelineId::new(1, 2));
    assert_eq!(c.webviews.len(), 1);
    // The first mapping is kept.
    assert_eq!(c.webviews[0].1, PipelineId::new(1, 1));
}

#[test]
fn test_composition_request_retains_latest_reason() {
    let mut c = IOCompositor::new(0);
    assert_eq!(
        c.composition_request,
        CompositionRequest::NoCompositingNecessary
    );
    c.request_composite(CompositingReason::Animation);
    c.request_composite(CompositingReason::Resize);
    assert_eq!(
        c.composition_request,
        CompositionRequest::CompositeNow(CompositingReason::Resize)
    );
}

#[test]
fn test_tick_fires_composite_when_due() {
    let mut c = IOCompositor::new(0);
    c.request_composite(CompositingReason::Animation);

    // Too early: the pacer defers the composite.
    let early = c.tick(1, 1_000_000);
    assert!(early.composite.is_none());
    assert_eq!(
        c.composition_request,
        CompositionRequest::CompositeNow(CompositingReason::Animation)
    );

    // After a full frame interval the composite fires and the request clears.
    let due = c.tick(20, 20_000_000);
    assert_eq!(due.composite, Some(CompositingReason::Animation));
    assert_eq!(
        c.composition_request,
        CompositionRequest::NoCompositingNecessary
    );
}

#[test]
fn test_tick_flushes_scroll_and_requests_frame() {
    let mut c = IOCompositor::new(0);
    let cursor = DeviceIntPoint::new(10, 10);
    for _ in 0..10 {
        c.on_scroll_event(ScrollDelta::new(0, -2), cursor, 0);
    }
    // The full batch is due immediately; the pacer is not, so the request
    // stays pending.
    let out = c.tick(0, 0);
    assert_eq!(out.scroll_batches.len(), 1);
    assert_eq!(out.scroll_batches[0].event_count, 10);
    assert_eq!(out.scroll_batches[0].delta.y, -20);
    assert!(out.composite.is_none());
    assert_eq!(
        c.composition_request,
        CompositionRequest::CompositeNow(CompositingReason::NewWebRenderFrame)
    );
}

#[test]
fn test_zoom_accumulates_until_composite() {
    let mut c = IOCompositor::new(0);
    c.on_zoom_event(1_100); // x1.1
    c.on_zoom_event(2_000); // x2.0
    assert_eq!(c.pending_zoom_permille, 2_200);

    c.request_composite(CompositingReason::Animation);
    let out = c.tick(20, 20_000_000);
    assert_eq!(out.composite, Some(CompositingReason::Animation));
    assert_eq!(out.zoom_permille, 2_200);
    assert_eq!(c.pending_zoom_permille, 1_000);
}

#[test]
fn test_shutdown_progression_and_no_ops() {
    let mut c = IOCompositor::new(0);
    c.request_composite(CompositingReason::Headless);
    c.begin_shutdown();
    // In-flight composite requests are abandoned, not force-completed.
    assert_eq!(
        c.composition_request,
        CompositionRequest::NoCompositingNecessary
    );
    assert_eq!(c.shutdown_state, ShutdownState::ShuttingDown);

    c.finish_shutdown();
    assert_eq!(c.shutdown_state, ShutdownState::FinishedShuttingDown);

    // The progression never steps backward.
    c.begin_shutdown();
    assert_eq!(c.shutdown_state, ShutdownState::FinishedShuttingDown);

    // Mutating messages are dropped and counted; tick is a no-op.
    let p = PipelineId::new(3, 1);
    c.attach_pipeline(p, None, None);
    assert!(pipeline_entry(&c, p).is_none());
    c.request_composite(CompositingReason::Resize);
    assert_eq!(
        c.composition_request,
        CompositionRequest::NoCompositingNecessary
    );
    let out = c.tick(100, 100_000_000);
    assert!(out.composite.is_none());
    assert!(out.scroll_batches.is_empty());
    assert_eq!(c.dropped_after_shutdown, 2);
}

#[test]
fn test_hit_test_resolves_topmost() {
    let mut c = IOCompositor::new(0);
    let p = PipelineId::new(4, 1);
    c.attach_pipeline(p, None, None);
    let items = vec![
        HitTestItem {
            node: 1,
            bounds: DeviceIntRect { x: 0, y: 0, width: 100, height: 100 },
        },
        HitTestItem {
            node: 2,
            bounds: DeviceIntRect { x: 50, y: 50, width: 100, height: 100 },
        },
    ];
    c.note_display_list_received(p, Epoch(1), false, items);

    // In the overlap, the item painted last wins.
    let hit = c.hit_test(p, DeviceIntPoint::new(75, 75)).unwrap();
    assert_eq!(hit.node, 2);
    // Outside the overlap, the bottom item is found.
    let hit = c.hit_test(p, DeviceIntPoint::new(10, 10)).unwrap();
    assert_eq!(hit.node, 1);
    // A miss and an unknown pipeline resolve to nothing.
    assert!(c.hit_test(p, DeviceIntPoint::new(300, 300)).is_none());
    assert!(c.hit_test(PipelineId::new(9, 9), DeviceIntPoint::new(1, 1)).is_none());

    // A new display list discards and rebuilds the list.
    c.note_display_list_received(p, Epoch(2), false, Vec::new());
    assert!(c.hit_test(p, DeviceIntPoint::new(75, 75)).is_none());
}

#[test]
fn test_scroll_tree_offsets() {
    let mut c = IOCompositor::new(0);
    let p = PipelineId::new(5, 1);
    c.attach_pipeline(p, None, None);
    c.set_scroll_tree(
        p,
        vec![
            ScrollTreeNode { external_id: 1, offset_x: 0, offset_y: 0 },
            ScrollTreeNode { external_id: 2, offset_x: 5, offset_y: 5 },
        ],
    );
    c.apply_scroll_to_node(p, 2, -3, 10);
    let d = pipeline_entry(&c, p).unwrap();
    assert_eq!(d.scroll_tree[0], ScrollTreeNode { external_id: 1, offset_x: 0, offset_y: 0 });
    assert_eq!(d.scroll_tree[1], ScrollTreeNode { external_id: 2, offset_x: 2, offset_y: 15 });

    // Unknown nodes and unknown pipelines are ignored.
    c.apply_scroll_to_node(p, 99, 1, 1);
    c.apply_scroll_to_node(PipelineId::new(9, 9), 1, 1, 1);
    let d = pipeline_entry(&c, p).unwrap();
    assert_eq!(d.scroll_tree[1].offset_x, 2);
}

#[test]
fn test_animation_tick_throttle() {
    let mut c = IOCompositor::new(0);
    let target = c.frame_pacer.target_frame_duration_ns;
    // Suppressed until one target frame duration has elapsed.
    assert!(!c.should_send_animation_tick(target / 2));
    assert!(c.should_send_animation_tick(target));
    c.note_animation_tick_sent(target);
    assert!(!c.should_send_animation_tick(target + target / 2));
    assert!(c.should_send_animation_tick(2 * target));
}

#[test]
fn test_reattach_resets_paint_metrics() {
    // A reused pipeline id must reset paint-metric state on re-attach, so a
    // stale terminal state cannot suppress the new document's metrics.
    let mut c = IOCompositor::new(0);
    let p = PipelineId::new(6, 1);
    c.attach_pipeline(p, None, None);
    c.note_display_list_received(p, Epoch(1), true, Vec::new());
    let _ = c.note_frame_presented(&vec![(p, Epoch(1))]);
    assert_eq!(
        pipeline_entry(&c, p).unwrap().first_paint_metric,
        PaintMetricState::Sent
    );

    c.attach_pipeline(p, None, None);
    assert_eq!(
        pipeline_entry(&c, p).unwrap().first_paint_metric,
        PaintMetricState::Waiting
    );
    c.note_display_list_received(p, Epoch(2), true, Vec::new());
    let events = c.note_frame_presented(&vec![(p, Epoch(2))]);
    assert_eq!(events.len(), 2);
}

#[test]
fn test_animation_and_throttle_flags() {
    let mut c = IOCompositor::new(0);
    let p = PipelineId::new(7, 1);
    c.attach_pipeline(p, None, None);
    c.set_animation_state(p, true, true);
    c.set_throttled(p, true);
    let d = pipeline_entry(&c, p).unwrap();
    assert!(d.animations_running);
    assert!(d.animation_callbacks_running);
    assert!(d.throttled);

    // Flags on unknown pipelines are ignored.
    c.set_throttled(PipelineId::new(9, 9), true);
    assert_eq!(c.pipeline_details.len(), 1);
}
