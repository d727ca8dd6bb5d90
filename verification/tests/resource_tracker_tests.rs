use verso::resource_tracker::{FontInstanceKey, FontKey, ImageKey, PipelineResources};

#[test]
fn test_resource_tracking() {
    let mut resources = PipelineResources::new();
    assert!(resources.is_empty());

    assert_eq!(resources.resource_count(), 0);
}

#[test]
fn test_clear_resources() {
    let mut resources = PipelineResources::new();
    resources.clear();
    assert!(resources.is_empty());
}

#[test]
fn test_track_and_untrack() {
    let mut resources = PipelineResources::new();
    let img = ImageKey { namespace_id: 1, key: 10 };
    let font = FontKey { namespace_id: 1, key: 20 };
    let inst = FontInstanceKey { namespace_id: 1, key: 30 };

    resources.track_image(img);
    resources.track_font(font);
    resources.track_font_instance(inst);
    assert!(!resources.is_empty());
    assert_eq!(resources.resource_count(), 3);

    resources.untrack_image(img);
    assert_eq!(resources.resource_count(), 2);
    resources.untrack_font(font);
    resources.untrack_font_instance(inst);
    assert!(resources.is_empty());
}

#[test]
fn test_untrack_unknown_is_noop() {
    let mut resources = PipelineResources::new();
    resources.track_image(ImageKey { namespace_id: 1, key: 1 });
    // A key never tracked: no-op, not an error.
    resources.untrack_image(ImageKey { namespace_id: 1, key: 2 });
    resources.untrack_font(FontKey { namespace_id: 9, key: 9 });
    assert_eq!(resources.resource_count(), 1);
}

#[test]
fn test_untrack_tolerates_duplicates() {
    let mut resources = PipelineResources::new();
    let img = ImageKey { namespace_id: 2, key: 7 };
    resources.track_image(img);
    resources.track_image(img);
    assert_eq!(resources.resource_count(), 2);
    // Removal by value removes every occurrence without corrupting the rest.
    resources.untrack_image(img);
    assert!(resources.is_empty());
}

#[test]
fn test_drain_is_atomic() {
    let mut resources = PipelineResources::new();
    let img = ImageKey { namespace_id: 3, key: 1 };
    let font = FontKey { namespace_id: 3, key: 2 };
    let inst = FontInstanceKey { namespace_id: 3, key: 3 };
    resources.track_image(img);
    resources.track_font(font);
    resources.track_font_instance(inst);

    let cleanup = resources.drain();
    // The descriptor holds exactly what the ledger held; the ledger is empty.
    assert_eq!(cleanup.image_keys, vec![img]);
    assert_eq!(cleanup.font_keys, vec![font]);
    assert_eq!(cleanup.font_instance_keys, vec![inst]);
    assert!(!cleanup.is_empty());
    assert!(resources.is_empty());
    assert_eq!(resources.resource_count(), 0);

    let empty_cleanup = resources.drain();
    assert!(empty_cleanup.is_empty());
}
