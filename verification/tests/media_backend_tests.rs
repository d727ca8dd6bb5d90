use verso::media_backend::{
    do_init_media_backend, try_init_gstreamer, MediaBackend, MediaBackendType, MediaCapabilities,
};

#[test]
fn test_media_backend_default() {
    assert_eq!(MediaBackend::default(), MediaBackend::Auto);
}

#[test]
fn test_dummy_capabilities() {
    let caps = MediaCapabilities::dummy_capabilities();
    assert!(!caps.audio);
    assert!(!caps.video);
    assert!(caps.audio_codecs.is_empty());
}

#[test]
fn test_forced_dummy_selection() {
    let result = do_init_media_backend(MediaBackend::Dummy, Ok(()));
    assert_eq!(result.backend, MediaBackendType::Dummy);
    assert_eq!(
        result.message,
        "Dummy media backend initialized (no audio/video playback)"
    );
}

#[test]
fn test_forced_gstreamer_selection() {
    let result = do_init_media_backend(MediaBackend::GStreamer, Ok(()));
    assert_eq!(result.backend, MediaBackendType::GStreamer);
    assert_eq!(result.message, "GStreamer media backend initialized");
}

#[test]
fn test_auto_takes_gstreamer_when_available() {
    let result = do_init_media_backend(MediaBackend::Auto, Ok(()));
    assert_eq!(result.backend, MediaBackendType::GStreamer);
}

#[test]
fn test_auto_falls_back_to_dummy() {
    let result = do_init_media_backend(MediaBackend::Auto, Err(String::from("no plugins")));
    assert_eq!(result.backend, MediaBackendType::Dummy);
    assert_eq!(
        result.message,
        "Dummy media backend initialized (GStreamer unavailable: no plugins)"
    );
}

#[test]
fn test_gstreamer_unavailable_here() {
    let r = try_init_gstreamer();
    assert_eq!(r, Err(String::from("GStreamer feature not compiled in")));
}

#[test]
fn test_current_capabilities_by_backend() {
    let gst = MediaCapabilities::current(Some(MediaBackendType::GStreamer));
    assert!(gst.audio);
    assert!(gst.video);
    assert_eq!(gst.audio_codecs.len(), 5);
    assert_eq!(gst.video_codecs.len(), 4);
    assert_eq!(gst.audio_codecs[0], "audio/mpeg");
    assert_eq!(gst.video_codecs[0], "video/h264");

    let dummy = MediaCapabilities::current(Some(MediaBackendType::Dummy));
    assert!(!dummy.audio && !dummy.video);

    let uninit = MediaCapabilities::current(None);
    assert!(!uninit.audio && !uninit.video);
}
