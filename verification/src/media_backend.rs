//! Media backend selection.
//!
//! Decides which media backend serves audio and video playback, with graceful
//! fallback: a full backend when its initialization succeeds, otherwise a
//! dummy backend that plays nothing. The backend libraries' own global
//! initialization is the embedder's job; the embedder performs it once at
//! startup and hands the outcome in as a plain `Result`, so the selection
//! logic here is checked for every outcome.

use vstd::prelude::*;

verus! {

use vstd::string::StringExecFnsIsAscii;
use vstd::string::StrSliceExecFns;

/// Media backend selection.
#[derive(Clone, Copy, PartialEq, Eq, Structural, Debug)]
pub enum MediaBackend {
    /// Automatically select the best available backend.
    Auto,
    /// Force the full backend (fail if unavailable).
    GStreamer,
    /// Force the dummy backend (no audio/video playback).
    Dummy,
}

impl Default for MediaBackend {
    fn default() -> (r: MediaBackend)
        ensures
            r == MediaBackend::Auto,
    {
        MediaBackend::Auto
    }
}

/// The backend type that was actually initialized.
#[derive(Clone, Copy, PartialEq, Eq, Structural, Debug)]
pub enum MediaBackendType {
    /// Full backend (real playback).
    GStreamer,
    /// Dummy backend (no playback).
    Dummy,
}

/// Result of media backend initialization.
#[derive(Debug, Clone)]
pub struct MediaInitResult {
    /// The backend that was actually initialized.
    pub backend: MediaBackendType,
    /// Human-readable status message.
    pub message: String,
}

/// Attempt to initialize the full media backend. Its libraries are not linked
/// into this crate, so the attempt always reports unavailability; an embedder
/// that links them initializes them itself and passes its own outcome to
/// `do_init_media_backend`.
pub fn try_init_gstreamer() -> (r: Result<(), String>)
    ensures
        r matches Err(m) && m@ == "GStreamer feature not compiled in"@,
{
    Err("GStreamer feature not compiled in".to_owned())
}

/// Select and describe the media backend for a request, given the outcome of
/// the full backend's initialization: a forced dummy ignores that outcome, a
/// forced full backend demands success, and automatic selection takes the
/// full backend when it initialized and falls back to the dummy with the
/// failure named in the message.
pub fn do_init_media_backend(requested: MediaBackend, gstreamer_init: Result<(), String>) -> (r:
    MediaInitResult)
    requires
        !(requested == MediaBackend::GStreamer && gstreamer_init is Err),
    ensures
        requested == MediaBackend::Dummy ==> r.backend == MediaBackendType::Dummy && r.message@
            == "Dummy media backend initialized (no audio/video playback)"@,
        requested == MediaBackend::GStreamer ==> r.backend == MediaBackendType::GStreamer
            && r.message@ == "GStreamer media backend initialized"@,
        requested == MediaBackend::Auto && gstreamer_init is Ok ==> r.backend
            == MediaBackendType::GStreamer && r.message@
            == "GStreamer media backend initialized"@,
        gstreamer_init matches Err(e) ==> (requested == MediaBackend::Auto ==> r.backend
            == MediaBackendType::Dummy && r.message@
            == "Dummy media backend initialized (GStreamer unavailable: "@ + e@ + ")"@),
{
    match requested {
        MediaBackend::Dummy => MediaInitResult {
            backend: MediaBackendType::Dummy,
            message: "Dummy media backend initialized (no audio/video playback)".to_owned(),
        },
        MediaBackend::GStreamer => MediaInitResult {
            backend: MediaBackendType::GStreamer,
            message: "GStreamer media backend initialized".to_owned(),
        },
        MediaBackend::Auto => match gstreamer_init {
            Ok(()) => MediaInitResult {
                backend: MediaBackendType::GStreamer,
                message: "GStreamer media backend initialized".to_owned(),
            },
            Err(e) => {
                let prefix: String = "Dummy media backend initialized (GStreamer unavailable: "
                    .to_owned();
                let with_reason = prefix.concat(e.as_str());
                let message = with_reason.concat(")");
                MediaInitResult { backend: MediaBackendType::Dummy, message }
            },
        },
    }
}

/// Media playback capabilities.
#[derive(Debug, Clone)]
pub struct MediaCapabilities {
    /// Can play audio.
    pub audio: bool,
    /// Can play video.
    pub video: bool,
    /// Supported audio codec MIME types.
    pub audio_codecs: Vec<String>,
    /// Supported video codec MIME types.
    pub video_codecs: Vec<String>,
}

impl MediaCapabilities {
    /// Get the capabilities of the initialized backend; an uninitialized
    /// system has the dummy backend's (none).
    pub fn current(backend: Option<MediaBackendType>) -> (r: MediaCapabilities)
        ensures
            backend == Some(MediaBackendType::GStreamer) ==> r.audio && r.video,
            backend != Some(MediaBackendType::GStreamer) ==> !r.audio && !r.video
                && r.audio_codecs@.len() == 0 && r.video_codecs@.len() == 0,
    {
        match backend {
            Some(MediaBackendType::GStreamer) => Self::gstreamer_capabilities(),
            Some(MediaBackendType::Dummy) => Self::dummy_capabilities(),
            None => Self::dummy_capabilities(),
        }
    }

    /// The dummy backend plays nothing.
    pub fn dummy_capabilities() -> (r: MediaCapabilities)
        ensures
            !r.audio,
            !r.video,
            r.audio_codecs@.len() == 0,
            r.video_codecs@.len() == 0,
    {
        MediaCapabilities {
            audio: false,
            video: false,
            audio_codecs: Vec::new(),
            video_codecs: Vec::new(),
        }
    }

    /// The full backend's expected codec support.
    pub fn gstreamer_capabilities() -> (r: MediaCapabilities)
        ensures
            r.audio,
            r.video,
            r.audio_codecs.deep_view() == seq![
                "audio/mpeg"@,
                "audio/aac"@,
                "audio/ogg"@,
                "audio/opus"@,
                "audio/wav"@,
            ],
            r.video_codecs.deep_view() == seq![
                "video/h264"@,
                "video/vp8"@,
                "video/vp9"@,
                "video/av1"@,
            ],
    {
        let mut audio_codecs: Vec<String> = Vec::new();
        audio_codecs.push("audio/mpeg".to_owned());
        audio_codecs.push("audio/aac".to_owned());
        audio_codecs.push("audio/ogg".to_owned());
        audio_codecs.push("audio/opus".to_owned());
        audio_codecs.push("audio/wav".to_owned());
        let mut video_codecs: Vec<String> = Vec::new();
        video_codecs.push("video/h264".to_owned());
        video_codecs.push("video/vp8".to_owned());
        video_codecs.push("video/vp9".to_owned());
        video_codecs.push("video/av1".to_owned());
        proof {
            assert(audio_codecs.deep_view() =~~= seq![
                "audio/mpeg"@,
                "audio/aac"@,
                "audio/ogg"@,
                "audio/opus"@,
                "audio/wav"@,
            ]);
            assert(video_codecs.deep_view() =~~= seq![
                "video/h264"@,
                "video/vp8"@,
                "video/vp9"@,
                "video/av1"@,
            ]);
        }
        MediaCapabilities { audio: true, video: true, audio_codecs, video_codecs }
    }
}

} // verus!
