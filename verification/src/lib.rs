//! Compositing coordinator for a browser engine.
//!
//! This crate owns the authoritative record of which rendering pipelines are
//! alive, decides when a new visual frame must be produced, reconciles scroll
//! and zoom input into scene updates, and tracks paint-timing metrics and GPU
//! resource lifetimes per pipeline.
//!
//! All timing is expressed as integer nanosecond or millisecond readings of a
//! monotonic clock supplied by the embedder; the crate itself never reads a
//! clock, touches the file system, or talks to the GPU. Those edges live with
//! the embedder, which feeds plain values in and carries the returned
//! transactions out.

pub mod clock;
pub mod compositor;
pub mod extended_compositor_msg;
pub mod frame_pacing;
pub mod ids;
pub mod media_backend;
pub mod memory_pressure;
pub mod resource_tracker;
pub mod scroll_coalescing;
pub mod shader_precache;
pub mod webgl_support;
