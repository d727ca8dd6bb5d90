//! Identifiers shared across the compositor: pipelines, webviews, and the
//! epoch counter that versions each pipeline's display lists.

use vstd::prelude::*;

verus! {

/// Identity of one content rendering unit (a document or frame). The
/// namespace distinguishes the content process that allocated the id; the
/// index is unique within that namespace.
#[derive(Clone, Copy, PartialEq, Eq, Structural, Debug, Hash)]
pub struct PipelineId {
    pub namespace_id: u32,
    pub index: u32,
}

impl PipelineId {
    pub fn new(namespace_id: u32, index: u32) -> (r: PipelineId)
        ensures
            r == (PipelineId { namespace_id, index }),
    {
        PipelineId { namespace_id, index }
    }
}

/// Identity of a top-level viewable surface, which hosts one active pipeline
/// at a time.
#[derive(Clone, Copy, PartialEq, Eq, Structural, Debug, Hash)]
pub struct WebViewId {
    pub namespace_id: u32,
    pub index: u32,
}

impl WebViewId {
    pub fn new(namespace_id: u32, index: u32) -> (r: WebViewId)
        ensures
            r == (WebViewId { namespace_id, index }),
    {
        WebViewId { namespace_id, index }
    }
}

/// A monotonically increasing version number identifying one display list
/// (scene snapshot) of a pipeline. Epochs are never reused within a
/// pipeline's lifetime.
#[derive(Clone, Copy, PartialEq, Eq, Structural, Debug, Hash)]
pub struct Epoch(pub u32);

} // verus!
