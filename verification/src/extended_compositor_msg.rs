//! Resource-allocation notifications from the content process.
//!
//! Each message names a GPU resource allocated on behalf of a pipeline, so
//! the compositor can record it in that pipeline's cleanup ledger. The raw
//! payloads (font bytes, image data) travel with the embedder's transport
//! copy of these messages and go straight to the renderer; the compositor's
//! bookkeeping needs only the keys carried here.

use vstd::prelude::*;

verus! {

use crate::ids::PipelineId;
use crate::resource_tracker::{FontInstanceKey, FontKey, ImageKey};

/// A resource-allocation notification: which resource was created for which
/// pipeline.
#[derive(Clone, Copy, PartialEq, Eq, Structural, Debug)]
pub enum ExtendedCompositorMsg {
    /// A font was registered for a pipeline.
    AddFont {
        /// The new font's key.
        font_key: FontKey,
        /// Index of the face within the font data.
        index: u32,
        /// The owning pipeline.
        pipeline_id: PipelineId,
    },
    /// A font instance (a font at a concrete size) was registered for a
    /// pipeline.
    AddFontInstance {
        /// The new instance's key.
        instance_key: FontInstanceKey,
        /// The key of the font it instantiates.
        font_key: FontKey,
        /// Font size in app units (sixtieths of a pixel).
        size_au: i32,
        /// The owning pipeline.
        pipeline_id: PipelineId,
    },
    /// An image was registered for a pipeline.
    AddImage {
        /// The new image's key.
        key: ImageKey,
        /// The owning pipeline.
        pipeline_id: PipelineId,
    },
}

impl ExtendedCompositorMsg {
    /// The pipeline on whose behalf the resource was allocated.
    pub fn pipeline_id(&self) -> (r: PipelineId)
        ensures
            r == self.spec_pipeline_id(),
    {
        match self {
            ExtendedCompositorMsg::AddFont { pipeline_id, .. } => *pipeline_id,
            ExtendedCompositorMsg::AddFontInstance { pipeline_id, .. } => *pipeline_id,
            ExtendedCompositorMsg::AddImage { pipeline_id, .. } => *pipeline_id,
        }
    }

    /// The pipeline named by the message.
    pub open spec fn spec_pipeline_id(self) -> PipelineId {
        match self {
            ExtendedCompositorMsg::AddFont { pipeline_id, .. } => pipeline_id,
            ExtendedCompositorMsg::AddFontInstance { pipeline_id, .. } => pipeline_id,
            ExtendedCompositorMsg::AddImage { pipeline_id, .. } => pipeline_id,
        }
    }
}

} // verus!
