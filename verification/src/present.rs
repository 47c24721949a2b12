//! The frame presenter: the one renderable view created over an acquired
//! texture, and the color-attachment operations that composite the webview
//! without ever clearing its prior contents.

use vstd::prelude::*;
use crate::formats::SurfaceFormat;
use crate::lifecycle::{Phase, SurfaceLifecycle};

verus! {

/// The dimensionality of a texture view.
#[derive(Clone, Copy, PartialEq, Eq, Structural, Debug)]
pub enum TextureViewDimensionality {
    D1,
    D2,
    D3,
}

/// How a render pass treats an attachment's previous contents.
#[derive(Clone, Copy, PartialEq, Eq, Structural, Debug)]
pub enum LoadBehavior {
    /// Keep what the texture already holds.
    LoadExisting,
    /// Overwrite with a clear value.
    Clear,
}

/// The description of the one view created over the acquired texture:
/// two-dimensional, the configured format, and the default full mip and
/// array ranges (both bases zero).
#[derive(Clone, Copy, PartialEq, Eq, Structural, Debug)]
pub struct TextureViewPlan {
    pub dimensionality: TextureViewDimensionality,
    pub format: SurfaceFormat,
    pub base_mip_level: u32,
    pub base_array_layer: u32,
}

/// What the render pass does with an attachment.
#[derive(Clone, Copy, PartialEq, Eq, Structural, Debug)]
pub struct AttachmentOperations {
    pub load: LoadBehavior,
    pub store: bool,
}

/// The webview's color attachment for one frame: the view over the
/// acquired texture and the operations to bind it with.
#[derive(Clone, Copy, PartialEq, Eq, Structural, Debug)]
pub struct WebviewAttachmentPlan {
    pub view: TextureViewPlan,
    pub ops: AttachmentOperations,
}

/// The one view the presenter creates: 2-D, the configured format, default
/// mip and array ranges.
pub open spec fn spec_view_plan(format: SurfaceFormat) -> TextureViewPlan {
    TextureViewPlan {
        dimensionality: TextureViewDimensionality::D2,
        format,
        base_mip_level: 0,
        base_array_layer: 0,
    }
}

/// The attachment the presenter binds: that view, loaded (never cleared)
/// and stored, so the webview's prior contents are composited.
pub open spec fn spec_attachment_plan(format: SurfaceFormat) -> WebviewAttachmentPlan {
    WebviewAttachmentPlan {
        view: spec_view_plan(format),
        ops: AttachmentOperations { load: LoadBehavior::LoadExisting, store: true },
    }
}

/// Plan the color attachment for the frame whose texture the machine
/// currently holds.
pub fn plan_webview_attachment(m: &SurfaceLifecycle) -> (p: WebviewAttachmentPlan)
    requires
        m@.wf(),
        m@.phase == Phase::FrameAcquired,
    ensures
        p == spec_attachment_plan(m@.config.unwrap().format),
{
    let format = m.current_config().format;
    WebviewAttachmentPlan {
        view: TextureViewPlan {
            dimensionality: TextureViewDimensionality::D2,
            format,
            base_mip_level: 0,
            base_array_layer: 0,
        },
        ops: AttachmentOperations { load: LoadBehavior::LoadExisting, store: true },
    }
}

/// Law: the webview attachment preserves prior contents — it loads the
/// existing texture and stores the pass's result — and its view is
/// two-dimensional with exactly the configured format.
pub proof fn lemma_attachment_preserves_contents(format: SurfaceFormat)
    ensures
        spec_attachment_plan(format).ops.load == LoadBehavior::LoadExisting,
        spec_attachment_plan(format).ops.store == true,
        spec_attachment_plan(format).view.format == format,
        spec_attachment_plan(format).view.dimensionality == TextureViewDimensionality::D2,
{
}

} // verus!
