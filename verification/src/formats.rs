//! The pixel-format model: the variants the negotiation and configuration
//! logic distinguishes, and the gamma-correction facts it reads off them.

use vstd::prelude::*;

verus! {

/// A presentable pixel format, modelled as far as the surface logic reads
/// it: the four 8-bit RGBA/BGRA variants it tells apart, and one stand-in
/// for any other linear format a platform may offer.
#[derive(Clone, Copy, PartialEq, Eq, Structural, Debug)]
pub enum SurfaceFormat {
    Rgba8Unorm,
    Rgba8UnormSrgb,
    Bgra8Unorm,
    Bgra8UnormSrgb,
    OtherLinear,
}

impl SurfaceFormat {
    /// Whether the format is already gamma-corrected.
    pub open spec fn spec_is_srgb(self) -> bool {
        self == SurfaceFormat::Rgba8UnormSrgb || self == SurfaceFormat::Bgra8UnormSrgb
    }

    /// The gamma-corrected counterpart: the sRGB variant where one exists,
    /// the format itself where none does.
    pub open spec fn spec_srgb_counterpart(self) -> SurfaceFormat {
        match self {
            SurfaceFormat::Rgba8Unorm => SurfaceFormat::Rgba8UnormSrgb,
            SurfaceFormat::Bgra8Unorm => SurfaceFormat::Bgra8UnormSrgb,
            _ => self,
        }
    }

    pub fn is_srgb(&self) -> (r: bool)
        ensures
            r == self.spec_is_srgb(),
    {
        matches!(self, SurfaceFormat::Rgba8UnormSrgb | SurfaceFormat::Bgra8UnormSrgb)
    }

    pub fn srgb_counterpart(&self) -> (r: SurfaceFormat)
        ensures
            r == self.spec_srgb_counterpart(),
    {
        match self {
            SurfaceFormat::Rgba8Unorm => SurfaceFormat::Rgba8UnormSrgb,
            SurfaceFormat::Bgra8Unorm => SurfaceFormat::Bgra8UnormSrgb,
            f => *f,
        }
    }
}

} // verus!
