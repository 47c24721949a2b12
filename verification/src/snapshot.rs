//! The per-frame window snapshot: the immutable picture of the live window
//! that the lifecycle manager reconciles the surface against.

use vstd::prelude::*;

verus! {

/// The alpha compositing mode a window requests.
#[derive(Clone, Copy, PartialEq, Eq, Structural, Debug)]
pub enum CompositeAlphaMode {
    Auto,
    Opaque,
    PreMultiplied,
    PostMultiplied,
    Inherit,
}

/// The presentation mode a window requests.
#[derive(Clone, Copy, PartialEq, Eq, Structural, Debug)]
pub enum PresentMode {
    Fifo,
    Mailbox,
    Immediate,
    AutoVsync,
    AutoNoVsync,
}

/// One immutable per-frame picture of the live window, published by the
/// main context and only ever compared, never mutated, by the renderer.
#[derive(Clone, Copy, PartialEq, Eq, Structural, Debug)]
pub struct WindowSnapshot {
    pub physical_width: u32,
    pub physical_height: u32,
    pub alpha_mode: CompositeAlphaMode,
    pub present_mode: PresentMode,
}

impl WindowSnapshot {
    /// A snapshot may drive configuration only while both dimensions are
    /// nonzero; a zero dimension (a minimized window, say) must suppress
    /// configuration for that frame.
    pub open spec fn spec_valid(self) -> bool {
        self.physical_width > 0 && self.physical_height > 0
    }

    pub fn valid(&self) -> (r: bool)
        ensures
            r == self.spec_valid(),
    {
        self.physical_width > 0 && self.physical_height > 0
    }
}

} // verus!
