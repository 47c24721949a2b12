//! The configuration builder: the pure mapping from a chosen format and a
//! window snapshot to the native surface configuration descriptor.

use vstd::prelude::*;
use crate::formats::SurfaceFormat;
use crate::snapshot::{CompositeAlphaMode, PresentMode, WindowSnapshot};

verus! {

/// The native presentation mode written into a surface configuration.
#[derive(Clone, Copy, PartialEq, Eq, Structural, Debug)]
pub enum NativePresentMode {
    Fifo,
    Mailbox,
    Immediate,
    AutoVsync,
    AutoNoVsync,
}

/// The native alpha compositing mode written into a surface configuration.
#[derive(Clone, Copy, PartialEq, Eq, Structural, Debug)]
pub enum NativeAlphaMode {
    Auto,
    Opaque,
    PreMultiplied,
    PostMultiplied,
    Inherit,
}

/// The usage bits a surface texture is configured with.
#[derive(Clone, Copy, PartialEq, Eq, Structural, Debug)]
pub struct TextureUsage {
    pub render_attachment: bool,
    pub copy_src: bool,
    pub copy_dst: bool,
    pub texture_binding: bool,
}

/// The one usage the surface ever gets: usable as a render-pass color
/// attachment, with no other bit set (it is never read back or sampled).
pub open spec fn spec_render_attachment_only() -> TextureUsage {
    TextureUsage {
        render_attachment: true,
        copy_src: false,
        copy_dst: false,
        texture_binding: false,
    }
}

/// The window-to-native present-mode mapping, by enumeration name.
pub open spec fn spec_map_present_mode(m: PresentMode) -> NativePresentMode {
    match m {
        PresentMode::Fifo => NativePresentMode::Fifo,
        PresentMode::Mailbox => NativePresentMode::Mailbox,
        PresentMode::Immediate => NativePresentMode::Immediate,
        PresentMode::AutoVsync => NativePresentMode::AutoVsync,
        PresentMode::AutoNoVsync => NativePresentMode::AutoNoVsync,
    }
}

/// The window-to-native alpha-mode mapping, by enumeration name.
pub open spec fn spec_map_alpha_mode(a: CompositeAlphaMode) -> NativeAlphaMode {
    match a {
        CompositeAlphaMode::Auto => NativeAlphaMode::Auto,
        CompositeAlphaMode::Opaque => NativeAlphaMode::Opaque,
        CompositeAlphaMode::PreMultiplied => NativeAlphaMode::PreMultiplied,
        CompositeAlphaMode::PostMultiplied => NativeAlphaMode::PostMultiplied,
        CompositeAlphaMode::Inherit => NativeAlphaMode::Inherit,
    }
}

pub fn map_present_mode(m: PresentMode) -> (r: NativePresentMode)
    ensures
        r == spec_map_present_mode(m),
{
    match m {
        PresentMode::Fifo => NativePresentMode::Fifo,
        PresentMode::Mailbox => NativePresentMode::Mailbox,
        PresentMode::Immediate => NativePresentMode::Immediate,
        PresentMode::AutoVsync => NativePresentMode::AutoVsync,
        PresentMode::AutoNoVsync => NativePresentMode::AutoNoVsync,
    }
}

pub fn map_alpha_mode(a: CompositeAlphaMode) -> (r: NativeAlphaMode)
    ensures
        r == spec_map_alpha_mode(a),
{
    match a {
        CompositeAlphaMode::Auto => NativeAlphaMode::Auto,
        CompositeAlphaMode::Opaque => NativeAlphaMode::Opaque,
        CompositeAlphaMode::PreMultiplied => NativeAlphaMode::PreMultiplied,
        CompositeAlphaMode::PostMultiplied => NativeAlphaMode::PostMultiplied,
        CompositeAlphaMode::Inherit => NativeAlphaMode::Inherit,
    }
}

/// Law: the present-mode mapping never sends two window modes to the same
/// native mode.
pub proof fn lemma_present_mode_map_injective(a: PresentMode, b: PresentMode)
    requires
        spec_map_present_mode(a) == spec_map_present_mode(b),
    ensures
        a == b,
{
}

/// Law: every native present mode is the image of some window mode.
pub proof fn lemma_present_mode_map_surjective(n: NativePresentMode)
    ensures
        exists|m: PresentMode| spec_map_present_mode(m) == n,
{
    match n {
        NativePresentMode::Fifo => {
            assert(spec_map_present_mode(PresentMode::Fifo) == n);
        },
        NativePresentMode::Mailbox => {
            assert(spec_map_present_mode(PresentMode::Mailbox) == n);
        },
        NativePresentMode::Immediate => {
            assert(spec_map_present_mode(PresentMode::Immediate) == n);
        },
        NativePresentMode::AutoVsync => {
            assert(spec_map_present_mode(PresentMode::AutoVsync) == n);
        },
        NativePresentMode::AutoNoVsync => {
            assert(spec_map_present_mode(PresentMode::AutoNoVsync) == n);
        },
    }
}

/// Law: the alpha-mode mapping never sends two window modes to the same
/// native mode.
pub proof fn lemma_alpha_mode_map_injective(a: CompositeAlphaMode, b: CompositeAlphaMode)
    requires
        spec_map_alpha_mode(a) == spec_map_alpha_mode(b),
    ensures
        a == b,
{
}

/// Law: every native alpha mode is the image of some window mode.
pub proof fn lemma_alpha_mode_map_surjective(n: NativeAlphaMode)
    ensures
        exists|m: CompositeAlphaMode| spec_map_alpha_mode(m) == n,
{
    match n {
        NativeAlphaMode::Auto => {
            assert(spec_map_alpha_mode(CompositeAlphaMode::Auto) == n);
        },
        NativeAlphaMode::Opaque => {
            assert(spec_map_alpha_mode(CompositeAlphaMode::Opaque) == n);
        },
        NativeAlphaMode::PreMultiplied => {
            assert(spec_map_alpha_mode(CompositeAlphaMode::PreMultiplied) == n);
        },
        NativeAlphaMode::PostMultiplied => {
            assert(spec_map_alpha_mode(CompositeAlphaMode::PostMultiplied) == n);
        },
        NativeAlphaMode::Inherit => {
            assert(spec_map_alpha_mode(CompositeAlphaMode::Inherit) == n);
        },
    }
}

/// The mathematical model of a surface configuration.
#[verifier::ext_equal]
pub struct ConfigurationModel {
    pub format: SurfaceFormat,
    pub width: u32,
    pub height: u32,
    pub usage: TextureUsage,
    pub present_mode: NativePresentMode,
    pub alpha_mode: NativeAlphaMode,
    pub view_formats: Seq<SurfaceFormat>,
}

/// The native surface configuration descriptor: chosen format, dimensions,
/// usage, presentation and alpha modes, and the formats a surface texture
/// may additionally be viewed as.
pub struct SurfaceConfiguration {
    pub format: SurfaceFormat,
    pub width: u32,
    pub height: u32,
    pub usage: TextureUsage,
    pub present_mode: NativePresentMode,
    pub alpha_mode: NativeAlphaMode,
    pub view_formats: Vec<SurfaceFormat>,
}

impl View for SurfaceConfiguration {
    type V = ConfigurationModel;

    open spec fn view(&self) -> ConfigurationModel {
        ConfigurationModel {
            format: self.format,
            width: self.width,
            height: self.height,
            usage: self.usage,
            present_mode: self.present_mode,
            alpha_mode: self.alpha_mode,
            view_formats: self.view_formats@,
        }
    }
}

/// What the builder produces from a chosen format and a valid snapshot:
/// dimensions copied verbatim, modes mapped by name, render-attachment
/// usage only, and a view-formats list that is empty when the format is
/// already gamma-corrected and otherwise holds exactly its gamma-corrected
/// counterpart.
pub open spec fn spec_build_config(format: SurfaceFormat, snap: WindowSnapshot)
    -> ConfigurationModel {
    ConfigurationModel {
        format,
        width: snap.physical_width,
        height: snap.physical_height,
        usage: spec_render_attachment_only(),
        present_mode: spec_map_present_mode(snap.present_mode),
        alpha_mode: spec_map_alpha_mode(snap.alpha_mode),
        view_formats: if format.spec_is_srgb() {
            Seq::empty()
        } else {
            seq![format.spec_srgb_counterpart()]
        },
    }
}

/// Build the native configuration descriptor for a chosen format and a
/// nonzero-sized snapshot.
pub fn build_surface_configuration(format: SurfaceFormat, snapshot: &WindowSnapshot) -> (c:
    SurfaceConfiguration)
    requires
        snapshot.spec_valid(),
    ensures
        c@ == spec_build_config(format, *snapshot),
{
    let mut view_formats: Vec<SurfaceFormat> = Vec::new();
    if !format.is_srgb() {
        view_formats.push(format.srgb_counterpart());
    }
    let c = SurfaceConfiguration {
        format,
        width: snapshot.physical_width,
        height: snapshot.physical_height,
        usage: TextureUsage {
            render_attachment: true,
            copy_src: false,
            copy_dst: false,
            texture_binding: false,
        },
        present_mode: map_present_mode(snapshot.present_mode),
        alpha_mode: map_alpha_mode(snapshot.alpha_mode),
        view_formats,
    };
    proof {
        assert(c@.view_formats =~= spec_build_config(format, *snapshot).view_formats);
        assert(c@ =~= spec_build_config(format, *snapshot));
    }
    c
}

/// Law: two configurations built from the same inputs are the same value
/// (the builder is deterministic), and the built configuration copies the
/// snapshot's dimensions verbatim and keeps the chosen format.
pub proof fn lemma_build_config_deterministic(
    format: SurfaceFormat,
    snap: WindowSnapshot,
    c1: ConfigurationModel,
    c2: ConfigurationModel,
)
    requires
        c1 == spec_build_config(format, snap),
        c2 == spec_build_config(format, snap),
    ensures
        c1 == c2,
        c1.width == snap.physical_width,
        c1.height == snap.physical_height,
        c1.format == format,
{
}

/// Law: the view-formats list of a built configuration is empty exactly
/// when the chosen format is already gamma-corrected; otherwise it holds
/// exactly one entry, the gamma-corrected counterpart.
pub proof fn lemma_build_config_view_formats(format: SurfaceFormat, snap: WindowSnapshot)
    ensures
        (spec_build_config(format, snap).view_formats.len() == 0) <==> format.spec_is_srgb(),
        !format.spec_is_srgb() ==> spec_build_config(format, snap).view_formats =~= seq![
            format.spec_srgb_counterpart(),
        ],
{
}

} // verus!
