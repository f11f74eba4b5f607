use vstd::prelude::*;

verus! {

/// Pixel formats a presentable surface may offer. Only the 8-bit BGRA/RGBA
/// family matters to this host: the surface is required to support the
/// sRGB-encoded BGRA form, and texture views are created with the sRGB
/// variant of whatever format the surface was configured with.
#[derive(Clone, Copy, PartialEq, Eq, Structural, Debug)]
pub enum PixelFormat {
    Bgra8Unorm,
    Bgra8UnormSrgb,
    Rgba8Unorm,
    Rgba8UnormSrgb,
    Other,
}

/// Alpha blending modes a presentable surface may offer; the first mode the
/// surface reports is the one used.
#[derive(Clone, Copy, PartialEq, Eq, Structural, Debug)]
pub enum AlphaMode {
    Auto,
    Opaque,
    PreMultiplied,
    PostMultiplied,
    Inherit,
}

/// Presentation cadence for a configured surface. This host always presents
/// vsync-locked so frame pacing is delegated to the display refresh cycle.
#[derive(Clone, Copy, PartialEq, Eq, Structural, Debug)]
pub enum PresentMode {
    AutoVsync,
    AutoNoVsync,
    Fifo,
    FifoRelaxed,
    Immediate,
    Mailbox,
}

/// The sRGB-encoded variant of a pixel format; formats that are already
/// sRGB-encoded (or outside the 8-bit family) are unchanged.
pub open spec fn spec_srgb_variant(f: PixelFormat) -> PixelFormat {
    match f {
        PixelFormat::Bgra8Unorm => PixelFormat::Bgra8UnormSrgb,
        PixelFormat::Rgba8Unorm => PixelFormat::Rgba8UnormSrgb,
        _ => f,
    }
}

pub fn srgb_variant(f: PixelFormat) -> (r: PixelFormat)
    ensures
        r == spec_srgb_variant(f),
{
    match f {
        PixelFormat::Bgra8Unorm => PixelFormat::Bgra8UnormSrgb,
        PixelFormat::Rgba8Unorm => PixelFormat::Rgba8UnormSrgb,
        other => other,
    }
}

/// An RGBA color with each channel's intensity in thousandths: 0 is none,
/// 1000 is full intensity.
#[derive(Clone, Copy, PartialEq, Eq, Structural, Debug)]
pub struct ClearColor {
    pub red_milli: u32,
    pub green_milli: u32,
    pub blue_milli: u32,
    pub alpha_milli: u32,
}

/// The fixed color every frame is cleared to: full red at half opacity,
/// a visual smoke test that composition is live.
pub open spec fn spec_clear_color() -> ClearColor {
    ClearColor { red_milli: 1000, green_milli: 0, blue_milli: 0, alpha_milli: 500 }
}

pub fn clear_color() -> (c: ClearColor)
    ensures
        c == spec_clear_color(),
{
    ClearColor { red_milli: 1000, green_milli: 0, blue_milli: 0, alpha_milli: 500 }
}

} // verus!
