use vstd::prelude::*;
use crate::pixels::{AlphaMode, ClearColor, PixelFormat, PresentMode};
use crate::pixels::{spec_clear_color, spec_srgb_variant};
use crate::pixels::{clear_color, srgb_variant};

verus! {

/// Usage bit for textures that can serve as a render-pass color attachment,
/// as the GPU abstraction encodes it.
pub const RENDER_ATTACHMENT_USAGE: u32 = 0x10;

/// What a surface reports it supports for a chosen adapter: the pixel
/// formats it can be configured with and the alpha modes it can present
/// with, each in the surface's preference order.
#[derive(Debug)]
pub struct SurfaceCaps {
    pub formats: Vec<PixelFormat>,
    pub alpha_modes: Vec<AlphaMode>,
}

/// The negotiated contract between the logical device and the presentable
/// surface: size, format, alpha handling and presentation cadence.
#[derive(Clone, Copy, PartialEq, Eq, Structural, Debug)]
pub struct SurfaceConfig {
    pub usage: u32,
    pub format: PixelFormat,
    pub width: u32,
    pub height: u32,
    pub present_mode: PresentMode,
    pub desired_maximum_frame_latency: u32,
    pub alpha_mode: AlphaMode,
}

/// Why constructing the surface state was refused.
#[derive(Clone, Copy, PartialEq, Eq, Structural, Debug)]
pub enum SurfaceError {
    /// The surface does not support the required sRGB-encoded BGRA format;
    /// creation fails rather than falling back to another format.
    FormatUnsupported,
    /// The surface reported no alpha mode at all.
    NoAlphaMode,
}

/// The GPU-facing half of the window: the logical device and queue, the
/// presentable surface bound to the content visual, and the configuration
/// the surface currently holds. Native objects are carried as opaque handles;
/// the host that owns the real objects keys them by these values.
#[derive(Clone, Copy, PartialEq, Eq, Structural, Debug)]
pub struct SurfaceState {
    pub device: u64,
    pub queue: u64,
    pub surface: u64,
    pub config: SurfaceConfig,
    pub format: PixelFormat,
}

/// One frame's worth of render instructions: create a view of the acquired
/// texture in the sRGB variant of the configured format, clear it to the
/// fixed color, store the result, submit and present.
#[derive(Clone, Copy, PartialEq, Eq, Structural, Debug)]
pub struct RenderPlan {
    pub view_format: PixelFormat,
    pub clear: ClearColor,
    pub store: bool,
}

/// Picks the required sRGB-encoded BGRA format out of the formats a surface
/// reports, and nothing else: absence is a hard failure, never a fallback.
pub fn select_swapchain_format(formats: &Vec<PixelFormat>) -> (r: Option<PixelFormat>)
    ensures
        r is Some <==> formats@.contains(PixelFormat::Bgra8UnormSrgb),
        r is Some ==> r->0 == PixelFormat::Bgra8UnormSrgb,
{
    let mut i: usize = 0;
    while i < formats.len()
        invariant
            i <= formats@.len(),
            forall|j: int| 0 <= j < i ==> formats@[j] != PixelFormat::Bgra8UnormSrgb,
        decreases formats@.len() - i,
    {
        if formats[i] == PixelFormat::Bgra8UnormSrgb {
            proof {
                assert(formats@[i as int] == PixelFormat::Bgra8UnormSrgb);
            }
            return Some(PixelFormat::Bgra8UnormSrgb);
        }
        i += 1;
    }
    None
}

impl SurfaceState {
    /// The surface state that a successful creation yields: render-attachment
    /// usage, the required sRGB BGRA format, the given size, vsync-locked
    /// presentation with no queued-frame latency, and the first reported
    /// alpha mode.
    pub open spec fn spec_new(
        device: u64,
        queue: u64,
        surface: u64,
        caps: SurfaceCaps,
        width: u32,
        height: u32,
    ) -> SurfaceState {
        SurfaceState {
            device,
            queue,
            surface,
            config: SurfaceConfig {
                usage: RENDER_ATTACHMENT_USAGE,
                format: PixelFormat::Bgra8UnormSrgb,
                width,
                height,
                present_mode: PresentMode::AutoVsync,
                desired_maximum_frame_latency: 0,
                alpha_mode: caps.alpha_modes@[0],
            },
            format: PixelFormat::Bgra8UnormSrgb,
        }
    }

    /// Builds the surface state from what the platform handed back: succeeds
    /// exactly when the surface supports the required sRGB BGRA format and
    /// reports at least one alpha mode, and fails deterministically otherwise.
    pub fn new(
        device: u64,
        queue: u64,
        surface: u64,
        caps: &SurfaceCaps,
        width: u32,
        height: u32,
    ) -> (r: Result<SurfaceState, SurfaceError>)
        ensures
            r is Ok <==> (caps.formats@.contains(PixelFormat::Bgra8UnormSrgb)
                && caps.alpha_modes@.len() > 0),
            r is Ok ==> r->Ok_0 == Self::spec_new(device, queue, surface, *caps, width, height),
            r is Err ==> r->Err_0 == (if !caps.formats@.contains(PixelFormat::Bgra8UnormSrgb) {
                SurfaceError::FormatUnsupported
            } else {
                SurfaceError::NoAlphaMode
            }),
    {
        let format = match select_swapchain_format(&caps.formats) {
            Some(f) => f,
            None => {
                return Err(SurfaceError::FormatUnsupported);
            },
        };
        if caps.alpha_modes.len() == 0 {
            return Err(SurfaceError::NoAlphaMode);
        }
        let alpha_mode = caps.alpha_modes[0];
        Ok(SurfaceState {
            device,
            queue,
            surface,
            config: SurfaceConfig {
                usage: RENDER_ATTACHMENT_USAGE,
                format,
                width,
                height,
                present_mode: PresentMode::AutoVsync,
                desired_maximum_frame_latency: 0,
                alpha_mode,
            },
            format,
        })
    }

    /// The state after a resize: only the configured width and height move.
    pub open spec fn spec_resized(self, width: u32, height: u32) -> SurfaceState {
        SurfaceState {
            config: SurfaceConfig { width, height, ..self.config },
            ..self
        }
    }

    /// Records a new client-area size in the surface configuration; the
    /// surface itself must then be reconfigured before the next frame.
    pub fn resize(&mut self, width: u32, height: u32)
        ensures
            *final(self) == old(self).spec_resized(width, height),
    {
        self.config.width = width;
        self.config.height = height;
    }

    /// The render instructions for one frame of this surface.
    pub open spec fn spec_render_plan(self) -> RenderPlan {
        RenderPlan {
            view_format: spec_srgb_variant(self.format),
            clear: spec_clear_color(),
            store: true,
        }
    }

    pub fn render_plan(&self) -> (p: RenderPlan)
        ensures
            p == self.spec_render_plan(),
    {
        RenderPlan { view_format: srgb_variant(self.format), clear: clear_color(), store: true }
    }

    /// A frame may be rendered only at a nonzero size: a zero-area present
    /// commonly errors, so such frames are skipped rather than clamped.
    pub open spec fn renderable(self) -> bool {
        self.config.width > 0 && self.config.height > 0
    }
}

} // verus!
