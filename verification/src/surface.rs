//! The swap surface and what is sized with it: the depth buffer and the
//! projection.

use crate::gpu::TextureFormat;
use crate::pipeline_manager::DEPTH_FORMAT;
use vstd::prelude::*;

verus! {

/// Frames the presentation engine may queue before the CPU waits.
pub const FRAME_LATENCY: u32 = 2;

/// How the swap surface is configured.
#[derive(Clone, Copy, Debug, PartialEq, Eq, Structural)]
pub struct SurfaceConfiguration {
    pub format: TextureFormat,
    pub width: u32,
    pub height: u32,
    pub desired_maximum_frame_latency: u32,
}

/// The depth buffer of the render pass.
#[derive(Clone, Copy, Debug, PartialEq, Eq, Structural)]
pub struct DepthTexture {
    pub format: TextureFormat,
    pub width: u32,
    pub height: u32,
}

/// The size from which the projection takes its aspect ratio.
#[derive(Clone, Copy, Debug, PartialEq, Eq, Structural)]
pub struct Viewport {
    pub width: u32,
    pub height: u32,
}

/// Everything that depends on the size of the surface.
#[derive(Clone, Copy, Debug, PartialEq, Eq, Structural)]
pub struct Surface {
    pub config: SurfaceConfiguration,
    pub depth_texture: DepthTexture,
    pub projection: Viewport,
    /// A resize has configured the surface; before that no frame is drawn.
    pub is_configured: bool,
}

impl Surface {
    /// The depth buffer and the projection have the size of the surface.
    pub open spec fn consistent(self) -> bool {
        &&& self.depth_texture.width == self.config.width
        &&& self.depth_texture.height == self.config.height
        &&& self.projection.width == self.config.width
        &&& self.projection.height == self.config.height
    }

    /// The surface of a window of `width` by `height` before its first
    /// resize: sized, but not yet configured.
    pub open spec fn initial(format: TextureFormat, width: u32, height: u32) -> Surface {
        Surface {
            config: SurfaceConfiguration {
                format,
                width,
                height,
                desired_maximum_frame_latency: FRAME_LATENCY,
            },
            depth_texture: DepthTexture { format: DEPTH_FORMAT, width, height },
            projection: Viewport { width, height },
            is_configured: false,
        }
    }

    /// The surface after a notice that the window is now `width` by `height`:
    /// a size with an area becomes the size of surface, depth buffer and
    /// projection and configures the surface; a size without area changes
    /// nothing.
    pub open spec fn resized(self, width: u32, height: u32) -> Surface {
        if width > 0 && height > 0 {
            Surface {
                config: SurfaceConfiguration { width, height, ..self.config },
                depth_texture: DepthTexture { width, height, ..self.depth_texture },
                projection: Viewport { width, height },
                is_configured: true,
            }
        } else {
            self
        }
    }

    /// The surface of a window of `width` by `height` before its first
    /// resize.
    pub fn new(format: TextureFormat, width: u32, height: u32) -> (surface: Surface)
        ensures
            surface == Surface::initial(format, width, height),
            surface.consistent(),
    {
        Surface {
            config: SurfaceConfiguration {
                format,
                width,
                height,
                desired_maximum_frame_latency: FRAME_LATENCY,
            },
            depth_texture: DepthTexture { format: DEPTH_FORMAT, width, height },
            projection: Viewport { width, height },
            is_configured: false,
        }
    }

    /// The surface after a notice that the window is now `width` by `height`.
    pub fn resize(self, width: u32, height: u32) -> (surface: Surface)
        ensures
            surface == self.resized(width, height),
            width == 0 || height == 0 ==> surface == self,
            self.consistent() ==> surface.consistent(),
    {
        if width > 0 && height > 0 {
            Surface {
                config: SurfaceConfiguration {
                    format: self.config.format,
                    width,
                    height,
                    desired_maximum_frame_latency: self.config.desired_maximum_frame_latency,
                },
                depth_texture: DepthTexture { format: self.depth_texture.format, width, height },
                projection: Viewport { width, height },
                is_configured: true,
            }
        } else {
            self
        }
    }
}

/// `chosen` is the format a surface that offers `formats` is configured with:
/// the first sRGB format, or the first format where none is sRGB.
pub open spec fn is_preferred_format(formats: Seq<TextureFormat>, chosen: TextureFormat) -> bool {
    ||| exists|i: int|
        {
            &&& 0 <= i < formats.len()
            &&& (#[trigger] formats[i]).spec_is_srgb()
            &&& forall|j: int| 0 <= j < i ==> !(#[trigger] formats[j]).spec_is_srgb()
            &&& chosen == formats[i]
        }
    ||| {
        &&& formats.len() > 0
        &&& forall|j: int| 0 <= j < formats.len() ==> !(#[trigger] formats[j]).spec_is_srgb()
        &&& chosen == formats[0]
    }
}

/// Picks the format to configure a surface with from those it offers.
pub fn preferred_format(formats: &[TextureFormat]) -> (chosen: TextureFormat)
    requires
        formats.len() > 0,
    ensures
        is_preferred_format(formats@, chosen),
{
    let mut i: usize = 0;
    while i < formats.len()
        invariant
            i <= formats.len(),
            forall|j: int| 0 <= j < i ==> !(#[trigger] formats[j]).spec_is_srgb(),
        decreases formats.len() - i,
    {
        if formats[i].is_srgb() {
            return formats[i];
        }
        i += 1;
    }
    formats[0]
}

} // verus!
