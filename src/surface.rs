use vstd::prelude::*;

use crate::error::RenderError;

verus! {

/// Width of the offscreen colour renderbuffer.
pub const OFFSCREEN_WIDTH: u32 = 1280;

/// Height of the offscreen colour renderbuffer.
pub const OFFSCREEN_HEIGHT: u32 = 720;

/// What a context is made current against.
#[derive(Debug, Clone, Copy, PartialEq, Eq, Structural)]
pub enum RenderTarget {
    /// No surface: used while a pure offscreen setup builds its framebuffer.
    Surfaceless,
    /// A window-bound surface of exactly these dimensions.
    Window { width: u32, height: u32 },
    /// A framebuffer object with a renderbuffer attached as its colour target.
    Framebuffer { framebuffer: u32, renderbuffer: u32, width: u32, height: u32 },
}

/// A window surface request: both dimensions must be non-zero.
pub fn window_surface(width: u32, height: u32) -> (r: Result<RenderTarget, RenderError>)
    ensures
        width > 0 && height > 0 ==> r == Ok::<RenderTarget, RenderError>(
            RenderTarget::Window { width, height },
        ),
        width == 0 || height == 0 ==> r == Err::<RenderTarget, RenderError>(
            RenderError::InvalidSurfaceDimensions,
        ),
{
    if width == 0 || height == 0 {
        Err(RenderError::InvalidSurfaceDimensions)
    } else {
        Ok(RenderTarget::Window { width, height })
    }
}

/// The offscreen target built from a generated framebuffer and renderbuffer
/// pair, sized to the fixed offscreen dimensions; the handles are kept for
/// later reuse and cleanup.
pub fn offscreen_framebuffer(framebuffer: u32, renderbuffer: u32) -> (r: RenderTarget)
    ensures
        r == (RenderTarget::Framebuffer {
            framebuffer,
            renderbuffer,
            width: OFFSCREEN_WIDTH,
            height: OFFSCREEN_HEIGHT,
        }),
{
    RenderTarget::Framebuffer {
        framebuffer,
        renderbuffer,
        width: OFFSCREEN_WIDTH,
        height: OFFSCREEN_HEIGHT,
    }
}

impl RenderTarget {
    /// The dimensions of the target, if it has any.
    pub open spec fn dims_spec(self) -> Option<(u32, u32)> {
        match self {
            RenderTarget::Surfaceless => None,
            RenderTarget::Window { width, height } => Some((width, height)),
            RenderTarget::Framebuffer { width, height, .. } => Some((width, height)),
        }
    }

    pub fn dims(&self) -> (r: Option<(u32, u32)>)
        ensures
            r == self.dims_spec(),
    {
        match self {
            RenderTarget::Surfaceless => None,
            RenderTarget::Window { width, height } => Some((*width, *height)),
            RenderTarget::Framebuffer { width, height, .. } => Some((*width, *height)),
        }
    }
}

} // verus!
