use vstd::prelude::*;

verus! {

/// Every failure the render lifecycle can report.
#[derive(Debug, Clone, Copy, PartialEq, Eq, Structural)]
pub enum RenderError {
    /// Enumeration found no graphics device.
    NoDeviceAvailable,
    /// No pixel-format configuration matched the template.
    NoConfigAvailable,
    /// Neither the primary nor the fallback API produced a context.
    ContextCreationFailed,
    /// Binding the context to its target failed.
    MakeCurrentFailed,
    /// Unbinding the context failed; no safe owning state remains.
    MakeNotCurrentFailed,
    /// A window surface was requested with a zero dimension.
    InvalidSurfaceDimensions,
    /// The platform refused to build a window surface of valid dimensions.
    SurfaceCreationFailed,
    /// The puppet source could not be loaded.
    PuppetLoadFailed,
}

} // verus!
