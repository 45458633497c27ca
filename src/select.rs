use vstd::prelude::*;

use crate::error::RenderError;

verus! {

/// What the lifecycle needs to know of an enumerated device, for diagnostics.
#[derive(Debug, Clone, PartialEq, Eq)]
pub struct DeviceInfo {
    pub name: Option<String>,
    pub vendor: Option<String>,
    pub extensions: Vec<String>,
}

/// The kind of surface a configuration must be able to back.
#[derive(Debug, Clone, Copy, PartialEq, Eq, Structural)]
pub enum SurfaceCapability {
    /// A window-bound surface.
    Windowed,
    /// Offscreen rendering only: no window surface support is asked for.
    OffscreenOnly,
}

/// The requirements handed to configuration enumeration.
#[derive(Debug, Clone, Copy, PartialEq, Eq, Structural)]
pub struct ConfigTemplate {
    pub alpha_size: u8,
    pub surface: SurfaceCapability,
}

/// A renderable pixel format, as enumeration reports it.
#[derive(Debug, Clone, Copy, PartialEq, Eq, Structural)]
pub struct PixelFormatConfig {
    pub alpha_size: u8,
    pub num_samples: u8,
    pub supports_window: bool,
}

/// The template used for context configuration: eight bits of alpha, and
/// offscreen rendering, which needs no window surface support.
pub fn config_template() -> (r: ConfigTemplate)
    ensures
        r.alpha_size == 8,
        r.surface == SurfaceCapability::OffscreenOnly,
{
    ConfigTemplate { alpha_size: 8, surface: SurfaceCapability::OffscreenOnly }
}

/// `i` is the index of the configuration with the greatest multisample count,
/// the earliest one among equals.
pub open spec fn is_best_config(configs: Seq<PixelFormatConfig>, i: int) -> bool {
    &&& 0 <= i < configs.len()
    &&& forall|j: int| 0 <= j < configs.len() ==> configs[j].num_samples <= configs[i].num_samples
    &&& forall|j: int| 0 <= j < i ==> configs[j].num_samples < configs[i].num_samples
}

/// Picks the first enumerated device; enumeration order decides, nothing else.
pub fn select_device<D>(devices: Vec<D>) -> (r: Result<D, RenderError>)
    ensures
        devices@.len() > 0 ==> r == Ok::<D, RenderError>(devices@[0]),
        devices@.len() == 0 ==> r == Err::<D, RenderError>(RenderError::NoDeviceAvailable),
{
    let mut devices = devices;
    if devices.len() == 0 {
        Err(RenderError::NoDeviceAvailable)
    } else {
        Ok(devices.swap_remove(0))
    }
}

/// Picks the configuration with the greatest multisample count. A later
/// candidate replaces the best so far only when strictly better, so among
/// equals the earliest enumerated one is kept.
pub fn select_config(configs: &Vec<PixelFormatConfig>) -> (r: Result<usize, RenderError>)
    ensures
        configs@.len() == 0 ==> r == Err::<usize, RenderError>(RenderError::NoConfigAvailable),
        configs@.len() > 0 ==> (r matches Ok(i) && is_best_config(configs@, i as int)),
{
    if configs.len() == 0 {
        return Err(RenderError::NoConfigAvailable);
    }
    let mut best: usize = 0;
    let mut k: usize = 1;
    while k < configs.len()
        invariant
            0 <= best < k <= configs@.len(),
            forall|j: int| 0 <= j < k ==> configs@[j].num_samples <= configs@[best as int].num_samples,
            forall|j: int| 0 <= j < best ==> configs@[j].num_samples < configs@[best as int].num_samples,
        decreases configs@.len() - k,
    {
        if configs[k].num_samples > configs[best].num_samples {
            best = k;
        }
        k = k + 1;
    }
    Ok(best)
}

} // verus!
