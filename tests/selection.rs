use std::cell::Cell;

use inochi_bevy::context::{create_with_fallback, ContextApi, NotCurrent};
use inochi_bevy::error::RenderError;
use inochi_bevy::select::{
    config_template, select_config, select_device, DeviceInfo, PixelFormatConfig,
    SurfaceCapability,
};
use inochi_bevy::surface::{offscreen_framebuffer, window_surface, RenderTarget};

fn cfg(samples: u8) -> PixelFormatConfig {
    PixelFormatConfig { alpha_size: 8, num_samples: samples, supports_window: false }
}

fn device(name: &str) -> DeviceInfo {
    DeviceInfo {
        name: Some(name.to_string()),
        vendor: None,
        extensions: vec!["EGL_EXT_device_drm".to_string()],
    }
}

#[test]
fn device_selector_returns_first() {
    let devices = vec![device("a"), device("b"), device("c")];
    assert_eq!(select_device(devices), Ok(device("a")));
}

#[test]
fn device_selector_single() {
    assert_eq!(select_device(vec![7u32]), Ok(7));
}

#[test]
fn device_selector_empty_fails() {
    let devices: Vec<DeviceInfo> = Vec::new();
    assert_eq!(select_device(devices), Err(RenderError::NoDeviceAvailable));
}

#[test]
fn config_selector_prefers_first_of_equal_best() {
    let configs = vec![cfg(2), cfg(4), cfg(4), cfg(1)];
    assert_eq!(select_config(&configs), Ok(1));
}

#[test]
fn config_selector_all_equal_keeps_first() {
    let configs = vec![cfg(0), cfg(0), cfg(0)];
    assert_eq!(select_config(&configs), Ok(0));
}

#[test]
fn config_selector_best_last() {
    let configs = vec![cfg(1), cfg(2), cfg(8)];
    assert_eq!(select_config(&configs), Ok(2));
}

#[test]
fn config_selector_empty_fails() {
    assert_eq!(select_config(&Vec::new()), Err(RenderError::NoConfigAvailable));
}

#[test]
fn template_is_offscreen_with_alpha() {
    let t = config_template();
    assert_eq!(t.alpha_size, 8);
    assert_eq!(t.surface, SurfaceCapability::OffscreenOnly);
}

#[test]
fn context_primary_succeeds_without_fallback_attempt() {
    let fallback_calls = Cell::new(0u32);
    let r = create_with_fallback(
        || Some(1u32),
        || {
            fallback_calls.set(fallback_calls.get() + 1);
            Some(2u32)
        },
    )
    .unwrap();
    assert_eq!(r.handle, 1);
    assert_eq!(r.api, ContextApi::Desktop);
    assert_eq!(fallback_calls.get(), 0);
}

#[test]
fn context_fallback_used_after_primary_fails() {
    let r = create_with_fallback(|| None, || Some(2u32)).unwrap();
    assert_eq!(r.handle, 2);
    assert_eq!(r.api, ContextApi::Embedded);
}

#[test]
fn context_both_fail() {
    let r = create_with_fallback(|| None::<u32>, || None);
    assert!(matches!(r, Err(RenderError::ContextCreationFailed)));
}

#[test]
fn acquire_release_round_trip() {
    let ctx = NotCurrent::new(ContextApi::Embedded);
    let target = RenderTarget::Window { width: 800, height: 600 };
    let cur = ctx.acquire(target);
    assert_eq!(cur.target(), target);
    assert_eq!(cur.api(), ContextApi::Embedded);
    let back = cur.release();
    assert_eq!(back.api(), ContextApi::Embedded);
}

#[test]
fn window_surface_sizes() {
    assert_eq!(
        window_surface(1280, 720),
        Ok(RenderTarget::Window { width: 1280, height: 720 })
    );
    assert_eq!(window_surface(0, 720), Err(RenderError::InvalidSurfaceDimensions));
    assert_eq!(window_surface(1280, 0), Err(RenderError::InvalidSurfaceDimensions));
}

#[test]
fn offscreen_target_keeps_handles() {
    let t = offscreen_framebuffer(3, 5);
    assert_eq!(
        t,
        RenderTarget::Framebuffer { framebuffer: 3, renderbuffer: 5, width: 1280, height: 720 }
    );
    assert_eq!(t.dims(), Some((1280, 720)));
    assert_eq!(RenderTarget::Surfaceless.dims(), None);
}
