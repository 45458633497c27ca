//! Lifecycle of the graphics context and render surface behind an animated
//! puppet renderer: device and configuration selection, context creation with
//! an API fallback, the current/not-current ownership states, surface requests,
//! and the per-frame and resize sequences as a state machine that a host drives.
pub mod error;
pub mod select;
pub mod surface;
pub mod context;
pub mod coordinator;
pub mod sequence;
