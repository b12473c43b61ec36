//! Verified core of a desktop rendering bootstrap: surface-configuration
//! selection, a graphics-device model, a presentation-surface model, and the
//! render-loop state machine that sequences window-system callbacks into
//! device and surface operations.
//!
//! All window-system and graphics-driver calls are performed by an unverified
//! shell around this library; the library decides what those calls must be
//! and in what order, and proves the resize, draw and shutdown disciplines
//! that make them safe.

pub mod color;
pub mod config;
pub mod device;
pub mod render_loop;
pub mod surface;

use vstd::prelude::*;

verus! {

/// Number of intensity steps per colour channel: channels range over
/// `0 ..= COLOR_SCALE`, where `COLOR_SCALE` means full intensity.
pub const COLOR_SCALE: u16 = 1000;

} // verus!
