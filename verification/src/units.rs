//! Fixed-point units.
//!
//! Blur radius, opacity and scale are non-negative fixed-point numbers with
//! six decimal places, held in a `u32`: the value `1.2` is stored as
//! `1_200_000`. Signed quantities derived from them (offsets from the centre
//! of the surface, hue shifts) use the same resolution in a signed integer.
//!
//! The rotation is finer and signed: its step per tick and its angle are
//! held in an `i64` with nine decimal places, so that `0.000005` degrees is
//! `5_000` and a negative step turns the other way.

use vstd::prelude::*;

verus! {

/// The fixed-point representation of `1.0`.
pub const UNIT: u32 = 1_000_000;

/// One degree of rotation, in the units of the rotation.
pub const DEGREE: i64 = 1_000_000_000;

/// A full turn, 360 degrees, in the units of the rotation.
pub const FULL_TURN: i64 = 360_000_000_000;

/// The height, in pixels, at which an overlay scale is taken literally.
pub const REFERENCE_HEIGHT: u32 = 1080;

/// Depth at which the overlay is placed, in front of the background quad.
pub const OVERLAY_DEPTH: i64 = -500_000_000;

/// Near plane of the orthographic projection (`0.1`).
pub const NEAR_PLANE: i64 = 100_000;

/// Far plane of the orthographic projection (`1000.0`).
pub const FAR_PLANE: i64 = 1_000_000_000;

/// Opacity step per tick when no blur ramp drives it (`0.001`).
pub const DEFAULT_ALPHA_STEP: u32 = 1_000;

/// Ticks added to, or taken from, the rotation on each key stroke.
pub const KEY_TICKS: u32 = 23;

/// Hue shift shown after a successful authentication (`-80.0`).
pub const HUE_SUCCESS: i64 = -80_000_000;

/// Hue shift shown after a failed authentication (`150.0`).
pub const HUE_FAILURE: i64 = 150_000_000;

} // verus!
