//! The transforms of a frame, derived from the size of the output surface.
//!
//! A [`Transform`] names a matrix by its kind and exact parameters; turning
//! it into numbers for a shader is left to the renderer.

use vstd::prelude::*;
use crate::units::{FAR_PLANE, NEAR_PLANE, OVERLAY_DEPTH, REFERENCE_HEIGHT, UNIT};

verus! {

/// A matrix, given by its kind and parameters in fixed-point units.
#[derive(Copy, Clone, Debug, PartialEq, Eq, Structural)]
pub enum Transform {
    /// Leaves every point where it is.
    Identity,
    /// Orthographic projection of the given box onto clip space.
    Orthographic { left: i64, right: i64, bottom: i64, top: i64, near: i64, far: i64 },
    /// Moves every point by the given offsets.
    Translation { x: i64, y: i64, z: i64 },
    /// Turns around the Z axis by the given angle, in degrees held to nine
    /// decimal places.
    RotationZ { degrees: i64 },
    /// Scales all three axes by the given factor.
    Scaling { factor: u64 },
}

/// Half of `pixels`, in fixed-point units. Exact also for odd sizes.
pub open spec fn half(pixels: int) -> int {
    pixels * (UNIT / 2)
}

/// Horizontal offset of pixel column `x` from the centre of a surface
/// `width` pixels wide; positive to the right.
pub open spec fn offset_x(x: int, width: int) -> int {
    x * UNIT - half(width)
}

/// Vertical offset of pixel row `y` from the centre of a surface `height`
/// pixels high; rows count downwards, offsets upwards.
pub open spec fn offset_y(y: int, height: int) -> int {
    half(height) - y * UNIT
}

/// The smaller of two numbers.
pub open spec fn smaller(a: int, b: int) -> int {
    if a <= b {
        a
    } else {
        b
    }
}

/// `size` brought from the reference height to a surface of the given
/// dimensions, rounded down to the fixed-point resolution.
pub open spec fn normalized(size: int, width: int, height: int) -> int {
    size * smaller(width, height) / (REFERENCE_HEIGHT as int)
}

/// The dimensions of the output surface, in pixels.
#[derive(Copy, Clone, Debug, PartialEq, Eq, Structural)]
pub struct Scene {
    pub width: u32,
    pub height: u32,
}

impl Scene {
    /// The projection of this scene: pixel coordinates measured from the
    /// centre, between the fixed near and far planes.
    pub open spec fn spec_to_matrix(&self) -> Transform {
        Transform::Orthographic {
            left: (-half(self.width as int)) as i64,
            right: half(self.width as int) as i64,
            bottom: (-half(self.height as int)) as i64,
            top: half(self.height as int) as i64,
            near: NEAR_PLANE,
            far: FAR_PLANE,
        }
    }

    /// The placement of an entity at pixel `(x, y)`, at overlay depth.
    pub open spec fn spec_position(&self, x: u32, y: u32) -> Transform {
        Transform::Translation {
            x: offset_x(x as int, self.width as int) as i64,
            y: offset_y(y as int, self.height as int) as i64,
            z: OVERLAY_DEPTH,
        }
    }

    /// The scale of an entity of half-size `size`, relative to the
    /// reference height.
    pub open spec fn spec_scale(&self, size: u32) -> Transform {
        Transform::Scaling {
            factor: normalized(size as int, self.width as int, self.height as int) as u64,
        }
    }

    pub fn new(width: u32, height: u32) -> (scene: Scene)
        ensures
            scene.width == width,
            scene.height == height,
    {
        Scene { width, height }
    }

    /// The orthographic projection that maps `[-w/2, w/2] x [-h/2, h/2]`,
    /// between the planes `0.1` and `1000.0`, to clip space.
    pub fn to_matrix(&self) -> (matrix: Transform)
        ensures
            matrix == self.spec_to_matrix(),
            matrix matches Transform::Orthographic { left, right, bottom, top, near, far } && {
                &&& right == half(self.width as int)
                &&& left == -right
                &&& top == half(self.height as int)
                &&& bottom == -top
                &&& near == NEAR_PLANE
                &&& far == FAR_PLANE
            },
    {
        let w: i64 = self.width as i64 * (UNIT as i64 / 2);
        let h: i64 = self.height as i64 * (UNIT as i64 / 2);
        Transform::Orthographic {
            left: -w,
            right: w,
            bottom: -h,
            top: h,
            near: NEAR_PLANE,
            far: FAR_PLANE,
        }
    }

    /// The transform that changes nothing, for full-surface quads.
    pub fn none(&self) -> (matrix: Transform)
        ensures
            matrix == Transform::Identity,
    {
        Transform::Identity
    }

    /// The translation that puts an entity's origin at pixel `(x, y)`:
    /// measured from the centre of the surface, with `y` growing upwards,
    /// and in front of the background.
    pub fn position(&self, x: u32, y: u32) -> (matrix: Transform)
        ensures
            matrix == self.spec_position(x, y),
            matrix matches Transform::Translation { x: dx, y: dy, z } && {
                &&& dx == offset_x(x as int, self.width as int)
                &&& dy == offset_y(y as int, self.height as int)
                &&& z == OVERLAY_DEPTH
            },
    {
        let half_width: i64 = self.width as i64 * (UNIT as i64 / 2);
        let half_height: i64 = self.height as i64 * (UNIT as i64 / 2);
        Transform::Translation {
            x: x as i64 * UNIT as i64 - half_width,
            y: half_height - y as i64 * UNIT as i64,
            z: OVERLAY_DEPTH,
        }
    }

    /// The rotation around the Z axis by `deg`, an angle in degrees held to
    /// nine decimal places.
    pub fn rotate(&self, deg: i64) -> (matrix: Transform)
        ensures
            matrix == (Transform::RotationZ { degrees: deg }),
    {
        Transform::RotationZ { degrees: deg }
    }

    /// The uniform scale by `size`, normalised by the smaller dimension of
    /// the surface over 1080 so that the overlay keeps its apparent size
    /// across resolutions.
    pub fn scale(&self, size: u32) -> (matrix: Transform)
        ensures
            matrix == self.spec_scale(size),
            matrix matches Transform::Scaling { factor }
                && factor == normalized(size as int, self.width as int, self.height as int),
    {
        let side: u32 = if self.width <= self.height {
            self.width
        } else {
            self.height
        };
        assert(size as u64 * side as u64 <= 0xffff_ffff * 0xffff_ffff) by (nonlinear_arith)
            requires
                size <= 0xffff_ffff,
                side <= 0xffff_ffff,
        ;
        Transform::Scaling { factor: size as u64 * side as u64 / REFERENCE_HEIGHT as u64 }
    }
}

} // verus!
