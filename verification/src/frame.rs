//! The draw commands that make up one frame.
//!
//! A frame is a list of [`Command`]s, carried out in order by a renderer
//! that owns the surfaces: the captured screen, two transient surfaces of
//! the size of the output for the blur, the two layers of the overlay, the
//! composite surface they are combined on, and the output itself.

use vstd::prelude::*;
use crate::scene::Transform;

verus! {

/// One of the two transient surfaces that the blur alternates between.
#[derive(Copy, Clone, Debug, PartialEq, Eq, Structural)]
pub enum Buffer {
    First,
    Second,
}

/// The direction of one convolution.
#[derive(Copy, Clone, Debug, PartialEq, Eq, Structural)]
pub enum Axis {
    Horizontal,
    Vertical,
}

/// A layer of the overlay.
#[derive(Copy, Clone, Debug, PartialEq, Eq, Structural)]
pub enum Layer {
    /// The part that stays upright.
    Fixed,
    /// The part that turns.
    Dynamic,
}

/// One draw call.
#[derive(Copy, Clone, Debug, PartialEq, Eq, Structural)]
pub enum Command {
    /// Copy the captured screen into the second transient surface.
    Capture,
    /// Convolve `source` along `axis` into `target`, sampling clamped to the
    /// edge. `resolution` is the extent of the surface along the axis.
    Blur { source: Buffer, target: Buffer, axis: Axis, radius: u32, resolution: u32 },
    /// Draw the second transient surface over the whole output.
    Background { mvp: Transform },
    /// Clear the composite surface to transparent black.
    Clear,
    /// Blend a layer of the overlay onto the composite surface, sampled
    /// linearly.
    Layer { layer: Layer, mvp: Transform },
    /// Blend the composite surface onto the output, sampled linearly, under
    /// the product `projection * placement * scale`.
    Overlay { projection: Transform, placement: Transform, scale: Transform, alpha: u32, hue: i64 },
}

/// The horizontal half of a blur pass: from the second surface into the
/// first, across the width.
pub open spec fn horizontal(radius: u32, width: u32) -> Command {
    Command::Blur {
        source: Buffer::Second,
        target: Buffer::First,
        axis: Axis::Horizontal,
        radius,
        resolution: width,
    }
}

/// The vertical half of a blur pass: from the first surface back into the
/// second, across the height.
pub open spec fn vertical(radius: u32, height: u32) -> Command {
    Command::Blur {
        source: Buffer::First,
        target: Buffer::Second,
        axis: Axis::Vertical,
        radius,
        resolution: height,
    }
}

/// `count` blur passes, each a horizontal convolution followed by a
/// vertical one.
pub open spec fn passes(count: nat, radius: u32, width: u32, height: u32) -> Seq<Command> {
    Seq::new(
        2 * count,
        |i: int|
            if i % 2 == 0 {
                horizontal(radius, width)
            } else {
                vertical(radius, height)
            },
    )
}

} // verus!
