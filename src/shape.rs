//! The shapes the overlay can draw and the pixel footprint of each.

use vstd::prelude::*;

verus! {

/// A cross: arms of `size` pixels end to end, `thickness` wide, with an
/// optional gap in the middle.
#[derive(Debug, Clone, Copy, PartialEq, Eq, Structural)]
pub struct Crosshair {
    pub size: u32,
    pub thickness: u32,
    pub gap: Option<u32>,
}

/// A filled disc of the given radius.
#[derive(Debug, Clone, Copy, PartialEq, Eq, Structural)]
pub struct Dot {
    pub radius: u32,
}

/// Two vertical bars of `thickness`, `height` tall, `gap` apart.
#[derive(Debug, Clone, Copy, PartialEq, Eq, Structural)]
pub struct Twix {
    pub height: u32,
    pub thickness: u32,
    pub gap: u32,
}

/// The shape drawn by the overlay.
#[derive(Debug, Clone, Copy, PartialEq, Eq, Structural)]
pub enum Shape {
    Crosshair(Crosshair),
    Dot(Dot),
    Twix(Twix),
}

/// A width and a height in pixels.
#[derive(Debug, Clone, Copy, PartialEq, Eq, Structural)]
pub struct ShapeSize {
    pub width: u32,
    pub height: u32,
}

/// Width of a shape's footprint, as a mathematical integer.
pub open spec fn footprint_width(s: Shape) -> int {
    match s {
        Shape::Crosshair(c) => c.size as int,
        Shape::Dot(d) => 2 * d.radius,
        Shape::Twix(t) => 2 * t.thickness + t.gap,
    }
}

/// Height of a shape's footprint, as a mathematical integer.
pub open spec fn footprint_height(s: Shape) -> int {
    match s {
        Shape::Crosshair(c) => c.size as int,
        Shape::Dot(d) => 2 * d.radius,
        Shape::Twix(t) => t.height as int,
    }
}

/// The footprint of a shape can be written with `u32` dimensions.
pub open spec fn footprint_fits(s: Shape) -> bool {
    footprint_width(s) <= u32::MAX && footprint_height(s) <= u32::MAX
}

/// The footprint of a shape, when it fits.
pub open spec fn footprint(s: Shape) -> ShapeSize
    recommends
        footprint_fits(s),
{
    ShapeSize { width: footprint_width(s) as u32, height: footprint_height(s) as u32 }
}

/// The built-in shape: a 22 pixel crosshair, 4 thick, with a 12 pixel gap.
pub open spec fn default_shape() -> Shape {
    Shape::Crosshair(Crosshair { size: 22, thickness: 4, gap: Some(12) })
}

impl Default for Shape {
    fn default() -> (r: Shape)
        ensures
            r == default_shape(),
    {
        Shape::Crosshair(Crosshair { size: 22, thickness: 4, gap: Some(12) })
    }
}

impl Shape {
    /// Whether the footprint of this shape can be computed in `u32`.
    pub fn fits(&self) -> (r: bool)
        ensures
            r == footprint_fits(*self),
    {
        match *self {
            Shape::Crosshair(_) => true,
            Shape::Dot(Dot { radius }) => radius <= u32::MAX / 2,
            Shape::Twix(Twix { thickness, gap, .. }) => thickness <= (u32::MAX - gap) / 2,
        }
    }

    /// The pixel footprint of the shape.
    pub fn size(&self) -> (r: ShapeSize)
        requires
            footprint_fits(*self),
        ensures
            r == footprint(*self),
            r.width == footprint_width(*self),
            r.height == footprint_height(*self),
    {
        match *self {
            Shape::Crosshair(Crosshair { size, .. }) => ShapeSize::square(size),
            Shape::Dot(Dot { radius }) => ShapeSize::square(radius * 2),
            Shape::Twix(Twix { height, thickness, gap }) => ShapeSize::new(thickness * 2 + gap, height),
        }
    }
}

impl ShapeSize {
    pub fn new(width: u32, height: u32) -> (r: ShapeSize)
        ensures
            r.width == width,
            r.height == height,
    {
        ShapeSize { width, height }
    }

    /// A square footprint with sides of `size` pixels.
    pub fn square(size: u32) -> (r: ShapeSize)
        ensures
            r.width == size,
            r.height == size,
    {
        ShapeSize { width: size, height: size }
    }
}

} // verus!
