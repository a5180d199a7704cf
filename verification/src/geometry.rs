//! Geometry primitives shared across surface kinds.
use vstd::prelude::*;

verus! {

/// Logical 2D position. Negative values are allowed (positioning a
/// subsurface above/left of its parent is valid).
#[derive(Debug, Clone, Copy, PartialEq, Eq, Hash, Default, Structural)]
pub struct Position {
    /// X coordinate, in logical pixels.
    pub x: i32,
    /// Y coordinate, in logical pixels.
    pub y: i32,
}

impl Position {
    /// The origin (0, 0).
    pub fn zero() -> (p: Position)
        ensures
            p == (Position { x: 0, y: 0 }),
    {
        Position { x: 0, y: 0 }
    }

    /// Construct a new `Position`.
    pub fn new(x: i32, y: i32) -> (p: Position)
        ensures
            p.x == x,
            p.y == y,
    {
        Position { x, y }
    }
}

/// Logical 2D size. Zero is allowed on an axis (e.g. a layer-shell
/// surface anchored to both opposing edges with `width = 0` lets the
/// compositor pick the width).
#[derive(Debug, Clone, Copy, PartialEq, Eq, Hash, Default, Structural)]
pub struct Size {
    /// Width, in logical pixels.
    pub width: u32,
    /// Height, in logical pixels.
    pub height: u32,
}

impl Size {
    /// Construct a new `Size`.
    pub fn new(width: u32, height: u32) -> (s: Size)
        ensures
            s.width == width,
            s.height == height,
    {
        Size { width, height }
    }
}

/// Axis-aligned rectangle: a [`Position`] and a [`Size`].
#[derive(Debug, Clone, Copy, PartialEq, Eq, Hash, Default, Structural)]
pub struct Rect {
    /// Top-left corner.
    pub position: Position,
    /// Width and height.
    pub size: Size,
}

impl Rect {
    /// Construct a new `Rect`.
    pub fn new(position: Position, size: Size) -> (r: Rect)
        ensures
            r.position == position,
            r.size == size,
    {
        Rect { position, size }
    }
}

} // verus!
