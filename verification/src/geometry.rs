//! Geometry values carried through to the window server unchanged.
//!
//! The binding never computes with coordinates, so they are held as plain
//! signed integers (device units); the layer that makes the foreign calls
//! converts to the native floating-point representation.

use vstd::prelude::*;

verus! {

/// A point in display space.
#[derive(Clone, Copy, Debug, PartialEq, Eq, Structural)]
pub struct CGPoint {
    pub x: i64,
    pub y: i64,
}

/// A width and height.
#[derive(Clone, Copy, Debug, PartialEq, Eq, Structural)]
pub struct CGSize {
    pub width: i64,
    pub height: i64,
}

/// A rectangle in display space.
#[derive(Clone, Copy, Debug, PartialEq, Eq, Structural)]
pub struct CGRect {
    pub origin: CGPoint,
    pub size: CGSize,
}

impl CGPoint {
    /// The origin point.
    pub fn zero() -> (r: CGPoint)
        ensures
            r.x == 0 && r.y == 0,
    {
        CGPoint { x: 0, y: 0 }
    }
}

impl CGSize {
    /// The empty size.
    pub fn zero() -> (r: CGSize)
        ensures
            r.width == 0 && r.height == 0,
    {
        CGSize { width: 0, height: 0 }
    }
}

impl CGRect {
    /// The empty rectangle at the origin, reported for displays the window
    /// server does not know.
    pub fn zero() -> (r: CGRect)
        ensures
            r == (CGRect {
                origin: CGPoint { x: 0, y: 0 },
                size: CGSize { width: 0, height: 0 },
            }),
    {
        CGRect { origin: CGPoint::zero(), size: CGSize::zero() }
    }
}

} // verus!
