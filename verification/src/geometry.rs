//! Sizes and positions, in physical pixels and in logical points.

use vstd::prelude::*;
use crate::number::Float64;

verus! {

/// A size in physical pixels.
#[derive(Debug, Clone, Copy, PartialEq, Eq, Structural)]
pub struct PhysicalSize {
    pub width: u32,
    pub height: u32,
}

impl PhysicalSize {
    /// Zero by zero: what some platforms report for a minimized window.
    pub open spec fn spec_is_zero(self) -> bool {
        self.width == 0 && self.height == 0
    }

    pub fn new(width: u32, height: u32) -> (r: Self)
        ensures
            r == (PhysicalSize { width, height }),
    {
        PhysicalSize { width, height }
    }

    pub fn is_zero(&self) -> (r: bool)
        ensures
            r == self.spec_is_zero(),
    {
        self.width == 0 && self.height == 0
    }
}

/// A position in physical pixels.
#[derive(Debug, Clone, Copy, PartialEq, Eq, Structural)]
pub struct PhysicalPosition {
    pub x: i32,
    pub y: i32,
}

impl PhysicalPosition {
    /// The top-left corner of the desktop.
    pub open spec fn spec_origin() -> PhysicalPosition {
        PhysicalPosition { x: 0, y: 0 }
    }

    pub fn new(x: i32, y: i32) -> (r: Self)
        ensures
            r == (PhysicalPosition { x, y }),
    {
        PhysicalPosition { x, y }
    }
}

impl Default for PhysicalPosition {
    fn default() -> (r: Self)
        ensures
            r == PhysicalPosition::spec_origin(),
    {
        PhysicalPosition { x: 0, y: 0 }
    }
}

/// A size in logical points, independent of the scale factor.
#[derive(Debug, Clone, Copy, PartialEq, Eq, Structural)]
pub struct LogicalSize {
    pub width: Float64,
    pub height: Float64,
}

impl LogicalSize {
    pub fn new(width: Float64, height: Float64) -> (r: Self)
        ensures
            r == (LogicalSize { width, height }),
    {
        LogicalSize { width, height }
    }
}

/// A position in logical points.
#[derive(Debug, Clone, Copy, PartialEq, Eq, Structural)]
pub struct LogicalPosition {
    pub x: Float64,
    pub y: Float64,
}

impl LogicalPosition {
    pub fn new(x: Float64, y: Float64) -> (r: Self)
        ensures
            r == (LogicalPosition { x, y }),
    {
        LogicalPosition { x, y }
    }
}

/// A size in either unit.
#[derive(Debug, Clone, Copy, PartialEq, Eq, Structural)]
pub enum Size {
    Physical(PhysicalSize),
    Logical(LogicalSize),
}

/// A position in either unit.
#[derive(Debug, Clone, Copy, PartialEq, Eq, Structural)]
pub enum Position {
    Physical(PhysicalPosition),
    Logical(LogicalPosition),
}

} // verus!
