//! Integer coordinate types used by the built-in coordinate systems.
use vstd::prelude::*;

verus! {

/// A 2-dimensional integer position.
#[derive(Clone, Copy, Debug, PartialEq, Eq, Structural, Hash)]
pub struct IVec2 {
    /// Horizontal component.
    pub x: i32,
    /// Vertical component.
    pub y: i32,
}

impl IVec2 {
    /// Builds the position `(x, y)`.
    pub fn new(x: i32, y: i32) -> (r: Self)
        ensures
            r == (IVec2 { x, y }),
    {
        IVec2 { x, y }
    }

    /// Every coordinate one step away in either axis still fits in `i32`.
    pub open spec fn adjacent_in_range(self) -> bool {
        &&& i32::MIN < self.x < i32::MAX
        &&& i32::MIN < self.y < i32::MAX
    }

    /// The position shifted by `(dx, dy)`, as a mathematical value.
    pub open spec fn spec_offset(self, dx: int, dy: int) -> IVec2 {
        IVec2 { x: (self.x + dx) as i32, y: (self.y + dy) as i32 }
    }
}

impl Default for IVec2 {
    /// The origin.
    fn default() -> (r: Self)
        ensures
            r == (IVec2 { x: 0, y: 0 }),
    {
        IVec2 { x: 0, y: 0 }
    }
}

/// A 3-dimensional integer position.
#[derive(Clone, Copy, Debug, PartialEq, Eq, Structural, Hash)]
pub struct IVec3 {
    /// First component.
    pub x: i32,
    /// Second component.
    pub y: i32,
    /// Third component.
    pub z: i32,
}

impl IVec3 {
    /// Builds the position `(x, y, z)`.
    pub fn new(x: i32, y: i32, z: i32) -> (r: Self)
        ensures
            r == (IVec3 { x, y, z }),
    {
        IVec3 { x, y, z }
    }

    /// Every coordinate one step away in any axis still fits in `i32`.
    pub open spec fn adjacent_in_range(self) -> bool {
        &&& i32::MIN < self.x < i32::MAX
        &&& i32::MIN < self.y < i32::MAX
        &&& i32::MIN < self.z < i32::MAX
    }

    /// The position shifted by `(dx, dy, dz)`, as a mathematical value.
    pub open spec fn spec_offset(self, dx: int, dy: int, dz: int) -> IVec3 {
        IVec3 { x: (self.x + dx) as i32, y: (self.y + dy) as i32, z: (self.z + dz) as i32 }
    }
}

impl Default for IVec3 {
    /// The origin.
    fn default() -> (r: Self)
        ensures
            r == (IVec3 { x: 0, y: 0, z: 0 }),
    {
        IVec3 { x: 0, y: 0, z: 0 }
    }
}

} // verus!
