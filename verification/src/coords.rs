use vstd::prelude::*;

verus! {

/// An unsigned 3-vector: a voxel position inside a chunk, or a grid size.
#[derive(Clone, Copy, PartialEq, Eq, Structural, Debug)]
pub struct UVec3 {
    pub x: u32,
    pub y: u32,
    pub z: u32,
}

/// A signed 3-vector: a chunk coordinate in the world.
#[derive(Clone, Copy, PartialEq, Eq, Structural, Debug)]
pub struct IVec3 {
    pub x: i32,
    pub y: i32,
    pub z: i32,
}

impl UVec3 {
    /// Componentwise strict bound: `self` is a valid position in a grid of
    /// size `size`.
    pub open spec fn in_bounds(self, size: UVec3) -> bool {
        self.x < size.x && self.y < size.y && self.z < size.z
    }

    pub fn new(x: u32, y: u32, z: u32) -> (v: UVec3)
        ensures
            v == (UVec3 { x, y, z }),
    {
        UVec3 { x, y, z }
    }
}

impl IVec3 {
    pub fn new(x: i32, y: i32, z: i32) -> (v: IVec3)
        ensures
            v == (IVec3 { x, y, z }),
    {
        IVec3 { x, y, z }
    }
}

} // verus!
