use vstd::prelude::*;
use crate::coords::IVec3;

verus! {

/// One of the six axis-aligned cube faces, also used as the single-step
/// offset toward the neighbor that the face looks at.
#[derive(Clone, Copy, PartialEq, Eq, Structural, Debug)]
pub enum Dir {
    Left,
    Right,
    Down,
    Up,
    Back,
    Forward,
}

/// A set over the six cube faces: which faces of a voxel are eligible for
/// rendering.
#[derive(Clone, Copy, PartialEq, Eq, Structural, Debug)]
pub struct DirMask {
    pub left: bool,
    pub right: bool,
    pub down: bool,
    pub up: bool,
    pub back: bool,
    pub forward: bool,
}

/// 1 for true, 0 for false; used to count set bits and occupied neighbors.
pub open spec fn b2i(b: bool) -> int {
    if b {
        1
    } else {
        0
    }
}

impl Dir {
    /// The buffer slot of this face: Left 0, Right 1, Down 2, Up 3, Back 4,
    /// Forward 5.
    pub open spec fn index_spec(self) -> int {
        match self {
            Dir::Left => 0,
            Dir::Right => 1,
            Dir::Down => 2,
            Dir::Up => 3,
            Dir::Back => 4,
            Dir::Forward => 5,
        }
    }

    /// The unit offset toward the neighbor this face looks at.
    pub open spec fn offset_spec(self) -> IVec3 {
        match self {
            Dir::Left => IVec3 { x: -1i32, y: 0, z: 0 },
            Dir::Right => IVec3 { x: 1, y: 0, z: 0 },
            Dir::Down => IVec3 { x: 0, y: -1i32, z: 0 },
            Dir::Up => IVec3 { x: 0, y: 1, z: 0 },
            Dir::Back => IVec3 { x: 0, y: 0, z: -1i32 },
            Dir::Forward => IVec3 { x: 0, y: 0, z: 1 },
        }
    }

    /// First tangent axis of this face's plane.
    pub open spec fn tangent1_spec(self) -> IVec3 {
        match self {
            Dir::Left | Dir::Right => IVec3 { x: 0, y: 1, z: 0 },
            Dir::Down | Dir::Up => IVec3 { x: 0, y: 0, z: 1 },
            Dir::Back | Dir::Forward => IVec3 { x: 1, y: 0, z: 0 },
        }
    }

    /// Second tangent axis of this face's plane.
    pub open spec fn tangent2_spec(self) -> IVec3 {
        match self {
            Dir::Left | Dir::Right => IVec3 { x: 0, y: 0, z: 1 },
            Dir::Down | Dir::Up => IVec3 { x: 1, y: 0, z: 0 },
            Dir::Back | Dir::Forward => IVec3 { x: 0, y: 1, z: 0 },
        }
    }

    pub open spec fn opposite_spec(self) -> Dir {
        match self {
            Dir::Left => Dir::Right,
            Dir::Right => Dir::Left,
            Dir::Down => Dir::Up,
            Dir::Up => Dir::Down,
            Dir::Back => Dir::Forward,
            Dir::Forward => Dir::Back,
        }
    }

    pub fn index(self) -> (i: usize)
        ensures
            i == self.index_spec(),
    {
        match self {
            Dir::Left => 0,
            Dir::Right => 1,
            Dir::Down => 2,
            Dir::Up => 3,
            Dir::Back => 4,
            Dir::Forward => 5,
        }
    }

    pub fn offset(self) -> (o: IVec3)
        ensures
            o == self.offset_spec(),
    {
        match self {
            Dir::Left => IVec3 { x: -1, y: 0, z: 0 },
            Dir::Right => IVec3 { x: 1, y: 0, z: 0 },
            Dir::Down => IVec3 { x: 0, y: -1, z: 0 },
            Dir::Up => IVec3 { x: 0, y: 1, z: 0 },
            Dir::Back => IVec3 { x: 0, y: 0, z: -1 },
            Dir::Forward => IVec3 { x: 0, y: 0, z: 1 },
        }
    }

    pub fn tangent1(self) -> (t: IVec3)
        ensures
            t == self.tangent1_spec(),
    {
        match self {
            Dir::Left | Dir::Right => IVec3 { x: 0, y: 1, z: 0 },
            Dir::Down | Dir::Up => IVec3 { x: 0, y: 0, z: 1 },
            Dir::Back | Dir::Forward => IVec3 { x: 1, y: 0, z: 0 },
        }
    }

    pub fn tangent2(self) -> (t: IVec3)
        ensures
            t == self.tangent2_spec(),
    {
        match self {
            Dir::Left | Dir::Right => IVec3 { x: 0, y: 0, z: 1 },
            Dir::Down | Dir::Up => IVec3 { x: 1, y: 0, z: 0 },
            Dir::Back | Dir::Forward => IVec3 { x: 0, y: 1, z: 0 },
        }
    }

    /// The face on the other side of the voxel.
    pub fn opposite(self) -> (d: Dir)
        ensures
            d == self.opposite_spec(),
    {
        match self {
            Dir::Left => Dir::Right,
            Dir::Right => Dir::Left,
            Dir::Down => Dir::Up,
            Dir::Up => Dir::Down,
            Dir::Back => Dir::Forward,
            Dir::Forward => Dir::Back,
        }
    }
}

impl DirMask {
    pub open spec fn empty_spec() -> DirMask {
        DirMask { left: false, right: false, down: false, up: false, back: false, forward: false }
    }

    /// Whether the bit for face `d` is set.
    pub open spec fn contains(self, d: Dir) -> bool {
        match d {
            Dir::Left => self.left,
            Dir::Right => self.right,
            Dir::Down => self.down,
            Dir::Up => self.up,
            Dir::Back => self.back,
            Dir::Forward => self.forward,
        }
    }

    /// How many of the six bits are set.
    pub open spec fn count_spec(self) -> int {
        b2i(self.left) + b2i(self.right) + b2i(self.down) + b2i(self.up) + b2i(self.back) + b2i(
            self.forward,
        )
    }

    pub fn empty() -> (m: DirMask)
        ensures
            m == DirMask::empty_spec(),
    {
        DirMask { left: false, right: false, down: false, up: false, back: false, forward: false }
    }

    pub fn has(self, d: Dir) -> (b: bool)
        ensures
            b == self.contains(d),
    {
        match d {
            Dir::Left => self.left,
            Dir::Right => self.right,
            Dir::Down => self.down,
            Dir::Up => self.up,
            Dir::Back => self.back,
            Dir::Forward => self.forward,
        }
    }

    pub fn count(self) -> (n: usize)
        ensures
            n == self.count_spec(),
    {
        let mut n: usize = 0;
        if self.left {
            n = n + 1;
        }
        if self.right {
            n = n + 1;
        }
        if self.down {
            n = n + 1;
        }
        if self.up {
            n = n + 1;
        }
        if self.back {
            n = n + 1;
        }
        if self.forward {
            n = n + 1;
        }
        n
    }
}

} // verus!
