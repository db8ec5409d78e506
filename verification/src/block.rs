use vstd::prelude::*;

verus! {

/// A voxel kind. `Void` is the sentinel for "never written"; `Air` is
/// empty, passable and invisible; the remaining kinds are solid and map to
/// a fixed display color.
#[derive(Clone, Copy, PartialEq, Eq, Structural, Debug)]
pub enum Block {
    Void,
    Air,
    Stone,
    Grass,
}

/// An RGBA color with each channel in thousandths, so 1000 stands for a
/// channel value of 1.0.
#[derive(Clone, Copy, PartialEq, Eq, Structural, Debug)]
pub struct Rgba {
    pub r: u32,
    pub g: u32,
    pub b: u32,
    pub a: u32,
}

impl Block {
    /// The fixed display color of each kind, channels in thousandths.
    /// `Air` maps to the all-zero color and is never drawn.
    pub open spec fn color_spec(self) -> Rgba {
        match self {
            Block::Void => Rgba { r: 1000, g: 0, b: 1000, a: 1000 },
            Block::Stone => Rgba { r: 400, g: 400, b: 400, a: 1000 },
            Block::Grass => Rgba { r: 0, g: 600, b: 90, a: 1000 },
            Block::Air => Rgba { r: 0, g: 0, b: 0, a: 0 },
        }
    }

    pub fn color(self) -> (c: Rgba)
        ensures
            c == self.color_spec(),
    {
        match self {
            Block::Void => Rgba { r: 1000, g: 0, b: 1000, a: 1000 },
            Block::Stone => Rgba { r: 400, g: 400, b: 400, a: 1000 },
            Block::Grass => Rgba { r: 0, g: 600, b: 90, a: 1000 },
            Block::Air => Rgba { r: 0, g: 0, b: 0, a: 0 },
        }
    }
}

} // verus!
