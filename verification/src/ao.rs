use vstd::prelude::*;
use crate::coords::UVec3;
use crate::coords::IVec3;
use crate::block::Block;
use crate::dir::Dir;
use crate::dir::b2i;
use crate::grid::Structure;
use crate::grid::count_spec;
use crate::grid::lemma_lin_range;
use crate::grid::lin_index;

verus! {

/// Ambient-occlusion levels for the four corners of one face, in the
/// face's vertex winding order. A level `k` in 0..=3 stands for the
/// brightness factor `k/3`: 3 is fully exposed (no darkening), 0 is fully
/// enclosed.
#[derive(Clone, Copy, PartialEq, Eq, Structural, Debug)]
pub struct AoQuad {
    pub c0: u8,
    pub c1: u8,
    pub c2: u8,
    pub c3: u8,
}

/// Ambient-occlusion quads for all six faces of one voxel.
#[derive(Clone, Copy, PartialEq, Eq, Structural, Debug)]
pub struct AoFaces {
    pub left: AoQuad,
    pub right: AoQuad,
    pub down: AoQuad,
    pub up: AoQuad,
    pub back: AoQuad,
    pub forward: AoQuad,
}

impl AoQuad {
    /// All corners fully enclosed: factor 0 everywhere.
    pub open spec fn zero_spec() -> AoQuad {
        AoQuad { c0: 0, c1: 0, c2: 0, c3: 0 }
    }

    /// All corners fully exposed: factor 1 everywhere.
    pub open spec fn full_spec() -> AoQuad {
        AoQuad { c0: 3, c1: 3, c2: 3, c3: 3 }
    }

    pub fn zero() -> (q: AoQuad)
        ensures
            q == AoQuad::zero_spec(),
    {
        AoQuad { c0: 0, c1: 0, c2: 0, c3: 0 }
    }
}

impl AoFaces {
    pub open spec fn zero_spec() -> AoFaces {
        AoFaces {
            left: AoQuad::zero_spec(),
            right: AoQuad::zero_spec(),
            down: AoQuad::zero_spec(),
            up: AoQuad::zero_spec(),
            back: AoQuad::zero_spec(),
            forward: AoQuad::zero_spec(),
        }
    }

    /// The quad stored for face `d`.
    pub open spec fn face_spec(self, d: Dir) -> AoQuad {
        match d {
            Dir::Left => self.left,
            Dir::Right => self.right,
            Dir::Down => self.down,
            Dir::Up => self.up,
            Dir::Back => self.back,
            Dir::Forward => self.forward,
        }
    }

    pub fn zero() -> (a: AoFaces)
        ensures
            a == AoFaces::zero_spec(),
    {
        AoFaces {
            left: AoQuad::zero(),
            right: AoQuad::zero(),
            down: AoQuad::zero(),
            up: AoQuad::zero(),
            back: AoQuad::zero(),
            forward: AoQuad::zero(),
        }
    }

    pub fn face(self, d: Dir) -> (q: AoQuad)
        ensures
            q == self.face_spec(d),
    {
        match d {
            Dir::Left => self.left,
            Dir::Right => self.right,
            Dir::Down => self.down,
            Dir::Up => self.up,
            Dir::Back => self.back,
            Dir::Forward => self.forward,
        }
    }
}

/// Occupancy sampling: whether `(x, y, z)` lies inside the grid bounds
/// and holds a non-`Air` block. Positions outside the bounds count as
/// unoccupied, so chunk edges never over-darken from missing neighbors.
pub open spec fn occupied<S: Structure>(s: S, x: int, y: int, z: int) -> bool {
    &&& 0 <= x < s.size_spec().x
    &&& 0 <= y < s.size_spec().y
    &&& 0 <= z < s.size_spec().z
    &&& s.block_at(UVec3 { x: x as u32, y: y as u32, z: z as u32 }) != Block::Air
}

/// The brightness level of one face corner from its two side neighbors
/// and its diagonal neighbor: `3 - (side_a + side_b + max(corner,
/// side_a*side_b))`, so the displayed factor `level/3` is 1 when nothing
/// occludes and 0 when everything does.
pub open spec fn corner_level(sa: bool, sb: bool, c: bool) -> u8 {
    (3 - (b2i(sa) + b2i(sb) + b2i(c || (sa && sb)))) as u8
}

/// The four corner levels of the face whose adjacent cell is
/// `(px, py, pz)` and whose tangent axes are `d1` and `d2`.
pub open spec fn voxel_ao_spec<S: Structure>(
    s: S,
    px: int,
    py: int,
    pz: int,
    d1: IVec3,
    d2: IVec3,
) -> AoQuad {
    let s0 = occupied(s, px + d1.x, py + d1.y, pz + d1.z);
    let s1 = occupied(s, px + d2.x, py + d2.y, pz + d2.z);
    let s2 = occupied(s, px - d1.x, py - d1.y, pz - d1.z);
    let s3 = occupied(s, px - d2.x, py - d2.y, pz - d2.z);
    let c0 = occupied(s, px + d1.x + d2.x, py + d1.y + d2.y, pz + d1.z + d2.z);
    let c1 = occupied(s, px - d1.x + d2.x, py - d1.y + d2.y, pz - d1.z + d2.z);
    let c2 = occupied(s, px - d1.x - d2.x, py - d1.y - d2.y, pz - d1.z - d2.z);
    let c3 = occupied(s, px + d1.x - d2.x, py + d1.y - d2.y, pz + d1.z - d2.z);
    AoQuad {
        c0: corner_level(s0, s1, c0),
        c1: corner_level(s1, s2, c1),
        c2: corner_level(s2, s3, c2),
        c3: corner_level(s3, s0, c3),
    }
}

/// The quad the ambient-occlusion pass assigns to face `d` of voxel `p`.
pub open spec fn face_ao_spec<S: Structure>(s: S, p: UVec3, d: Dir) -> AoQuad {
    let o = d.offset_spec();
    voxel_ao_spec(
        s,
        p.x + o.x,
        p.y + o.y,
        p.z + o.z,
        d.tangent1_spec(),
        d.tangent2_spec(),
    )
}

/// All six face quads the ambient-occlusion pass assigns to voxel `p`.
pub open spec fn ao_faces_spec<S: Structure>(s: S, p: UVec3) -> AoFaces {
    AoFaces {
        left: face_ao_spec(s, p, Dir::Left),
        right: face_ao_spec(s, p, Dir::Right),
        down: face_ao_spec(s, p, Dir::Down),
        up: face_ao_spec(s, p, Dir::Up),
        back: face_ao_spec(s, p, Dir::Back),
        forward: face_ao_spec(s, p, Dir::Forward),
    }
}

/// A face whose tangent plane is fully occupied (all four sides and all
/// four diagonals) gets level 0 — factor 0.0 — at every corner.
pub proof fn lemma_ao_enclosed<S: Structure>(s: S, px: int, py: int, pz: int, d1: IVec3, d2: IVec3)
    requires
        occupied(s, px + d1.x, py + d1.y, pz + d1.z),
        occupied(s, px + d2.x, py + d2.y, pz + d2.z),
        occupied(s, px - d1.x, py - d1.y, pz - d1.z),
        occupied(s, px - d2.x, py - d2.y, pz - d2.z),
        occupied(s, px + d1.x + d2.x, py + d1.y + d2.y, pz + d1.z + d2.z),
        occupied(s, px - d1.x + d2.x, py - d1.y + d2.y, pz - d1.z + d2.z),
        occupied(s, px - d1.x - d2.x, py - d1.y - d2.y, pz - d1.z - d2.z),
        occupied(s, px + d1.x - d2.x, py + d1.y - d2.y, pz + d1.z - d2.z),
    ensures
        voxel_ao_spec(s, px, py, pz, d1, d2) == AoQuad::zero_spec(),
{
}

/// A face with no occupied neighbor anywhere on its tangent plane gets
/// level 3 — factor 1.0 — at every corner.
pub proof fn lemma_ao_exposed<S: Structure>(s: S, px: int, py: int, pz: int, d1: IVec3, d2: IVec3)
    requires
        !occupied(s, px + d1.x, py + d1.y, pz + d1.z),
        !occupied(s, px + d2.x, py + d2.y, pz + d2.z),
        !occupied(s, px - d1.x, py - d1.y, pz - d1.z),
        !occupied(s, px - d2.x, py - d2.y, pz - d2.z),
        !occupied(s, px + d1.x + d2.x, py + d1.y + d2.y, pz + d1.z + d2.z),
        !occupied(s, px - d1.x + d2.x, py - d1.y + d2.y, pz - d1.z + d2.z),
        !occupied(s, px - d1.x - d2.x, py - d1.y - d2.y, pz - d1.z - d2.z),
        !occupied(s, px + d1.x - d2.x, py + d1.y - d2.y, pz + d1.z - d2.z),
    ensures
        voxel_ao_spec(s, px, py, pz, d1, d2) == AoQuad::full_spec(),
{
}

/// Occupancy test at a possibly out-of-bounds position.
fn occupied_at<S: Structure>(structure: &S, size: UVec3, x: i32, y: i32, z: i32) -> (b: bool)
    requires
        structure.inv(),
        size == structure.size_spec(),
    ensures
        b == occupied(*structure, x as int, y as int, z as int),
{
    if x < 0 || y < 0 || z < 0 {
        false
    } else {
        let ux = x as u32;
        let uy = y as u32;
        let uz = z as u32;
        if ux >= size.x || uy >= size.y || uz >= size.z {
            false
        } else {
            !(structure.get_block(UVec3 { x: ux, y: uy, z: uz }) == Block::Air)
        }
    }
}

fn corner_level_exec(sa: bool, sb: bool, c: bool) -> (l: u8)
    ensures
        l == corner_level(sa, sb, c),
{
    let occ: u8 = (if sa {
        1
    } else {
        0
    }) + (if sb {
        1
    } else {
        0
    }) + (if c || (sa && sb) {
        1
    } else {
        0
    });
    3 - occ
}

/// The four corner levels of the face whose adjacent cell is `pos` and
/// whose tangent axes are `d1` and `d2`.
pub fn voxel_ao<S: Structure>(structure: &S, pos: IVec3, d1: IVec3, d2: IVec3) -> (q: AoQuad)
    requires
        structure.inv(),
        -0x40000000 <= pos.x <= 0x40000000,
        -0x40000000 <= pos.y <= 0x40000000,
        -0x40000000 <= pos.z <= 0x40000000,
        0 <= d1.x <= 1,
        0 <= d1.y <= 1,
        0 <= d1.z <= 1,
        0 <= d2.x <= 1,
        0 <= d2.y <= 1,
        0 <= d2.z <= 1,
    ensures
        q == voxel_ao_spec(*structure, pos.x as int, pos.y as int, pos.z as int, d1, d2),
{
    let size = structure.size();
    let s0 = occupied_at(structure, size, pos.x + d1.x, pos.y + d1.y, pos.z + d1.z);
    let s1 = occupied_at(structure, size, pos.x + d2.x, pos.y + d2.y, pos.z + d2.z);
    let s2 = occupied_at(structure, size, pos.x - d1.x, pos.y - d1.y, pos.z - d1.z);
    let s3 = occupied_at(structure, size, pos.x - d2.x, pos.y - d2.y, pos.z - d2.z);
    let c0 = occupied_at(structure, size, pos.x + d1.x + d2.x, pos.y + d1.y + d2.y, pos.z + d1.z + d2.z);
    let c1 = occupied_at(structure, size, pos.x - d1.x + d2.x, pos.y - d1.y + d2.y, pos.z - d1.z + d2.z);
    let c2 = occupied_at(structure, size, pos.x - d1.x - d2.x, pos.y - d1.y - d2.y, pos.z - d1.z - d2.z);
    let c3 = occupied_at(structure, size, pos.x + d1.x - d2.x, pos.y + d1.y - d2.y, pos.z + d1.z - d2.z);
    AoQuad {
        c0: corner_level_exec(s0, s1, c0),
        c1: corner_level_exec(s1, s2, c1),
        c2: corner_level_exec(s2, s3, c2),
        c3: corner_level_exec(s3, s0, c3),
    }
}

/// Occupancy depends only on sizes and blocks, so two grids that agree
/// on them sample identically.
proof fn lemma_occupied_congruence<S: Structure>(s1: S, s2: S, x: int, y: int, z: int)
    requires
        s1.size_spec() == s2.size_spec(),
        forall|q: UVec3|
            q.in_bounds(s1.size_spec()) ==> #[trigger] s1.block_at(q) == s2.block_at(q),
    ensures
        occupied(s1, x, y, z) == occupied(s2, x, y, z),
{
}

/// Face quads depend only on sizes and blocks.
proof fn lemma_voxel_ao_congruence<S: Structure>(
    s1: S,
    s2: S,
    px: int,
    py: int,
    pz: int,
    d1: IVec3,
    d2: IVec3,
)
    requires
        s1.size_spec() == s2.size_spec(),
        forall|q: UVec3|
            q.in_bounds(s1.size_spec()) ==> #[trigger] s1.block_at(q) == s2.block_at(q),
    ensures
        voxel_ao_spec(s1, px, py, pz, d1, d2) == voxel_ao_spec(s2, px, py, pz, d1, d2),
{
    lemma_occupied_congruence(s1, s2, px + d1.x, py + d1.y, pz + d1.z);
    lemma_occupied_congruence(s1, s2, px + d2.x, py + d2.y, pz + d2.z);
    lemma_occupied_congruence(s1, s2, px - d1.x, py - d1.y, pz - d1.z);
    lemma_occupied_congruence(s1, s2, px - d2.x, py - d2.y, pz - d2.z);
    lemma_occupied_congruence(s1, s2, px + d1.x + d2.x, py + d1.y + d2.y, pz + d1.z + d2.z);
    lemma_occupied_congruence(s1, s2, px - d1.x + d2.x, py - d1.y + d2.y, pz - d1.z + d2.z);
    lemma_occupied_congruence(s1, s2, px - d1.x - d2.x, py - d1.y - d2.y, pz - d1.z - d2.z);
    lemma_occupied_congruence(s1, s2, px + d1.x - d2.x, py + d1.y - d2.y, pz + d1.z - d2.z);
}

/// All six face quads depend only on sizes and blocks.
#[verifier::rlimit(100)]
#[verifier::spinoff_prover]
proof fn lemma_ao_faces_congruence<S: Structure>(s1: S, s2: S, p: UVec3)
    requires
        s1.size_spec() == s2.size_spec(),
        forall|q: UVec3|
            q.in_bounds(s1.size_spec()) ==> #[trigger] s1.block_at(q) == s2.block_at(q),
    ensures
        ao_faces_spec(s1, p) == ao_faces_spec(s2, p),
{
    lemma_voxel_ao_congruence(
        s1,
        s2,
        p.x - 1,
        p.y as int,
        p.z as int,
        Dir::Left.tangent1_spec(),
        Dir::Left.tangent2_spec(),
    );
    lemma_voxel_ao_congruence(
        s1,
        s2,
        p.x + 1,
        p.y as int,
        p.z as int,
        Dir::Right.tangent1_spec(),
        Dir::Right.tangent2_spec(),
    );
    lemma_voxel_ao_congruence(
        s1,
        s2,
        p.x as int,
        p.y - 1,
        p.z as int,
        Dir::Down.tangent1_spec(),
        Dir::Down.tangent2_spec(),
    );
    lemma_voxel_ao_congruence(
        s1,
        s2,
        p.x as int,
        p.y + 1,
        p.z as int,
        Dir::Up.tangent1_spec(),
        Dir::Up.tangent2_spec(),
    );
    lemma_voxel_ao_congruence(
        s1,
        s2,
        p.x as int,
        p.y as int,
        p.z - 1,
        Dir::Back.tangent1_spec(),
        Dir::Back.tangent2_spec(),
    );
    lemma_voxel_ao_congruence(
        s1,
        s2,
        p.x as int,
        p.y as int,
        p.z + 1,
        Dir::Forward.tangent1_spec(),
        Dir::Forward.tangent2_spec(),
    );
}

/// The six face quads of one voxel, computed from the current blocks.
fn compute_ao_faces<S: Structure>(structure: &S, position: UVec3) -> (ao: AoFaces)
    requires
        structure.inv(),
        position.in_bounds(structure.size_spec()),
        structure.size_spec().x <= 0x40000000,
        structure.size_spec().y <= 0x40000000,
        structure.size_spec().z <= 0x40000000,
    ensures
        ao == ao_faces_spec(*structure, position),
{
    let xi = position.x as i32;
    let yi = position.y as i32;
    let zi = position.z as i32;
    let left = voxel_ao(
        structure,
        IVec3 { x: xi - 1, y: yi, z: zi },
        Dir::Left.tangent1(),
        Dir::Left.tangent2(),
    );
    let right = voxel_ao(
        structure,
        IVec3 { x: xi + 1, y: yi, z: zi },
        Dir::Right.tangent1(),
        Dir::Right.tangent2(),
    );
    let down = voxel_ao(
        structure,
        IVec3 { x: xi, y: yi - 1, z: zi },
        Dir::Down.tangent1(),
        Dir::Down.tangent2(),
    );
    let up = voxel_ao(
        structure,
        IVec3 { x: xi, y: yi + 1, z: zi },
        Dir::Up.tangent1(),
        Dir::Up.tangent2(),
    );
    let back = voxel_ao(
        structure,
        IVec3 { x: xi, y: yi, z: zi - 1 },
        Dir::Back.tangent1(),
        Dir::Back.tangent2(),
    );
    let forward = voxel_ao(
        structure,
        IVec3 { x: xi, y: yi, z: zi + 1 },
        Dir::Forward.tangent1(),
        Dir::Forward.tangent2(),
    );
    AoFaces { left, right, down, up, back, forward }
}

/// Ambient-occlusion pass: assigns every voxel the face quads of
/// `ao_faces_spec`, leaving blocks and visibility masks untouched. Runs
/// after block classification; its order with the culling pass is free.
pub fn internal_ao<S: Structure>(structure: &mut S)
    requires
        old(structure).inv(),
        old(structure).size_spec().x <= 0x40000000,
        old(structure).size_spec().y <= 0x40000000,
        old(structure).size_spec().z <= 0x40000000,
    ensures
        final(structure).inv(),
        final(structure).size_spec() == old(structure).size_spec(),
        forall|q: UVec3|
            q.in_bounds(old(structure).size_spec()) ==> #[trigger] final(structure).block_at(q)
                == old(structure).block_at(q),
        forall|q: UVec3|
            q.in_bounds(old(structure).size_spec()) ==> #[trigger] final(structure).cull_at(q)
                == old(structure).cull_at(q),
        forall|q: UVec3|
            q.in_bounds(old(structure).size_spec()) ==> #[trigger] final(structure).ao_at(q)
                == ao_faces_spec(*old(structure), q),
{
    proof {
        old(structure).lemma_inv_size();
    }
    let size = structure.size();
    let total = structure.count();
    let mut index: usize = 0;
    while index < total
        invariant
            structure.inv(),
            structure.size_spec() == old(structure).size_spec(),
            size == structure.size_spec(),
            size.x <= 0x40000000,
            size.y <= 0x40000000,
            size.z <= 0x40000000,
            total == count_spec(size),
            index <= total,
            forall|q: UVec3|
                q.in_bounds(size) ==> #[trigger] structure.block_at(q) == old(structure).block_at(
                    q,
                ),
            forall|q: UVec3|
                q.in_bounds(size) ==> #[trigger] structure.cull_at(q) == old(structure).cull_at(q),
            forall|q: UVec3|
                q.in_bounds(size) && lin_index(q, size) < index ==> #[trigger] structure.ao_at(q)
                    == ao_faces_spec(*old(structure), q),
        decreases total - index,
    {
        let position = structure.delinearize(index);
        let ao = compute_ao_faces(structure, position);
        proof {
            lemma_ao_faces_congruence(*structure, *old(structure), position);
        }
        structure.set_ao(position, ao);
        proof {
            assert forall|q: UVec3|
                q.in_bounds(size) && lin_index(q, size) < index + 1 implies #[trigger] structure
                .ao_at(q) == ao_faces_spec(*old(structure), q) by {
                if q != position {
                    if lin_index(q, size) == index {
                        crate::grid::lemma_lin_injective(q, position, size);
                    }
                    assert(lin_index(q, size) < index);
                }
            }
        }
        index = index + 1;
    }
    proof {
        assert forall|q: UVec3| q.in_bounds(size) implies lin_index(q, size) < total by {
            lemma_lin_range(q, size);
        }
    }
}

} // verus!
