use vstd::prelude::*;
use vstd::arithmetic::div_mod::lemma_fundamental_div_mod;
use vstd::arithmetic::div_mod::lemma_fundamental_div_mod_converse;
use crate::coords::UVec3;
use crate::block::Block;
use crate::dir::DirMask;
use crate::ao::AoFaces;

verus! {

/// A usable grid size: every axis positive, and the cell count fits in a
/// `usize` index.
pub open spec fn size_wf(s: UVec3) -> bool {
    s.x > 0 && s.y > 0 && s.z > 0 && s.x * s.y * s.z <= usize::MAX
}

/// Number of cells of a grid of size `s`.
pub open spec fn count_spec(s: UVec3) -> int {
    s.x * s.y * s.z
}

/// Storage index of position `p` in a grid of size `s`: x varies fastest,
/// then y, then z.
pub open spec fn lin_index(p: UVec3, s: UVec3) -> int {
    (p.z * s.y + p.y) * s.x + p.x
}

/// The position stored at index `i` of a grid of size `s`; the exact
/// left inverse of `lin_index` on `[0, count_spec(s))`.
pub open spec fn delin_coord(i: int, s: UVec3) -> UVec3 {
    let rem = i % (s.x * s.y);
    UVec3 {
        x: (rem % (s.x as int)) as u32,
        y: (rem / (s.x as int)) as u32,
        z: (i / (s.x * s.y)) as u32,
    }
}

/// A valid position maps to a valid storage index.
pub proof fn lemma_lin_range(p: UVec3, s: UVec3)
    requires
        size_wf(s),
        p.in_bounds(s),
    ensures
        0 <= lin_index(p, s) < count_spec(s),
{
    assert(0 <= (p.z * s.y + p.y) * s.x + p.x < s.x * s.y * s.z) by (nonlinear_arith)
        requires
            p.x < s.x,
            p.y < s.y,
            p.z < s.z,
            s.x > 0,
            s.y > 0,
            s.z > 0,
    ;
}

/// Delinearizing a valid index yields an in-bounds position that
/// linearizes back to the same index.
pub proof fn lemma_lin_of_delin(i: int, s: UVec3)
    requires
        size_wf(s),
        0 <= i < count_spec(s),
    ensures
        delin_coord(i, s).in_bounds(s),
        lin_index(delin_coord(i, s), s) == i,
{
    let sx = s.x as int;
    let sy = s.y as int;
    let sz = s.z as int;
    assert(sx * sy > 0) by (nonlinear_arith)
        requires
            sx > 0,
            sy > 0,
    ;
    let z = i / (sx * sy);
    let rem = i % (sx * sy);
    lemma_fundamental_div_mod(i, sx * sy);
    assert(0 <= rem < sx * sy);
    assert(0 <= z < sz) by (nonlinear_arith)
        requires
            i == (sx * sy) * z + rem,
            0 <= rem < sx * sy,
            0 <= i < sx * sy * sz,
            sx * sy > 0,
    ;
    let y = rem / sx;
    let x = rem % sx;
    lemma_fundamental_div_mod(rem, sx);
    assert(0 <= x < sx);
    assert(0 <= y < sy) by (nonlinear_arith)
        requires
            rem == sx * y + x,
            0 <= x < sx,
            0 <= rem < sx * sy,
            sx > 0,
    ;
    let p = delin_coord(i, s);
    assert(p.x == x && p.y == y && p.z == z);
    assert((z * sy + y) * sx + x == i) by (nonlinear_arith)
        requires
            i == (sx * sy) * z + rem,
            rem == sx * y + x,
    ;
}

/// Linearizing an in-bounds position and delinearizing again yields the
/// same position.
pub proof fn lemma_delin_of_lin(p: UVec3, s: UVec3)
    requires
        size_wf(s),
        p.in_bounds(s),
    ensures
        delin_coord(lin_index(p, s), s) == p,
{
    let sx = s.x as int;
    let sy = s.y as int;
    let i = lin_index(p, s);
    let r = p.y * sx + p.x;
    assert(0 <= r < sx * sy) by (nonlinear_arith)
        requires
            r == p.y * sx + p.x,
            0 <= p.x < sx,
            0 <= p.y < sy,
    ;
    assert(i == (sx * sy) * (p.z as int) + r) by (nonlinear_arith)
        requires
            i == (p.z * sy + p.y) * sx + p.x,
            r == p.y * sx + p.x,
    ;
    lemma_fundamental_div_mod_converse(i, sx * sy, p.z as int, r);
    lemma_fundamental_div_mod_converse(r, sx, p.y as int, p.x as int);
}

/// Distinct in-bounds positions always use distinct storage indices.
pub proof fn lemma_lin_injective(p: UVec3, q: UVec3, s: UVec3)
    requires
        size_wf(s),
        p.in_bounds(s),
        q.in_bounds(s),
        lin_index(p, s) == lin_index(q, s),
    ensures
        p == q,
{
    lemma_delin_of_lin(p, s);
    lemma_delin_of_lin(q, s);
}

/// Storage index of `p` in a grid of size `s`.
pub fn linearize_at(p: UVec3, s: UVec3) -> (index: usize)
    requires
        size_wf(s),
        p.in_bounds(s),
    ensures
        index == lin_index(p, s),
        index < count_spec(s),
{
    proof {
        lemma_lin_range(p, s);
        assert(p.z * s.y + p.y < s.y * s.z) by (nonlinear_arith)
            requires
                p.y < s.y,
                p.z < s.z,
                s.y > 0,
        ;
        assert(s.y * s.z <= s.x * s.y * s.z) by (nonlinear_arith)
            requires
                s.x > 0,
                s.y > 0,
                s.z > 0,
        ;
    }
    (p.z as usize * s.y as usize + p.y as usize) * s.x as usize + p.x as usize
}

/// Position stored at index `index` of a grid of size `s`.
pub fn delinearize_at(index: usize, s: UVec3) -> (position: UVec3)
    requires
        size_wf(s),
        index < count_spec(s),
    ensures
        position == delin_coord(index as int, s),
        position.in_bounds(s),
        lin_index(position, s) == index,
{
    proof {
        lemma_lin_of_delin(index as int, s);
        assert(s.x * s.y > 0 && s.x * s.y <= usize::MAX) by (nonlinear_arith)
            requires
                s.x > 0,
                s.y > 0,
                s.z > 0,
                s.x * s.y * s.z <= usize::MAX,
        ;
    }
    let plane = s.x as usize * s.y as usize;
    let z = index / plane;
    let rem = index % plane;
    let y = rem / (s.x as usize);
    let x = rem % (s.x as usize);
    UVec3 { x: x as u32, y: y as u32, z: z as u32 }
}

/// Cell count of a grid of size `s`.
pub fn count_at(s: UVec3) -> (n: usize)
    requires
        size_wf(s),
    ensures
        n == count_spec(s),
{
    proof {
        assert(s.x * s.y <= s.x * s.y * s.z) by (nonlinear_arith)
            requires
                s.x > 0,
                s.y > 0,
                s.z > 0,
        ;
    }
    s.x as usize * s.y as usize * s.z as usize
}

/// A dense, fixed-size voxel grid: per-cell block kind, face-visibility
/// mask and ambient-occlusion data, addressed through the shared
/// linearization scheme.
pub trait Structure: Sized {
    /// The fixed grid size of this implementation.
    spec fn size_spec(&self) -> UVec3;

    /// Internal well-formedness; established by `new`, preserved by every
    /// method.
    spec fn inv(&self) -> bool;

    /// The block kind stored at `position`.
    spec fn block_at(&self, position: UVec3) -> Block;

    /// The face-visibility mask stored at `position`.
    spec fn cull_at(&self, position: UVec3) -> DirMask;

    /// The ambient-occlusion data stored at `position`.
    spec fn ao_at(&self, position: UVec3) -> AoFaces;

    /// A well-formed grid always has a usable size.
    proof fn lemma_inv_size(&self)
        requires
            self.inv(),
        ensures
            size_wf(self.size_spec()),
    ;

    /// A fresh grid: every cell is `Void` with no visible faces and
    /// all-zero ambient occlusion.
    fn new() -> (s: Self)
        ensures
            s.inv(),
            forall|q: UVec3|
                q.in_bounds(s.size_spec()) ==> #[trigger] s.block_at(q) == Block::Void,
            forall|q: UVec3|
                q.in_bounds(s.size_spec()) ==> #[trigger] s.cull_at(q) == DirMask::empty_spec(),
            forall|q: UVec3|
                q.in_bounds(s.size_spec()) ==> #[trigger] s.ao_at(q) == AoFaces::zero_spec(),
    ;

    fn size(&self) -> (s: UVec3)
        requires
            self.inv(),
        ensures
            s == self.size_spec(),
    ;

    fn get_block(&self, position: UVec3) -> (b: Block)
        requires
            self.inv(),
            position.in_bounds(self.size_spec()),
        ensures
            b == self.block_at(position),
    ;

    fn set_block(&mut self, position: UVec3, block: Block)
        requires
            old(self).inv(),
            position.in_bounds(old(self).size_spec()),
        ensures
            final(self).inv(),
            final(self).size_spec() == old(self).size_spec(),
            forall|q: UVec3|
                q.in_bounds(old(self).size_spec()) ==> #[trigger] final(self).block_at(q) == (
                if q == position {
                    block
                } else {
                    old(self).block_at(q)
                }),
            forall|q: UVec3|
                q.in_bounds(old(self).size_spec()) ==> #[trigger] final(self).cull_at(q) == old(
                    self,
                ).cull_at(q),
            forall|q: UVec3|
                q.in_bounds(old(self).size_spec()) ==> #[trigger] final(self).ao_at(q) == old(
                    self,
                ).ao_at(q),
    ;

    fn get_cull(&self, position: UVec3) -> (m: DirMask)
        requires
            self.inv(),
            position.in_bounds(self.size_spec()),
        ensures
            m == self.cull_at(position),
    ;

    fn set_cull(&mut self, position: UVec3, directions: DirMask)
        requires
            old(self).inv(),
            position.in_bounds(old(self).size_spec()),
        ensures
            final(self).inv(),
            final(self).size_spec() == old(self).size_spec(),
            forall|q: UVec3|
                q.in_bounds(old(self).size_spec()) ==> #[trigger] final(self).cull_at(q) == (
                if q == position {
                    directions
                } else {
                    old(self).cull_at(q)
                }),
            forall|q: UVec3|
                q.in_bounds(old(self).size_spec()) ==> #[trigger] final(self).block_at(q) == old(
                    self,
                ).block_at(q),
            forall|q: UVec3|
                q.in_bounds(old(self).size_spec()) ==> #[trigger] final(self).ao_at(q) == old(
                    self,
                ).ao_at(q),
    ;

    fn get_ao(&self, position: UVec3) -> (a: AoFaces)
        requires
            self.inv(),
            position.in_bounds(self.size_spec()),
        ensures
            a == self.ao_at(position),
    ;

    fn set_ao(&mut self, position: UVec3, ao: AoFaces)
        requires
            old(self).inv(),
            position.in_bounds(old(self).size_spec()),
        ensures
            final(self).inv(),
            final(self).size_spec() == old(self).size_spec(),
            forall|q: UVec3|
                q.in_bounds(old(self).size_spec()) ==> #[trigger] final(self).ao_at(q) == (
                if q == position {
                    ao
                } else {
                    old(self).ao_at(q)
                }),
            forall|q: UVec3|
                q.in_bounds(old(self).size_spec()) ==> #[trigger] final(self).block_at(q) == old(
                    self,
                ).block_at(q),
            forall|q: UVec3|
                q.in_bounds(old(self).size_spec()) ==> #[trigger] final(self).cull_at(q) == old(
                    self,
                ).cull_at(q),
    ;

    fn linearize(&self, position: UVec3) -> (index: usize)
        requires
            self.inv(),
            position.in_bounds(self.size_spec()),
        ensures
            index == lin_index(position, self.size_spec()),
            index < count_spec(self.size_spec()),
    ;

    fn delinearize(&self, index: usize) -> (position: UVec3)
        requires
            self.inv(),
            index < count_spec(self.size_spec()),
        ensures
            position == delin_coord(index as int, self.size_spec()),
            position.in_bounds(self.size_spec()),
            lin_index(position, self.size_spec()) == index,
    ;

    fn count(&self) -> (n: usize)
        requires
            self.inv(),
        ensures
            n == count_spec(self.size_spec()),
    ;
}

} // verus!
