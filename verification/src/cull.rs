use vstd::prelude::*;
use crate::coords::UVec3;
use crate::block::Block;
use crate::dir::Dir;
use crate::dir::DirMask;
use crate::grid::Structure;
use crate::grid::count_spec;
use crate::grid::lemma_lin_range;
use crate::grid::lin_index;

verus! {

/// Whether the neighbor of `p` toward face `d` lies inside the grid
/// bounds and holds `Air`: exactly then is the face drawn. A face toward
/// an out-of-bounds neighbor is never drawn, whatever the (unloaded)
/// neighboring chunk may hold.
pub open spec fn face_visible<S: Structure>(s: S, p: UVec3, d: Dir) -> bool {
    let o = d.offset_spec();
    let nx = p.x + o.x;
    let ny = p.y + o.y;
    let nz = p.z + o.z;
    &&& 0 <= nx < s.size_spec().x
    &&& 0 <= ny < s.size_spec().y
    &&& 0 <= nz < s.size_spec().z
    &&& s.block_at(UVec3 { x: nx as u32, y: ny as u32, z: nz as u32 }) == Block::Air
}

/// The face-visibility mask the culling pass assigns to position `p`.
pub open spec fn cull_mask_spec<S: Structure>(s: S, p: UVec3) -> DirMask {
    DirMask {
        left: face_visible(s, p, Dir::Left),
        right: face_visible(s, p, Dir::Right),
        down: face_visible(s, p, Dir::Down),
        up: face_visible(s, p, Dir::Up),
        back: face_visible(s, p, Dir::Back),
        forward: face_visible(s, p, Dir::Forward),
    }
}

/// After the culling pass, a voxel's face bit toward a neighbor is set if
/// and only if that neighbor is in bounds and `Air`; in particular every
/// bit toward an out-of-bounds neighbor is unset.
pub proof fn lemma_cull_mask_iff<S: Structure>(s: S, p: UVec3, d: Dir)
    ensures
        cull_mask_spec(s, p).contains(d) <==> face_visible(s, p, d),
{
}

/// Visibility culling: assigns every voxel the mask of `cull_mask_spec`,
/// leaving blocks and ambient occlusion untouched.
pub fn internal_cull_faces<S: Structure>(structure: &mut S)
    requires
        old(structure).inv(),
    ensures
        final(structure).inv(),
        final(structure).size_spec() == old(structure).size_spec(),
        forall|q: UVec3|
            q.in_bounds(old(structure).size_spec()) ==> #[trigger] final(structure).block_at(q)
                == old(structure).block_at(q),
        forall|q: UVec3|
            q.in_bounds(old(structure).size_spec()) ==> #[trigger] final(structure).ao_at(q)
                == old(structure).ao_at(q),
        forall|q: UVec3|
            q.in_bounds(old(structure).size_spec()) ==> #[trigger] final(structure).cull_at(q)
                == cull_mask_spec(*old(structure), q),
{
    proof {
        old(structure).lemma_inv_size();
    }
    let size = structure.size();
    let total = structure.count();
    let mut index: usize = 0;
    while index < total
        invariant
            structure.inv(),
            structure.size_spec() == old(structure).size_spec(),
            size == structure.size_spec(),
            total == count_spec(size),
            index <= total,
            forall|q: UVec3|
                q.in_bounds(size) ==> #[trigger] structure.block_at(q) == old(structure).block_at(
                    q,
                ),
            forall|q: UVec3|
                q.in_bounds(size) ==> #[trigger] structure.ao_at(q) == old(structure).ao_at(q),
            forall|q: UVec3|
                q.in_bounds(size) && lin_index(q, size) < index ==> #[trigger] structure.cull_at(q)
                    == cull_mask_spec(*old(structure), q),
        decreases total - index,
    {
        let position = structure.delinearize(index);
        let left = position.x >= 1 && structure.get_block(
            UVec3 { x: position.x - 1, y: position.y, z: position.z },
        ) == Block::Air;
        let right = position.x + 1 < size.x && structure.get_block(
            UVec3 { x: position.x + 1, y: position.y, z: position.z },
        ) == Block::Air;
        let down = position.y >= 1 && structure.get_block(
            UVec3 { x: position.x, y: position.y - 1, z: position.z },
        ) == Block::Air;
        let up = position.y + 1 < size.y && structure.get_block(
            UVec3 { x: position.x, y: position.y + 1, z: position.z },
        ) == Block::Air;
        let back = position.z >= 1 && structure.get_block(
            UVec3 { x: position.x, y: position.y, z: position.z - 1 },
        ) == Block::Air;
        let forward = position.z + 1 < size.z && structure.get_block(
            UVec3 { x: position.x, y: position.y, z: position.z + 1 },
        ) == Block::Air;
        let directions = DirMask { left, right, down, up, back, forward };
        proof {
            assert(directions == cull_mask_spec(*old(structure), position));
        }
        structure.set_cull(position, directions);
        proof {
            assert forall|q: UVec3|
                q.in_bounds(size) && lin_index(q, size) < index + 1 implies #[trigger] structure
                .cull_at(q) == cull_mask_spec(*old(structure), q) by {
                if q == position {
                    assert(structure.cull_at(q) == directions);
                } else {
                    if lin_index(q, size) == index {
                        crate::grid::lemma_lin_injective(q, position, size);
                    }
                    assert(lin_index(q, size) < index);
                }
            }
        }
        index = index + 1;
    }
    proof {
        assert forall|q: UVec3| q.in_bounds(size) implies lin_index(q, size) < total by {
            lemma_lin_range(q, size);
        }
    }
}

} // verus!
