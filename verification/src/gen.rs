use vstd::prelude::*;
use crate::coords::UVec3;
use crate::coords::IVec3;
use crate::block::Block;
use crate::dir::DirMask;
use crate::ao::AoFaces;
use crate::chunk::Chunk;
use crate::chunk::chunk_size_spec;
use crate::grid::Structure;
use crate::grid::count_spec;
use crate::grid::lemma_lin_range;
use crate::grid::lin_index;

verus! {

/// Stride of the coarse noise lattice inside a chunk.
pub const NOISE_SCALE: u32 = 16;

/// Lattice points per axis: one per stride plus the far boundary line,
/// so trilinear interpolation has corners available at the chunk edge.
pub const LATTICE_DIM: usize = 5;

/// Total lattice points per chunk.
pub const SAMPLE_COUNT: usize = 5 * 5 * 5;

/// Bound on one fixed-point noise sample, in millionths. Coherent noise
/// lives in a few units, so this leaves ample headroom.
pub const SAMPLE_BOUND: i64 = 0x10000000000;

/// The height bias slope 0.035 in the shared fixed-point scale of one
/// interpolated density step: 0.035 * 1000000 * 4096.
pub const DENSITY_BIAS_NUM: i64 = 143360000;

/// Storage index of lattice point `(mx, my, mz)`: x fastest, then y,
/// then z, as in the chunk itself.
pub open spec fn lattice_idx(mx: int, my: int, mz: int) -> int {
    (mz * 5 + my) * 5 + mx
}

/// The trilinearly interpolated density at voxel-local position
/// `(x, y, z)`, as an exact integer: the samples are in millionths and
/// the eight corner weights sum to 16^3, so this value carries the
/// fixed-point scale 1000000 * 4096.
pub open spec fn density_num(samples: Seq<i64>, x: int, y: int, z: int) -> int {
    let mx0 = x / 16;
    let my0 = y / 16;
    let mz0 = z / 16;
    let ix = x % 16;
    let iy = y % 16;
    let iz = z % 16;
    let c000 = samples[lattice_idx(mx0, my0, mz0)] as int;
    let c100 = samples[lattice_idx(mx0 + 1, my0, mz0)] as int;
    let c010 = samples[lattice_idx(mx0, my0 + 1, mz0)] as int;
    let c110 = samples[lattice_idx(mx0 + 1, my0 + 1, mz0)] as int;
    let c001 = samples[lattice_idx(mx0, my0, mz0 + 1)] as int;
    let c101 = samples[lattice_idx(mx0 + 1, my0, mz0 + 1)] as int;
    let c011 = samples[lattice_idx(mx0, my0 + 1, mz0 + 1)] as int;
    let c111 = samples[lattice_idx(mx0 + 1, my0 + 1, mz0 + 1)] as int;
    c000 * (16 - ix) * (16 - iy) * (16 - iz) + c100 * ix * (16 - iy) * (16 - iz) + c010 * (16 - ix)
        * iy * (16 - iz) + c110 * ix * iy * (16 - iz) + c001 * (16 - ix) * (16 - iy) * iz + c101
        * ix * (16 - iy) * iz + c011 * (16 - ix) * iy * iz + c111 * ix * iy * iz
}

/// The height bias at world height `chunk_y * 64 + y`, in the same
/// fixed-point scale: density rises with depth and falls with altitude,
/// placing the terrain surface near world height 32.
pub open spec fn bias_num(chunk_y: int, y: int) -> int {
    (32 - (chunk_y * 64 + y)) * (DENSITY_BIAS_NUM as int)
}

/// The block the generator assigns to voxel `p` of the chunk at
/// `position`: `Grass` where biased density is positive, `Air`
/// elsewhere. `Stone` is reserved and unused by the generator.
pub open spec fn gen_block_spec(position: IVec3, samples: Seq<i64>, p: UVec3) -> Block {
    if density_num(samples, p.x as int, p.y as int, p.z as int) + bias_num(
        position.y as int,
        p.y as int,
    ) > 0 {
        Block::Grass
    } else {
        Block::Air
    }
}

/// One corner's contribution to the interpolated density.
fn weighted(c: i64, wx: i128, wy: i128, wz: i128) -> (t: i128)
    requires
        -SAMPLE_BOUND <= c <= SAMPLE_BOUND,
        0 <= wx <= 16,
        0 <= wy <= 16,
        0 <= wz <= 16,
    ensures
        t == c * wx * wy * wz,
        -0x10000000000000 <= t <= 0x10000000000000,
{
    proof {
        assert(-0x100000000000 <= c * wx <= 0x100000000000 && -0x1000000000000 <= c * wx * wy
            <= 0x1000000000000 && -0x10000000000000 <= c * wx * wy * wz <= 0x10000000000000)
            by (nonlinear_arith)
            requires
                -0x10000000000 <= c <= 0x10000000000,
                0 <= wx <= 16,
                0 <= wy <= 16,
                0 <= wz <= 16,
        ;
    }
    c as i128 * wx * wy * wz
}

/// Classifies one voxel from the noise lattice and the height bias.
fn classify_voxel(position: IVec3, samples: &Vec<i64>, p: UVec3) -> (b: Block)
    requires
        samples@.len() == SAMPLE_COUNT,
        forall|i: int|
            0 <= i < samples@.len() ==> -SAMPLE_BOUND <= #[trigger] samples@[i] <= SAMPLE_BOUND,
        p.in_bounds(chunk_size_spec()),
    ensures
        b == gen_block_spec(position, samples@, p),
{
    let x = p.x as usize;
    let y = p.y as usize;
    let z = p.z as usize;
    let mx0 = x / 16;
    let my0 = y / 16;
    let mz0 = z / 16;
    proof {
        assert(mx0 < 4 && my0 < 4 && mz0 < 4 && x % 16 < 16 && y % 16 < 16 && z % 16 < 16)
            by (nonlinear_arith)
            requires
                mx0 == x / 16,
                my0 == y / 16,
                mz0 == z / 16,
                x < 64,
                y < 64,
                z < 64,
        ;
    }
    let ix = (x % 16) as i128;
    let iy = (y % 16) as i128;
    let iz = (z % 16) as i128;
    let c000 = samples[(mz0 * 5 + my0) * 5 + mx0];
    let c100 = samples[(mz0 * 5 + my0) * 5 + mx0 + 1];
    let c010 = samples[(mz0 * 5 + my0 + 1) * 5 + mx0];
    let c110 = samples[(mz0 * 5 + my0 + 1) * 5 + mx0 + 1];
    let c001 = samples[((mz0 + 1) * 5 + my0) * 5 + mx0];
    let c101 = samples[((mz0 + 1) * 5 + my0) * 5 + mx0 + 1];
    let c011 = samples[((mz0 + 1) * 5 + my0 + 1) * 5 + mx0];
    let c111 = samples[((mz0 + 1) * 5 + my0 + 1) * 5 + mx0 + 1];
    let density = weighted(c000, 16 - ix, 16 - iy, 16 - iz) + weighted(c100, ix, 16 - iy, 16 - iz)
        + weighted(c010, 16 - ix, iy, 16 - iz) + weighted(c110, ix, iy, 16 - iz) + weighted(
        c001,
        16 - ix,
        16 - iy,
        iz,
    ) + weighted(c101, ix, 16 - iy, iz) + weighted(c011, 16 - ix, iy, iz) + weighted(
        c111,
        ix,
        iy,
        iz,
    );
    let world_y: i128 = position.y as i128 * 64 + y as i128;
    proof {
        assert(-0x80000000i128 * 64 <= position.y as i128 * 64 <= 0x80000000i128 * 64);
        assert((32 - world_y) * (DENSITY_BIAS_NUM as i128) <= 0x10000000000i128 * 0x10000000000i128
            && -(0x10000000000i128 * 0x10000000000i128) <= (32 - world_y) * (
        DENSITY_BIAS_NUM as i128)) by (nonlinear_arith)
            requires
                -0x2000000040i128 <= 32 - world_y <= 0x2000000040i128,
                0 < DENSITY_BIAS_NUM as i128 <= 0x10000000000i128,
        ;
    }
    let bias: i128 = (32 - world_y) * (DENSITY_BIAS_NUM as i128);
    if density + bias > 0 {
        Block::Grass
    } else {
        Block::Air
    }
}

/// Terrain generation: a fully populated chunk for the chunk coordinate
/// `position`, classified from the noise lattice `samples` (one
/// fixed-point sample per lattice point, in millionths, x fastest).
/// Identical inputs always yield an identical chunk; culling and
/// ambient occlusion are not yet applied.
pub fn gen_chunk(position: IVec3, samples: &Vec<i64>) -> (chunk: Chunk)
    requires
        samples@.len() == SAMPLE_COUNT,
        forall|i: int|
            0 <= i < samples@.len() ==> -SAMPLE_BOUND <= #[trigger] samples@[i] <= SAMPLE_BOUND,
    ensures
        chunk.inv(),
        chunk.size_spec() == chunk_size_spec(),
        forall|q: UVec3|
            q.in_bounds(chunk_size_spec()) ==> #[trigger] chunk.block_at(q) == gen_block_spec(
                position,
                samples@,
                q,
            ),
        forall|q: UVec3|
            q.in_bounds(chunk_size_spec()) ==> #[trigger] chunk.cull_at(q)
                == DirMask::empty_spec(),
        forall|q: UVec3|
            q.in_bounds(chunk_size_spec()) ==> #[trigger] chunk.ao_at(q) == AoFaces::zero_spec(),
{
    let mut chunk = Chunk::new();
    proof {
        crate::chunk::lemma_chunk_size(chunk);
        chunk.lemma_inv_size();
    }
    let total = chunk.count();
    let mut index: usize = 0;
    while index < total
        invariant
            chunk.inv(),
            chunk.size_spec() == chunk_size_spec(),
            total == count_spec(chunk_size_spec()),
            index <= total,
            samples@.len() == SAMPLE_COUNT,
            forall|i: int|
                0 <= i < samples@.len() ==> -SAMPLE_BOUND <= #[trigger] samples@[i]
                    <= SAMPLE_BOUND,
            forall|q: UVec3|
                q.in_bounds(chunk_size_spec()) && lin_index(q, chunk_size_spec()) < index
                    ==> #[trigger] chunk.block_at(q) == gen_block_spec(position, samples@, q),
            forall|q: UVec3|
                q.in_bounds(chunk_size_spec()) ==> #[trigger] chunk.cull_at(q)
                    == DirMask::empty_spec(),
            forall|q: UVec3|
                q.in_bounds(chunk_size_spec()) ==> #[trigger] chunk.ao_at(q)
                    == AoFaces::zero_spec(),
        decreases total - index,
    {
        let p = chunk.delinearize(index);
        let b = classify_voxel(position, samples, p);
        chunk.set_block(p, b);
        proof {
            assert forall|q: UVec3|
                q.in_bounds(chunk_size_spec()) && lin_index(q, chunk_size_spec()) < index
                    + 1 implies #[trigger] chunk.block_at(q) == gen_block_spec(
                position,
                samples@,
                q,
            ) by {
                if q != p {
                    if lin_index(q, chunk_size_spec()) == index {
                        crate::grid::lemma_lin_injective(q, p, chunk_size_spec());
                    }
                    assert(lin_index(q, chunk_size_spec()) < index);
                }
            }
        }
        index = index + 1;
    }
    proof {
        assert forall|q: UVec3| q.in_bounds(chunk_size_spec()) implies lin_index(
            q,
            chunk_size_spec(),
        ) < total by {
            lemma_lin_range(q, chunk_size_spec());
        }
    }
    chunk
}

/// Determinism of generation: the classification is a function of the
/// chunk coordinate and the noise lattice alone, so two chunks built
/// from the same inputs agree on every voxel's block.
pub proof fn lemma_generation_deterministic(
    position: IVec3,
    samples: Seq<i64>,
    a: Chunk,
    b: Chunk,
)
    requires
        forall|q: UVec3|
            q.in_bounds(chunk_size_spec()) ==> #[trigger] a.block_at(q) == gen_block_spec(
                position,
                samples,
                q,
            ),
        forall|q: UVec3|
            q.in_bounds(chunk_size_spec()) ==> #[trigger] b.block_at(q) == gen_block_spec(
                position,
                samples,
                q,
            ),
    ensures
        forall|q: UVec3| q.in_bounds(chunk_size_spec()) ==> a.block_at(q) == b.block_at(q),
{
}

} // verus!
