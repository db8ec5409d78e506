use vstd::prelude::*;
use vstd::pervasive::VecAdditionalExecFns;
use crate::coords::UVec3;
use crate::block::Block;
use crate::dir::DirMask;
use crate::ao::AoFaces;
use crate::grid::Structure;
use crate::grid::count_at;
use crate::grid::delinearize_at;
use crate::grid::lemma_lin_injective;
use crate::grid::lemma_lin_range;
use crate::grid::lin_index;
use crate::grid::linearize_at;
use crate::grid::size_wf;

verus! {

/// Side length of a chunk along every axis.
pub const CHUNK_SIZE: u32 = 64;

/// Cells per chunk.
pub const CHUNK_CELLS: usize = 64 * 64 * 64;

/// Everything stored for one voxel: its block kind, which of its faces
/// are eligible for rendering, and the ambient-occlusion levels of all
/// face corners.
#[derive(Clone, Copy, PartialEq, Eq, Structural, Debug)]
pub struct ChunkBlockInfo {
    pub block: Block,
    pub cull_faces: DirMask,
    pub ao: AoFaces,
}

impl ChunkBlockInfo {
    /// The default cell: never written, no faces visible, zero occlusion.
    pub open spec fn void_spec() -> ChunkBlockInfo {
        ChunkBlockInfo {
            block: Block::Void,
            cull_faces: DirMask::empty_spec(),
            ao: AoFaces::zero_spec(),
        }
    }

    pub fn void() -> (c: ChunkBlockInfo)
        ensures
            c == ChunkBlockInfo::void_spec(),
    {
        ChunkBlockInfo { block: Block::Void, cull_faces: DirMask::empty(), ao: AoFaces::zero() }
    }
}

/// The fixed 64x64x64 voxel grid: one contiguous array of cell records,
/// addressed with x varying fastest, then y, then z.
pub struct Chunk {
    data: Vec<ChunkBlockInfo>,
}

/// The size shared by all chunks.
pub open spec fn chunk_size_spec() -> UVec3 {
    UVec3 { x: 64, y: 64, z: 64 }
}

impl Chunk {
    /// The raw cell record at `position`.
    pub closed spec fn info_at(&self, position: UVec3) -> ChunkBlockInfo {
        self.data@[lin_index(position, chunk_size_spec())]
    }
}

/// Every chunk has the fixed 64x64x64 size.
pub proof fn lemma_chunk_size(c: Chunk)
    ensures
        c.size_spec() == chunk_size_spec(),
{
}

impl Structure for Chunk {
    closed spec fn size_spec(&self) -> UVec3 {
        chunk_size_spec()
    }

    closed spec fn inv(&self) -> bool {
        self.data@.len() == CHUNK_CELLS
    }

    closed spec fn block_at(&self, position: UVec3) -> Block {
        self.info_at(position).block
    }

    closed spec fn cull_at(&self, position: UVec3) -> DirMask {
        self.info_at(position).cull_faces
    }

    closed spec fn ao_at(&self, position: UVec3) -> AoFaces {
        self.info_at(position).ao
    }

    proof fn lemma_inv_size(&self) {
        assert(size_wf(chunk_size_spec()));
    }

    fn new() -> (s: Self) {
        let mut data: Vec<ChunkBlockInfo> = Vec::new();
        while data.len() < CHUNK_CELLS
            invariant
                data@.len() <= CHUNK_CELLS,
                forall|j: int|
                    0 <= j < data@.len() ==> data@[j] == ChunkBlockInfo::void_spec(),
            decreases CHUNK_CELLS - data@.len(),
        {
            data.push(ChunkBlockInfo::void());
        }
        let chunk = Chunk { data };
        proof {
            assert forall|q: UVec3| q.in_bounds(chunk.size_spec()) implies chunk.info_at(q)
                == ChunkBlockInfo::void_spec() by {
                lemma_lin_range(q, chunk_size_spec());
            }
        }
        chunk
    }

    fn size(&self) -> (s: UVec3) {
        UVec3 { x: CHUNK_SIZE, y: CHUNK_SIZE, z: CHUNK_SIZE }
    }

    fn get_block(&self, position: UVec3) -> (b: Block) {
        let index = self.linearize(position);
        self.data[index].block
    }

    fn set_block(&mut self, position: UVec3, block: Block) {
        let index = self.linearize(position);
        let mut info = self.data[index];
        info.block = block;
        self.data.set(index, info);
        proof {
            lemma_set_info_pointwise(*old(self), *self, position, index as int);
        }
    }

    fn get_cull(&self, position: UVec3) -> (m: DirMask) {
        let index = self.linearize(position);
        self.data[index].cull_faces
    }

    fn set_cull(&mut self, position: UVec3, directions: DirMask) {
        let index = self.linearize(position);
        let mut info = self.data[index];
        info.cull_faces = directions;
        self.data.set(index, info);
        proof {
            lemma_set_info_pointwise(*old(self), *self, position, index as int);
        }
    }

    fn get_ao(&self, position: UVec3) -> (a: AoFaces) {
        let index = self.linearize(position);
        self.data[index].ao
    }

    fn set_ao(&mut self, position: UVec3, ao: AoFaces) {
        let index = self.linearize(position);
        let mut info = self.data[index];
        info.ao = ao;
        self.data.set(index, info);
        proof {
            lemma_set_info_pointwise(*old(self), *self, position, index as int);
        }
    }

    fn linearize(&self, position: UVec3) -> (index: usize) {
        linearize_at(position, UVec3 { x: CHUNK_SIZE, y: CHUNK_SIZE, z: CHUNK_SIZE })
    }

    fn delinearize(&self, index: usize) -> (position: UVec3) {
        delinearize_at(index, UVec3 { x: CHUNK_SIZE, y: CHUNK_SIZE, z: CHUNK_SIZE })
    }

    fn count(&self) -> (n: usize) {
        count_at(UVec3 { x: CHUNK_SIZE, y: CHUNK_SIZE, z: CHUNK_SIZE })
    }
}

/// After writing one cell record, every other in-bounds position reads
/// the record it read before.
proof fn lemma_set_info_pointwise(pre: Chunk, post: Chunk, position: UVec3, index: int)
    requires
        pre.inv(),
        position.in_bounds(chunk_size_spec()),
        index == lin_index(position, chunk_size_spec()),
        0 <= index < pre.data@.len(),
        post.data@ == pre.data@.update(index, post.data@[index]),
    ensures
        post.inv(),
        forall|q: UVec3|
            q.in_bounds(chunk_size_spec()) && q != position ==> #[trigger] post.info_at(q)
                == pre.info_at(q),
        post.info_at(position) == post.data@[index],
{
    assert forall|q: UVec3| q.in_bounds(chunk_size_spec()) && q != position implies #[trigger] post
        .info_at(q) == pre.info_at(q) by {
        lemma_lin_range(q, chunk_size_spec());
        if lin_index(q, chunk_size_spec()) == index {
            lemma_lin_injective(q, position, chunk_size_spec());
        }
    }
}

} // verus!
