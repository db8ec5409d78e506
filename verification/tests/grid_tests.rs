use voxel_terrain::ao::AoFaces;
use voxel_terrain::ao::AoQuad;
use voxel_terrain::block::Block;
use voxel_terrain::block::Rgba;
use voxel_terrain::chunk::Chunk;
use voxel_terrain::chunk::CHUNK_CELLS;
use voxel_terrain::coords::UVec3;
use voxel_terrain::dir::Dir;
use voxel_terrain::dir::DirMask;
use voxel_terrain::grid::Structure;

#[test]
fn linearize_order_is_x_fastest() {
    let chunk = Chunk::new();
    assert_eq!(chunk.linearize(UVec3::new(0, 0, 0)), 0);
    assert_eq!(chunk.linearize(UVec3::new(1, 0, 0)), 1);
    assert_eq!(chunk.linearize(UVec3::new(0, 1, 0)), 64);
    assert_eq!(chunk.linearize(UVec3::new(0, 0, 1)), 64 * 64);
    assert_eq!(chunk.linearize(UVec3::new(63, 63, 63)), 64 * 64 * 64 - 1);
}

#[test]
fn delinearize_round_trip() {
    let chunk = Chunk::new();
    for index in [0usize, 1, 63, 64, 65, 4095, 4096, 100_000, 262_143] {
        let p = chunk.delinearize(index);
        assert!(p.x < 64 && p.y < 64 && p.z < 64);
        assert_eq!(chunk.linearize(p), index);
    }
    assert_eq!(chunk.delinearize(1), UVec3::new(1, 0, 0));
    assert_eq!(chunk.delinearize(64), UVec3::new(0, 1, 0));
    assert_eq!(chunk.delinearize(4096), UVec3::new(0, 0, 1));
    assert_eq!(chunk.delinearize(4096 + 64 + 1), UVec3::new(1, 1, 1));
}

#[test]
fn count_matches_dimensions() {
    let chunk = Chunk::new();
    assert_eq!(chunk.count(), CHUNK_CELLS);
    assert_eq!(chunk.size(), UVec3::new(64, 64, 64));
}

#[test]
fn fresh_chunk_is_void_everywhere() {
    let chunk = Chunk::new();
    for p in [
        UVec3::new(0, 0, 0),
        UVec3::new(63, 63, 63),
        UVec3::new(17, 42, 9),
    ] {
        assert_eq!(chunk.get_block(p), Block::Void);
        assert_eq!(chunk.get_cull(p), DirMask::empty());
        assert_eq!(chunk.get_ao(p), AoFaces::zero());
    }
}

#[test]
fn set_and_get_roundtrip() {
    let mut chunk = Chunk::new();
    let p = UVec3::new(5, 6, 7);
    chunk.set_block(p, Block::Grass);
    assert_eq!(chunk.get_block(p), Block::Grass);
    assert_eq!(chunk.get_block(UVec3::new(6, 6, 7)), Block::Void);
    let mask = DirMask { left: true, right: false, down: true, up: false, back: false, forward: true };
    chunk.set_cull(p, mask);
    assert_eq!(chunk.get_cull(p), mask);
    let quad = AoQuad { c0: 1, c1: 2, c2: 3, c3: 0 };
    let mut ao = AoFaces::zero();
    ao.up = quad;
    chunk.set_ao(p, ao);
    assert_eq!(chunk.get_ao(p).face(Dir::Up), quad);
    assert_eq!(chunk.get_block(p), Block::Grass);
}

#[test]
fn block_colors_are_fixed() {
    assert_eq!(Block::Void.color(), Rgba { r: 1000, g: 0, b: 1000, a: 1000 });
    assert_eq!(Block::Stone.color(), Rgba { r: 400, g: 400, b: 400, a: 1000 });
    assert_eq!(Block::Grass.color(), Rgba { r: 0, g: 600, b: 90, a: 1000 });
    assert_eq!(Block::Air.color(), Rgba { r: 0, g: 0, b: 0, a: 0 });
}

#[test]
fn direction_opposites_pair_up() {
    assert_eq!(Dir::Left.opposite(), Dir::Right);
    assert_eq!(Dir::Right.opposite(), Dir::Left);
    assert_eq!(Dir::Down.opposite(), Dir::Up);
    assert_eq!(Dir::Up.opposite(), Dir::Down);
    assert_eq!(Dir::Back.opposite(), Dir::Forward);
    assert_eq!(Dir::Forward.opposite(), Dir::Back);
    for d in [Dir::Left, Dir::Right, Dir::Down, Dir::Up, Dir::Back, Dir::Forward] {
        assert_eq!(d.opposite().opposite(), d);
    }
}

#[test]
fn direction_indices_and_offsets() {
    let dirs = [Dir::Left, Dir::Right, Dir::Down, Dir::Up, Dir::Back, Dir::Forward];
    for (i, d) in dirs.iter().enumerate() {
        assert_eq!(d.index(), i);
    }
    let o = Dir::Left.offset();
    assert_eq!((o.x, o.y, o.z), (-1, 0, 0));
    let o = Dir::Up.offset();
    assert_eq!((o.x, o.y, o.z), (0, 1, 0));
    let o = Dir::Forward.offset();
    assert_eq!((o.x, o.y, o.z), (0, 0, 1));
    // Tangent axes are the two axes perpendicular to the face normal.
    let t1 = Dir::Up.tangent1();
    let t2 = Dir::Up.tangent2();
    assert_eq!((t1.x, t1.y, t1.z), (0, 0, 1));
    assert_eq!((t2.x, t2.y, t2.z), (1, 0, 0));
}

#[test]
fn mask_count_and_has() {
    let empty = DirMask::empty();
    assert_eq!(empty.count(), 0);
    assert!(!empty.has(Dir::Left));
    let m = DirMask { left: true, right: true, down: false, up: true, back: false, forward: false };
    assert_eq!(m.count(), 3);
    assert!(m.has(Dir::Left) && m.has(Dir::Right) && m.has(Dir::Up));
    assert!(!m.has(Dir::Down) && !m.has(Dir::Back) && !m.has(Dir::Forward));
}
