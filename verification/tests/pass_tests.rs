use voxel_terrain::ao::internal_ao;
use voxel_terrain::ao::AoQuad;
use voxel_terrain::block::Block;
use voxel_terrain::chunk::Chunk;
use voxel_terrain::coords::UVec3;
use voxel_terrain::cull::internal_cull_faces;
use voxel_terrain::dir::Dir;
use voxel_terrain::grid::Structure;
use voxel_terrain::mesh::create_structure_mesh;
use voxel_terrain::mesh::MeshColor;
use voxel_terrain::mesh::MeshVertex;

#[test]
fn cull_sets_face_iff_neighbor_is_air() {
    let mut chunk = Chunk::new();
    chunk.set_block(UVec3::new(1, 1, 1), Block::Grass);
    chunk.set_block(UVec3::new(0, 1, 1), Block::Air);
    internal_cull_faces(&mut chunk);
    let mask = chunk.get_cull(UVec3::new(1, 1, 1));
    assert!(mask.has(Dir::Left));
    // Every other neighbor is Void, which is not Air, so no other bit.
    assert!(!mask.has(Dir::Right));
    assert!(!mask.has(Dir::Down));
    assert!(!mask.has(Dir::Up));
    assert!(!mask.has(Dir::Back));
    assert!(!mask.has(Dir::Forward));
    // The Air voxel itself: neighbors are Void or Grass, nothing is Air.
    assert_eq!(chunk.get_cull(UVec3::new(0, 1, 1)).count(), 0);
}

#[test]
fn cull_never_sets_faces_toward_chunk_boundary() {
    let mut chunk = Chunk::new();
    // Fill a corner and an edge region with Air so interior bits appear,
    // then check the boundary-facing bits stay unset.
    chunk.set_block(UVec3::new(0, 0, 0), Block::Grass);
    chunk.set_block(UVec3::new(1, 0, 0), Block::Air);
    chunk.set_block(UVec3::new(0, 1, 0), Block::Air);
    chunk.set_block(UVec3::new(0, 0, 1), Block::Air);
    internal_cull_faces(&mut chunk);
    let mask = chunk.get_cull(UVec3::new(0, 0, 0));
    // In-bounds Air neighbors are drawn.
    assert!(mask.has(Dir::Right));
    assert!(mask.has(Dir::Up));
    assert!(mask.has(Dir::Forward));
    // Out-of-bounds neighbors never are, whatever lies beyond.
    assert!(!mask.has(Dir::Left));
    assert!(!mask.has(Dir::Down));
    assert!(!mask.has(Dir::Back));
    // Same at the far corner, with no Air around at all.
    assert_eq!(chunk.get_cull(UVec3::new(63, 63, 63)).count(), 0);
}

#[test]
fn ao_fully_enclosed_face_is_black() {
    let mut chunk = Chunk::new();
    chunk.set_block(UVec3::new(2, 2, 2), Block::Grass);
    // The Up face looks at (2,3,2); occupy the whole tangent plane
    // around it: four sides and four diagonals at y == 3.
    for (x, z) in [(1, 1), (1, 2), (1, 3), (2, 1), (2, 3), (3, 1), (3, 2), (3, 3)] {
        chunk.set_block(UVec3::new(x, 3, z), Block::Grass);
    }
    internal_ao(&mut chunk);
    let quad = chunk.get_ao(UVec3::new(2, 2, 2)).face(Dir::Up);
    assert_eq!(quad, AoQuad { c0: 0, c1: 0, c2: 0, c3: 0 });
}

#[test]
fn ao_fully_exposed_face_is_bright() {
    let mut chunk = Chunk::new();
    // Air everywhere around (10,10,10) up to distance 2 so nothing occludes.
    for x in 8..=12 {
        for y in 8..=12 {
            for z in 8..=12 {
                chunk.set_block(UVec3::new(x, y, z), Block::Air);
            }
        }
    }
    chunk.set_block(UVec3::new(10, 10, 10), Block::Grass);
    internal_ao(&mut chunk);
    let ao = chunk.get_ao(UVec3::new(10, 10, 10));
    for d in [Dir::Left, Dir::Right, Dir::Down, Dir::Up, Dir::Back, Dir::Forward] {
        assert_eq!(ao.face(d), AoQuad { c0: 3, c1: 3, c2: 3, c3: 3 });
    }
}

#[test]
fn mesh_of_untouched_chunk_is_empty() {
    let mut chunk = Chunk::new();
    internal_cull_faces(&mut chunk);
    internal_ao(&mut chunk);
    let mesh = create_structure_mesh(&chunk);
    assert_eq!(mesh.vertices.len(), 0);
    assert_eq!(mesh.colors.len(), 0);
    assert_eq!(mesh.normals.len(), 0);
    assert_eq!(mesh.indices.len(), 0);
}

#[test]
fn mesh_emits_nothing_for_air_voxels() {
    let mut chunk = Chunk::new();
    // An all-Air chunk has many visible faces on its masks' neighbors,
    // but Air voxels themselves never emit geometry.
    let total = chunk.count();
    for index in 0..total {
        let p = chunk.delinearize(index);
        chunk.set_block(p, Block::Air);
    }
    internal_cull_faces(&mut chunk);
    let mesh = create_structure_mesh(&chunk);
    assert_eq!(mesh.vertices.len(), 0);
    assert_eq!(mesh.indices.len(), 0);
}

#[test]
fn mesh_quad_count_matches_visibility_bits() {
    let mut chunk = Chunk::new();
    chunk.set_block(UVec3::new(5, 5, 5), Block::Grass);
    for (x, y, z) in [(4, 5, 5), (6, 5, 5), (5, 4, 5), (5, 6, 5), (5, 5, 4), (5, 5, 6)] {
        chunk.set_block(UVec3::new(x, y, z), Block::Air);
    }
    internal_cull_faces(&mut chunk);
    internal_ao(&mut chunk);
    // Count set bits over all non-Air voxels: that must be the quad count.
    let mut quads = 0usize;
    let total = chunk.count();
    for index in 0..total {
        let p = chunk.delinearize(index);
        if chunk.get_block(p) != Block::Air {
            quads += chunk.get_cull(p).count();
        }
    }
    // The Grass voxel shows 6 faces; each Air voxel is also faced by 5
    // surrounding Void voxels: 6 + 6 * 5 = 36.
    assert_eq!(quads, 36);
    let mesh = create_structure_mesh(&chunk);
    assert_eq!(mesh.vertices.len(), 4 * quads);
    assert_eq!(mesh.colors.len(), 4 * quads);
    assert_eq!(mesh.normals.len(), 4 * quads);
    assert_eq!(mesh.indices.len(), 6 * quads);
}

#[test]
fn mesh_vertices_colors_and_indices_exact() {
    let mut chunk = Chunk::new();
    chunk.set_block(UVec3::new(0, 0, 0), Block::Grass);
    chunk.set_block(UVec3::new(1, 0, 0), Block::Air);
    internal_cull_faces(&mut chunk);
    internal_ao(&mut chunk);
    let mesh = create_structure_mesh(&chunk);
    // Quads: Grass (0,0,0) right face, and the Void voxels (2,0,0),
    // (1,1,0), (1,0,1) each face the Air cell: 4 quads.
    assert_eq!(mesh.vertices.len(), 16);
    assert_eq!(mesh.indices.len(), 24);
    // Voxel (0,0,0) comes first in storage order; its Right face spans
    // the x == 1 plane of the unit cube.
    assert_eq!(mesh.vertices[0], MeshVertex { x: 1, y: 0, z: 0 });
    assert_eq!(mesh.vertices[1], MeshVertex { x: 1, y: 0, z: 1 });
    assert_eq!(mesh.vertices[2], MeshVertex { x: 1, y: 1, z: 1 });
    assert_eq!(mesh.vertices[3], MeshVertex { x: 1, y: 1, z: 0 });
    // Right is an odd face: winding 0,3,1 1,3,2 from base 0.
    assert_eq!(&mesh.indices[0..6], &[0, 3, 1, 1, 3, 2]);
    // Normals repeat +x for the whole face.
    for k in 0..4 {
        assert_eq!(mesh.normals[k].x, 1);
        assert_eq!(mesh.normals[k].y, 0);
        assert_eq!(mesh.normals[k].z, 0);
    }
    // AO of that face: sides (1,1,0),(1,0,1) are Void (occupied),
    // (1,-1,0),(1,0,-1) out of bounds; diagonal (1,1,1) occupied.
    // Corner levels come out (0,2,3,2), and vertex order takes
    // c2,c1,c0,c3: levels 3,2,0,2 on Grass (0,600,90,1000).
    assert_eq!(mesh.colors[0], MeshColor { r: 0, g: 1800, b: 270, a: 3000 });
    assert_eq!(mesh.colors[1], MeshColor { r: 0, g: 1200, b: 180, a: 3000 });
    assert_eq!(mesh.colors[2], MeshColor { r: 0, g: 0, b: 0, a: 3000 });
    assert_eq!(mesh.colors[3], MeshColor { r: 0, g: 1200, b: 180, a: 3000 });
}
