use voxel_terrain::block::Block;
use voxel_terrain::chunk::Chunk;
use voxel_terrain::coords::IVec3;
use voxel_terrain::coords::UVec3;
use voxel_terrain::gen::gen_chunk;
use voxel_terrain::gen::SAMPLE_COUNT;
use voxel_terrain::grid::Structure;

fn varied_samples() -> Vec<i64> {
    // A fixed, irregular lattice standing in for sampled noise,
    // in millionths, within a couple of units either way.
    let mut samples = Vec::new();
    for i in 0..SAMPLE_COUNT {
        let v = ((i as i64 * 7919 + 131) % 4001) - 2000;
        samples.push(v * 1000);
    }
    samples
}

#[test]
fn generation_is_deterministic() {
    let samples = varied_samples();
    let position = IVec3::new(0, 0, 0);
    let a = gen_chunk(position, &samples);
    let b = gen_chunk(position, &samples);
    let total = a.count();
    for index in 0..total {
        let p = a.delinearize(index);
        assert_eq!(a.get_block(p), b.get_block(p));
    }
}

#[test]
fn generation_fills_every_voxel_with_grass_or_air() {
    let samples = varied_samples();
    let chunk = gen_chunk(IVec3::new(1, 0, -2), &samples);
    let total = chunk.count();
    let mut grass = 0usize;
    let mut air = 0usize;
    for index in 0..total {
        let p = chunk.delinearize(index);
        match chunk.get_block(p) {
            Block::Grass => grass += 1,
            Block::Air => air += 1,
            _ => panic!("generator produced a block it never assigns"),
        }
    }
    assert_eq!(grass + air, total);
    assert!(grass > 0);
    assert!(air > 0);
}

#[test]
fn zero_density_surface_sits_at_height_32() {
    // With a flat zero noise field only the height bias decides:
    // positive below world height 32, zero or negative above.
    let samples = vec![0i64; SAMPLE_COUNT];
    let chunk = gen_chunk(IVec3::new(0, 0, 0), &samples);
    for y in 0..64u32 {
        let expected = if y < 32 { Block::Grass } else { Block::Air };
        assert_eq!(chunk.get_block(UVec3::new(7, y, 23)), expected);
    }
}

#[test]
fn unit_density_raises_the_surface() {
    // A constant density of 1.0 (one million millionths) outweighs the
    // bias while 4096000000 + (32 - y) * 143360000 > 0, i.e. up to and
    // including y == 60.
    let samples = vec![1_000_000i64; SAMPLE_COUNT];
    let chunk = gen_chunk(IVec3::new(0, 0, 0), &samples);
    for y in 0..64u32 {
        let expected = if y <= 60 { Block::Grass } else { Block::Air };
        assert_eq!(chunk.get_block(UVec3::new(0, y, 0)), expected);
    }
}

#[test]
fn chunk_y_offset_shifts_the_band() {
    // The bias uses world height chunk_y * 64 + y: one chunk up, all
    // heights sit above the zero-noise surface.
    let samples = vec![0i64; SAMPLE_COUNT];
    let above = gen_chunk(IVec3::new(0, 1, 0), &samples);
    let below = gen_chunk(IVec3::new(0, -1, 0), &samples);
    for y in 0..64u32 {
        assert_eq!(above.get_block(UVec3::new(3, y, 3)), Block::Air);
        assert_eq!(below.get_block(UVec3::new(3, y, 3)), Block::Grass);
    }
}

#[test]
fn generated_chunk_has_no_masks_or_ao_yet() {
    let samples = varied_samples();
    let chunk = gen_chunk(IVec3::new(0, 0, 0), &samples);
    for p in [UVec3::new(0, 0, 0), UVec3::new(31, 12, 63)] {
        assert_eq!(chunk.get_cull(p).count(), 0);
        let ao = chunk.get_ao(p);
        assert_eq!(ao.left.c0, 0);
        assert_eq!(ao.forward.c3, 0);
    }
}

#[test]
fn trilinear_interpolation_blends_between_lattice_corners() {
    // One hot lattice corner at the origin, otherwise zero: density
    // fades linearly with distance inside the first cell. At the corner
    // itself density is 4.0; far from it, only the bias is left.
    let mut samples = vec![0i64; SAMPLE_COUNT];
    samples[0] = 4_000_000;
    let chunk = gen_chunk(IVec3::new(0, 0, 0), &samples);
    // At (0,33,0)? The corner weight vanishes beyond the first cell on
    // any axis, so pick heights just above the bias surface inside it.
    // At (0,33,0) the corner sample is two lattice rows up: weight 0.
    // Density 0, bias (32-33)*0.035 < 0: Air.
    assert_eq!(chunk.get_block(UVec3::new(0, 33, 0)), Block::Air);
    // At (0,0,0) weight 1: density 4.0 plus positive bias: Grass.
    assert_eq!(chunk.get_block(UVec3::new(0, 0, 0)), Block::Grass);
    // At (8,0,8) the weight is (8/16)*(16/16)*(8/16) = 1/4: density 1.0,
    // bias (32-0)*0.035 = 1.12: Grass.
    assert_eq!(chunk.get_block(UVec3::new(8, 0, 8)), Block::Grass);
    // At (15,40,15) weight is tiny and bias strongly negative: Air.
    assert_eq!(chunk.get_block(UVec3::new(15, 40, 15)), Block::Air);
}
