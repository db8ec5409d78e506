use voxel_terrain::coords::IVec3;
use voxel_terrain::world::chunk_coord_of;
use voxel_terrain::world::World;
use voxel_terrain::world::INTEGRATE_CAP;

fn coords_of(jobs: &[IVec3]) -> Vec<(i32, i32, i32)> {
    jobs.iter().map(|c| (c.x, c.y, c.z)).collect()
}

#[test]
fn first_load_requests_the_full_neighborhood() {
    let mut world = World::new(2);
    let jobs = world.load(IVec3::new(0, 0, 0));
    // x and z within radius 2, y fixed to 0..=2: 5 * 5 * 3 coordinates.
    assert_eq!(jobs.len(), 75);
    let got = coords_of(&jobs);
    assert!(got.contains(&(0, 0, 0)));
    assert!(got.contains(&(2, 2, 2)));
    assert!(got.contains(&(-2, 0, -2)));
    assert!(got.contains(&(1, 1, -1)));
    assert!(!got.contains(&(3, 0, 0)));
    assert!(!got.contains(&(0, 3, 0)));
    assert!(!got.contains(&(0, -1, 0)));
    assert_eq!(world.loaded.len(), 75);
    assert_eq!(world.pending.len(), 75);
}

#[test]
fn moving_the_origin_requests_exactly_the_new_strip() {
    let mut world = World::new(2);
    let first = world.load(IVec3::new(0, 0, 0));
    assert_eq!(first.len(), 75);
    let second = world.load(IVec3::new(1, 0, 0));
    // Required around (1,0,0): x in [-1,3]; only the x == 3 strip is new.
    assert_eq!(second.len(), 15);
    for c in &second {
        assert_eq!(c.x, 3);
        assert!((0..=2).contains(&c.y));
        assert!((-2..=2).contains(&c.z));
    }
    // Nothing is ever unloaded.
    assert_eq!(world.loaded.len(), 90);
    assert_eq!(world.pending.len(), 90);
}

#[test]
fn unchanged_origin_does_no_streaming_work() {
    let mut world = World::new(2);
    let first = world.load(IVec3::new(0, 0, 0));
    assert_eq!(first.len(), 75);
    let again = world.load(IVec3::new(0, 0, 0));
    assert_eq!(again.len(), 0);
    assert_eq!(world.loaded.len(), 75);
    assert_eq!(world.pending.len(), 75);
}

#[test]
fn integration_is_capped_per_tick() {
    let mut world = World::new(2);
    let jobs = world.load(IVec3::new(0, 0, 0));
    assert!(jobs.len() > INTEGRATE_CAP);
    // Every job claims to be finished; only the cap may integrate.
    let finished = vec![true; world.pending.len()];
    let picked = world.integrate_finished(&finished);
    assert_eq!(picked.len(), INTEGRATE_CAP);
    assert_eq!(picked, vec![0, 1, 2]);
    assert_eq!(world.pending.len(), 75 - INTEGRATE_CAP);
    // The survivors keep their submission order.
    let finished = vec![true; world.pending.len()];
    let picked = world.integrate_finished(&finished);
    assert_eq!(picked, vec![0, 1, 2]);
    assert_eq!(world.pending.len(), 75 - 2 * INTEGRATE_CAP);
}

#[test]
fn integration_skips_unfinished_jobs_in_order() {
    let pending: Vec<IVec3> = (0..6).map(|i| IVec3::new(i, 0, 0)).collect();
    let mut world = World {
        view: 2,
        origin: IVec3::new(0, 0, 0),
        loaded: pending.clone(),
        mapping: Vec::new(),
        pending,
    };
    let finished = vec![false, true, false, true, true, true];
    let picked = world.integrate_finished(&finished);
    // The first three finished jobs, by submission order.
    assert_eq!(picked, vec![1, 3, 4]);
    // Unfinished and over-cap jobs carry over, order preserved.
    let kept: Vec<i32> = world.pending.iter().map(|c| c.x).collect();
    assert_eq!(kept, vec![0, 2, 5]);
}

#[test]
fn record_entity_keeps_the_association() {
    let mut world = World::new(1);
    world.record_entity(IVec3::new(4, 0, -1), 17);
    world.record_entity(IVec3::new(0, 1, 0), 99);
    assert_eq!(world.mapping.len(), 2);
    assert_eq!(world.mapping[0].1, 17);
    assert_eq!(world.mapping[1].0.x, 0);
    assert_eq!(world.mapping[1].1, 99);
}

#[test]
fn failed_job_frees_its_coordinate_for_retry() {
    let mut world = World::new(2);
    world.load(IVec3::new(0, 0, 0));
    let victim = world.pending[10];
    let coord = world.job_failed(10);
    assert_eq!(coord, victim);
    assert_eq!(world.pending.len(), 74);
    assert_eq!(world.loaded.len(), 74);
    assert!(!world.loaded.contains(&coord));
    assert!(!world.pending.contains(&coord));
    // A later tick may request the coordinate again: force a reload by
    // moving away and back.
    world.load(IVec3::new(100, 0, 100));
    let jobs = world.load(IVec3::new(0, 0, 0));
    assert!(jobs.contains(&coord));
}

#[test]
fn chunk_coordinate_uses_floor_division() {
    let c = chunk_coord_of(0, 63, 64);
    assert_eq!((c.x, c.y, c.z), (0, 0, 1));
    let c = chunk_coord_of(128, -1, -64);
    assert_eq!((c.x, c.y, c.z), (2, -1, -1));
    let c = chunk_coord_of(-65, -128, 6400);
    assert_eq!((c.x, c.y, c.z), (-2, -2, 100));
}
