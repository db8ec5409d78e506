use vstd::prelude::*;
use vstd::arithmetic::div_mod::lemma_fundamental_div_mod;
use vstd::arithmetic::div_mod::lemma_fundamental_div_mod_converse;
use crate::coords::IVec3;

verus! {

broadcast use vstd::seq_lib::group_seq_properties;

/// Most finished generation jobs one tick may integrate; the rest are
/// carried over unexamined, in submission order.
pub const INTEGRATE_CAP: usize = 3;

/// Whether chunk coordinate `c` is required around origin `o` with view
/// radius `r`: within `r` (inclusive) on x and z, and inside the fixed
/// vertical band y in 0..=2 — terrain is not streamed indefinitely
/// upward or downward.
pub open spec fn in_required(c: IVec3, o: IVec3, r: int) -> bool {
    &&& o.x - r <= c.x <= o.x + r
    &&& 0 <= c.y <= 2
    &&& o.z - r <= c.z <= o.z + r
}

/// The indices of the finished jobs a tick integrates, scanning flags
/// from position `i` with `cap` integrations left: the first `cap` set
/// flags, in order.
pub open spec fn plan_spec(flags: Seq<bool>, i: int, cap: int) -> Seq<int>
    decreases flags.len() - i,
{
    if i < 0 || i >= flags.len() || cap <= 0 {
        Seq::empty()
    } else if flags[i] {
        seq![i] + plan_spec(flags, i + 1, cap - 1)
    } else {
        plan_spec(flags, i + 1, cap)
    }
}

/// The pending jobs a tick carries over, in submission order: every job
/// except the ones `plan_spec` integrates.
pub open spec fn kept_spec(pending: Seq<IVec3>, flags: Seq<bool>, i: int, cap: int) -> Seq<IVec3>
    decreases flags.len() - i,
{
    if i < 0 || i >= flags.len() {
        Seq::empty()
    } else if cap > 0 && flags[i] {
        kept_spec(pending, flags, i + 1, cap - 1)
    } else {
        seq![pending[i]] + kept_spec(pending, flags, i + 1, cap)
    }
}

/// One tick never integrates more than `cap` jobs.
pub proof fn lemma_plan_capped(flags: Seq<bool>, i: int, cap: int)
    requires
        cap >= 0,
    ensures
        plan_spec(flags, i, cap).len() <= cap,
    decreases flags.len() - i,
{
    if 0 <= i < flags.len() && cap > 0 {
        if flags[i] {
            lemma_plan_capped(flags, i + 1, cap - 1);
        } else {
            lemma_plan_capped(flags, i + 1, cap);
        }
    }
}

/// Streaming state: the view radius, the chunk coordinate of the
/// viewer, the set of coordinates ever requested (it only grows), the
/// coordinate-to-entity record of integrated chunks, and the
/// coordinates of in-flight generation jobs in submission order.
pub struct World {
    pub view: u32,
    pub origin: IVec3,
    pub loaded: Vec<IVec3>,
    pub mapping: Vec<(IVec3, u64)>,
    pub pending: Vec<IVec3>,
}

impl World {
    /// `loaded` is a set: no coordinate is recorded twice.
    pub open spec fn inv(self) -> bool {
        forall|a: int, b: int|
            0 <= a < b < self.loaded@.len() ==> self.loaded@[a] != self.loaded@[b]
    }

    /// A fresh manager: nothing loaded, nothing pending, and an origin
    /// sentinel that no viewer position maps to, so the first tick
    /// always streams.
    pub fn new(view: u32) -> (w: World)
        ensures
            w.inv(),
            w.view == view,
            w.origin == (IVec3 { x: i32::MAX, y: 0, z: 0 }),
            w.loaded@.len() == 0,
            w.mapping@.len() == 0,
            w.pending@.len() == 0,
    {
        World {
            view,
            origin: IVec3 { x: i32::MAX, y: 0, z: 0 },
            loaded: Vec::new(),
            mapping: Vec::new(),
            pending: Vec::new(),
        }
    }

    /// Records the render entity created for an integrated chunk.
    pub fn record_entity(&mut self, position: IVec3, entity: u64)
        requires
            old(self).inv(),
        ensures
            final(self).inv(),
            final(self).mapping@ == old(self).mapping@.push((position, entity)),
            final(self).view == old(self).view,
            final(self).origin == old(self).origin,
            final(self).loaded@ == old(self).loaded@,
            final(self).pending@ == old(self).pending@,
    {
        self.mapping.push((position, entity));
    }
}

/// Whether `v` holds `c`.
fn contains_coord(v: &Vec<IVec3>, c: IVec3) -> (b: bool)
    ensures
        b == v@.contains(c),
{
    let mut k: usize = 0;
    while k < v.len()
        invariant
            k <= v@.len(),
            forall|i: int| 0 <= i < k ==> v@[i] != c,
        decreases v@.len() - k,
    {
        if v[k] == c {
            return true;
        }
        k = k + 1;
    }
    false
}

impl World {
    /// The per-tick load step. When the viewer's chunk coordinate has
    /// not changed, nothing happens. Otherwise the origin moves, and
    /// every required coordinate (within the view radius on x and z,
    /// vertical band y in 0..=2) that was never loaded is marked loaded,
    /// queued as a pending job, and returned for submission — exactly
    /// those, each once.
    pub fn load(&mut self, viewer: IVec3) -> (jobs: Vec<IVec3>)
        requires
            old(self).inv(),
            old(self).view <= 0x10000000,
            -0x40000000 <= viewer.x <= 0x40000000,
            -0x40000000 <= viewer.z <= 0x40000000,
        ensures
            final(self).inv(),
            final(self).view == old(self).view,
            final(self).mapping@ == old(self).mapping@,
            viewer == old(self).origin ==> {
                &&& final(self).origin == old(self).origin
                &&& final(self).loaded@ == old(self).loaded@
                &&& final(self).pending@ == old(self).pending@
                &&& jobs@.len() == 0
            },
            viewer != old(self).origin ==> {
                &&& final(self).origin == viewer
                &&& final(self).loaded@ == old(self).loaded@ + jobs@
                &&& final(self).pending@ == old(self).pending@ + jobs@
                &&& forall|c: IVec3|
                    #[trigger] jobs@.contains(c) <==> (in_required(
                        c,
                        viewer,
                        old(self).view as int,
                    ) && !old(self).loaded@.contains(c))
                &&& forall|a: int, b: int| 0 <= a < b < jobs@.len() ==> jobs@[a] != jobs@[b]
            },
    {
        if viewer == self.origin {
            let jobs: Vec<IVec3> = Vec::new();
            return jobs;
        }
        self.origin = viewer;
        let ghost l0 = self.loaded@;
        let ghost p0 = self.pending@;
        let ghost r = self.view as int;
        let view = self.view as i64;
        let mut jobs: Vec<IVec3> = Vec::new();
        let mut dx: i64 = -view;
        while dx <= view
            invariant
                self.inv(),
                self.view == old(self).view,
                self.mapping@ == old(self).mapping@,
                self.origin == viewer,
                r == old(self).view as int,
                view == r,
                0 <= r <= 0x10000000,
                -0x40000000 <= viewer.x <= 0x40000000,
                -0x40000000 <= viewer.z <= 0x40000000,
                l0 == old(self).loaded@,
                p0 == old(self).pending@,
                -view <= dx <= view + 1,
                self.loaded@ == l0 + jobs@,
                self.pending@ == p0 + jobs@,
                forall|a: int, b: int| 0 <= a < b < jobs@.len() ==> jobs@[a] != jobs@[b],
                forall|c: IVec3|
                    #[trigger] jobs@.contains(c) <==> (in_required(c, viewer, r) && !l0.contains(
                        c,
                    ) && c.x - viewer.x < dx),
            decreases view + 1 - dx,
        {
            let mut y: i32 = 0;
            while y <= 2
                invariant
                    self.inv(),
                    self.view == old(self).view,
                    self.mapping@ == old(self).mapping@,
                    self.origin == viewer,
                    r == old(self).view as int,
                    view == r,
                    0 <= r <= 0x10000000,
                    -0x40000000 <= viewer.x <= 0x40000000,
                    -0x40000000 <= viewer.z <= 0x40000000,
                    l0 == old(self).loaded@,
                    p0 == old(self).pending@,
                    -view <= dx <= view,
                    0 <= y <= 3,
                    self.loaded@ == l0 + jobs@,
                    self.pending@ == p0 + jobs@,
                    forall|a: int, b: int| 0 <= a < b < jobs@.len() ==> jobs@[a] != jobs@[b],
                    forall|c: IVec3|
                        #[trigger] jobs@.contains(c) <==> (in_required(c, viewer, r)
                            && !l0.contains(c) && (c.x - viewer.x < dx || (c.x - viewer.x == dx
                            && c.y < y))),
                decreases 3 - y,
            {
                let mut dz: i64 = -view;
                while dz <= view
                    invariant
                        self.inv(),
                        self.view == old(self).view,
                        self.mapping@ == old(self).mapping@,
                        self.origin == viewer,
                        r == old(self).view as int,
                        view == r,
                        0 <= r <= 0x10000000,
                        -0x40000000 <= viewer.x <= 0x40000000,
                        -0x40000000 <= viewer.z <= 0x40000000,
                        l0 == old(self).loaded@,
                        p0 == old(self).pending@,
                        -view <= dx <= view,
                        0 <= y <= 2,
                        -view <= dz <= view + 1,
                        self.loaded@ == l0 + jobs@,
                        self.pending@ == p0 + jobs@,
                        forall|a: int, b: int| 0 <= a < b < jobs@.len() ==> jobs@[a] != jobs@[b],
                        forall|c: IVec3|
                            #[trigger] jobs@.contains(c) <==> (in_required(c, viewer, r)
                                && !l0.contains(c) && (c.x - viewer.x < dx || (c.x - viewer.x
                                == dx && (c.y < y || (c.y == y && c.z - viewer.z < dz))))),
                    decreases view + 1 - dz,
                {
                    let cx = viewer.x as i64 + dx;
                    let cz = viewer.z as i64 + dz;
                    let c = IVec3 { x: cx as i32, y, z: cz as i32 };
                    if !contains_coord(&self.loaded, c) {
                        jobs.push(c);
                        self.loaded.push(c);
                        self.pending.push(c);
                    }
                    dz = dz + 1;
                }
                y = y + 1;
            }
            dx = dx + 1;
        }
        jobs
    }
}

/// Floor division by the chunk side length.
fn div_floor_64(w: i64) -> (q: i64)
    ensures
        q == (w as int) / 64,
{
    if w >= 0 {
        let q = ((w as u64) / 64) as i64;
        q
    } else {
        let n = ((-(w + 1)) as u64) / 64;
        let q = -1 - (n as i64);
        proof {
            let wi = w as int;
            let ni = n as int;
            lemma_fundamental_div_mod(-wi - 1, 64);
            let rp = (-wi - 1) % 64;
            lemma_fundamental_div_mod_converse(wi, 64, -1 - ni, 63 - rp);
        }
        q
    }
}

/// The chunk coordinate containing the integer world position
/// `(x, y, z)`: floor division of each component by the chunk side.
pub fn chunk_coord_of(x: i64, y: i64, z: i64) -> (c: IVec3)
    requires
        -0x2000000000 <= x < 0x2000000000,
        -0x2000000000 <= y < 0x2000000000,
        -0x2000000000 <= z < 0x2000000000,
    ensures
        c.x == (x as int) / 64,
        c.y == (y as int) / 64,
        c.z == (z as int) / 64,
{
    proof {
        vstd::arithmetic::div_mod::lemma_div_is_ordered(-0x2000000000, x as int, 64);
        vstd::arithmetic::div_mod::lemma_div_is_ordered(x as int, 0x1fffffffff, 64);
        vstd::arithmetic::div_mod::lemma_div_is_ordered(-0x2000000000, y as int, 64);
        vstd::arithmetic::div_mod::lemma_div_is_ordered(y as int, 0x1fffffffff, 64);
        vstd::arithmetic::div_mod::lemma_div_is_ordered(-0x2000000000, z as int, 64);
        vstd::arithmetic::div_mod::lemma_div_is_ordered(z as int, 0x1fffffffff, 64);
    }
    IVec3 { x: div_floor_64(x) as i32, y: div_floor_64(y) as i32, z: div_floor_64(z) as i32 }
}

impl World {
    /// The per-tick integration step. `finished` flags, in submission
    /// order, which pending jobs have completed. At most `INTEGRATE_CAP`
    /// finished jobs — the earliest-submitted ones — are taken out of
    /// the pending queue and their indices returned for meshing and
    /// entity creation; every other job, finished or not, is carried
    /// over in order.
    pub fn integrate_finished(&mut self, finished: &Vec<bool>) -> (picked: Vec<usize>)
        requires
            old(self).inv(),
            finished@.len() == old(self).pending@.len(),
        ensures
            final(self).inv(),
            final(self).view == old(self).view,
            final(self).origin == old(self).origin,
            final(self).loaded@ == old(self).loaded@,
            final(self).mapping@ == old(self).mapping@,
            picked@.map_values(|u: usize| u as int) == plan_spec(
                finished@,
                0,
                INTEGRATE_CAP as int,
            ),
            picked@.len() <= INTEGRATE_CAP,
            forall|k: int|
                0 <= k < picked@.len() ==> #[trigger] picked@[k] < old(self).pending@.len()
                    && finished@[picked@[k] as int],
            final(self).pending@ == kept_spec(
                old(self).pending@,
                finished@,
                0,
                INTEGRATE_CAP as int,
            ),
    {
        let ghost p0 = self.pending@;
        let ghost full_plan = plan_spec(finished@, 0, INTEGRATE_CAP as int);
        let ghost full_kept = kept_spec(p0, finished@, 0, INTEGRATE_CAP as int);
        let mut picked: Vec<usize> = Vec::new();
        let mut kept: Vec<IVec3> = Vec::new();
        let mut used: usize = 0;
        let mut i: usize = 0;
        while i < finished.len()
            invariant
                self.inv(),
                self.view == old(self).view,
                self.origin == old(self).origin,
                self.loaded@ == old(self).loaded@,
                self.mapping@ == old(self).mapping@,
                self.pending@ == p0,
                p0 == old(self).pending@,
                finished@.len() == p0.len(),
                i <= finished@.len(),
                used <= INTEGRATE_CAP,
                used == picked@.len(),
                forall|k: int|
                    0 <= k < picked@.len() ==> #[trigger] picked@[k] < i && finished@[picked@[k] as int],
                picked@.map_values(|u: usize| u as int) + plan_spec(
                    finished@,
                    i as int,
                    INTEGRATE_CAP - used,
                ) == full_plan,
                kept@ + kept_spec(p0, finished@, i as int, INTEGRATE_CAP - used) == full_kept,
                full_plan == plan_spec(finished@, 0, INTEGRATE_CAP as int),
                full_kept == kept_spec(p0, finished@, 0, INTEGRATE_CAP as int),
            decreases finished@.len() - i,
        {
            let flag = finished[i];
            if used < INTEGRATE_CAP && flag {
                proof {
                    assert(plan_spec(finished@, i as int, INTEGRATE_CAP - used) == seq![i as int]
                        + plan_spec(finished@, i + 1, INTEGRATE_CAP - used - 1));
                    assert(kept_spec(p0, finished@, i as int, INTEGRATE_CAP - used) == kept_spec(
                        p0,
                        finished@,
                        i + 1,
                        INTEGRATE_CAP - used - 1,
                    ));
                }
                let ghost pre = picked@;
                picked.push(i);
                used = used + 1;
                proof {
                    assert(picked@.map_values(|u: usize| u as int) =~= pre.map_values(
                        |u: usize| u as int,
                    ).push(i as int));
                    assert(pre.map_values(|u: usize| u as int).push(i as int) + plan_spec(
                        finished@,
                        i + 1,
                        INTEGRATE_CAP - used,
                    ) =~= pre.map_values(|u: usize| u as int) + (seq![i as int] + plan_spec(
                        finished@,
                        i + 1,
                        INTEGRATE_CAP - used,
                    )));
                }
            } else {
                proof {
                    assert(kept_spec(p0, finished@, i as int, INTEGRATE_CAP - used) == seq![
                        p0[i as int],
                    ] + kept_spec(p0, finished@, i + 1, INTEGRATE_CAP - used));
                    assert(plan_spec(finished@, i as int, INTEGRATE_CAP - used) == plan_spec(
                        finished@,
                        i + 1,
                        INTEGRATE_CAP - used,
                    ));
                }
                let ghost kpre = kept@;
                let coord = self.pending[i];
                kept.push(coord);
                proof {
                    assert(kpre.push(p0[i as int]) + kept_spec(
                        p0,
                        finished@,
                        i + 1,
                        INTEGRATE_CAP - used,
                    ) =~= kpre + (seq![p0[i as int]] + kept_spec(
                        p0,
                        finished@,
                        i + 1,
                        INTEGRATE_CAP - used,
                    )));
                }
            }
            i = i + 1;
        }
        proof {
            assert(plan_spec(finished@, i as int, INTEGRATE_CAP - used) == Seq::<int>::empty());
            assert(kept_spec(p0, finished@, i as int, INTEGRATE_CAP - used) == Seq::<
                IVec3,
            >::empty());
            assert(picked@.map_values(|u: usize| u as int) + Seq::<int>::empty() =~= picked@
                .map_values(|u: usize| u as int));
            assert(kept@ + Seq::<IVec3>::empty() =~= kept@);
        }
        self.pending = kept;
        picked
    }

    /// A failed generation job, reported distinctly from "not yet
    /// finished": the job leaves the pending queue and its coordinate
    /// leaves `loaded`, so a later tick may request it again.
    pub fn job_failed(&mut self, index: usize) -> (coord: IVec3)
        requires
            old(self).inv(),
            index < old(self).pending@.len(),
        ensures
            final(self).inv(),
            final(self).view == old(self).view,
            final(self).origin == old(self).origin,
            final(self).mapping@ == old(self).mapping@,
            coord == old(self).pending@[index as int],
            final(self).pending@ == old(self).pending@.remove(index as int),
            forall|c: IVec3|
                #[trigger] final(self).loaded@.contains(c) <==> (old(self).loaded@.contains(c)
                    && c != coord),
    {
        let coord = self.pending.remove(index);
        let ghost l0 = self.loaded@;
        let mut kept_loaded: Vec<IVec3> = Vec::new();
        let mut k: usize = 0;
        while k < self.loaded.len()
            invariant
                self.loaded@ == l0,
                k <= l0.len(),
                forall|a: int, b: int| 0 <= a < b < l0.len() ==> l0[a] != l0[b],
                forall|a: int, b: int|
                    0 <= a < b < kept_loaded@.len() ==> kept_loaded@[a] != kept_loaded@[b],
                forall|c: IVec3|
                    #[trigger] kept_loaded@.contains(c) <==> (l0.take(k as int).contains(c) && c
                        != coord),
            decreases l0.len() - k,
        {
            let c = self.loaded[k];
            proof {
                assert(l0.take(k + 1) =~= l0.take(k as int).push(l0[k as int]));
                if kept_loaded@.contains(c) {
                    let j = choose|j: int|
                        0 <= j < l0.take(k as int).len() && l0.take(k as int)[j] == c;
                    assert(l0[j] == l0[k as int]);
                }
            }
            if !(c == coord) {
                kept_loaded.push(c);
            }
            k = k + 1;
        }
        proof {
            assert(l0.take(l0.len() as int) =~= l0);
        }
        self.loaded = kept_loaded;
        coord
    }
}

} // verus!
