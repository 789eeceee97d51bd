//! The decisions of ray-primitive intersection. The root finding is numeric;
//! what is decided here is which root a sphere reports, and which primitive's
//! hit a scene reports.
//!
//! In the laws below a ray parameter is an `int`: the decisions only compare
//! parameters, so any totally ordered stand-in for them behaves the same.

use vstd::prelude::*;

verus! {

/// Which root of a sphere's quadratic is reported as the hit.
#[derive(Clone, Copy, Debug, PartialEq, Eq, Structural)]
pub enum Root {
    /// The smaller root, where the ray enters the sphere.
    Near,
    /// The larger root, where the ray leaves the sphere.
    Far,
    /// No hit in the queried interval.
    Miss,
}

/// A sphere reports a hit only when the discriminant is positive: then the
/// smaller root if it lies inside the queried interval, else the larger root
/// if that one does, else nothing.
pub open spec fn root_choice(disc_positive: bool, near_inside: bool, far_inside: bool) -> Root {
    if !disc_positive {
        Root::Miss
    } else if near_inside {
        Root::Near
    } else if far_inside {
        Root::Far
    } else {
        Root::Miss
    }
}

/// Decides which root of a sphere is reported, from the sign of the
/// discriminant and whether each root lies strictly inside the interval.
pub fn choose_root(disc_positive: bool, near_inside: bool, far_inside: bool) -> (r: Root)
    ensures
        r == root_choice(disc_positive, near_inside, far_inside),
{
    if !disc_positive {
        Root::Miss
    } else if near_inside {
        Root::Near
    } else if far_inside {
        Root::Far
    } else {
        Root::Miss
    }
}

/// Whether ray parameter `t` lies strictly inside `(t_min, t_max)`.
pub open spec fn inside(t: int, t_min: int, t_max: int) -> bool {
    t_min < t < t_max
}

/// A sphere's reported parameter lies strictly inside the queried interval:
/// whichever root is chosen, it is one that was found inside.
pub proof fn lemma_root_inside(disc_positive: bool, near: int, far: int, t_min: int, t_max: int)
    ensures
        ({
            let r = root_choice(disc_positive, inside(near, t_min, t_max), inside(far, t_min, t_max));
            &&& r == Root::Near ==> inside(near, t_min, t_max)
            &&& r == Root::Far ==> inside(far, t_min, t_max)
            &&& r != Root::Miss ==> disc_positive
        }),
{
}

/// One step of a scene's search for the nearest hit: the primitive at
/// `index` was queried up to the nearest parameter found so far, and replaces
/// the best primitive exactly when it reported a hit.
pub open spec fn candidate_step(best: Option<u64>, index: u64, hit: bool) -> Option<u64> {
    if hit {
        Some(index)
    } else {
        best
    }
}

/// Takes one step of a scene's search for the nearest hit.
pub fn after_candidate(best: Option<u64>, index: u64, hit: bool) -> (r: Option<u64>)
    ensures
        r == candidate_step(best, index, hit),
        r == (if hit { Some(index) } else { best }),
{
    if hit {
        Some(index)
    } else {
        best
    }
}

/// Whether a primitive whose ray parameter is `t` (`None` when the ray
/// misses it) reports a hit on `(t_min, bound)`.
pub open spec fn reports(t: Option<int>, t_min: int, bound: int) -> bool {
    t matches Some(u) && inside(u, t_min, bound)
}

/// The scene's search over primitives whose ray parameters are `ts`:
/// each primitive is queried on `(t_min, bound)`, where `bound` starts at
/// `t_max` and shrinks to each reported parameter, and the best index is
/// updated by `candidate_step`. Returns the best index and the final bound.
pub open spec fn scan(ts: Seq<Option<int>>, t_min: int, t_max: int) -> (Option<u64>, int)
    decreases ts.len(),
{
    if ts.len() == 0 {
        (None, t_max)
    } else {
        let (best, bound) = scan(ts.drop_last(), t_min, t_max);
        let i = (ts.len() - 1) as int;
        let hit = reports(ts[i], t_min, bound);
        (candidate_step(best, i as u64, hit), if hit { ts[i]->Some_0 } else { bound })
    }
}

/// The search with a shrinking bound reports the same hit as querying every
/// primitive on the whole interval and taking the smallest parameter: it
/// reports a primitive exactly when some primitive is hit inside
/// `(t_min, t_max)`, the reported one has the smallest such parameter, and
/// no earlier primitive has that same parameter (a later equal hit never wins).
pub proof fn lemma_scan_finds_nearest(ts: Seq<Option<int>>, t_min: int, t_max: int)
    requires
        ts.len() <= u64::MAX,
    ensures
        ({
            let (best, bound) = scan(ts, t_min, t_max);
            &&& best is None <==> (forall|j: int| 0 <= j < ts.len() ==> !reports(#[trigger] ts[j], t_min, t_max))
            &&& best is None ==> bound == t_max
            &&& best matches Some(i) ==> {
                &&& i < ts.len()
                &&& ts[i as int] == Some(bound)
                &&& inside(bound, t_min, t_max)
                &&& forall|j: int| 0 <= j < ts.len() && #[trigger] reports(ts[j], t_min, t_max) ==> bound <= ts[j]->Some_0
                &&& forall|j: int| 0 <= j < i && #[trigger] reports(ts[j], t_min, t_max) ==> bound < ts[j]->Some_0
            }
        }),
    decreases ts.len(),
{
    if ts.len() > 0 {
        let n = ts.len() as int;
        let prefix = ts.drop_last();
        lemma_scan_finds_nearest(prefix, t_min, t_max);
        let (best, bound) = scan(prefix, t_min, t_max);
        let last = ts[n - 1];
        assert forall|j: int| 0 <= j < n - 1 implies #[trigger] prefix[j] == ts[j] by {}
        assert(bound <= t_max);
        if reports(last, t_min, bound) {
            let t = last->Some_0;
            assert forall|j: int| 0 <= j < n - 1 && #[trigger] reports(ts[j], t_min, t_max) implies t
                < ts[j]->Some_0 by {
                assert(reports(prefix[j], t_min, t_max));
            }
        } else {
            if best is None {
                assert forall|j: int| 0 <= j < n implies !reports(#[trigger] ts[j], t_min, t_max) by {
                    if j < n - 1 {
                        assert(!reports(prefix[j], t_min, t_max));
                    }
                }
            } else {
                assert forall|j: int| 0 <= j < n && #[trigger] reports(ts[j], t_min, t_max) implies bound
                    <= ts[j]->Some_0 by {
                    if j < n - 1 {
                        assert(reports(prefix[j], t_min, t_max));
                    }
                }
                assert forall|j: int| 0 <= j < best->Some_0 && #[trigger] reports(ts[j], t_min, t_max) implies bound
                    < ts[j]->Some_0 by {
                    assert(reports(prefix[j], t_min, t_max));
                }
                assert(ts[best->Some_0 as int] == prefix[best->Some_0 as int]);
            }
        }
    }
}

} // verus!
