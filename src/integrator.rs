//! The decisions of the recursive radiance estimator. Estimating the light
//! along a ray alternates numeric work (intersecting the scene, scattering at
//! a material, weighting by attenuation) with the decisions made here: when a
//! path escapes to the background, when it ends dark, and when it goes on.

use vstd::prelude::*;

verus! {

/// The deepest recursion level at which a struck surface is still asked to
/// scatter; a surface struck deeper than this ends the path dark.
pub const MAX_DEPTH: u32 = 50;

/// What the estimator does next for a ray at a given recursion depth.
#[derive(Clone, Copy, Debug, PartialEq, Eq, Structural)]
pub enum Step {
    /// The ray struck nothing: it brings back the background gradient.
    Sky,
    /// The path ends and brings back no light (black).
    Dark,
    /// The ray struck a surface: ask its material to scatter, at this depth.
    Scatter { depth: u32 },
    /// The material scattered the ray: estimate the scattered ray at this
    /// depth and weight what it brings back by the attenuation.
    Trace { depth: u32 },
}

/// The step after intersecting the scene with a ray at recursion depth
/// `depth`: a miss shows the background at every depth; a hit is scattered
/// while the depth is within the budget and ends dark beyond it.
pub open spec fn intersection_step(depth: u32, hit: bool) -> Step {
    if !hit {
        Step::Sky
    } else if depth > MAX_DEPTH {
        Step::Dark
    } else {
        Step::Scatter { depth }
    }
}

/// The step after asking a material to scatter a ray that struck it at
/// recursion depth `depth`: an absorbed ray ends dark, a scattered one is
/// traced one level deeper.
pub open spec fn scatter_step(depth: u32, scattered: bool) -> Step {
    if scattered {
        Step::Trace { depth: (depth + 1) as u32 }
    } else {
        Step::Dark
    }
}

/// Decides what follows an intersection test at recursion depth `depth`.
pub fn after_intersection(depth: u32, hit: bool) -> (s: Step)
    ensures
        s == intersection_step(depth, hit),
        !hit ==> s == Step::Sky,
        hit && depth > MAX_DEPTH ==> s == Step::Dark,
        hit && depth <= MAX_DEPTH ==> s == (Step::Scatter { depth }),
{
    if !hit {
        Step::Sky
    } else if depth > MAX_DEPTH {
        Step::Dark
    } else {
        Step::Scatter { depth }
    }
}

/// Decides what follows a material's scatter decision at recursion depth
/// `depth`, which is within the budget since only then is a material asked.
pub fn after_scatter(depth: u32, scattered: bool) -> (s: Step)
    requires
        depth <= MAX_DEPTH,
    ensures
        s == scatter_step(depth, scattered),
        !scattered ==> s == Step::Dark,
        scattered ==> s == (Step::Trace { depth: (depth + 1) as u32 }),
{
    if scattered {
        Step::Trace { depth: depth + 1 }
    } else {
        Step::Dark
    }
}

/// How many more surfaces a path at recursion depth `depth` may still
/// scatter at.
pub open spec fn bounces_left(depth: nat) -> nat {
    if depth <= MAX_DEPTH {
        (MAX_DEPTH + 1 - depth) as nat
    } else {
        0
    }
}

/// Every bounce uses up the budget: a ray traced after a scatter has strictly
/// fewer bounces left than the ray that was scattered, so a path started at
/// any depth scatters at most `MAX_DEPTH + 1` times and then ends.
pub proof fn lemma_path_ends(depth: u32, hit: bool, scattered: bool)
    ensures
        intersection_step(depth, hit) matches Step::Scatter { depth: d } ==> {
            &&& d == depth
            &&& bounces_left(d as nat) > 0
            &&& scatter_step(d, scattered) matches Step::Trace { depth: next } ==> bounces_left(
                next as nat,
            ) < bounces_left(depth as nat)
        },
        bounces_left(0) == MAX_DEPTH + 1,
{
}

} // verus!
