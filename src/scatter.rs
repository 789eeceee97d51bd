//! The decisions of the scattering materials. Sampling and the reflectance
//! laws are numeric; what is decided here is whether a ray is reflected,
//! refracted or absorbed.

use vstd::prelude::*;

verus! {

/// What becomes of a ray that strikes a metal or dielectric surface.
#[derive(Clone, Copy, Debug, PartialEq, Eq, Structural)]
pub enum Bend {
    /// It leaves along the mirror direction (fuzzed, for a metal).
    Reflect,
    /// It passes into or out of the medium along Snell's direction.
    Refract,
    /// It is absorbed: the path ends dark.
    Absorb,
}

/// A metal absorbs the ray exactly when its fuzzed reflection does not face
/// the same side as the normal (a non-positive dot product with it), and
/// reflects it otherwise.
pub fn metal_choice(faces_normal: bool) -> (b: Bend)
    ensures
        faces_normal ==> b == Bend::Reflect,
        !faces_normal ==> b == Bend::Absorb,
{
    if faces_normal {
        Bend::Reflect
    } else {
        Bend::Absorb
    }
}

/// A dielectric never absorbs: without a real refraction (total internal
/// reflection) it reflects; otherwise it reflects exactly when the uniform
/// draw falls below the Schlick reflectance, and refracts else.
pub fn dielectric_choice(refracts: bool, draw_below_reflectance: bool) -> (b: Bend)
    ensures
        !refracts ==> b == Bend::Reflect,
        refracts ==> (b == Bend::Reflect <==> draw_below_reflectance),
        refracts && !draw_below_reflectance ==> b == Bend::Refract,
        b != Bend::Absorb,
{
    if !refracts || draw_below_reflectance {
        Bend::Reflect
    } else {
        Bend::Refract
    }
}

} // verus!
