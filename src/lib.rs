//! Integer-valued core of a small stochastic ray tracer: the plain-text
//! image encoding, the order in which pixels are produced, and the decisions
//! of intersection, scattering and the recursive radiance estimator.

pub mod geometry;
pub mod integrator;
pub mod pixels;
pub mod ppm;
pub mod scatter;
