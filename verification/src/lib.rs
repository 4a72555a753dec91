//! Newtonian n-body simulation on integer coordinates: point masses under
//! mutual gravitation, optional ballistic bodies that feel the field but
//! source none, direct pairwise force summation with index-based
//! self-exclusion, and a velocity-Verlet stepper that evaluates every force
//! against the pre-step snapshot and commits all new states together. Every
//! function's contract pins its result exactly over the integer model.

pub mod laws;
pub mod limits;
pub mod math;
pub mod physics;
pub mod vec3;
