use vstd::prelude::*;

verus! {

// The integer unit system works inside `i128`. The bounds below keep every
// intermediate of the force, potential and integration arithmetic well inside
// the `i128` range, so none of the verified functions can overflow. The
// derived bounds are written out as literals so that the solver can compute
// with them; the comment beside each gives the product it stands for.

/// Largest magnitude allowed for a position or velocity component (2^32).
pub const MAX_COORD: i128 = 0x1_0000_0000;

/// Largest mass of a single body (2^32).
pub const MAX_MASS: i128 = 0x1_0000_0000;

/// Largest gravitational constant of a world (2^24).
pub const MAX_G: i128 = 0x100_0000;

/// Largest number of bodies in either collection of a world.
pub const MAX_BODIES: usize = 4096;

/// Largest timestep accepted by the integrator.
pub const MAX_DT: i128 = 256;

/// Largest magnitude of one body's acceleration contribution at a point
/// whose components are bounded by `MAX_COORD`:
/// `MAX_G * MAX_MASS * 2 * MAX_COORD`.
pub const TERM_BOUND: i128 = 618970019642690137449562112;

/// Largest magnitude of a summed acceleration component:
/// `TERM_BOUND * 4096`.
pub const ACC_BOUND: i128 = 2535301200456458802993406410752;

/// Largest magnitude of a component of a freshly integrated position:
/// `MAX_COORD + MAX_COORD * MAX_DT + ACC_BOUND * MAX_DT * MAX_DT`.
pub const POS_BOUND: i128 = 166153499473114484112976986341638144;

/// Largest magnitude of a component of a freshly integrated velocity:
/// `MAX_COORD + 2 * ACC_BOUND * MAX_DT`.
pub const VEL_BOUND: i128 = 1298074214633706907132628377272320;

/// Largest magnitude of one body's potential contribution:
/// `MAX_G * MAX_MASS`.
pub const POT_TERM_BOUND: i128 = 72057594037927936;

/// Largest magnitude of a summed potential: `POT_TERM_BOUND * 4096`.
pub const POT_BOUND: i128 = 295147905179352825856;

/// Largest kinetic energy of a single body:
/// `MAX_MASS * 3 * MAX_COORD * MAX_COORD`.
pub const KIN_BOUND: i128 = 237684487542793012780631851008;

/// Largest magnitude of one pairwise potential-energy term:
/// `POT_TERM_BOUND * MAX_MASS`.
pub const PAIR_BOUND: i128 = 309485009821345068724781056;

/// Largest magnitude that one gravitating body adds to the total energy:
/// `KIN_BOUND + PAIR_BOUND * 4096`.
pub const GRAV_STEP_BOUND: i128 = 1505335087771022414277335056384;

/// Largest magnitude that one ballistic body adds to the total energy:
/// `KIN_BOUND + POT_BOUND * MAX_MASS`.
pub const BALL_STEP_BOUND: i128 = 1505335087771022414277335056384;

} // verus!
