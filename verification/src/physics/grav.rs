use crate::limits::{KIN_BOUND, MAX_COORD, MAX_G, MAX_MASS, POT_TERM_BOUND, TERM_BOUND};
use crate::math::{div_trunc, is_sqrt, isqrt, lemma_tdiv_bound, sqrt_of, tdiv};
use crate::vec3::{V3, Vec3};
use vstd::prelude::*;

verus! {

/// The gravitational acceleration that a point mass `m` standing at `source`
/// induces at `point`: `g * m / d^2` directed from `point` toward `source`,
/// each component rounded toward zero, where `d` is the integer square root
/// of the squared distance.
pub open spec fn accel_term(g: int, m: int, source: V3, point: V3) -> V3 {
    let delta = source.minus(point);
    let dist = sqrt_of(delta.norm_sq());
    let den = dist * dist * dist;
    V3 { x: tdiv(g * m * delta.x, den), y: tdiv(g * m * delta.y, den), z: tdiv(g * m * delta.z, den) }
}

/// The gravitational potential that a point mass `m` standing at `source`
/// induces at `point`: `-g * m / d`, rounded toward zero.
pub open spec fn pot_term(g: int, m: int, source: V3, point: V3) -> int {
    -tdiv(g * m, sqrt_of(source.minus(point).norm_sq()))
}

/// Kinetic energy of a mass `m` moving with velocity `vel`:
/// `m * |vel|^2 / 2`, rounded toward zero.
pub open spec fn kinetic_of(m: int, vel: V3) -> int {
    tdiv(m * vel.norm_sq(), 2)
}

/// Distinct integer points are at least one length unit apart.
pub proof fn lemma_distinct_norm_sq(a: V3, b: V3)
    requires
        a != b,
    ensures
        a.minus(b).norm_sq() >= 1,
{
    let d = a.minus(b);
    assert(d.x != 0 || d.y != 0 || d.z != 0);
    assert(d.x * d.x + d.y * d.y + d.z * d.z >= 1) by (nonlinear_arith)
        requires
            d.x != 0 || d.y != 0 || d.z != 0,
    ;
}

/// A point mass that both moves under gravity and sources a gravity field.
#[derive(Clone, Copy, Debug, PartialEq, Eq, Structural)]
pub struct GravitatingBody {
    pub mass: i128,
    pub position: Vec3,
    pub velocity: Vec3,
}

impl GravitatingBody {
    /// A gravitating body has a positive mass and bounded state.
    pub open spec fn wf(self) -> bool {
        &&& 0 < self.mass <= MAX_MASS
        &&& self.position@.bounded(MAX_COORD as int)
        &&& self.velocity@.bounded(MAX_COORD as int)
    }

    /// Builds a body from its initial state; a non-positive mass is rejected
    /// here so that the body is always a genuine field source.
    pub fn new(mass: i128, position: Vec3, velocity: Vec3) -> (b: GravitatingBody)
        requires
            0 < mass <= MAX_MASS,
            position@.bounded(MAX_COORD as int),
            velocity@.bounded(MAX_COORD as int),
        ensures
            b.mass == mass,
            b.position == position,
            b.velocity == velocity,
            b.wf(),
    {
        GravitatingBody { mass, position, velocity }
    }

    pub fn get_mass(&self) -> (m: i128)
        ensures
            m == self.mass,
    {
        self.mass
    }

    pub fn get_position(&self) -> (p: Vec3)
        ensures
            p == self.position,
    {
        self.position
    }

    pub fn get_velocity(&self) -> (v: Vec3)
        ensures
            v == self.velocity,
    {
        self.velocity
    }

    pub fn set_position(&mut self, position: Vec3)
        ensures
            final(self).position == position,
            final(self).velocity == old(self).velocity,
            final(self).mass == old(self).mass,
    {
        self.position = position;
    }

    pub fn set_velocity(&mut self, velocity: Vec3)
        ensures
            final(self).velocity == velocity,
            final(self).position == old(self).position,
            final(self).mass == old(self).mass,
    {
        self.velocity = velocity;
    }

    /// The acceleration this body induces at `r`. Evaluating a body's field
    /// at its own position is undefined, so the caller must keep `r` off the
    /// body's position.
    pub fn get_grav_acc(&self, g: i128, r: Vec3) -> (a: Vec3)
        requires
            1 <= g <= MAX_G,
            self.wf(),
            r@.bounded(MAX_COORD as int),
            self.position@ != r@,
        ensures
            a@ == accel_term(g as int, self.mass as int, self.position@, r@),
            a@.bounded(TERM_BOUND as int),
    {
        let dx = self.position.x - r.x;
        let dy = self.position.y - r.y;
        let dz = self.position.z - r.z;
        proof {
            assert(0 <= dx * dx <= 4 * MAX_COORD * MAX_COORD && 0 <= dy * dy <= 4 * MAX_COORD
                * MAX_COORD && 0 <= dz * dz <= 4 * MAX_COORD * MAX_COORD) by (nonlinear_arith)
                requires
                    -2 * MAX_COORD <= dx <= 2 * MAX_COORD,
                    -2 * MAX_COORD <= dy <= 2 * MAX_COORD,
                    -2 * MAX_COORD <= dz <= 2 * MAX_COORD,
            ;
            lemma_distinct_norm_sq(self.position@, r@);
        }
        let d2 = dx * dx + dy * dy + dz * dz;
        let dist_u = isqrt(d2 as u128);
        proof {
            assert(1 <= dist_u as int <= 4 * MAX_COORD) by (nonlinear_arith)
                requires
                    is_sqrt(d2 as int, dist_u as int),
                    1 <= d2 <= 12 * MAX_COORD * MAX_COORD,
            ;
        }
        let dist = dist_u as i128;
        proof {
            assert(1 <= dist * dist <= 16 * MAX_COORD * MAX_COORD && 1 <= dist * dist * dist <= 64
                * MAX_COORD * MAX_COORD * MAX_COORD) by (nonlinear_arith)
                requires
                    1 <= dist <= 4 * MAX_COORD,
            ;
        }
        let den = dist * dist * dist;
        proof {
            assert(1 <= g * self.mass <= MAX_G * MAX_MASS) by (nonlinear_arith)
                requires
                    1 <= g <= MAX_G,
                    1 <= self.mass <= MAX_MASS,
            ;
            assert(-TERM_BOUND <= g * self.mass * dx <= TERM_BOUND && -TERM_BOUND <= g * self.mass
                * dy <= TERM_BOUND && -TERM_BOUND <= g * self.mass * dz <= TERM_BOUND)
                by (nonlinear_arith)
                requires
                    1 <= g * self.mass <= MAX_G * MAX_MASS,
                    -2 * MAX_COORD <= dx <= 2 * MAX_COORD,
                    -2 * MAX_COORD <= dy <= 2 * MAX_COORD,
                    -2 * MAX_COORD <= dz <= 2 * MAX_COORD,
                    TERM_BOUND == MAX_G * MAX_MASS * 2 * MAX_COORD,
            ;
            lemma_tdiv_bound(g as int * self.mass as int * dx as int, den as int,
                TERM_BOUND as int);
            lemma_tdiv_bound(g as int * self.mass as int * dy as int, den as int,
                TERM_BOUND as int);
            lemma_tdiv_bound(g as int * self.mass as int * dz as int, den as int,
                TERM_BOUND as int);
        }
        let ax = div_trunc(g * self.mass * dx, den);
        let ay = div_trunc(g * self.mass * dy, den);
        let az = div_trunc(g * self.mass * dz, den);
        Vec3 { x: ax, y: ay, z: az }
    }

    /// The potential this body induces at `r`; same self-exclusion
    /// requirement as the acceleration.
    pub fn get_grav_potential_field(&self, g: i128, r: Vec3) -> (p: i128)
        requires
            1 <= g <= MAX_G,
            self.wf(),
            r@.bounded(MAX_COORD as int),
            self.position@ != r@,
        ensures
            p as int == pot_term(g as int, self.mass as int, self.position@, r@),
            -POT_TERM_BOUND <= p <= 0,
    {
        let dx = self.position.x - r.x;
        let dy = self.position.y - r.y;
        let dz = self.position.z - r.z;
        proof {
            assert(0 <= dx * dx <= 4 * MAX_COORD * MAX_COORD && 0 <= dy * dy <= 4 * MAX_COORD
                * MAX_COORD && 0 <= dz * dz <= 4 * MAX_COORD * MAX_COORD) by (nonlinear_arith)
                requires
                    -2 * MAX_COORD <= dx <= 2 * MAX_COORD,
                    -2 * MAX_COORD <= dy <= 2 * MAX_COORD,
                    -2 * MAX_COORD <= dz <= 2 * MAX_COORD,
            ;
            lemma_distinct_norm_sq(self.position@, r@);
        }
        let d2 = dx * dx + dy * dy + dz * dz;
        let dist_u = isqrt(d2 as u128);
        proof {
            assert(1 <= dist_u as int <= 4 * MAX_COORD) by (nonlinear_arith)
                requires
                    is_sqrt(d2 as int, dist_u as int),
                    1 <= d2 <= 12 * MAX_COORD * MAX_COORD,
            ;
        }
        let dist = dist_u as i128;
        proof {
            assert(1 <= g * self.mass <= POT_TERM_BOUND) by (nonlinear_arith)
                requires
                    1 <= g <= MAX_G,
                    1 <= self.mass <= MAX_MASS,
                    POT_TERM_BOUND == MAX_G * MAX_MASS,
            ;
            lemma_tdiv_bound(g as int * self.mass as int, dist as int, POT_TERM_BOUND as int);
        }
        let q = div_trunc(g * self.mass, dist);
        -q
    }

    /// Kinetic energy `m * |v|^2 / 2` of this body.
    pub fn get_kinetic(&self) -> (k: i128)
        requires
            self.wf(),
        ensures
            k as int == kinetic_of(self.mass as int, self.velocity@),
            0 <= k <= KIN_BOUND,
    {
        let v = self.velocity;
        proof {
            assert(0 <= v.x * v.x <= MAX_COORD * MAX_COORD && 0 <= v.y * v.y <= MAX_COORD
                * MAX_COORD && 0 <= v.z * v.z <= MAX_COORD * MAX_COORD) by (nonlinear_arith)
                requires
                    -MAX_COORD <= v.x <= MAX_COORD,
                    -MAX_COORD <= v.y <= MAX_COORD,
                    -MAX_COORD <= v.z <= MAX_COORD,
            ;
        }
        let nsq = v.x * v.x + v.y * v.y + v.z * v.z;
        proof {
            assert(0 <= self.mass * nsq <= KIN_BOUND) by (nonlinear_arith)
                requires
                    0 < self.mass <= MAX_MASS,
                    0 <= nsq <= 3 * MAX_COORD * MAX_COORD,
                    KIN_BOUND == MAX_MASS * 3 * MAX_COORD * MAX_COORD,
            ;
            lemma_tdiv_bound(self.mass as int * nsq as int, 2, KIN_BOUND as int);
        }
        div_trunc(self.mass * nsq, 2)
    }
}

} // verus!
