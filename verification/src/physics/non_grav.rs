use crate::limits::{KIN_BOUND, MAX_COORD, MAX_MASS};
use crate::math::{div_trunc, lemma_tdiv_bound};
use crate::physics::grav::kinetic_of;
use crate::vec3::Vec3;
use vstd::prelude::*;

verus! {

/// A point mass that moves under gravity but sources no field of its own.
/// A zero mass is valid here: a ballistic body never enters a force sum.
#[derive(Clone, Copy, Debug, PartialEq, Eq, Structural)]
pub struct BallisticBody {
    pub mass: i128,
    pub position: Vec3,
    pub velocity: Vec3,
}

impl BallisticBody {
    /// A ballistic body has a nonnegative mass and bounded state.
    pub open spec fn wf(self) -> bool {
        &&& 0 <= self.mass <= MAX_MASS
        &&& self.position@.bounded(MAX_COORD as int)
        &&& self.velocity@.bounded(MAX_COORD as int)
    }

    pub fn new(mass: i128, position: Vec3, velocity: Vec3) -> (b: BallisticBody)
        requires
            0 <= mass <= MAX_MASS,
            position@.bounded(MAX_COORD as int),
            velocity@.bounded(MAX_COORD as int),
        ensures
            b.mass == mass,
            b.position == position,
            b.velocity == velocity,
            b.wf(),
    {
        BallisticBody { mass, position, velocity }
    }

    pub fn get_mass(&self) -> (m: i128)
        ensures
            m == self.mass,
    {
        self.mass
    }

    pub fn get_position(&self) -> (p: Vec3)
        ensures
            p == self.position,
    {
        self.position
    }

    pub fn get_velocity(&self) -> (v: Vec3)
        ensures
            v == self.velocity,
    {
        self.velocity
    }

    pub fn set_position(&mut self, position: Vec3)
        ensures
            final(self).position == position,
            final(self).velocity == old(self).velocity,
            final(self).mass == old(self).mass,
    {
        self.position = position;
    }

    pub fn set_velocity(&mut self, velocity: Vec3)
        ensures
            final(self).velocity == velocity,
            final(self).position == old(self).position,
            final(self).mass == old(self).mass,
    {
        self.velocity = velocity;
    }

    /// Kinetic energy `m * |v|^2 / 2` of this body.
    pub fn get_kinetic(&self) -> (k: i128)
        requires
            self.wf(),
        ensures
            k as int == kinetic_of(self.mass as int, self.velocity@),
            0 <= k <= KIN_BOUND,
    {
        let v = self.velocity;
        proof {
            assert(0 <= v.x * v.x <= MAX_COORD * MAX_COORD && 0 <= v.y * v.y <= MAX_COORD
                * MAX_COORD && 0 <= v.z * v.z <= MAX_COORD * MAX_COORD) by (nonlinear_arith)
                requires
                    -MAX_COORD <= v.x <= MAX_COORD,
                    -MAX_COORD <= v.y <= MAX_COORD,
                    -MAX_COORD <= v.z <= MAX_COORD,
            ;
        }
        let nsq = v.x * v.x + v.y * v.y + v.z * v.z;
        proof {
            assert(0 <= self.mass * nsq <= KIN_BOUND) by (nonlinear_arith)
                requires
                    0 <= self.mass <= MAX_MASS,
                    0 <= nsq <= 3 * MAX_COORD * MAX_COORD,
                    KIN_BOUND == MAX_MASS * 3 * MAX_COORD * MAX_COORD,
            ;
            lemma_tdiv_bound(self.mass as int * nsq as int, 2, KIN_BOUND as int);
        }
        div_trunc(self.mass * nsq, 2)
    }
}

} // verus!
