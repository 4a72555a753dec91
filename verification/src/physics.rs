pub mod grav;
pub mod integrators;
pub mod non_grav;

use crate::limits::{
    ACC_BOUND, BALL_STEP_BOUND, GRAV_STEP_BOUND, KIN_BOUND, MAX_BODIES, MAX_COORD, MAX_DT, MAX_G,
    MAX_MASS, PAIR_BOUND, POT_BOUND, POT_TERM_BOUND, TERM_BOUND,
};
use crate::math::lemma_tdiv_bound;
use crate::physics::grav::{accel_term, kinetic_of, pot_term, GravitatingBody};
use crate::physics::integrators::{verlet_pos, verlet_position, verlet_vel, verlet_velocity};
use crate::physics::non_grav::BallisticBody;
use crate::vec3::{V3, Vec3};
use vstd::prelude::*;

verus! {

/// The summed acceleration that the first `k` gravitating bodies induce at
/// `point`, the body at index `excl` left out.
pub open spec fn accel_sum(g: int, bodies: Seq<GravitatingBody>, k: int, point: V3, excl: int) -> V3
    decreases k,
{
    if k <= 0 {
        V3::zero()
    } else {
        let prev = accel_sum(g, bodies, k - 1, point, excl);
        if k - 1 == excl {
            prev
        } else {
            prev.plus(accel_term(g, bodies[k - 1].mass as int, bodies[k - 1].position@, point))
        }
    }
}

/// The summed potential that the first `k` gravitating bodies induce at
/// `point`, the body at index `excl` left out. A body standing exactly on
/// `point` is skipped as well: in integer coordinates that is the only
/// distance inside the minimum-distance guard on the potential field, and it
/// suppresses the singular self-term in the energy accounting.
pub open spec fn pot_sum(g: int, bodies: Seq<GravitatingBody>, k: int, point: V3, excl: int) -> int
    decreases k,
{
    if k <= 0 {
        0
    } else {
        let prev = pot_sum(g, bodies, k - 1, point, excl);
        if k - 1 == excl || bodies[k - 1].position@ == point {
            prev
        } else {
            prev + pot_term(g, bodies[k - 1].mass as int, bodies[k - 1].position@, point)
        }
    }
}

/// No body other than the one at index `excl` stands exactly on `point`.
pub open spec fn clear_of(bodies: Seq<GravitatingBody>, point: V3, excl: int) -> bool {
    forall|j: int| 0 <= j < bodies.len() && j != excl ==> bodies[j].position@ != point
}

/// The index excluded from a sum; `-1` excludes nothing.
pub open spec fn eidx(excl: Option<usize>) -> int {
    match excl {
        Option::Some(i) => i as int,
        Option::None => -1,
    }
}

/// The world: the collections of gravitating and ballistic bodies, and the
/// gravitational constant of the chosen integer unit system.
pub struct PhysicsWorld {
    pub g: i128,
    pub gravitational_bodies: Vec<GravitatingBody>,
    pub ballistic_bodies: Vec<BallisticBody>,
}

impl PhysicsWorld {
    /// Bounded constant, bounded collections of well-formed bodies, and
    /// pairwise distinct gravitating positions (coincident field sources make
    /// the force singular, so initial conditions must avoid them).
    pub open spec fn wf(self) -> bool {
        &&& 1 <= self.g <= MAX_G
        &&& self.gravitational_bodies@.len() <= MAX_BODIES
        &&& self.ballistic_bodies@.len() <= MAX_BODIES
        &&& (forall|i: int|
            0 <= i < self.gravitational_bodies@.len() ==> self.gravitational_bodies@[i].wf())
        &&& (forall|i: int| 0 <= i < self.ballistic_bodies@.len() ==> self.ballistic_bodies@[i].wf())
        &&& (forall|i: int, j: int|
            0 <= i < j < self.gravitational_bodies@.len()
                ==> self.gravitational_bodies@[i].position@
                != self.gravitational_bodies@[j].position@)
    }

    /// Builds a world from its body collections.
    pub fn new(
        g: i128,
        gravitational_bodies: Vec<GravitatingBody>,
        ballistic_bodies: Vec<BallisticBody>,
    ) -> (w: PhysicsWorld)
        requires
            1 <= g <= MAX_G,
            gravitational_bodies@.len() <= MAX_BODIES,
            ballistic_bodies@.len() <= MAX_BODIES,
            forall|i: int| 0 <= i < gravitational_bodies@.len() ==> gravitational_bodies@[i].wf(),
            forall|i: int| 0 <= i < ballistic_bodies@.len() ==> ballistic_bodies@[i].wf(),
            forall|i: int, j: int|
                0 <= i < j < gravitational_bodies@.len() ==> gravitational_bodies@[i].position@
                    != gravitational_bodies@[j].position@,
        ensures
            w.g == g,
            w.gravitational_bodies == gravitational_bodies,
            w.ballistic_bodies == ballistic_bodies,
            w.wf(),
    {
        PhysicsWorld { g, gravitational_bodies, ballistic_bodies }
    }

    /// Net gravitational acceleration at `point` from every gravitating body.
    /// Ballistic bodies never contribute. The caller keeps `point` off every
    /// source position: a field evaluated at its own source is singular.
    pub fn calculate_gravitational_acceleration(&self, point: Vec3) -> (a: Vec3)
        requires
            self.wf(),
            point@.bounded(MAX_COORD as int),
            clear_of(self.gravitational_bodies@, point@, -1),
        ensures
            a@ == accel_sum(
                self.g as int,
                self.gravitational_bodies@,
                self.gravitational_bodies@.len() as int,
                point@,
                -1,
            ),
            a@.bounded(ACC_BOUND as int),
    {
        let r = accel_at(self.g, &self.gravitational_bodies, point, None);
        r.unwrap()
    }

    /// Net gravitational acceleration at `point`, the body at index `exclude`
    /// left out of the sum (self-interaction avoidance, by index).
    pub fn calculate_gravitational_acceleration_exclude(&self, point: Vec3, exclude: usize) -> (a:
        Vec3)
        requires
            self.wf(),
            point@.bounded(MAX_COORD as int),
            exclude < self.gravitational_bodies@.len(),
            clear_of(self.gravitational_bodies@, point@, exclude as int),
        ensures
            a@ == accel_sum(
                self.g as int,
                self.gravitational_bodies@,
                self.gravitational_bodies@.len() as int,
                point@,
                exclude as int,
            ),
            a@.bounded(ACC_BOUND as int),
    {
        let r = accel_at(self.g, &self.gravitational_bodies, point, Some(exclude));
        r.unwrap()
    }

    /// Net gravitational potential at `point`; a body standing exactly on
    /// `point` is inside the minimum-distance guard and is skipped.
    pub fn calculate_gravitational_potential_field(&self, point: Vec3) -> (p: i128)
        requires
            self.wf(),
            point@.bounded(MAX_COORD as int),
        ensures
            p as int == pot_sum(
                self.g as int,
                self.gravitational_bodies@,
                self.gravitational_bodies@.len() as int,
                point@,
                -1,
            ),
            -POT_BOUND <= p <= 0,
    {
        potential_at(self.g, &self.gravitational_bodies, point, None)
    }

    /// Net gravitational potential at `point`, the body at index `exclude`
    /// left out; the minimum-distance guard applies as well.
    pub fn calculate_gravitational_potential_field_exclude(&self, point: Vec3, exclude: usize) -> (p:
        i128)
        requires
            self.wf(),
            point@.bounded(MAX_COORD as int),
            exclude < self.gravitational_bodies@.len(),
        ensures
            p as int == pot_sum(
                self.g as int,
                self.gravitational_bodies@,
                self.gravitational_bodies@.len() as int,
                point@,
                exclude as int,
            ),
            -POT_BOUND <= p <= 0,
    {
        potential_at(self.g, &self.gravitational_bodies, point, Some(exclude))
    }

    /// Total energy of the system: over gravitating bodies, kinetic energy
    /// plus pairwise potential energy counted once per unordered pair; over
    /// ballistic bodies, kinetic energy plus potential energy from the full
    /// gravitating field. The conserved quantity of the integrator.
    #[verifier::loop_isolation(false)]
    pub fn total_energy(&self) -> (e: i128)
        requires
            self.wf(),
        ensures
            e as int == energy_spec(*self),
    {
        let gravs = &self.gravitational_bodies;
        let n = gravs.len();
        let mut e: i128 = 0;
        for i in 0..n
            invariant
                e as int == grav_energy(self.g as int, gravs@, i as int),
        {
            proof {
                lemma_grav_energy_bound(self.g as int, gravs@, i as int);
                assert(GRAV_STEP_BOUND * (i as int) <= GRAV_STEP_BOUND * 4096 && -GRAV_STEP_BOUND
                    * (i as int) >= -GRAV_STEP_BOUND * 4096) by (nonlinear_arith)
                    requires
                        0 <= i as int <= 4096,
                        0 < GRAV_STEP_BOUND,
                ;
            }
            let b = gravs[i];
            let k = b.get_kinetic();
            e = e + k;
            for j in 0..i
                invariant
                    e as int == grav_energy(self.g as int, gravs@, i as int) + kinetic_of(
                        b.mass as int,
                        b.velocity@,
                    ) + pair_energy(self.g as int, gravs@, i as int, j as int),
            {
                proof {
                    lemma_pair_energy_bound(self.g as int, gravs@, i as int, j as int);
                    assert(-PAIR_BOUND * (j as int) >= -PAIR_BOUND * 4096) by (nonlinear_arith)
                        requires
                            0 <= j as int <= 4096,
                            0 < PAIR_BOUND,
                    ;
                }
                let other = gravs[j];
                let pterm = b.get_grav_potential_field(self.g, other.position);
                proof {
                    assert(-PAIR_BOUND <= (pterm as int) * (other.mass as int) <= 0)
                        by (nonlinear_arith)
                        requires
                            -POT_TERM_BOUND <= pterm as int <= 0,
                            0 < other.mass <= MAX_MASS,
                            PAIR_BOUND == POT_TERM_BOUND * MAX_MASS,
                    ;
                }
                e = e + pterm * other.mass;
            }
        }
        let balls = &self.ballistic_bodies;
        let m = balls.len();
        for i in 0..m
            invariant
                e as int == grav_energy(self.g as int, gravs@, n as int) + ball_energy(
                    self.g as int,
                    gravs@,
                    balls@,
                    i as int,
                ),
        {
            proof {
                lemma_grav_energy_bound(self.g as int, gravs@, n as int);
                lemma_ball_energy_bound(self.g as int, gravs@, balls@, i as int);
                assert(GRAV_STEP_BOUND * (n as int) <= GRAV_STEP_BOUND * 4096 && -GRAV_STEP_BOUND
                    * (n as int) >= -GRAV_STEP_BOUND * 4096 && BALL_STEP_BOUND * (i as int)
                    <= BALL_STEP_BOUND * 4096 && -BALL_STEP_BOUND * (i as int) >= -BALL_STEP_BOUND
                    * 4096) by (nonlinear_arith)
                    requires
                        0 <= i as int <= 4096,
                        0 <= n as int <= 4096,
                        0 < GRAV_STEP_BOUND,
                        0 < BALL_STEP_BOUND,
                ;
            }
            let b = balls[i];
            let k = b.get_kinetic();
            e = e + k;
            let p = potential_at(self.g, gravs, b.position, None);
            proof {
                assert(-POT_BOUND * MAX_MASS <= (p as int) * (b.mass as int) <= 0)
                    by (nonlinear_arith)
                    requires
                        -POT_BOUND <= p as int <= 0,
                        0 <= b.mass <= MAX_MASS,
                        0 < POT_BOUND,
                ;
            }
            e = e + p * b.mass;
        }
        e
    }

    /// Advances every body one velocity-Verlet step of size `dt`. Every
    /// force evaluation reads the pre-step positions; the new states are
    /// staged and committed together only after all evaluations finished, so
    /// no body ever sees a partially updated generation. The step commits
    /// and returns `true` exactly when no evaluation point coincides with a
    /// field source and the stepped states stay inside the coordinate
    /// bounds; otherwise the world is left unchanged and `false` comes back.
    #[verifier::loop_isolation(false)]
    #[verifier::rlimit(60)]
    pub fn update_bodies(&mut self, dt: i128) -> (committed: bool)
        requires
            old(self).wf(),
            1 <= dt <= MAX_DT,
        ensures
            committed <==> step_ok(*old(self), dt as int),
            final(self).g == old(self).g,
            final(self).gravitational_bodies@.len() == old(self).gravitational_bodies@.len(),
            final(self).ballistic_bodies@.len() == old(self).ballistic_bodies@.len(),
            committed ==> final(self).wf(),
            committed ==> (forall|i: int|
                0 <= i < old(self).gravitational_bodies@.len()
                    ==> final(self).gravitational_bodies@[i].mass == old(self).gravitational_bodies@[i].mass && final(self).gravitational_bodies@[i].position@
                    == next_grav_pos(
                    old(self).g as int,
                    old(self).gravitational_bodies@,
                    i,
                    dt as int,
                ) && final(self).gravitational_bodies@[i].velocity@ == next_grav_vel(
                    old(self).g as int,
                    old(self).gravitational_bodies@,
                    i,
                    dt as int,
                )),
            committed ==> (forall|i: int|
                0 <= i < old(self).ballistic_bodies@.len() ==> final(self).ballistic_bodies@[i].mass == old(self).ballistic_bodies@[i].mass && final(self).ballistic_bodies@[i].position@ == next_ball_pos(
                    old(self).g as int,
                    old(self).gravitational_bodies@,
                    old(self).ballistic_bodies@,
                    i,
                    dt as int,
                ) && final(self).ballistic_bodies@[i].velocity@ == next_ball_vel(
                    old(self).g as int,
                    old(self).gravitational_bodies@,
                    old(self).ballistic_bodies@,
                    i,
                    dt as int,
                )),
            !committed ==> *final(self) == *old(self),
    {
        let n = self.gravitational_bodies.len();
        let mut gp: Vec<Vec3> = Vec::new();
        let mut gv: Vec<Vec3> = Vec::new();
        for idx in 0..n
            invariant
                gp@.len() == idx as int,
                gv@.len() == idx as int,
                forall|k: int|
                    0 <= k < idx as int ==> grav_step_ok(
                        old(self).g as int,
                        old(self).gravitational_bodies@,
                        k,
                        dt as int,
                    ),
                forall|k: int|
                    0 <= k < idx as int ==> gp@[k]@ == next_grav_pos(
                        old(self).g as int,
                        old(self).gravitational_bodies@,
                        k,
                        dt as int,
                    ),
                forall|k: int|
                    0 <= k < idx as int ==> gv@[k]@ == next_grav_vel(
                        old(self).g as int,
                        old(self).gravitational_bodies@,
                        k,
                        dt as int,
                    ),
        {
            let b = self.gravitational_bodies[idx];
            proof {
                assert(b.wf());
                assert forall|j: int|
                    0 <= j < self.gravitational_bodies@.len() && j != idx as int implies self.gravitational_bodies@[j].position@
                    != b.position@ by {
                    if j < idx as int {
                        assert(self.gravitational_bodies@[j].position@
                            != self.gravitational_bodies@[idx as int].position@);
                    } else {
                        assert(self.gravitational_bodies@[idx as int].position@
                            != self.gravitational_bodies@[j].position@);
                    }
                }
                assert(clear_of(self.gravitational_bodies@, b.position@, idx as int));
            }
            let a_old_o = accel_at(self.g, &self.gravitational_bodies, b.position, Some(idx));
            let a_old = a_old_o.unwrap();
            let np = verlet_position(b.position, b.velocity, a_old, dt);
            proof {
                assert(np@ == next_grav_pos(
                    old(self).g as int,
                    old(self).gravitational_bodies@,
                    idx as int,
                    dt as int,
                ));
            }
            if np.x < -MAX_COORD || np.x > MAX_COORD || np.y < -MAX_COORD || np.y > MAX_COORD
                || np.z < -MAX_COORD || np.z > MAX_COORD {
                proof {
                    assert(!grav_step_ok(
                        old(self).g as int,
                        old(self).gravitational_bodies@,
                        idx as int,
                        dt as int,
                    ));
                }
                return false;
            }
            let a_new_o = accel_at(self.g, &self.gravitational_bodies, np, Some(idx));
            if a_new_o.is_none() {
                proof {
                    assert(!grav_step_ok(
                        old(self).g as int,
                        old(self).gravitational_bodies@,
                        idx as int,
                        dt as int,
                    ));
                }
                return false;
            }
            let a_new = a_new_o.unwrap();
            let nv = verlet_velocity(b.velocity, a_old, a_new, dt);
            if nv.x < -MAX_COORD || nv.x > MAX_COORD || nv.y < -MAX_COORD || nv.y > MAX_COORD
                || nv.z < -MAX_COORD || nv.z > MAX_COORD {
                proof {
                    assert(!grav_step_ok(
                        old(self).g as int,
                        old(self).gravitational_bodies@,
                        idx as int,
                        dt as int,
                    ));
                }
                return false;
            }
            gp.push(np);
            gv.push(nv);
        }
        for i in 0..n
            invariant
                forall|a: int, b2: int|
                    0 <= a < b2 < n as int && a < i as int ==> gp@[a]@ != gp@[b2]@,
        {
            for j in (i + 1)..n
                invariant
                    forall|a: int, b2: int|
                        0 <= a < b2 < n as int && a < i as int ==> gp@[a]@ != gp@[b2]@,
                    forall|jj: int| (i as int) < jj < (j as int) ==> gp@[i as int]@ != gp@[jj]@,
            {
                if gp[i] == gp[j] {
                    proof {
                        assert(next_grav_pos(
                            old(self).g as int,
                            old(self).gravitational_bodies@,
                            i as int,
                            dt as int,
                        ) == next_grav_pos(
                            old(self).g as int,
                            old(self).gravitational_bodies@,
                            j as int,
                            dt as int,
                        ));
                        assert(!next_gravs_separated(
                            old(self).g as int,
                            old(self).gravitational_bodies@,
                            dt as int,
                        ));
                    }
                    return false;
                }
            }
        }
        let m = self.ballistic_bodies.len();
        let mut bp: Vec<Vec3> = Vec::new();
        let mut bv: Vec<Vec3> = Vec::new();
        for i in 0..m
            invariant
                bp@.len() == i as int,
                bv@.len() == i as int,
                forall|k: int|
                    0 <= k < i as int ==> ball_step_ok(
                        old(self).g as int,
                        old(self).gravitational_bodies@,
                        old(self).ballistic_bodies@,
                        k,
                        dt as int,
                    ),
                forall|k: int|
                    0 <= k < i as int ==> bp@[k]@ == next_ball_pos(
                        old(self).g as int,
                        old(self).gravitational_bodies@,
                        old(self).ballistic_bodies@,
                        k,
                        dt as int,
                    ),
                forall|k: int|
                    0 <= k < i as int ==> bv@[k]@ == next_ball_vel(
                        old(self).g as int,
                        old(self).gravitational_bodies@,
                        old(self).ballistic_bodies@,
                        k,
                        dt as int,
                    ),
        {
            let b = self.ballistic_bodies[i];
            proof {
                assert(b.wf());
            }
            let a_old_o = accel_at(self.g, &self.gravitational_bodies, b.position, None);
            if a_old_o.is_none() {
                proof {
                    assert(!ball_step_ok(
                        old(self).g as int,
                        old(self).gravitational_bodies@,
                        old(self).ballistic_bodies@,
                        i as int,
                        dt as int,
                    ));
                }
                return false;
            }
            let a_old = a_old_o.unwrap();
            let np = verlet_position(b.position, b.velocity, a_old, dt);
            proof {
                assert(np@ == next_ball_pos(
                    old(self).g as int,
                    old(self).gravitational_bodies@,
                    old(self).ballistic_bodies@,
                    i as int,
                    dt as int,
                ));
            }
            if np.x < -MAX_COORD || np.x > MAX_COORD || np.y < -MAX_COORD || np.y > MAX_COORD
                || np.z < -MAX_COORD || np.z > MAX_COORD {
                proof {
                    assert(!ball_step_ok(
                        old(self).g as int,
                        old(self).gravitational_bodies@,
                        old(self).ballistic_bodies@,
                        i as int,
                        dt as int,
                    ));
                }
                return false;
            }
            let a_new_o = accel_at(self.g, &self.gravitational_bodies, np, None);
            if a_new_o.is_none() {
                proof {
                    assert(!ball_step_ok(
                        old(self).g as int,
                        old(self).gravitational_bodies@,
                        old(self).ballistic_bodies@,
                        i as int,
                        dt as int,
                    ));
                }
                return false;
            }
            let a_new = a_new_o.unwrap();
            let nv = verlet_velocity(b.velocity, a_old, a_new, dt);
            if nv.x < -MAX_COORD || nv.x > MAX_COORD || nv.y < -MAX_COORD || nv.y > MAX_COORD
                || nv.z < -MAX_COORD || nv.z > MAX_COORD {
                proof {
                    assert(!ball_step_ok(
                        old(self).g as int,
                        old(self).gravitational_bodies@,
                        old(self).ballistic_bodies@,
                        i as int,
                        dt as int,
                    ));
                }
                return false;
            }
            bp.push(np);
            bv.push(nv);
        }
        let mut new_gravs: Vec<GravitatingBody> = Vec::new();
        for i in 0..n
            invariant
                new_gravs@.len() == i as int,
                forall|k: int|
                    0 <= k < i as int ==> new_gravs@[k] == (GravitatingBody {
                        mass: old(self).gravitational_bodies@[k].mass,
                        position: gp@[k],
                        velocity: gv@[k],
                    }),
        {
            let ghost pre = new_gravs@;
            let b = self.gravitational_bodies[i];
            new_gravs.push(GravitatingBody { mass: b.mass, position: gp[i], velocity: gv[i] });
            proof {
                assert forall|k: int| 0 <= k < i as int + 1 implies new_gravs@[k]
                    == (GravitatingBody {
                    mass: old(self).gravitational_bodies@[k].mass,
                    position: gp@[k],
                    velocity: gv@[k],
                }) by {
                    if k < i as int {
                        assert(new_gravs@[k] == pre[k]);
                    } else {
                        assert(new_gravs@[k] == (GravitatingBody {
                            mass: b.mass,
                            position: gp@[i as int],
                            velocity: gv@[i as int],
                        }));
                    }
                }
            }
        }
        let mut new_balls: Vec<BallisticBody> = Vec::new();
        for i in 0..m
            invariant
                new_balls@.len() == i as int,
                forall|k: int|
                    0 <= k < i as int ==> new_balls@[k] == (BallisticBody {
                        mass: old(self).ballistic_bodies@[k].mass,
                        position: bp@[k],
                        velocity: bv@[k],
                    }),
        {
            let ghost pre = new_balls@;
            let b = self.ballistic_bodies[i];
            new_balls.push(BallisticBody { mass: b.mass, position: bp[i], velocity: bv[i] });
            proof {
                assert forall|k: int| 0 <= k < i as int + 1 implies new_balls@[k]
                    == (BallisticBody {
                    mass: old(self).ballistic_bodies@[k].mass,
                    position: bp@[k],
                    velocity: bv@[k],
                }) by {
                    if k < i as int {
                        assert(new_balls@[k] == pre[k]);
                    } else {
                        assert(new_balls@[k] == (BallisticBody {
                            mass: b.mass,
                            position: bp@[i as int],
                            velocity: bv@[i as int],
                        }));
                    }
                }
            }
        }
        self.gravitational_bodies = new_gravs;
        self.ballistic_bodies = new_balls;
        proof {
            assert(step_ok(*old(self), dt as int));
            assert forall|k: int|
                0 <= k < n as int implies self.gravitational_bodies@[k].wf() by {
                assert(grav_step_ok(
                    old(self).g as int,
                    old(self).gravitational_bodies@,
                    k,
                    dt as int,
                ));
                assert(old(self).gravitational_bodies@[k].wf());
            }
            assert forall|k: int| 0 <= k < m as int implies self.ballistic_bodies@[k].wf() by {
                assert(ball_step_ok(
                    old(self).g as int,
                    old(self).gravitational_bodies@,
                    old(self).ballistic_bodies@,
                    k,
                    dt as int,
                ));
                assert(old(self).ballistic_bodies@[k].wf());
            }
            assert forall|a: int, b2: int|
                0 <= a < b2 < n as int implies self.gravitational_bodies@[a].position@
                != self.gravitational_bodies@[b2].position@ by {
                assert(gp@[a]@ != gp@[b2]@);
            }
        }
        true
    }
}

/// The pairwise potential energy that body `i` accumulates against the first
/// `k` bodies: `pot_term(i at position j) * mass j` for each `j < k`.
pub open spec fn pair_energy(g: int, bodies: Seq<GravitatingBody>, i: int, k: int) -> int
    decreases k,
{
    if k <= 0 {
        0
    } else {
        pair_energy(g, bodies, i, k - 1) + pot_term(
            g,
            bodies[i].mass as int,
            bodies[i].position@,
            bodies[k - 1].position@,
        ) * bodies[k - 1].mass
    }
}

/// Kinetic plus pairwise potential energy of the first `k` gravitating
/// bodies, each unordered pair counted exactly once (body `i` is paired with
/// the bodies of smaller index only).
pub open spec fn grav_energy(g: int, bodies: Seq<GravitatingBody>, k: int) -> int
    decreases k,
{
    if k <= 0 {
        0
    } else {
        grav_energy(g, bodies, k - 1) + kinetic_of(
            bodies[k - 1].mass as int,
            bodies[k - 1].velocity@,
        ) + pair_energy(g, bodies, k - 1, k - 1)
    }
}

/// Kinetic plus potential energy of the first `k` ballistic bodies in the
/// full gravitating field (no self-exclusion: a ballistic body is never a
/// field source).
pub open spec fn ball_energy(
    g: int,
    gravs: Seq<GravitatingBody>,
    balls: Seq<BallisticBody>,
    k: int,
) -> int
    decreases k,
{
    if k <= 0 {
        0
    } else {
        ball_energy(g, gravs, balls, k - 1) + kinetic_of(
            balls[k - 1].mass as int,
            balls[k - 1].velocity@,
        ) + pot_sum(g, gravs, gravs.len() as int, balls[k - 1].position@, -1) * balls[k - 1].mass
    }
}

/// Total energy of a world.
pub open spec fn energy_spec(w: PhysicsWorld) -> int {
    grav_energy(w.g as int, w.gravitational_bodies@, w.gravitational_bodies@.len() as int)
        + ball_energy(
        w.g as int,
        w.gravitational_bodies@,
        w.ballistic_bodies@,
        w.ballistic_bodies@.len() as int,
    )
}

/// The kinetic energy of a bounded body is at most `KIN_BOUND`.
pub proof fn lemma_kinetic_bound(m: int, vel: V3)
    requires
        0 <= m <= MAX_MASS,
        vel.bounded(MAX_COORD as int),
    ensures
        0 <= kinetic_of(m, vel) <= KIN_BOUND,
{
    assert(0 <= m * vel.norm_sq() <= KIN_BOUND) by (nonlinear_arith)
        requires
            0 <= m <= MAX_MASS,
            -MAX_COORD <= vel.x <= MAX_COORD,
            -MAX_COORD <= vel.y <= MAX_COORD,
            -MAX_COORD <= vel.z <= MAX_COORD,
            KIN_BOUND == MAX_MASS * 3 * MAX_COORD * MAX_COORD,
    ;
    lemma_tdiv_bound(m * vel.norm_sq(), 2, KIN_BOUND as int);
}

/// The potential of one body at a point off its position lies in
/// `[-POT_TERM_BOUND, 0]`.
pub proof fn lemma_pot_term_bound(g: int, m: int, source: V3, point: V3)
    requires
        1 <= g <= MAX_G,
        1 <= m <= MAX_MASS,
        source != point,
    ensures
        -POT_TERM_BOUND <= pot_term(g, m, source, point) <= 0,
{
    crate::physics::grav::lemma_distinct_norm_sq(source, point);
    let n2 = source.minus(point).norm_sq();
    crate::math::lemma_sqrt_exists(n2);
    assert(1 <= crate::math::sqrt_of(n2)) by (nonlinear_arith)
        requires
            crate::math::is_sqrt(n2, crate::math::sqrt_of(n2)),
            n2 >= 1,
    ;
    assert(1 <= g * m <= POT_TERM_BOUND) by (nonlinear_arith)
        requires
            1 <= g <= MAX_G,
            1 <= m <= MAX_MASS,
            POT_TERM_BOUND == MAX_G * MAX_MASS,
    ;
    lemma_tdiv_bound(g * m, crate::math::sqrt_of(n2), POT_TERM_BOUND as int);
}

/// A partial pairwise-potential sum lies in `[-PAIR_BOUND * k, 0]`.
pub proof fn lemma_pair_energy_bound(g: int, bodies: Seq<GravitatingBody>, i: int, k: int)
    requires
        1 <= g <= MAX_G,
        0 <= i < bodies.len(),
        0 <= k <= i,
        forall|j: int| 0 <= j < bodies.len() ==> bodies[j].wf(),
        forall|a: int, b: int|
            0 <= a < b < bodies.len() ==> bodies[a].position@ != bodies[b].position@,
    ensures
        -PAIR_BOUND * k <= pair_energy(g, bodies, i, k) <= 0,
    decreases k,
{
    if k > 0 {
        lemma_pair_energy_bound(g, bodies, i, k - 1);
        lemma_pot_term_bound(g, bodies[i].mass as int, bodies[i].position@, bodies[k - 1].position@);
        let term = pot_term(g, bodies[i].mass as int, bodies[i].position@, bodies[k - 1].position@);
        assert(-PAIR_BOUND <= term * bodies[k - 1].mass <= 0 && -PAIR_BOUND * (k - 1) - PAIR_BOUND
            == -PAIR_BOUND * k) by (nonlinear_arith)
            requires
                -POT_TERM_BOUND <= term <= 0,
                0 < bodies[k - 1].mass <= MAX_MASS,
                PAIR_BOUND == POT_TERM_BOUND * MAX_MASS,
        ;
    }
}

/// A partial gravitating-energy sum lies in
/// `[-GRAV_STEP_BOUND * k, GRAV_STEP_BOUND * k]`.
pub proof fn lemma_grav_energy_bound(g: int, bodies: Seq<GravitatingBody>, k: int)
    requires
        1 <= g <= MAX_G,
        bodies.len() <= MAX_BODIES,
        0 <= k <= bodies.len(),
        forall|j: int| 0 <= j < bodies.len() ==> bodies[j].wf(),
        forall|a: int, b: int|
            0 <= a < b < bodies.len() ==> bodies[a].position@ != bodies[b].position@,
    ensures
        -GRAV_STEP_BOUND * k <= grav_energy(g, bodies, k) <= GRAV_STEP_BOUND * k,
    decreases k,
{
    if k > 0 {
        lemma_grav_energy_bound(g, bodies, k - 1);
        lemma_kinetic_bound(bodies[k - 1].mass as int, bodies[k - 1].velocity@);
        lemma_pair_energy_bound(g, bodies, k - 1, k - 1);
        assert(-PAIR_BOUND * (k - 1) >= -PAIR_BOUND * 4096 && -GRAV_STEP_BOUND * (k - 1)
            - GRAV_STEP_BOUND == -GRAV_STEP_BOUND * k && GRAV_STEP_BOUND * (k - 1)
            + GRAV_STEP_BOUND == GRAV_STEP_BOUND * k) by (nonlinear_arith)
            requires
                0 < k <= 4096,
                0 < PAIR_BOUND,
                0 < GRAV_STEP_BOUND,
        ;
    }
}

/// A partial potential sum lies in `[-POT_TERM_BOUND * k, 0]`.
pub proof fn lemma_pot_sum_bound(
    g: int,
    bodies: Seq<GravitatingBody>,
    k: int,
    point: V3,
    excl: int,
)
    requires
        1 <= g <= MAX_G,
        0 <= k <= bodies.len(),
        forall|j: int| 0 <= j < bodies.len() ==> bodies[j].wf(),
    ensures
        -POT_TERM_BOUND * k <= pot_sum(g, bodies, k, point, excl) <= 0,
    decreases k,
{
    if k > 0 {
        lemma_pot_sum_bound(g, bodies, k - 1, point, excl);
        assert(-POT_TERM_BOUND * (k - 1) - POT_TERM_BOUND == -POT_TERM_BOUND * k
            && -POT_TERM_BOUND * (k - 1) >= -POT_TERM_BOUND * k) by (nonlinear_arith)
            requires
                0 < POT_TERM_BOUND,
                0 < k,
        ;
        if k - 1 != excl && bodies[k - 1].position@ != point {
            lemma_pot_term_bound(g, bodies[k - 1].mass as int, bodies[k - 1].position@, point);
        }
    }
}

/// A partial ballistic-energy sum lies in
/// `[-BALL_STEP_BOUND * k, BALL_STEP_BOUND * k]`.
pub proof fn lemma_ball_energy_bound(
    g: int,
    gravs: Seq<GravitatingBody>,
    balls: Seq<BallisticBody>,
    k: int,
)
    requires
        1 <= g <= MAX_G,
        gravs.len() <= MAX_BODIES,
        0 <= k <= balls.len(),
        forall|j: int| 0 <= j < gravs.len() ==> gravs[j].wf(),
        forall|j: int| 0 <= j < balls.len() ==> balls[j].wf(),
    ensures
        -BALL_STEP_BOUND * k <= ball_energy(g, gravs, balls, k) <= BALL_STEP_BOUND * k,
    decreases k,
{
    if k > 0 {
        lemma_ball_energy_bound(g, gravs, balls, k - 1);
        assert(balls[k - 1].wf());
        lemma_kinetic_bound(balls[k - 1].mass as int, balls[k - 1].velocity@);
        lemma_pot_sum_bound(g, gravs, gravs.len() as int, balls[k - 1].position@, -1);
        let ps = pot_sum(g, gravs, gravs.len() as int, balls[k - 1].position@, -1);
        assert(-POT_TERM_BOUND * (gravs.len() as int) >= -POT_BOUND) by (nonlinear_arith)
            requires
                0 <= gravs.len() as int <= 4096,
                POT_BOUND == POT_TERM_BOUND * 4096,
                0 < POT_TERM_BOUND,
        ;
        assert(-BALL_STEP_BOUND <= ps * balls[k - 1].mass <= 0 && -BALL_STEP_BOUND * (k - 1)
            - BALL_STEP_BOUND == -BALL_STEP_BOUND * k && BALL_STEP_BOUND * (k - 1)
            + BALL_STEP_BOUND == BALL_STEP_BOUND * k && KIN_BOUND <= BALL_STEP_BOUND)
            by (nonlinear_arith)
            requires
                -POT_BOUND <= ps <= 0,
                0 <= balls[k - 1].mass <= MAX_MASS,
                BALL_STEP_BOUND == KIN_BOUND + POT_BOUND * MAX_MASS,
                0 < KIN_BOUND,
                0 < POT_BOUND,
                0 < MAX_MASS,
                0 < k,
        ;
    }
}

/// The acceleration on gravitating body `i` at its current position, the
/// body itself excluded from the sum.
pub open spec fn a_old_grav(g: int, bodies: Seq<GravitatingBody>, i: int) -> V3 {
    accel_sum(g, bodies, bodies.len() as int, bodies[i].position@, i)
}

/// The next position of gravitating body `i`.
pub open spec fn next_grav_pos(g: int, bodies: Seq<GravitatingBody>, i: int, dt: int) -> V3 {
    verlet_pos(bodies[i].position@, bodies[i].velocity@, a_old_grav(g, bodies, i), dt)
}

/// The acceleration on gravitating body `i` at its next position, still
/// evaluated against the pre-step field.
pub open spec fn a_new_grav(g: int, bodies: Seq<GravitatingBody>, i: int, dt: int) -> V3 {
    accel_sum(g, bodies, bodies.len() as int, next_grav_pos(g, bodies, i, dt), i)
}

/// The next velocity of gravitating body `i`.
pub open spec fn next_grav_vel(g: int, bodies: Seq<GravitatingBody>, i: int, dt: int) -> V3 {
    verlet_vel(
        bodies[i].velocity@,
        a_old_grav(g, bodies, i),
        a_new_grav(g, bodies, i, dt),
        dt,
    )
}

/// The acceleration on ballistic body `i` at its current position, against
/// the full gravitating field.
pub open spec fn a_old_ball(g: int, gravs: Seq<GravitatingBody>, balls: Seq<BallisticBody>, i: int) -> V3 {
    accel_sum(g, gravs, gravs.len() as int, balls[i].position@, -1)
}

/// The next position of ballistic body `i`.
pub open spec fn next_ball_pos(
    g: int,
    gravs: Seq<GravitatingBody>,
    balls: Seq<BallisticBody>,
    i: int,
    dt: int,
) -> V3 {
    verlet_pos(balls[i].position@, balls[i].velocity@, a_old_ball(g, gravs, balls, i), dt)
}

/// The acceleration on ballistic body `i` at its next position, still
/// evaluated against the pre-step field.
pub open spec fn a_new_ball(
    g: int,
    gravs: Seq<GravitatingBody>,
    balls: Seq<BallisticBody>,
    i: int,
    dt: int,
) -> V3 {
    accel_sum(g, gravs, gravs.len() as int, next_ball_pos(g, gravs, balls, i, dt), -1)
}

/// The next velocity of ballistic body `i`.
pub open spec fn next_ball_vel(
    g: int,
    gravs: Seq<GravitatingBody>,
    balls: Seq<BallisticBody>,
    i: int,
    dt: int,
) -> V3 {
    verlet_vel(
        balls[i].velocity@,
        a_old_ball(g, gravs, balls, i),
        a_new_ball(g, gravs, balls, i, dt),
        dt,
    )
}

/// The step keeps gravitating body `i` inside the coordinate bounds, and its
/// half-step evaluation point stays off every other source.
pub open spec fn grav_step_ok(g: int, bodies: Seq<GravitatingBody>, i: int, dt: int) -> bool {
    &&& next_grav_pos(g, bodies, i, dt).bounded(MAX_COORD as int)
    &&& clear_of(bodies, next_grav_pos(g, bodies, i, dt), i)
    &&& next_grav_vel(g, bodies, i, dt).bounded(MAX_COORD as int)
}

/// The step keeps ballistic body `i` inside the coordinate bounds, and both
/// of its evaluation points stay off every source.
pub open spec fn ball_step_ok(
    g: int,
    gravs: Seq<GravitatingBody>,
    balls: Seq<BallisticBody>,
    i: int,
    dt: int,
) -> bool {
    &&& clear_of(gravs, balls[i].position@, -1)
    &&& next_ball_pos(g, gravs, balls, i, dt).bounded(MAX_COORD as int)
    &&& clear_of(gravs, next_ball_pos(g, gravs, balls, i, dt), -1)
    &&& next_ball_vel(g, gravs, balls, i, dt).bounded(MAX_COORD as int)
}

/// The next gravitating positions are pairwise distinct, so the stepped
/// world keeps its no-coincident-sources invariant.
pub open spec fn next_gravs_separated(g: int, bodies: Seq<GravitatingBody>, dt: int) -> bool {
    forall|i: int, j: int|
        0 <= i < j < bodies.len() ==> next_grav_pos(g, bodies, i, dt) != next_grav_pos(
            g,
            bodies,
            j,
            dt,
        )
}

/// The whole step is free of singular evaluations and stays inside the
/// bounds: exactly when this holds, `update_bodies` commits.
pub open spec fn step_ok(w: PhysicsWorld, dt: int) -> bool {
    &&& (forall|i: int|
        0 <= i < w.gravitational_bodies@.len() ==> grav_step_ok(
            w.g as int,
            w.gravitational_bodies@,
            i,
            dt,
        ))
    &&& (forall|i: int|
        0 <= i < w.ballistic_bodies@.len() ==> ball_step_ok(
            w.g as int,
            w.gravitational_bodies@,
            w.ballistic_bodies@,
            i,
            dt,
        ))
    &&& next_gravs_separated(w.g as int, w.gravitational_bodies@, dt)
}

/// Sums the acceleration contributions of `bodies` at `point`, skipping index
/// `excl`; reports `None` when a non-skipped body stands exactly on `point`
/// (the singular case).
#[verifier::loop_isolation(false)]
fn accel_at(g: i128, bodies: &Vec<GravitatingBody>, point: Vec3, excl: Option<usize>) -> (r: Option<
    Vec3,
>)
    requires
        1 <= g <= MAX_G,
        bodies@.len() <= MAX_BODIES,
        forall|i: int| 0 <= i < bodies@.len() ==> bodies@[i].wf(),
        point@.bounded(MAX_COORD as int),
    ensures
        r.is_some() <==> clear_of(bodies@, point@, eidx(excl)),
        r.is_some() ==> r.unwrap()@ == accel_sum(
            g as int,
            bodies@,
            bodies@.len() as int,
            point@,
            eidx(excl),
        ),
        r.is_some() ==> r.unwrap()@.bounded(ACC_BOUND as int),
{
    let n = bodies.len();
    let mut ax: i128 = 0;
    let mut ay: i128 = 0;
    let mut az: i128 = 0;
    for i in 0..n
        invariant
            (V3 { x: ax as int, y: ay as int, z: az as int }) == accel_sum(
                g as int,
                bodies@,
                i as int,
                point@,
                eidx(excl),
            ),
            -TERM_BOUND * (i as int) <= ax <= TERM_BOUND * (i as int),
            -TERM_BOUND * (i as int) <= ay <= TERM_BOUND * (i as int),
            -TERM_BOUND * (i as int) <= az <= TERM_BOUND * (i as int),
            forall|j: int| 0 <= j < i && j != eidx(excl) ==> bodies@[j].position@ != point@,
    {
        proof {
            assert(TERM_BOUND * (i as int) + TERM_BOUND == TERM_BOUND * (i as int + 1)
                && TERM_BOUND * (i as int + 1) <= ACC_BOUND && -TERM_BOUND * (i as int)
                - TERM_BOUND == -TERM_BOUND * (i as int + 1) && -TERM_BOUND * (i as int + 1)
                >= -ACC_BOUND && -TERM_BOUND * (i as int) >= -TERM_BOUND * (i as int + 1))
                by (nonlinear_arith)
                requires
                    0 <= i as int,
                    i as int + 1 <= 4096,
                    ACC_BOUND == TERM_BOUND * 4096,
                    0 < TERM_BOUND,
            ;
        }
        let skip = match excl {
            Some(e) => e == i,
            None => false,
        };
        if !skip {
            let b = bodies[i];
            if b.position == point {
                return None;
            }
            let term = b.get_grav_acc(g, point);
            ax = ax + term.x;
            ay = ay + term.y;
            az = az + term.z;
        }
    }
    proof {
        assert(TERM_BOUND * (n as int) <= ACC_BOUND && -TERM_BOUND * (n as int) >= -ACC_BOUND)
            by (nonlinear_arith)
            requires
                0 <= n as int <= 4096,
                ACC_BOUND == TERM_BOUND * 4096,
                0 < TERM_BOUND,
        ;
    }
    Some(Vec3 { x: ax, y: ay, z: az })
}

/// Sums the potential contributions of `bodies` at `point`, skipping index
/// `excl` and any body inside the minimum-distance guard (standing exactly on
/// `point`).
#[verifier::loop_isolation(false)]
fn potential_at(g: i128, bodies: &Vec<GravitatingBody>, point: Vec3, excl: Option<usize>) -> (r:
    i128)
    requires
        1 <= g <= MAX_G,
        bodies@.len() <= MAX_BODIES,
        forall|i: int| 0 <= i < bodies@.len() ==> bodies@[i].wf(),
        point@.bounded(MAX_COORD as int),
    ensures
        r as int == pot_sum(g as int, bodies@, bodies@.len() as int, point@, eidx(excl)),
        -POT_BOUND <= r <= 0,
{
    let n = bodies.len();
    let mut p: i128 = 0;
    for i in 0..n
        invariant
            p as int == pot_sum(g as int, bodies@, i as int, point@, eidx(excl)),
            -POT_TERM_BOUND * (i as int) <= p <= 0,
    {
        proof {
            assert(-POT_TERM_BOUND * (i as int) - POT_TERM_BOUND == -POT_TERM_BOUND * (i as int
                + 1) && -POT_TERM_BOUND * (i as int + 1) >= -POT_BOUND && -POT_TERM_BOUND * (
            i as int) >= -POT_TERM_BOUND * (i as int + 1)) by (nonlinear_arith)
                requires
                    0 <= i as int,
                    i as int + 1 <= 4096,
                    POT_BOUND == POT_TERM_BOUND * 4096,
                    0 < POT_TERM_BOUND,
            ;
        }
        let skip = match excl {
            Some(e) => e == i,
            None => false,
        };
        if !skip {
            let b = bodies[i];
            if !(b.position == point) {
                let term = b.get_grav_potential_field(g, point);
                p = p + term;
            }
        }
    }
    p
}

} // verus!
