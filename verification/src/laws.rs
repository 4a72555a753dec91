use crate::physics::{
    accel_sum, grav_step_ok, next_grav_pos, next_grav_vel, next_gravs_separated, pot_sum,
    PhysicsWorld,
};
use crate::physics::grav::GravitatingBody;
use crate::vec3::V3;
use vstd::prelude::*;

verus! {

/// Self-exclusion correctness: a sum taken with index `excl` excluded never
/// reads the excluded body. Exchanging that body for any other body leaves
/// both the acceleration and the potential sum unchanged, so its own
/// (singular) self-term can never enter.
pub proof fn lemma_excluded_body_ignored(
    g: int,
    a: Seq<GravitatingBody>,
    b: Seq<GravitatingBody>,
    k: int,
    point: V3,
    excl: int,
)
    requires
        a.len() == b.len(),
        k <= a.len(),
        forall|j: int| 0 <= j < a.len() && j != excl ==> a[j] == b[j],
    ensures
        accel_sum(g, a, k, point, excl) == accel_sum(g, b, k, point, excl),
        pot_sum(g, a, k, point, excl) == pot_sum(g, b, k, point, excl),
    decreases k,
{
    if k > 0 {
        lemma_excluded_body_ignored(g, a, b, k - 1, point, excl);
    }
}

/// Self-exclusion correctness for a lone gravitating body: excluding it
/// leaves an empty sum, so the acceleration is exactly zero and the
/// potential exactly zero at every point, the body's own position included.
pub proof fn lemma_single_body_self_exclusion(g: int, bodies: Seq<GravitatingBody>, point: V3)
    requires
        bodies.len() == 1,
    ensures
        accel_sum(g, bodies, 1, point, 0) == V3::zero(),
        pot_sum(g, bodies, 1, point, 0) == 0,
{
    assert(accel_sum(g, bodies, 0, point, 0) == V3::zero());
    assert(pot_sum(g, bodies, 0, point, 0) == 0);
}

/// Ballistic non-interference: the step of the gravitating bodies is a
/// function of the gravitational constant and the gravitating collection
/// alone. Two worlds that agree on those step their gravitating bodies
/// identically, whatever ballistic bodies either of them carries — so adding
/// an arbitrarily massive ballistic body changes no gravitating trajectory.
pub proof fn lemma_ballistic_non_interference(w1: PhysicsWorld, w2: PhysicsWorld, i: int, dt: int)
    requires
        w1.g == w2.g,
        w1.gravitational_bodies@ == w2.gravitational_bodies@,
    ensures
        next_grav_pos(w1.g as int, w1.gravitational_bodies@, i, dt) == next_grav_pos(
            w2.g as int,
            w2.gravitational_bodies@,
            i,
            dt,
        ),
        next_grav_vel(w1.g as int, w1.gravitational_bodies@, i, dt) == next_grav_vel(
            w2.g as int,
            w2.gravitational_bodies@,
            i,
            dt,
        ),
        grav_step_ok(w1.g as int, w1.gravitational_bodies@, i, dt) == grav_step_ok(
            w2.g as int,
            w2.gravitational_bodies@,
            i,
            dt,
        ),
        next_gravs_separated(w1.g as int, w1.gravitational_bodies@, dt) == next_gravs_separated(
            w2.g as int,
            w2.gravitational_bodies@,
            dt,
        ),
{
}

/// Ballistic non-interference for the field queries: the acceleration and
/// the potential at a point are sums over the gravitating collection alone,
/// so they too are unchanged by any ballistic body.
pub proof fn lemma_ballistic_bodies_source_nothing(w1: PhysicsWorld, w2: PhysicsWorld, k: int, point: V3, excl: int)
    requires
        w1.g == w2.g,
        w1.gravitational_bodies@ == w2.gravitational_bodies@,
    ensures
        accel_sum(w1.g as int, w1.gravitational_bodies@, k, point, excl) == accel_sum(
            w2.g as int,
            w2.gravitational_bodies@,
            k,
            point,
            excl,
        ),
        pot_sum(w1.g as int, w1.gravitational_bodies@, k, point, excl) == pot_sum(
            w2.g as int,
            w2.gravitational_bodies@,
            k,
            point,
            excl,
        ),
{
}

} // verus!
