use crate::limits::{ACC_BOUND, MAX_COORD, MAX_DT, POS_BOUND, VEL_BOUND};
use crate::math::{div_trunc, lemma_tdiv_bound, tdiv};
use crate::vec3::{V3, Vec3};
use vstd::prelude::*;

verus! {

/// The velocity-Verlet position update:
/// `p + v * dt + a * dt^2 / 2`, each component rounded toward zero.
pub open spec fn verlet_pos(p: V3, v: V3, a: V3, dt: int) -> V3 {
    V3 {
        x: p.x + v.x * dt + tdiv(a.x * dt * dt, 2),
        y: p.y + v.y * dt + tdiv(a.y * dt * dt, 2),
        z: p.z + v.z * dt + tdiv(a.z * dt * dt, 2),
    }
}

/// The velocity-Verlet velocity update with the half-step-averaged
/// acceleration: `v + (a_old + a_new) * dt / 2`, rounded toward zero.
pub open spec fn verlet_vel(v: V3, a_old: V3, a_new: V3, dt: int) -> V3 {
    V3 {
        x: v.x + tdiv((a_old.x + a_new.x) * dt, 2),
        y: v.y + tdiv((a_old.y + a_new.y) * dt, 2),
        z: v.z + tdiv((a_old.z + a_new.z) * dt, 2),
    }
}

/// Computes the next position of a body from its current state and the
/// acceleration evaluated at the current position.
pub fn verlet_position(position: Vec3, velocity: Vec3, old_acc: Vec3, dt: i128) -> (p: Vec3)
    requires
        position@.bounded(MAX_COORD as int),
        velocity@.bounded(MAX_COORD as int),
        old_acc@.bounded(ACC_BOUND as int),
        1 <= dt <= MAX_DT,
    ensures
        p@ == verlet_pos(position@, velocity@, old_acc@, dt as int),
        p@.bounded(POS_BOUND as int),
{
    proof {
        assert(-MAX_COORD * MAX_DT <= velocity.x * dt <= MAX_COORD * MAX_DT && -MAX_COORD * MAX_DT
            <= velocity.y * dt <= MAX_COORD * MAX_DT && -MAX_COORD * MAX_DT <= velocity.z * dt
            <= MAX_COORD * MAX_DT) by (nonlinear_arith)
            requires
                -MAX_COORD <= velocity.x <= MAX_COORD,
                -MAX_COORD <= velocity.y <= MAX_COORD,
                -MAX_COORD <= velocity.z <= MAX_COORD,
                1 <= dt <= MAX_DT,
        ;
        assert(-ACC_BOUND * MAX_DT <= old_acc.x * dt <= ACC_BOUND * MAX_DT && -ACC_BOUND * MAX_DT
            <= old_acc.y * dt <= ACC_BOUND * MAX_DT && -ACC_BOUND * MAX_DT <= old_acc.z * dt
            <= ACC_BOUND * MAX_DT && -ACC_BOUND * MAX_DT * MAX_DT <= old_acc.x * dt * dt
            <= ACC_BOUND * MAX_DT * MAX_DT && -ACC_BOUND * MAX_DT * MAX_DT <= old_acc.y * dt * dt
            <= ACC_BOUND * MAX_DT * MAX_DT && -ACC_BOUND * MAX_DT * MAX_DT <= old_acc.z * dt * dt
            <= ACC_BOUND * MAX_DT * MAX_DT) by (nonlinear_arith)
            requires
                -ACC_BOUND <= old_acc.x <= ACC_BOUND,
                -ACC_BOUND <= old_acc.y <= ACC_BOUND,
                -ACC_BOUND <= old_acc.z <= ACC_BOUND,
                1 <= dt <= MAX_DT,
                0 < ACC_BOUND,
        ;
        lemma_tdiv_bound(old_acc.x as int * dt as int * dt as int, 2,
            ACC_BOUND as int * MAX_DT as int * MAX_DT as int);
        lemma_tdiv_bound(old_acc.y as int * dt as int * dt as int, 2,
            ACC_BOUND as int * MAX_DT as int * MAX_DT as int);
        lemma_tdiv_bound(old_acc.z as int * dt as int * dt as int, 2,
            ACC_BOUND as int * MAX_DT as int * MAX_DT as int);
    }
    let hx = div_trunc(old_acc.x * dt * dt, 2);
    let hy = div_trunc(old_acc.y * dt * dt, 2);
    let hz = div_trunc(old_acc.z * dt * dt, 2);
    Vec3 {
        x: position.x + velocity.x * dt + hx,
        y: position.y + velocity.y * dt + hy,
        z: position.z + velocity.z * dt + hz,
    }
}

/// Computes the next velocity of a body from the accelerations evaluated at
/// the current and at the next position.
pub fn verlet_velocity(velocity: Vec3, old_acc: Vec3, new_acc: Vec3, dt: i128) -> (v: Vec3)
    requires
        velocity@.bounded(MAX_COORD as int),
        old_acc@.bounded(ACC_BOUND as int),
        new_acc@.bounded(ACC_BOUND as int),
        1 <= dt <= MAX_DT,
    ensures
        v@ == verlet_vel(velocity@, old_acc@, new_acc@, dt as int),
        v@.bounded(VEL_BOUND as int),
{
    proof {
        assert(-2 * ACC_BOUND * MAX_DT <= (old_acc.x + new_acc.x) * dt <= 2 * ACC_BOUND * MAX_DT
            && -2 * ACC_BOUND * MAX_DT <= (old_acc.y + new_acc.y) * dt <= 2 * ACC_BOUND * MAX_DT
            && -2 * ACC_BOUND * MAX_DT <= (old_acc.z + new_acc.z) * dt <= 2 * ACC_BOUND * MAX_DT)
            by (nonlinear_arith)
            requires
                -ACC_BOUND <= old_acc.x <= ACC_BOUND,
                -ACC_BOUND <= old_acc.y <= ACC_BOUND,
                -ACC_BOUND <= old_acc.z <= ACC_BOUND,
                -ACC_BOUND <= new_acc.x <= ACC_BOUND,
                -ACC_BOUND <= new_acc.y <= ACC_BOUND,
                -ACC_BOUND <= new_acc.z <= ACC_BOUND,
                1 <= dt <= MAX_DT,
                0 < ACC_BOUND,
        ;
        lemma_tdiv_bound((old_acc.x as int + new_acc.x as int) * dt as int, 2,
            2 * ACC_BOUND as int * MAX_DT as int);
        lemma_tdiv_bound((old_acc.y as int + new_acc.y as int) * dt as int, 2,
            2 * ACC_BOUND as int * MAX_DT as int);
        lemma_tdiv_bound((old_acc.z as int + new_acc.z as int) * dt as int, 2,
            2 * ACC_BOUND as int * MAX_DT as int);
    }
    let hx = div_trunc((old_acc.x + new_acc.x) * dt, 2);
    let hy = div_trunc((old_acc.y + new_acc.y) * dt, 2);
    let hz = div_trunc((old_acc.z + new_acc.z) * dt, 2);
    Vec3 { x: velocity.x + hx, y: velocity.y + hy, z: velocity.z + hz }
}

} // verus!
