use nbody::physics::grav::GravitatingBody;
use nbody::physics::integrators::{verlet_position, verlet_velocity};
use nbody::physics::non_grav::BallisticBody;
use nbody::physics::PhysicsWorld;
use nbody::vec3::Vec3;

fn grav(mass: i128, p: (i128, i128, i128), v: (i128, i128, i128)) -> GravitatingBody {
    GravitatingBody::new(mass, Vec3::new(p.0, p.1, p.2), Vec3::new(v.0, v.1, v.2))
}

fn ball(mass: i128, p: (i128, i128, i128), v: (i128, i128, i128)) -> BallisticBody {
    BallisticBody::new(mass, Vec3::new(p.0, p.1, p.2), Vec3::new(v.0, v.1, v.2))
}

#[test]
fn acceleration_points_at_source_exact() {
    // g*m/d^2 = 1000 * 1_000_000 / 100^2 = 100_000 toward the body.
    let world = PhysicsWorld::new(1000, vec![grav(1_000_000, (0, 0, 0), (0, 0, 0))], vec![]);
    let a = world.calculate_gravitational_acceleration(Vec3::new(100, 0, 0));
    assert_eq!(a, Vec3::new(-100_000, 0, 0));
}

#[test]
fn acceleration_off_axis_exact() {
    // d = 5 for the 3-4-5 triangle; components g*m*delta/d^3.
    let world = PhysicsWorld::new(1, vec![grav(1000, (0, 0, 0), (0, 0, 0))], vec![]);
    let a = world.calculate_gravitational_acceleration(Vec3::new(3, 4, 0));
    assert_eq!(a, Vec3::new(-24, -32, 0));
}

#[test]
fn acceleration_rounds_toward_zero() {
    // num = -14, den = 8: the quotient is -1, not the floored -2.
    let world = PhysicsWorld::new(1, vec![grav(7, (0, 0, 0), (0, 0, 0))], vec![]);
    let a = world.calculate_gravitational_acceleration(Vec3::new(2, 0, 0));
    assert_eq!(a, Vec3::new(-1, 0, 0));
}

#[test]
fn exclusion_removes_exactly_one_term() {
    let world = PhysicsWorld::new(
        1,
        vec![grav(7, (0, 0, 0), (0, 0, 0)), grav(1000, (2, 0, 0), (0, 0, 0))],
        vec![],
    );
    // Excluding the body standing on the query point leaves only the other.
    let a = world.calculate_gravitational_acceleration_exclude(Vec3::new(2, 0, 0), 1);
    assert_eq!(a, Vec3::new(-1, 0, 0));
}

#[test]
fn single_body_excluded_field_is_zero_everywhere() {
    let world = PhysicsWorld::new(1000, vec![grav(1_000_000, (5, 6, 7), (0, 0, 0))], vec![]);
    for point in [(5, 6, 7), (0, 0, 0), (-40, 2, 9)] {
        let p = Vec3::new(point.0, point.1, point.2);
        assert_eq!(world.calculate_gravitational_acceleration_exclude(p, 0), Vec3::zeros());
        assert_eq!(world.calculate_gravitational_potential_field_exclude(p, 0), 0);
    }
}

#[test]
fn potential_exact_value() {
    // -g*m/d = -(10 * 1000 / 4) = -2500.
    let world = PhysicsWorld::new(10, vec![grav(1000, (0, 0, 0), (0, 0, 0))], vec![]);
    assert_eq!(world.calculate_gravitational_potential_field(Vec3::new(4, 0, 0)), -2500);
}

#[test]
fn potential_guard_skips_coincident_source() {
    // A source standing exactly on the query point contributes nothing.
    let world = PhysicsWorld::new(10, vec![grav(1000, (4, 0, 0), (0, 0, 0))], vec![]);
    assert_eq!(world.calculate_gravitational_potential_field(Vec3::new(4, 0, 0)), 0);
}

#[test]
fn potential_exclude_exact_value() {
    let world = PhysicsWorld::new(
        10,
        vec![grav(1000, (0, 0, 0), (0, 0, 0)), grav(600, (1, 0, 0), (0, 0, 0))],
        vec![],
    );
    // Excluding index 0 leaves only the second body's term: -(10*600/3).
    let p = world.calculate_gravitational_potential_field_exclude(Vec3::new(4, 0, 0), 0);
    assert_eq!(p, -2000);
}

#[test]
fn kinetic_energy_exact() {
    let b = grav(10, (0, 0, 0), (3, 4, 0));
    assert_eq!(b.get_kinetic(), 125);
    // Truncating halving: 3 * 1 / 2 = 1.
    let c = grav(3, (0, 0, 0), (1, 0, 0));
    assert_eq!(c.get_kinetic(), 1);
    let d = ball(2, (0, 0, 0), (0, 2, 0));
    assert_eq!(d.get_kinetic(), 4);
}

#[test]
fn total_energy_exact_small_system() {
    let world = PhysicsWorld::new(
        1000,
        vec![grav(100, (0, 0, 0), (0, 0, 0)), grav(10, (5, 0, 0), (1, 0, 0))],
        vec![ball(2, (0, 3, 0), (0, 2, 0))],
    );
    // Kinetic: 0 + 5 + 4. Pair: -(1000*10/5) * 100 = -200000.
    // Ballistic potential: (-(1000*100/3) - (1000*10/5)) * 2 = -70666.
    assert_eq!(world.total_energy(), 5 - 200000 + 4 + (-33333 - 2000) * 2);
}

#[test]
fn verlet_kernels_exact() {
    let p = verlet_position(Vec3::new(1, 2, 3), Vec3::new(1, 1, 1), Vec3::new(4, 0, -4), 10);
    assert_eq!(p, Vec3::new(211, 12, -187));
    let v = verlet_velocity(Vec3::new(1, 1, 1), Vec3::new(4, 0, -4), Vec3::new(3, 1, -5), 10);
    assert_eq!(v, Vec3::new(36, 6, -44));
}

#[test]
fn lone_body_moves_in_a_straight_line() {
    // A lone gravitating body feels no field (it is excluded from its own).
    let mut world = PhysicsWorld::new(1000, vec![grav(1_000_000, (0, 0, 0), (3, -2, 1))], vec![]);
    assert!(world.update_bodies(2));
    assert_eq!(world.gravitational_bodies[0].get_position(), Vec3::new(6, -4, 2));
    assert_eq!(world.gravitational_bodies[0].get_velocity(), Vec3::new(3, -2, 1));
}

#[test]
fn update_uses_pre_step_snapshot() {
    // Two equal masses attract symmetrically. Every force evaluation must
    // read the pre-step positions: if the first body's committed state
    // leaked into the second body's evaluation, the second body would see a
    // shorter distance (188 instead of 200) and step to 86 instead of 88.
    let mut world = PhysicsWorld::new(
        1000,
        vec![grav(1000, (-100, 0, 0), (0, 0, 0)), grav(1000, (100, 0, 0), (0, 0, 0))],
        vec![],
    );
    assert!(world.update_bodies(1));
    assert_eq!(world.gravitational_bodies[0].get_position(), Vec3::new(-88, 0, 0));
    assert_eq!(world.gravitational_bodies[1].get_position(), Vec3::new(88, 0, 0));
    assert_eq!(world.gravitational_bodies[0].get_velocity(), Vec3::new(26, 0, 0));
    assert_eq!(world.gravitational_bodies[1].get_velocity(), Vec3::new(-26, 0, 0));
}

#[test]
fn ballistic_body_steps_in_the_field() {
    let mut world = PhysicsWorld::new(
        1000,
        vec![grav(1000, (-100, 0, 0), (0, 0, 0)), grav(1000, (100, 0, 0), (0, 0, 0))],
        vec![ball(4_000_000_000, (0, 50, 0), (0, 0, 0))],
    );
    assert!(world.update_bodies(1));
    assert_eq!(world.ballistic_bodies[0].get_position(), Vec3::new(0, 14, 0));
    assert_eq!(world.ballistic_bodies[0].get_velocity(), Vec3::new(0, -50, 0));
}

#[test]
fn massive_ballistic_body_interferes_with_nothing() {
    let gravs = vec![grav(1000, (-100, 0, 0), (0, 0, 0)), grav(1000, (100, 0, 0), (0, 0, 0))];
    let mut bare = PhysicsWorld::new(1000, gravs.clone(), vec![]);
    let mut loaded = PhysicsWorld::new(
        1000,
        gravs,
        vec![ball(4_000_000_000, (0, 50, 0), (0, 0, 0))],
    );
    // The field queries ignore ballistic bodies entirely.
    let probe = Vec3::new(0, 7, 0);
    assert_eq!(
        bare.calculate_gravitational_acceleration(probe),
        loaded.calculate_gravitational_acceleration(probe)
    );
    assert_eq!(
        bare.calculate_gravitational_potential_field(probe),
        loaded.calculate_gravitational_potential_field(probe)
    );
    // And so do the gravitating trajectories, over several steps.
    for _ in 0..5 {
        assert!(bare.update_bodies(1));
        assert!(loaded.update_bodies(1));
        for i in 0..2 {
            assert_eq!(
                bare.gravitational_bodies[i].get_position(),
                loaded.gravitational_bodies[i].get_position()
            );
            assert_eq!(
                bare.gravitational_bodies[i].get_velocity(),
                loaded.gravitational_bodies[i].get_velocity()
            );
        }
    }
}

#[test]
fn update_refuses_singular_evaluation_and_changes_nothing() {
    // A ballistic body standing exactly on a source makes its own force
    // evaluation singular: the step must refuse and leave the world as it was.
    let mut world = PhysicsWorld::new(
        1000,
        vec![grav(1000, (0, 0, 0), (0, 0, 0))],
        vec![ball(5, (0, 0, 0), (1, 2, 3))],
    );
    assert!(!world.update_bodies(1));
    assert_eq!(world.gravitational_bodies[0].get_position(), Vec3::new(0, 0, 0));
    assert_eq!(world.ballistic_bodies[0].get_position(), Vec3::new(0, 0, 0));
    assert_eq!(world.ballistic_bodies[0].get_velocity(), Vec3::new(1, 2, 3));
}

#[test]
fn body_accessors_and_setters() {
    let mut b = grav(42, (1, 2, 3), (4, 5, 6));
    assert_eq!(b.get_mass(), 42);
    assert_eq!(b.get_position(), Vec3::new(1, 2, 3));
    assert_eq!(b.get_velocity(), Vec3::new(4, 5, 6));
    b.set_position(Vec3::new(7, 8, 9));
    b.set_velocity(Vec3::new(-1, -2, -3));
    assert_eq!(b.get_position(), Vec3::new(7, 8, 9));
    assert_eq!(b.get_velocity(), Vec3::new(-1, -2, -3));
    let snapshot = b.clone();
    b.set_position(Vec3::new(0, 0, 0));
    assert_eq!(snapshot.get_position(), Vec3::new(7, 8, 9));

    let mut c = ball(0, (1, 1, 1), (2, 2, 2));
    assert_eq!(c.get_mass(), 0);
    c.set_velocity(Vec3::new(9, 9, 9));
    assert_eq!(c.get_velocity(), Vec3::new(9, 9, 9));
    assert_eq!(c.get_position(), Vec3::new(1, 1, 1));
}

#[test]
fn body_field_methods_exact() {
    let b = grav(1000, (0, 0, 0), (0, 0, 0));
    assert_eq!(b.get_grav_acc(1, Vec3::new(3, 4, 0)), Vec3::new(-24, -32, 0));
    assert_eq!(b.get_grav_potential_field(10, Vec3::new(4, 0, 0)), -2500);
}

#[test]
fn orbit_conserves_energy_in_integer_units() {
    // A light satellite on a near-circular orbit around a heavy central
    // body, in integer units: r = 1_000_000, v = sqrt(g*M/r) = 63245. The
    // central body feels only the satellite's negligible pull (it truncates
    // to zero), and the time-symmetric stepper must keep the total energy
    // within a small relative band over a full orbit.
    let mut world = PhysicsWorld::new(
        1_000_000,
        vec![
            grav(4_000_000_000, (0, 0, 0), (0, 0, 0)),
            grav(1000, (1_000_000, 0, 0), (0, 63245, 0)),
        ],
        vec![],
    );
    let e0 = world.total_energy();
    assert!(e0 < 0);
    for _ in 0..100 {
        assert!(world.update_bodies(1));
    }
    let e1 = world.total_energy();
    let drift = (e1 - e0).abs();
    // Within one percent of the initial energy.
    assert!(
        drift * 100 <= e0.abs(),
        "energy drifted: initial {}, final {}",
        e0,
        e1
    );
}
