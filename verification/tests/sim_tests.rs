use orbit_sim::sim::Attractor;
use orbit_sim::sim::OrbitSimulator;
use orbit_sim::sim::OrbitingBody;
use orbit_sim::vec3::Vec3;

fn planet() -> Attractor {
    // radius 3 units, strength 600, in thousandths
    Attractor { position: Vec3::new(0, 0, 0), radius: 3000, strength: 600_000 }
}

fn high_body() -> OrbitingBody {
    // 13 units above the planet's center, at rest, mass 20, radius 0.5
    OrbitingBody {
        position: Vec3::new(0, 13_000, 0),
        velocity: Vec3::zero(),
        mass: 20_000,
        radius: 500,
    }
}

#[test]
fn step_pulls_toward_attractor() {
    let mut sim = OrbitSimulator::new(planet(), high_body());
    sim.step(16);
    // one Euler sub-step of 0.016 s: dv_y = -600/13^2/20*0.016 = -0.00284,
    // truncated to -2 thousandths; the position is the host's to integrate
    assert_eq!(sim.velocity(), Vec3::new(0, -2, 0));
    assert!(sim.velocity().y < 0);
    assert_eq!(sim.position(), Vec3::new(0, 13_000, 0));
}

#[test]
fn step_zero_dt_is_a_no_op() {
    let mut sim = OrbitSimulator::new(planet(), high_body());
    sim.step(0);
    assert_eq!(sim.velocity(), Vec3::zero());
    assert_eq!(sim.position(), Vec3::new(0, 13_000, 0));
}

#[test]
fn impulse_adds_exactly() {
    let mut sim = OrbitSimulator::new(planet(), high_body());
    sim.apply_impulse(Vec3::new(100, 0, 0));
    assert_eq!(sim.velocity(), Vec3::new(100, 0, 0));
}

#[test]
fn impulse_accumulates_componentwise() {
    let mut sim = OrbitSimulator::new(planet(), high_body());
    sim.apply_impulse(Vec3::new(100, -40, 7));
    sim.apply_impulse(Vec3::new(-30, 5, 0));
    assert_eq!(sim.velocity(), Vec3::new(70, -35, 7));
}

#[test]
fn impulse_saturates_at_the_component_range() {
    let mut sim = OrbitSimulator::new(planet(), high_body());
    sim.apply_impulse(Vec3::new(i64::MAX, i64::MIN, 5));
    sim.apply_impulse(Vec3::new(1, -1, 5));
    assert_eq!(sim.velocity(), Vec3::new(i64::MAX, i64::MIN, 10));
}

#[test]
fn resting_body_feels_no_pull() {
    // surface-to-surface gap 0.05 units, under the 0.1 contact threshold
    let body = OrbitingBody {
        position: Vec3::new(0, 3550, 0),
        velocity: Vec3::new(7, 8, 9),
        mass: 20_000,
        radius: 500,
    };
    let mut sim = OrbitSimulator::new(planet(), body);
    assert!(sim.is_resting());
    sim.step(16);
    assert_eq!(sim.velocity(), Vec3::new(7, 8, 9));
}

#[test]
fn body_at_center_is_resting() {
    // zero separation: the zero-length direction never divides, the
    // contact branch swallows it
    let body = OrbitingBody {
        position: Vec3::new(0, 0, 0),
        velocity: Vec3::zero(),
        mass: 20_000,
        radius: 500,
    };
    let mut sim = OrbitSimulator::new(planet(), body);
    assert!(sim.is_resting());
    sim.step(16);
    assert_eq!(sim.velocity(), Vec3::zero());
}

#[test]
fn is_resting_is_idempotent() {
    let sim = OrbitSimulator::new(planet(), high_body());
    let first = sim.is_resting();
    assert_eq!(sim.is_resting(), first);
    assert_eq!(sim.is_resting(), first);
    assert!(!first);
}

#[test]
fn zero_velocity_resets_motion_only() {
    let mut sim = OrbitSimulator::new(planet(), high_body());
    sim.apply_impulse(Vec3::new(100, 200, 300));
    sim.zero_velocity();
    assert_eq!(sim.velocity(), Vec3::zero());
    assert_eq!(sim.position(), Vec3::new(0, 13_000, 0));
}

#[test]
fn set_position_moves_the_body_into_contact() {
    let mut sim = OrbitSimulator::new(planet(), high_body());
    assert!(!sim.is_resting());
    sim.set_position(Vec3::new(0, 3550, 0));
    assert!(sim.is_resting());
    assert_eq!(sim.position(), Vec3::new(0, 3550, 0));
}

#[test]
fn step_direction_follows_displacement_sign() {
    let body = OrbitingBody {
        position: Vec3::new(-13_000, 0, 13_000),
        velocity: Vec3::zero(),
        mass: 20_000,
        radius: 500,
    };
    let mut sim = OrbitSimulator::new(planet(), body);
    sim.step(160);
    // pulled toward the origin: +x, -z; dist floor(sqrt(2)*13000) = 18384
    let v = sim.velocity();
    assert!(v.x > 0);
    assert_eq!(v.y, 0);
    assert!(v.z < 0);
    assert_eq!(v.x, -v.z);
}

#[test]
fn try_new_validates_the_configuration() {
    assert!(OrbitSimulator::try_new(planet(), high_body()).is_some());
    let mut no_mass = high_body();
    no_mass.mass = 0;
    assert!(OrbitSimulator::try_new(planet(), no_mass).is_none());
    let mut sunk = planet();
    sunk.radius = -1;
    assert!(OrbitSimulator::try_new(sunk, high_body()).is_none());
    let mut far = high_body();
    far.position = Vec3::new(0, orbit_sim::sim::COORD_LIMIT + 1, 0);
    assert!(OrbitSimulator::try_new(planet(), far).is_none());
}

#[test]
fn vec3_arithmetic() {
    let a = Vec3::new(1, -2, 3);
    let b = Vec3::new(10, 20, 30);
    assert_eq!(a.add_v(b), Vec3::new(11, 18, 33));
    assert_eq!(b.sub_v(a), Vec3::new(9, 22, 27));
    assert_eq!(Vec3::zero(), Vec3::new(0, 0, 0));
}

#[test]
fn isqrt_exact_values() {
    assert_eq!(orbit_sim::math::isqrt_u128(0), 0);
    assert_eq!(orbit_sim::math::isqrt_u128(1), 1);
    assert_eq!(orbit_sim::math::isqrt_u128(3), 1);
    assert_eq!(orbit_sim::math::isqrt_u128(4), 2);
    assert_eq!(orbit_sim::math::isqrt_u128(168_999_999), 12_999);
    assert_eq!(orbit_sim::math::isqrt_u128(169_000_000), 13_000);
}

#[test]
fn clamp_add_saturates_both_ways() {
    assert_eq!(orbit_sim::math::clamp_add_i64(5, 7), 12);
    assert_eq!(orbit_sim::math::clamp_add_i64(i64::MAX, 1), i64::MAX);
    assert_eq!(orbit_sim::math::clamp_add_i64(i64::MIN, -1), i64::MIN);
    assert_eq!(orbit_sim::math::clamp_add_i64(0, -3), -3);
}
