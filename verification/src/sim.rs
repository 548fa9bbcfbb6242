//! The orbit simulator: one movable body pulled toward one fixed attractor.
//!
//! Each tick applies a simplified inverse-square pull as a single explicit
//! Euler velocity update; position integration is left to the host. Within a
//! contact threshold of the attractor's surface the body is treated as
//! resting and no pull is applied. All quantities are fixed-point integers in
//! thousandths of a unit (distances), thousandths of a second (times), and
//! thousandths of a mass unit.

use vstd::prelude::*;

use crate::math::clamp_add_i64;
use crate::math::clamp_i64;
use crate::math::isqrt_u128;
use crate::math::lemma_sqrt_floor_bounds;
use crate::math::sqrt_floor;
use crate::vec3::Vec3;

verus! {

/// Surface-to-surface gap, in thousandths of a unit, below which the body
/// counts as resting on the attractor and receives no pull (0.1 units).
pub const CONTACT_EPSILON: i64 = 100;

/// Thousandths per whole unit of the fixed-point encoding.
pub const SCALE: i64 = 1000;

/// Square of `SCALE`; the pull formula divides by it once to keep units.
pub const SCALE_SQ: i64 = 1_000_000;

/// Largest coordinate or radius magnitude the simulator accepts (2^40
/// thousandths, about 1.1e9 units); keeps every intermediate product in range.
pub const COORD_LIMIT: i64 = 0x100_0000_0000;

/// Largest pull strength the simulator accepts (2^40).
pub const STRENGTH_LIMIT: i64 = 0x100_0000_0000;

/// Largest tick length the simulator accepts (2^20 thousandths of a second,
/// about 17 minutes per tick).
pub const DT_LIMIT: u64 = 0x10_0000;

/// The fixed massive body generating the pull. `strength` is a scalar
/// standing in for the product of the gravitational constant and both masses;
/// it is not physically normalized.
#[derive(Clone, Copy, Debug, PartialEq, Eq, Structural)]
pub struct Attractor {
    pub position: Vec3,
    pub radius: i64,
    pub strength: i64,
}

/// The single movable body under simulation.
#[derive(Clone, Copy, Debug, PartialEq, Eq, Structural)]
pub struct OrbitingBody {
    pub position: Vec3,
    pub velocity: Vec3,
    pub mass: i64,
    pub radius: i64,
}

/// Owns the mutable dynamical state of one body relative to one attractor.
#[derive(Clone, Copy, Debug, PartialEq, Eq, Structural)]
pub struct OrbitSimulator {
    pub attractor: Attractor,
    pub body: OrbitingBody,
}

/// Every component within the coordinate limit.
pub open spec fn coord_ok(v: Vec3) -> bool {
    &&& -COORD_LIMIT <= v.x <= COORD_LIMIT
    &&& -COORD_LIMIT <= v.y <= COORD_LIMIT
    &&& -COORD_LIMIT <= v.z <= COORD_LIMIT
}

/// Runtime check of `coord_ok`.
pub fn in_coord_limit(v: Vec3) -> (r: bool)
    ensures
        r == coord_ok(v),
{
    -COORD_LIMIT <= v.x && v.x <= COORD_LIMIT && -COORD_LIMIT <= v.y && v.y <= COORD_LIMIT
        && -COORD_LIMIT <= v.z && v.z <= COORD_LIMIT
}

impl Attractor {
    /// Well-formed: bounded position, nonnegative bounded radius and strength.
    pub open spec fn wf(self) -> bool {
        &&& coord_ok(self.position)
        &&& 0 <= self.radius <= COORD_LIMIT
        &&& 0 <= self.strength <= STRENGTH_LIMIT
    }
}

impl OrbitingBody {
    /// Well-formed: bounded position, positive mass, nonnegative bounded
    /// radius. The velocity is unconstrained.
    pub open spec fn wf(self) -> bool {
        &&& coord_ok(self.position)
        &&& 0 < self.mass
        &&& 0 <= self.radius <= COORD_LIMIT
    }
}

/// Magnitude of the one-tick velocity change along one axis, for a component
/// displacement of size `d_abs`: the inverse-square pull `strength / dist^2`,
/// projected on the axis by `d_abs / dist`, divided by the mass and scaled by
/// the tick length. `SCALE_SQ` restores the fixed-point unit: the numerator
/// carries three scale factors, the denominator four, and the result one.
pub open spec fn pull_mag(d_abs: int, strength: int, dt: int, dist: int, mass: int) -> int {
    (d_abs * strength * dt * (SCALE_SQ as int)) / (dist * dist * dist) / mass
}

/// Signed one-tick velocity change along one axis: directed from the body
/// toward the attractor, so opposite in sign to the displacement component.
pub open spec fn pull_delta(d_c: int, strength: int, dt: int, dist: int, mass: int) -> int {
    if d_c >= 0 {
        -pull_mag(d_c, strength, dt, dist, mass)
    } else {
        pull_mag(-d_c, strength, dt, dist, mass)
    }
}

impl OrbitSimulator {
    /// Well-formed: both records well-formed.
    pub open spec fn wf(self) -> bool {
        self.attractor.wf() && self.body.wf()
    }

    /// Displacement from the attractor to the body, x component.
    pub open spec fn dx(self) -> int {
        self.body.position.x - self.attractor.position.x
    }

    /// Displacement from the attractor to the body, y component.
    pub open spec fn dy(self) -> int {
        self.body.position.y - self.attractor.position.y
    }

    /// Displacement from the attractor to the body, z component.
    pub open spec fn dz(self) -> int {
        self.body.position.z - self.attractor.position.z
    }

    /// Squared center-to-center distance.
    pub open spec fn dist_sq(self) -> int {
        self.dx() * self.dx() + self.dy() * self.dy() + self.dz() * self.dz()
    }

    /// Center-to-center distance, rounded down to whole thousandths.
    pub open spec fn dist(self) -> int {
        sqrt_floor(self.dist_sq())
    }

    /// Surface-to-surface gap between the two bodies; negative when they
    /// overlap.
    pub open spec fn surface_gap(self) -> int {
        self.dist() - self.attractor.radius - self.body.radius
    }

    /// The contact predicate: the body rests on the attractor's surface when
    /// the gap is below the contact threshold.
    pub open spec fn resting(self) -> bool {
        self.surface_gap() < CONTACT_EPSILON
    }

    /// A simulator over the given initial conditions; the caller guarantees
    /// well-formedness, as there are no validation errors.
    pub fn new(attractor: Attractor, body: OrbitingBody) -> (r: OrbitSimulator)
        requires
            attractor.wf(),
            body.wf(),
        ensures
            r.attractor == attractor,
            r.body == body,
            r.wf(),
    {
        OrbitSimulator { attractor, body }
    }

    /// Validating construction, as optional hardening over `new`: rejects
    /// exactly the configurations that break the data-model invariants or
    /// the coordinate limits.
    pub fn try_new(attractor: Attractor, body: OrbitingBody) -> (r: Option<OrbitSimulator>)
        ensures
            r is Some <==> attractor.wf() && body.wf(),
            r is Some ==> r->Some_0.attractor == attractor,
            r is Some ==> r->Some_0.body == body,
            r is Some ==> r->Some_0.wf(),
    {
        let pos_ok = in_coord_limit(attractor.position) && in_coord_limit(body.position);
        let attractor_ok = 0 <= attractor.radius && attractor.radius <= COORD_LIMIT && 0
            <= attractor.strength && attractor.strength <= STRENGTH_LIMIT;
        let body_ok = 0 < body.mass && 0 <= body.radius && body.radius <= COORD_LIMIT;
        if pos_ok && attractor_ok && body_ok {
            Some(OrbitSimulator { attractor, body })
        } else {
            None
        }
    }

    /// The body's current position.
    pub fn position(&self) -> (r: Vec3)
        ensures
            r == self.body.position,
    {
        self.body.position
    }

    /// The body's current velocity.
    pub fn velocity(&self) -> (r: Vec3)
        ensures
            r == self.body.velocity,
    {
        self.body.velocity
    }

    /// Moves the body; the hook through which the host's own position
    /// integration feeds back into the simulator.
    pub fn set_position(&mut self, p: Vec3)
        requires
            old(self).wf(),
            coord_ok(p),
        ensures
            final(self).attractor == old(self).attractor,
            final(self).body.position == p,
            final(self).body.velocity == old(self).body.velocity,
            final(self).body.mass == old(self).body.mass,
            final(self).body.radius == old(self).body.radius,
            final(self).wf(),
    {
        self.body.position = p;
    }

    /// Adds `delta_v` directly to the body's velocity (instantaneous thrust);
    /// componentwise exact, saturating only at the ends of the i64 range.
    pub fn apply_impulse(&mut self, delta_v: Vec3)
        ensures
            final(self).attractor == old(self).attractor,
            final(self).body.position == old(self).body.position,
            final(self).body.mass == old(self).body.mass,
            final(self).body.radius == old(self).body.radius,
            final(self).body.velocity.x as int == clamp_i64(
                old(self).body.velocity.x + delta_v.x,
            ),
            final(self).body.velocity.y as int == clamp_i64(
                old(self).body.velocity.y + delta_v.y,
            ),
            final(self).body.velocity.z as int == clamp_i64(
                old(self).body.velocity.z + delta_v.z,
            ),
            old(self).wf() ==> final(self).wf(),
    {
        self.body.velocity = Vec3 {
            x: clamp_add_i64(self.body.velocity.x, delta_v.x as i128),
            y: clamp_add_i64(self.body.velocity.y, delta_v.y as i128),
            z: clamp_add_i64(self.body.velocity.z, delta_v.z as i128),
        };
    }

    /// Forcibly zeroes the body's velocity (the emergency-stop control).
    pub fn zero_velocity(&mut self)
        ensures
            final(self).attractor == old(self).attractor,
            final(self).body.position == old(self).body.position,
            final(self).body.mass == old(self).body.mass,
            final(self).body.radius == old(self).body.radius,
            final(self).body.velocity == (Vec3 { x: 0, y: 0, z: 0 }),
            old(self).wf() ==> final(self).wf(),
    {
        self.body.velocity = Vec3::zero();
    }

    /// Center-to-center distance in thousandths, bounded by the coordinate
    /// limits.
    fn dist_fp(&self) -> (d: u128)
        requires
            self.wf(),
        ensures
            d as int == self.dist(),
            d < 0x400_0000_0000u128,
    {
        let dxc: i64 = self.body.position.x - self.attractor.position.x;
        let dyc: i64 = self.body.position.y - self.attractor.position.y;
        let dzc: i64 = self.body.position.z - self.attractor.position.z;
        proof {
            assert((dxc as int) * (dxc as int) <= 0x4_0000_0000_0000_0000_0000
                && (dxc as int) * (dxc as int) >= 0) by (nonlinear_arith)
                requires
                    -0x200_0000_0000 <= (dxc as int) <= 0x200_0000_0000,
            ;
            assert((dyc as int) * (dyc as int) <= 0x4_0000_0000_0000_0000_0000
                && (dyc as int) * (dyc as int) >= 0) by (nonlinear_arith)
                requires
                    -0x200_0000_0000 <= (dyc as int) <= 0x200_0000_0000,
            ;
            assert((dzc as int) * (dzc as int) <= 0x4_0000_0000_0000_0000_0000
                && (dzc as int) * (dzc as int) >= 0) by (nonlinear_arith)
                requires
                    -0x200_0000_0000 <= (dzc as int) <= 0x200_0000_0000,
            ;
        }
        let sx: u128 = ((dxc as i128) * (dxc as i128)) as u128;
        let sy: u128 = ((dyc as i128) * (dyc as i128)) as u128;
        let sz: u128 = ((dzc as i128) * (dzc as i128)) as u128;
        let sq: u128 = sx + sy + sz;
        let d: u128 = isqrt_u128(sq);
        proof {
            assert(d < 0x400_0000_0000u128) by (nonlinear_arith)
                requires
                    0 <= (d as int),
                    (d as int) * (d as int) <= sq as int,
                    (sq as int) <= 0xC_0000_0000_0000_0000_0000,
            ;
        }
        d
    }

    /// The contact predicate used internally by `step`: true when the body
    /// counts as resting on the attractor's surface. A pure query; the state
    /// is untouched, so repeated calls agree until `step` or a setter runs.
    pub fn is_resting(&self) -> (r: bool)
        requires
            self.wf(),
        ensures
            r == self.resting(),
    {
        let d: u128 = self.dist_fp();
        (d as i64) - self.attractor.radius - self.body.radius < CONTACT_EPSILON
    }

    /// Advances the body by one tick of length `dt` thousandths of a second.
    ///
    /// When the body rests within the contact threshold of the attractor's
    /// surface, the tick applies zero net force and the velocity is
    /// unchanged. Otherwise one explicit Euler sub-step adds the
    /// inverse-square pull, directed from the body toward the attractor, to
    /// the velocity. The position is never changed: position integration is
    /// the host's, so the distance and the contact predicate are exactly
    /// preserved by every tick. `dt == 0` is a legal no-op (the pull is then
    /// zero).
    pub fn step(&mut self, dt: u64)
        requires
            old(self).wf(),
            dt <= DT_LIMIT,
        ensures
            final(self).attractor == old(self).attractor,
            final(self).body.position == old(self).body.position,
            final(self).body.mass == old(self).body.mass,
            final(self).body.radius == old(self).body.radius,
            final(self).wf(),
            final(self).dist() == old(self).dist(),
            final(self).resting() == old(self).resting(),
            old(self).resting() ==> final(self).body.velocity == old(self).body.velocity,
            !old(self).resting() ==> final(self).body.velocity.x as int == clamp_i64(
                old(self).body.velocity.x + pull_delta(
                    old(self).dx(),
                    old(self).attractor.strength as int,
                    dt as int,
                    old(self).dist(),
                    old(self).body.mass as int,
                ),
            ),
            !old(self).resting() ==> final(self).body.velocity.y as int == clamp_i64(
                old(self).body.velocity.y + pull_delta(
                    old(self).dy(),
                    old(self).attractor.strength as int,
                    dt as int,
                    old(self).dist(),
                    old(self).body.mass as int,
                ),
            ),
            !old(self).resting() ==> final(self).body.velocity.z as int == clamp_i64(
                old(self).body.velocity.z + pull_delta(
                    old(self).dz(),
                    old(self).attractor.strength as int,
                    dt as int,
                    old(self).dist(),
                    old(self).body.mass as int,
                ),
            ),
    {
        let d: u128 = self.dist_fp();
        if (d as i64) - self.attractor.radius - self.body.radius < CONTACT_EPSILON {
            // Resting on the surface: zero net force this tick.
        } else {
            let dxc: i64 = self.body.position.x - self.attractor.position.x;
            let dyc: i64 = self.body.position.y - self.attractor.position.y;
            let dzc: i64 = self.body.position.z - self.attractor.position.z;
            let dvx: i128 = pull_delta_comp(dxc, self.attractor.strength, dt, d, self.body.mass);
            let dvy: i128 = pull_delta_comp(dyc, self.attractor.strength, dt, d, self.body.mass);
            let dvz: i128 = pull_delta_comp(dzc, self.attractor.strength, dt, d, self.body.mass);
            self.body.velocity = Vec3 {
                x: clamp_add_i64(self.body.velocity.x, dvx),
                y: clamp_add_i64(self.body.velocity.y, dvy),
                z: clamp_add_i64(self.body.velocity.z, dvz),
            };
        }
    }
}

/// One component of the one-tick velocity change, computed in 128-bit
/// arithmetic; every intermediate product is proved in range.
fn pull_delta_comp(d_c: i64, strength: i64, dt: u64, dist: u128, mass: i64) -> (dv: i128)
    requires
        -0x200_0000_0000 <= d_c <= 0x200_0000_0000,
        0 <= strength <= STRENGTH_LIMIT,
        dt <= DT_LIMIT,
        1 <= dist < 0x400_0000_0000u128,
        1 <= mass,
    ensures
        dv as int == pull_delta(d_c as int, strength as int, dt as int, dist as int, mass as int),
        -0x4000_0000_0000_0000_0000_0000_0000_0000 <= dv
            <= 0x4000_0000_0000_0000_0000_0000_0000_0000,
{
    let d_abs: u128 = if d_c >= 0 {
        d_c as u128
    } else {
        (-d_c) as u128
    };
    proof {
        assert((d_abs as int) * (strength as int) <= 0x2_0000_0000_0000_0000_0000)
            by (nonlinear_arith)
            requires
                0 <= (d_abs as int) <= 0x200_0000_0000,
                0 <= (strength as int) <= 0x100_0000_0000,
        ;
    }
    let num1: u128 = d_abs * (strength as u128);
    proof {
        assert((num1 as int) * (dt as int) <= 0x20_0000_0000_0000_0000_0000_0000)
            by (nonlinear_arith)
            requires
                0 <= (num1 as int) <= 0x2_0000_0000_0000_0000_0000,
                0 <= (dt as int) <= 0x10_0000,
        ;
    }
    let num2: u128 = num1 * (dt as u128);
    let num3: u128 = num2 * 1_000_000;
    proof {
        assert((dist as int) * (dist as int) < 0x10_0000_0000_0000_0000_0000
            && 1 <= (dist as int) * (dist as int)) by (nonlinear_arith)
            requires
                1 <= (dist as int) < 0x400_0000_0000,
        ;
    }
    let den1: u128 = dist * dist;
    proof {
        assert((den1 as int) * (dist as int) < 0x4000_0000_0000_0000_0000_0000_0000_0000
            && 1 <= (den1 as int) * (dist as int)) by (nonlinear_arith)
            requires
                1 <= (den1 as int) < 0x10_0000_0000_0000_0000_0000,
                1 <= (dist as int) < 0x400_0000_0000,
        ;
    }
    let den: u128 = den1 * dist;
    let q1: u128 = num3 / den;
    proof {
        vstd::arithmetic::div_mod::lemma_div_nonincreasing(num3 as int, den as int);
    }
    let q2: u128 = q1 / (mass as u128);
    proof {
        vstd::arithmetic::div_mod::lemma_div_nonincreasing(q1 as int, mass as int);
    }
    if d_c >= 0 {
        -(q2 as i128)
    } else {
        q2 as i128
    }
}

/// Law: the separation distance is nonnegative in every state, and `step`
/// leaves both positions unchanged; together, no tick can drive the distance
/// discontinuously below zero.
pub proof fn lemma_distance_nonnegative(sim: OrbitSimulator)
    ensures
        0 <= sim.dist(),
{
    assert(0 <= sim.dist_sq()) by (nonlinear_arith)
        requires
            sim.dist_sq() == sim.dx() * sim.dx() + sim.dy() * sim.dy() + sim.dz() * sim.dz(),
    ;
    lemma_sqrt_floor_bounds(sim.dist_sq());
}

/// Law: the contact predicate depends only on the two positions and radii —
/// never on the velocity — so repeated `is_resting` queries of an unchanged
/// simulator all return the same value, and neither an impulse nor a
/// velocity reset can move the body in or out of contact.
pub proof fn lemma_resting_ignores_velocity(a: OrbitSimulator, b: OrbitSimulator)
    requires
        a.attractor == b.attractor,
        a.body.position == b.body.position,
        a.body.radius == b.body.radius,
    ensures
        a.resting() == b.resting(),
{
}

} // verus!
