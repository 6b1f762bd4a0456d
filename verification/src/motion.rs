//! Orbital motion for the player and velocity shaping for enemies.
//!
//! Angles are fixed-point microradians; positions and direction vectors are
//! fixed-point with the scale named in each signature (`milli` is
//! thousandths of a world unit, `micro` millionths). The trigonometry that
//! turns an angle into a Cartesian point, or a position into a measured
//! angle, belongs to the unverified rim around the library: it hands plain
//! integers in and takes plain integers out. The decisions — the singular
//! origin, the angular step, the decay floor, the shape of the velocity
//! correction — are verified here.

use vstd::prelude::*;
use crate::entities::Enemy;
use crate::entities::EntityData;
use crate::world::World;
use crate::world::all_slots_wf;
use crate::world::is_planet_slot;
use crate::world::planet_exactly_at;
use crate::world::slot_wf;

verus! {

/// A quarter turn (pi/2) in microradians, rounded to the nearest integer.
pub const QUARTER_TURN_URAD: i64 = 1_570_796;

/// A full turn (2 pi) in microradians, rounded down to an integer.
pub const FULL_TURN_URAD: u64 = 6_283_185;

/// Distance the player stands off from the planet's rim, in world units.
pub const PLAYER_STANDOFF: u64 = 8;

/// The turn signal sampled from input once per tick.
#[derive(Clone, Copy, PartialEq, Eq, Structural, Debug)]
pub enum Steer {
    Left,
    Straight,
    Right,
}

/// Steering left advances the angle, steering right retreats it.
pub open spec fn steer_sign(s: Steer) -> int {
    match s {
        Steer::Left => 1,
        Steer::Straight => 0,
        Steer::Right => -1,
    }
}

/// Angle of the position `(x, y)`, with the singular origin substituted:
/// the caller measures `measured_urad` (the atan2-style angle of the
/// vector) outside, and the origin — where no angle is defined — yields 0.
pub fn resolve_angle_urad(x: i64, y: i64, measured_urad: i64) -> (a: i64)
    ensures
        x == 0 && y == 0 ==> a == 0,
        !(x == 0 && y == 0) ==> a == measured_urad,
{
    if x == 0 && y == 0 {
        0
    } else {
        measured_urad
    }
}

/// How far one tick turns the player: linear speed over the orbit's size,
/// so the pace along the circle stays the same whatever the radius.
pub open spec fn angular_step_urad(speed: u64, planet_size: u64, delta_ms: u64) -> int {
    (speed * delta_ms * 1000) / (planet_size as int)
}

/// The player's angle after one tick of steering.
pub fn next_angle_urad(
    angle_urad: i64,
    steer: Steer,
    speed: u64,
    planet_size: u64,
    delta_ms: u64,
) -> (a: i64)
    requires
        planet_size >= 1,
        speed <= 1_000_000,
        delta_ms <= 1_000_000,
        -1_000_000_000_000 <= angle_urad <= 1_000_000_000_000,
    ensures
        a == angle_urad + steer_sign(steer) * angular_step_urad(speed, planet_size, delta_ms),
{
    proof {
        assert(speed * delta_ms <= 1_000_000_000_000) by (nonlinear_arith)
            requires
                speed <= 1_000_000,
                delta_ms <= 1_000_000,
        ;
        assert((speed * delta_ms * 1000) / (planet_size as int) <= speed * delta_ms * 1000)
            by (nonlinear_arith)
            requires
                planet_size >= 1,
                speed * delta_ms * 1000 >= 0,
        ;
    }
    let step: u64 = speed * delta_ms * 1000 / planet_size;
    let step_i: i64 = step as i64;
    match steer {
        Steer::Left => angle_urad + step_i,
        Steer::Straight => angle_urad,
        Steer::Right => angle_urad - step_i,
    }
}

/// The player's facing: the nose points along the direction of travel, a
/// quarter turn behind the outward angle.
pub fn facing_urad(angle_urad: i64) -> (f: i64)
    requires
        angle_urad >= i64::MIN + QUARTER_TURN_URAD,
    ensures
        f == angle_urad - QUARTER_TURN_URAD,
{
    angle_urad - QUARTER_TURN_URAD
}

/// Radius of the player's orbit: half the planet plus the standoff.
pub fn orbit_radius(planet_size: u64) -> (r: u64)
    ensures
        r == planet_size / 2 + PLAYER_STANDOFF,
{
    planet_size / 2 + PLAYER_STANDOFF
}

/// An enemy's orbital speed after one tick: it decays at a tenth of a unit
/// per second — a tenth of the elapsed milliseconds, in thousandths of a
/// unit — and is floored at zero, never negative.
pub open spec fn decayed_speed_milli(speed_milli: u64, delta_ms: u64) -> u64 {
    if speed_milli >= delta_ms / 10 {
        (speed_milli - delta_ms / 10) as u64
    } else {
        0
    }
}

/// Apply one tick of linear decay to an enemy's orbital speed.
pub fn decay_speed_milli(speed_milli: u64, delta_ms: u64) -> (s: u64)
    ensures
        s == decayed_speed_milli(speed_milli, delta_ms),
{
    let drop: u64 = delta_ms / 10;
    if speed_milli >= drop {
        speed_milli - drop
    } else {
        0
    }
}

/// The velocity correction applied to an enemy each tick, in millionths of
/// a unit: a constant inward pull of one unit, countered by a tangential
/// component that shrinks with the decaying orbital speed. `radial` is the
/// unit vector from the center toward the enemy, in thousandths; the
/// tangent is its perpendicular `(-y, x)` scaled by the speed. The result
/// is `tangent - radial`.
pub fn velocity_correction_micro(
    radial_x_milli: i64,
    radial_y_milli: i64,
    speed_milli: u64,
) -> (c: (i64, i64))
    requires
        -1_000_000 <= radial_x_milli <= 1_000_000,
        -1_000_000 <= radial_y_milli <= 1_000_000,
        speed_milli <= 1_000_000,
    ensures
        c.0 == -(radial_y_milli * speed_milli) - 1000 * radial_x_milli,
        c.1 == radial_x_milli * speed_milli - 1000 * radial_y_milli,
{
    let s: i64 = speed_milli as i64;
    proof {
        assert(-1_000_000_000_000 <= radial_y_milli * s <= 1_000_000_000_000) by (nonlinear_arith)
            requires
                -1_000_000 <= radial_y_milli <= 1_000_000,
                0 <= s <= 1_000_000,
        ;
        assert(-1_000_000_000_000 <= radial_x_milli * s <= 1_000_000_000_000) by (nonlinear_arith)
            requires
                -1_000_000 <= radial_x_milli <= 1_000_000,
                0 <= s <= 1_000_000,
        ;
    }
    let ty: i64 = radial_y_milli * s;
    let tx: i64 = radial_x_milli * s;
    let cx: i64 = -ty - 1000 * radial_x_milli;
    let cy: i64 = tx - 1000 * radial_y_milli;
    (cx, cy)
}

/// One slot after the decay pass: an enemy's orbital speed decays by one
/// tick; every other slot is untouched.
pub open spec fn speed_decayed_slot(e: Option<EntityData>, delta_ms: u64) -> Option<EntityData> {
    match e {
        Option::Some(EntityData::Enemy(en)) => Option::Some(
            EntityData::Enemy(
                Enemy { speed_milli: decayed_speed_milli(en.speed_milli, delta_ms), ..en },
            ),
        ),
        _ => e,
    }
}

impl World {
    /// The per-tick half of the velocity shaper that owns state: decay
    /// every living enemy's orbital speed toward its floor of zero.
    pub fn decay_enemy_speeds(&mut self, delta_ms: u64)
        ensures
            final(self)@.len() == old(self)@.len(),
            forall|i: int|
                0 <= i < old(self)@.len() ==> final(self)@[i] == speed_decayed_slot(
                    #[trigger] old(self)@[i],
                    delta_ms,
                ),
            old(self).wf() ==> final(self).wf(),
            old(self).single_planet() ==> final(self).single_planet(),
    {
        let ghost s0 = self@;
        let n = self.len();
        for h in 0..n
            invariant
                n == s0.len(),
                self@.len() == s0.len(),
                forall|i: int| 0 <= i < h ==> self@[i] == speed_decayed_slot(#[trigger] s0[i], delta_ms),
                forall|i: int| h <= i < s0.len() ==> self@[i] == s0[i],
        {
            if let Some(EntityData::Enemy(en)) = self.get(h) {
                let speed_milli = decay_speed_milli(en.speed_milli, delta_ms);
                self.set_slot(h, Some(EntityData::Enemy(Enemy { speed_milli, ..en })));
            }
        }
        proof {
            if all_slots_wf(s0) {
                assert forall|i: int| 0 <= i < self@.len() implies slot_wf(#[trigger] self@[i]) by {
                    assert(self@[i] == speed_decayed_slot(s0[i], delta_ms));
                    assert(slot_wf(s0[i]));
                };
            }
            if planet_exactly_at(s0, 0) {
                assert forall|i: int| 0 <= i < self@.len() && i != 0 implies !is_planet_slot(
                    #[trigger] self@[i],
                ) by {
                    assert(self@[i] == speed_decayed_slot(s0[i], delta_ms));
                };
                assert(self@[0] == speed_decayed_slot(s0[0], delta_ms));
            }
        }
    }
}

} // verus!
