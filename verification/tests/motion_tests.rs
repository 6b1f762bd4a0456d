use orbit_defense::motion::decay_speed_milli;
use orbit_defense::motion::facing_urad;
use orbit_defense::motion::next_angle_urad;
use orbit_defense::motion::orbit_radius;
use orbit_defense::motion::resolve_angle_urad;
use orbit_defense::motion::velocity_correction_micro;
use orbit_defense::motion::Steer;
use orbit_defense::motion::QUARTER_TURN_URAD;
use orbit_defense::entities::Bullet;
use orbit_defense::entities::Enemy;
use orbit_defense::entities::EntityData;
use orbit_defense::entities::Planet;
use orbit_defense::entities::ENEMY_START_SPEED_MILLI;
use orbit_defense::world::World;

#[test]
fn origin_position_yields_angle_zero() {
    // The singular case: at the exact origin no angle is defined, and the
    // measured value (whatever the rim handed in) must be discarded.
    assert_eq!(resolve_angle_urad(0, 0, 123_456), 0);
    assert_eq!(resolve_angle_urad(0, 0, -1), 0);
}

#[test]
fn ordinary_position_keeps_the_measured_angle() {
    assert_eq!(resolve_angle_urad(100, 0, 0), 0);
    assert_eq!(resolve_angle_urad(0, 100, 1_570_796), 1_570_796);
    assert_eq!(resolve_angle_urad(-3, 4, 2_214_297), 2_214_297);
}

#[test]
fn origin_still_yields_a_defined_next_position() {
    // From the substituted angle 0 the next angle is well defined.
    let a = resolve_angle_urad(0, 0, 987);
    let next = next_angle_urad(a, Steer::Left, 300, 192, 16);
    // 300 * 16 * 1000 / 192 = 25_000 microradians
    assert_eq!(next, 25_000);
}

#[test]
fn angular_step_scales_inversely_with_planet_size() {
    // speed 300 units/s on a size-192 planet over 16 ms
    assert_eq!(next_angle_urad(0, Steer::Left, 300, 192, 16), 25_000);
    assert_eq!(next_angle_urad(0, Steer::Right, 300, 192, 16), -25_000);
    assert_eq!(next_angle_urad(777, Steer::Straight, 300, 192, 16), 777);
    // doubling the planet halves the angular rate
    assert_eq!(next_angle_urad(0, Steer::Left, 300, 384, 16), 12_500);
}

#[test]
fn facing_trails_the_outward_angle_by_a_quarter_turn() {
    assert_eq!(facing_urad(0), -QUARTER_TURN_URAD);
    assert_eq!(facing_urad(2_000_000), 2_000_000 - QUARTER_TURN_URAD);
}

#[test]
fn orbit_radius_is_half_planet_plus_standoff() {
    assert_eq!(orbit_radius(192), 104);
    assert_eq!(orbit_radius(0), 8);
}

#[test]
fn enemy_speed_decays_a_tenth_of_elapsed_milliseconds() {
    // 2.000 units at 16 ms per tick: one thousandth of a unit per 10 ms
    assert_eq!(decay_speed_milli(2000, 16), 1999);
    assert_eq!(decay_speed_milli(2000, 100), 1990);
}

#[test]
fn enemy_speed_is_floored_at_zero() {
    assert_eq!(decay_speed_milli(5, 100), 0);
    assert_eq!(decay_speed_milli(0, 16), 0);
    assert_eq!(decay_speed_milli(10, 100), 0);
}

#[test]
fn velocity_correction_blends_inward_pull_and_tangent() {
    // radial pointing along +x, full starting speed 2.000
    let (cx, cy) = velocity_correction_micro(1000, 0, 2000);
    assert_eq!(cx, -1_000_000); // inward pull of one unit
    assert_eq!(cy, 2_000_000); // tangential component, perpendicular
    // with the speed decayed to zero only the inward pull remains
    let (cx0, cy0) = velocity_correction_micro(0, 1000, 0);
    assert_eq!(cx0, 0);
    assert_eq!(cy0, -1_000_000);
}

#[test]
fn decay_pass_lowers_every_enemy_and_touches_nothing_else() {
    let mut w = World::new(Planet::standard());
    let e1 = w.spawn_enemy(Enemy::standard());
    let e2 = w.spawn_enemy(Enemy::standard());
    let b = w.spawn_bullet(Bullet::armed());
    w.decay_enemy_speeds(100);
    w.decay_enemy_speeds(60);
    for h in [e1, e2] {
        match w.get(h) {
            Some(EntityData::Enemy(en)) => {
                assert_eq!(en.speed_milli, ENEMY_START_SPEED_MILLI - 10 - 6);
            }
            other => panic!("enemy missing after the decay pass: {:?}", other),
        }
    }
    assert!(matches!(w.get(b), Some(EntityData::Bullet(_))));
    assert!(matches!(w.get(0), Some(EntityData::Planet(_))));
}
