use orbit_defense::entities::Bullet;
use orbit_defense::entities::BULLET_DAMAGE;
use orbit_defense::entities::BULLET_LIFETIME_MS;
use orbit_defense::entities::FIRE_COOLDOWN_MS;
use orbit_defense::entities::PLAYER_SPEED;
use orbit_defense::player::Player;

#[test]
fn firing_needs_both_signal_and_elapsed_cooldown() {
    let mut p = Player::new();
    assert_eq!(p.speed, PLAYER_SPEED);
    // cooldown not yet elapsed
    assert!(p.try_fire(FIRE_COOLDOWN_MS - 1, true).is_none());
    // cooldown elapsed but no fire signal
    assert!(p.try_fire(1, false).is_none());
    // both: exactly one bullet
    let b = p.try_fire(0, true).expect("cooldown ran out and the signal is held");
    assert_eq!(b, Bullet::armed());
    assert_eq!(b.damage, BULLET_DAMAGE);
    assert_eq!(b.has_hit, 0);
    assert_eq!(b.lifetime.duration_ms, BULLET_LIFETIME_MS);
    assert_eq!(b.lifetime.elapsed_ms, 0);
}

#[test]
fn firing_rearms_the_cooldown() {
    let mut p = Player::new();
    assert!(p.try_fire(FIRE_COOLDOWN_MS, true).is_some());
    // immediately after a shot the cooldown starts over
    assert!(p.try_fire(FIRE_COOLDOWN_MS - 1, true).is_none());
    assert!(p.try_fire(1, true).is_some());
}

#[test]
fn holding_fire_yields_one_bullet_per_cooldown() {
    let mut p = Player::new();
    let mut shots = 0;
    // one second of 10 ms ticks with the signal held: the 200 ms cooldown
    // lets exactly five shots out
    for _ in 0..100 {
        if p.try_fire(10, true).is_some() {
            shots += 1;
        }
    }
    assert_eq!(shots, 5);
}
