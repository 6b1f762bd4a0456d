use orbit_defense::collision::ContactEvent;
use orbit_defense::entities::Bullet;
use orbit_defense::entities::Enemy;
use orbit_defense::entities::EntityData;
use orbit_defense::entities::Planet;
use orbit_defense::entities::BULLET_DAMAGE;
use orbit_defense::entities::ENEMY_DAMAGE;
use orbit_defense::entities::ENEMY_START_HP;
use orbit_defense::entities::PLANET_START_HP;
use orbit_defense::world::World;

fn enemy_hp(w: &World, h: usize) -> i64 {
    match w.get(h) {
        Some(EntityData::Enemy(e)) => e.hp,
        other => panic!("expected an enemy in slot {}, got {:?}", h, other),
    }
}

fn bullet_flag(w: &World, h: usize) -> u8 {
    match w.get(h) {
        Some(EntityData::Bullet(b)) => b.has_hit,
        other => panic!("expected a bullet in slot {}, got {:?}", h, other),
    }
}

fn planet_hp(w: &World, h: usize) -> i64 {
    match w.get(h) {
        Some(EntityData::Planet(p)) => p.hp,
        other => panic!("expected the planet in slot {}, got {:?}", h, other),
    }
}

#[test]
fn bullet_damages_enemy_and_is_marked() {
    let mut w = World::new(Planet::standard());
    let e = w.spawn_enemy(Enemy::standard());
    let b = w.spawn_bullet(Bullet::armed());
    w.resolve_contacts(&vec![ContactEvent { first: b, second: e }]);
    assert_eq!(enemy_hp(&w, e), ENEMY_START_HP - BULLET_DAMAGE as i64);
    assert_eq!(bullet_flag(&w, b), 1);
}

#[test]
fn pair_order_does_not_matter() {
    let mut w = World::new(Planet::standard());
    let e = w.spawn_enemy(Enemy::standard());
    let b = w.spawn_bullet(Bullet::armed());
    w.resolve_contacts(&vec![ContactEvent { first: e, second: b }]);
    assert_eq!(enemy_hp(&w, e), ENEMY_START_HP - BULLET_DAMAGE as i64);
    assert_eq!(bullet_flag(&w, b), 1);
}

#[test]
fn same_event_twice_applies_damage_once() {
    // The hit flag is the sole de-duplication: a duplicated contact event
    // must not take health twice.
    let mut w = World::new(Planet::standard());
    let e = w.spawn_enemy(Enemy::standard());
    let b = w.spawn_bullet(Bullet::armed());
    let ev = ContactEvent { first: b, second: e };
    w.resolve_contacts(&vec![ev, ev]);
    assert_eq!(enemy_hp(&w, e), ENEMY_START_HP - BULLET_DAMAGE as i64);
    assert_eq!(bullet_flag(&w, b), 1);
}

#[test]
fn marked_bullet_applies_no_further_damage() {
    let mut w = World::new(Planet::standard());
    let e1 = w.spawn_enemy(Enemy::standard());
    let e2 = w.spawn_enemy(Enemy::standard());
    let b = w.spawn_bullet(Bullet::armed());
    w.resolve_contacts(&vec![
        ContactEvent { first: b, second: e1 },
        ContactEvent { first: b, second: e2 },
    ]);
    assert_eq!(enemy_hp(&w, e1), ENEMY_START_HP - BULLET_DAMAGE as i64);
    assert_eq!(enemy_hp(&w, e2), ENEMY_START_HP);
    assert_eq!(bullet_flag(&w, b), 1);
}

#[test]
fn enemy_damages_planet_once_and_is_marked() {
    let mut w = World::new(Planet::standard());
    let e = w.spawn_enemy(Enemy::standard());
    let planet = 0usize;
    w.resolve_contacts(&vec![
        ContactEvent { first: e, second: planet },
        ContactEvent { first: planet, second: e },
    ]);
    assert_eq!(planet_hp(&w, planet), PLANET_START_HP - ENEMY_DAMAGE as i64);
    match w.get(e) {
        Some(EntityData::Enemy(en)) => assert_eq!(en.has_hit, 1),
        other => panic!("enemy vanished during resolution: {:?}", other),
    }
}

#[test]
fn bullet_touching_planet_changes_nothing() {
    let mut w = World::new(Planet::standard());
    let b = w.spawn_bullet(Bullet::armed());
    w.resolve_contacts(&vec![ContactEvent { first: b, second: 0 }]);
    assert_eq!(planet_hp(&w, 0), PLANET_START_HP);
    assert_eq!(bullet_flag(&w, b), 0);
}

#[test]
fn stale_or_unknown_handles_are_skipped() {
    let mut w = World::new(Planet::standard());
    let b = w.spawn_bullet(Bullet::armed());
    // handle 99 was never allocated; the event is a per-event skip
    w.resolve_contacts(&vec![ContactEvent { first: b, second: 99 }]);
    assert_eq!(bullet_flag(&w, b), 0);
    assert_eq!(planet_hp(&w, 0), PLANET_START_HP);
}

#[test]
fn removed_enemy_never_reappears_through_a_later_event() {
    let mut w = World::new(Planet::standard());
    let e = w.spawn_enemy(Enemy::standard());
    let b = w.spawn_bullet(Bullet::armed());
    w.resolve_contacts(&vec![ContactEvent { first: e, second: 0 }]);
    w.sweep_enemies();
    assert!(w.get(e).is_none());
    // a stale contact event from the same tick's stream references it
    w.resolve_contacts(&vec![ContactEvent { first: b, second: e }]);
    assert!(w.get(e).is_none());
    assert_eq!(bullet_flag(&w, b), 0);
    assert_eq!(planet_hp(&w, 0), PLANET_START_HP - ENEMY_DAMAGE as i64);
}
