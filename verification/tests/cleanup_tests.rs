use orbit_defense::collision::ContactEvent;
use orbit_defense::entities::Bullet;
use orbit_defense::entities::Enemy;
use orbit_defense::entities::EntityData;
use orbit_defense::entities::Planet;
use orbit_defense::entities::BULLET_LIFETIME_MS;
use orbit_defense::world::World;

#[test]
fn bullet_is_removed_when_lifetime_expires() {
    let mut w = World::new(Planet::standard());
    let b = w.spawn_bullet(Bullet::armed());
    w.sweep_bullets(BULLET_LIFETIME_MS - 1);
    assert!(w.get(b).is_some());
    w.sweep_bullets(1);
    assert!(w.get(b).is_none());
}

#[test]
fn hit_bullet_counts_out_over_two_sweeps() {
    // A marked bullet stays visible to the tick that marked it, climbs to
    // 2 on the next sweep, and is removed the sweep after: 0 -> 1 -> 2 ->
    // removed, monotonically.
    let mut w = World::new(Planet::standard());
    let e = w.spawn_enemy(Enemy::standard());
    let b = w.spawn_bullet(Bullet::armed());
    w.resolve_contacts(&vec![ContactEvent { first: b, second: e }]);
    match w.get(b) {
        Some(EntityData::Bullet(bl)) => assert_eq!(bl.has_hit, 1),
        other => panic!("bullet missing after resolution: {:?}", other),
    }
    w.sweep_bullets(16);
    match w.get(b) {
        Some(EntityData::Bullet(bl)) => assert_eq!(bl.has_hit, 2),
        other => panic!("bullet should survive one sweep after its hit: {:?}", other),
    }
    w.sweep_bullets(16);
    assert!(w.get(b).is_none());
}

#[test]
fn enemy_with_no_health_is_removed_by_the_next_sweep() {
    let mut w = World::new(Planet::standard());
    let e = w.spawn_enemy(Enemy::standard());
    // four armed bullets take all hundred hit points
    let mut events = Vec::new();
    for _ in 0..4 {
        let b = w.spawn_bullet(Bullet::armed());
        events.push(ContactEvent { first: b, second: e });
    }
    w.resolve_contacts(&events);
    match w.get(e) {
        Some(EntityData::Enemy(en)) => assert_eq!(en.hp, 0),
        other => panic!("enemy missing before the sweep: {:?}", other),
    }
    w.sweep_enemies();
    assert!(w.get(e).is_none());
}

#[test]
fn spent_enemy_is_removed_even_with_health_left() {
    let mut w = World::new(Planet::standard());
    let e = w.spawn_enemy(Enemy::standard());
    w.resolve_contacts(&vec![ContactEvent { first: e, second: 0 }]);
    w.sweep_enemies();
    assert!(w.get(e).is_none());
}

#[test]
fn healthy_enemies_and_the_planet_survive_the_sweeps() {
    let mut w = World::new(Planet::standard());
    let e = w.spawn_enemy(Enemy::standard());
    w.sweep_bullets(16);
    w.sweep_enemies();
    assert!(matches!(w.get(e), Some(EntityData::Enemy(_))));
    assert!(matches!(w.get(0), Some(EntityData::Planet(_))));
    assert!(w.enemies_alive());
}

#[test]
fn population_reads_empty_after_all_enemies_leave() {
    let mut w = World::new(Planet::standard());
    assert!(!w.enemies_alive());
    let e = w.spawn_enemy(Enemy::standard());
    assert!(w.enemies_alive());
    w.resolve_contacts(&vec![ContactEvent { first: e, second: 0 }]);
    w.sweep_enemies();
    assert!(!w.enemies_alive());
}
