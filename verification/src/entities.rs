//! Entity records and their starting values.
//!
//! Entities are independent records correlated only by the handle the store
//! assigns; health is whole hit points, enemy orbital speed is thousandths
//! of a world unit. The `has_hit` flags carry the mark-then-sweep
//! discipline: collision resolution marks, and only the cleanup sweeps
//! remove. A bullet's flag is a three-state counter (0 armed, 1 hit this
//! tick, 2 scheduled for removal); an enemy's is a plain spent flag.

use vstd::prelude::*;
use crate::timer::Timer;

verus! {

/// Diameter of the planet, in world units.
pub const PLANET_SIZE: u64 = 192;

/// Health the planet starts with.
pub const PLANET_START_HP: i64 = 100;

/// Linear speed of the player along its orbit, in units per second.
pub const PLAYER_SPEED: u64 = 300;

/// Cooldown between the player's shots, in milliseconds.
pub const FIRE_COOLDOWN_MS: u64 = 200;

/// How long a bullet lives if it hits nothing, in milliseconds.
pub const BULLET_LIFETIME_MS: u64 = 1000;

/// Hit points one bullet takes from an enemy.
pub const BULLET_DAMAGE: u32 = 25;

/// Health an enemy starts with.
pub const ENEMY_START_HP: i64 = 100;

/// Hit points one enemy takes from the planet.
pub const ENEMY_DAMAGE: u32 = 1;

/// Orbital speed an enemy starts with, in thousandths of a unit.
pub const ENEMY_START_SPEED_MILLI: u64 = 2000;

/// The central body. Destroyed implicitly once its health is gone; only
/// the health mutation is the engine's business.
#[derive(Clone, Copy, PartialEq, Eq, Structural, Debug)]
pub struct Planet {
    pub size: u64,
    pub hp: i64,
}

impl Planet {
    /// A planet's diameter is positive.
    pub open spec fn wf(self) -> bool {
        self.size >= 1
    }

    /// The planet a session starts with.
    pub fn standard() -> (p: Planet)
        ensures
            p.size == PLANET_SIZE,
            p.hp == PLANET_START_HP,
            p.wf(),
    {
        Planet { size: PLANET_SIZE, hp: PLANET_START_HP }
    }
}

/// A projectile the player fired.
#[derive(Clone, Copy, PartialEq, Eq, Structural, Debug)]
pub struct Bullet {
    pub lifetime: Timer,
    pub damage: u32,
    pub has_hit: u8,
}

/// The bullet a fire action creates: armed, full lifetime ahead.
pub open spec fn fresh_bullet() -> Bullet {
    Bullet {
        lifetime: Timer { duration_ms: BULLET_LIFETIME_MS, elapsed_ms: 0 },
        damage: BULLET_DAMAGE,
        has_hit: 0,
    }
}

impl Bullet {
    /// The hit counter never passes 2: at 2 the next sweep removes the
    /// bullet before anything could count further.
    pub open spec fn wf(self) -> bool {
        self.has_hit <= 2
    }

    /// Build the bullet a fire action creates.
    pub fn armed() -> (b: Bullet)
        ensures
            b == fresh_bullet(),
    {
        Bullet { lifetime: Timer::new(BULLET_LIFETIME_MS), damage: BULLET_DAMAGE, has_hit: 0 }
    }
}

/// An attacker spawned by the wave spawner.
#[derive(Clone, Copy, PartialEq, Eq, Structural, Debug)]
pub struct Enemy {
    pub speed_milli: u64,
    pub has_hit: u8,
    pub damage: u32,
    pub hp: i64,
}

/// The enemy a spawn request creates: fresh health, full orbital speed,
/// contact not yet spent.
pub open spec fn fresh_enemy() -> Enemy {
    Enemy {
        speed_milli: ENEMY_START_SPEED_MILLI,
        has_hit: 0,
        damage: ENEMY_DAMAGE,
        hp: ENEMY_START_HP,
    }
}

impl Enemy {
    /// The spent flag is boolean: zero or one.
    pub open spec fn wf(self) -> bool {
        self.has_hit <= 1
    }

    /// Build the enemy a spawn request creates.
    pub fn standard() -> (e: Enemy)
        ensures
            e == fresh_enemy(),
    {
        Enemy {
            speed_milli: ENEMY_START_SPEED_MILLI,
            has_hit: 0,
            damage: ENEMY_DAMAGE,
            hp: ENEMY_START_HP,
        }
    }
}

/// What one slot of the entity store can hold.
#[derive(Clone, Copy, PartialEq, Eq, Structural, Debug)]
pub enum EntityData {
    Planet(Planet),
    Bullet(Bullet),
    Enemy(Enemy),
}

impl EntityData {
    /// Well-formedness of whichever record the slot holds.
    pub open spec fn wf(self) -> bool {
        match self {
            EntityData::Planet(p) => p.wf(),
            EntityData::Bullet(b) => b.wf(),
            EntityData::Enemy(e) => e.wf(),
        }
    }
}

} // verus!
