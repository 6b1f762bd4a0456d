//! Lifecycle cleanup: the sweep half of mark-then-sweep.
//!
//! Two independent sweeps run every tick after collision resolution.
//! Bullets age by the tick's delta and leave when their lifetime expires or
//! their hit counter reaches 2 — the counter climbs one step per tick once
//! a hit is marked, so a bullet that hit stays visible to the same tick's
//! resolver and disappears one tick later. Enemies leave at once when
//! their health is gone or their contact is spent.

use vstd::prelude::*;
use crate::entities::Bullet;
use crate::entities::EntityData;
use crate::motion::speed_decayed_slot;
use crate::timer::Timer;
use crate::timer::sat_add_u64;
use crate::world::World;
use crate::world::is_enemy_slot;
use crate::world::is_planet_slot;
use crate::world::planet_exactly_at;
use crate::world::slot_wf;

verus! {

/// One slot after the bullet sweep: a bullet ages by `delta_ms`, leaves if
/// expired or counted out, and otherwise climbs its hit counter if a hit
/// was marked. Every other slot is untouched.
pub open spec fn swept_bullet(e: Option<EntityData>, delta_ms: u64) -> Option<EntityData> {
    match e {
        Option::Some(EntityData::Bullet(b)) => {
            let aged = Bullet {
                lifetime: Timer {
                    duration_ms: b.lifetime.duration_ms,
                    elapsed_ms: sat_add_u64(b.lifetime.elapsed_ms, delta_ms),
                },
                ..b
            };
            if aged.lifetime.is_finished() || aged.has_hit == 2 {
                Option::None
            } else if aged.has_hit > 0 {
                Option::Some(EntityData::Bullet(Bullet { has_hit: (aged.has_hit + 1) as u8, ..aged }))
            } else {
                Option::Some(EntityData::Bullet(aged))
            }
        },
        _ => e,
    }
}

/// One slot after the enemy sweep: an enemy with no health left, or with
/// its contact spent, leaves at once. Every other slot is untouched.
pub open spec fn swept_enemy(e: Option<EntityData>) -> Option<EntityData> {
    match e {
        Option::Some(EntityData::Enemy(en)) => {
            if en.hp <= 0 || en.has_hit != 0 {
                Option::None
            } else {
                e
            }
        },
        _ => e,
    }
}

impl World {
    /// Sweep the bullets: age each by `delta_ms`, remove the expired and
    /// the counted-out, advance the hit counters of the rest.
    pub fn sweep_bullets(&mut self, delta_ms: u64)
        requires
            old(self).wf(),
        ensures
            final(self)@.len() == old(self)@.len(),
            forall|i: int|
                0 <= i < old(self)@.len() ==> final(self)@[i] == swept_bullet(
                    #[trigger] old(self)@[i],
                    delta_ms,
                ),
            final(self).wf(),
            old(self).single_planet() ==> final(self).single_planet(),
    {
        let ghost s0 = self@;
        let n = self.len();
        for h in 0..n
            invariant
                n == s0.len(),
                self@.len() == s0.len(),
                forall|i: int| 0 <= i < s0.len() ==> slot_wf(#[trigger] s0[i]),
                forall|i: int| 0 <= i < h ==> self@[i] == swept_bullet(#[trigger] s0[i], delta_ms),
                forall|i: int| h <= i < s0.len() ==> self@[i] == s0[i],
        {
            proof {
                assert(self@[h as int] == s0[h as int]);
                assert(slot_wf(s0[h as int]));
            }
            if let Some(EntityData::Bullet(b)) = self.get(h) {
                let mut lifetime = b.lifetime;
                lifetime.tick(delta_ms);
                let aged = Bullet { lifetime, ..b };
                if aged.lifetime.finished() || aged.has_hit == 2 {
                    self.set_slot(h, None);
                } else if aged.has_hit > 0 {
                    self.set_slot(
                        h,
                        Some(EntityData::Bullet(Bullet { has_hit: aged.has_hit + 1, ..aged })),
                    );
                } else {
                    self.set_slot(h, Some(EntityData::Bullet(aged)));
                }
            }
        }
        proof {
            assert forall|i: int| 0 <= i < self@.len() implies slot_wf(#[trigger] self@[i]) by {
                assert(slot_wf(s0[i]));
                assert(self@[i] == swept_bullet(s0[i], delta_ms));
            };
            if planet_exactly_at(s0, 0) {
                assert forall|i: int| 0 <= i < self@.len() && i != 0 implies !is_planet_slot(
                    #[trigger] self@[i],
                ) by {
                    assert(self@[i] == swept_bullet(s0[i], delta_ms));
                };
                assert(self@[0] == swept_bullet(s0[0], delta_ms));
            }
        }
    }

    /// Sweep the enemies: remove every enemy whose health is gone or whose
    /// contact is spent.
    pub fn sweep_enemies(&mut self)
        requires
            old(self).wf(),
        ensures
            final(self)@.len() == old(self)@.len(),
            forall|i: int|
                0 <= i < old(self)@.len() ==> final(self)@[i] == swept_enemy(#[trigger] old(self)@[i]),
            final(self).wf(),
            old(self).single_planet() ==> final(self).single_planet(),
    {
        let ghost s0 = self@;
        let n = self.len();
        for h in 0..n
            invariant
                n == s0.len(),
                self@.len() == s0.len(),
                forall|i: int| 0 <= i < s0.len() ==> slot_wf(#[trigger] s0[i]),
                forall|i: int| 0 <= i < h ==> self@[i] == swept_enemy(#[trigger] s0[i]),
                forall|i: int| h <= i < s0.len() ==> self@[i] == s0[i],
        {
            if let Some(EntityData::Enemy(en)) = self.get(h) {
                if en.hp <= 0 || en.has_hit != 0 {
                    self.set_slot(h, None);
                }
            }
        }
        proof {
            assert forall|i: int| 0 <= i < self@.len() implies slot_wf(#[trigger] self@[i]) by {
                assert(slot_wf(s0[i]));
                assert(self@[i] == swept_enemy(s0[i]));
            };
            if planet_exactly_at(s0, 0) {
                assert forall|i: int| 0 <= i < self@.len() && i != 0 implies !is_planet_slot(
                    #[trigger] self@[i],
                ) by {
                    assert(self@[i] == swept_enemy(s0[i]));
                };
                assert(self@[0] == swept_enemy(s0[0]));
            }
        }
    }
}

/// Law: the very next enemy sweep leaves no spent or dead enemy behind —
/// after it, every enemy still in the store has health and an unspent
/// contact flag.
pub proof fn lemma_sweep_removes_spent_enemies(s: Seq<Option<EntityData>>)
    ensures
        forall|i: int|
            0 <= i < s.len() ==> match swept_enemy(#[trigger] s[i]) {
                Option::Some(EntityData::Enemy(en)) => en.hp > 0 && en.has_hit == 0,
                _ => true,
            },
{
}

/// Law: health changes only in a resolver pass. The sweeps and the decay
/// pass either remove a record or keep its health and hit flag exactly:
/// an enemy that survives the enemy sweep is unchanged, a planet rides
/// through every pass untouched, and the decay pass moves nothing but the
/// orbital speed.
pub proof fn lemma_health_changes_only_in_resolution(e: Option<EntityData>, delta_ms: u64)
    ensures
        swept_enemy(e) is Some ==> swept_enemy(e) == e,
        match (e, speed_decayed_slot(e, delta_ms)) {
            (
                Option::Some(EntityData::Enemy(e0)),
                Option::Some(EntityData::Enemy(e1)),
            ) => e1.hp == e0.hp && e1.has_hit == e0.has_hit && e1.damage == e0.damage,
            _ => true,
        },
        is_planet_slot(e) ==> swept_bullet(e, delta_ms) == e && swept_enemy(e) == e
            && speed_decayed_slot(e, delta_ms) == e,
{
}

/// Law: a bullet's counter climbs monotonically through the sweeps —
/// armed stays armed, a marked counter advances exactly one step per
/// sweep, and the sweep that finds it at 2 removes the bullet.
pub proof fn lemma_bullet_counter_monotone(e: Option<EntityData>, delta_ms: u64)
    requires
        slot_wf(e),
    ensures
        match (e, swept_bullet(e, delta_ms)) {
            (
                Option::Some(EntityData::Bullet(b0)),
                Option::Some(EntityData::Bullet(b1)),
            ) => b1.has_hit >= b0.has_hit && (b0.has_hit > 0 ==> b1.has_hit == b0.has_hit + 1),
            _ => true,
        },
        (e matches Option::Some(EntityData::Bullet(b)) && b.has_hit == 2) ==> swept_bullet(
            e,
            delta_ms,
        ) is None,
{
}

/// Law: the sweeps only remove — an emptied slot stays empty, and a slot
/// that held no enemy or bullet is untouched.
pub proof fn lemma_sweeps_create_nothing(e: Option<EntityData>, delta_ms: u64)
    ensures
        e is None ==> swept_bullet(e, delta_ms) is None,
        e is None ==> swept_enemy(e) is None,
        is_planet_slot(swept_bullet(e, delta_ms)) <==> is_planet_slot(e),
        is_planet_slot(swept_enemy(e)) <==> is_planet_slot(e),
        is_enemy_slot(swept_bullet(e, delta_ms)) <==> is_enemy_slot(e),
{
}

} // verus!
