//! Collision resolution: contact-start events become health changes and
//! hit marks.
//!
//! Each event names an unordered pair of handles. Four guarded rules run in
//! a fixed order, each against both orderings of the pair: an armed bullet
//! meeting an enemy damages the enemy and marks the bullet; an unspent
//! enemy meeting the planet damages the planet and marks the enemy. The
//! hit flags are checked at the moment of mutation, never cached, so they
//! are the sole de-duplication; nothing is removed here — removal belongs
//! to the cleanup sweeps. A handle that no longer resolves is skipped.

use vstd::prelude::*;
use crate::entities::Bullet;
use crate::entities::Enemy;
use crate::entities::EntityData;
use crate::entities::Planet;
use crate::world::World;
use crate::world::all_slots_wf;
use crate::world::is_planet_slot;
use crate::world::planet_exactly_at;
use crate::world::slot_wf;

verus! {

/// One contact-start notification from the physics collaborator: the pair
/// of handles that began touching this tick.
#[derive(Clone, Copy, PartialEq, Eq, Structural, Debug)]
pub struct ContactEvent {
    pub first: usize,
    pub second: usize,
}

/// Health after taking `dmg` hit points, pinned at the counter's floor.
pub open spec fn damaged(hp: i64, dmg: u32) -> i64 {
    if hp - dmg >= i64::MIN {
        (hp - dmg) as i64
    } else {
        i64::MIN
    }
}

/// Rule: an armed bullet in slot `b` touching an enemy in slot `e` takes
/// its damage from the enemy's health and marks the bullet as having hit.
/// Anything else leaves the store as it is.
pub open spec fn bullet_strike(
    s: Seq<Option<EntityData>>,
    b: int,
    e: int,
) -> Seq<Option<EntityData>> {
    if 0 <= b < s.len() && 0 <= e < s.len() {
        match (s[b], s[e]) {
            (Option::Some(EntityData::Bullet(bl)), Option::Some(EntityData::Enemy(en))) => {
                if bl.has_hit == 0 {
                    s.update(e, Option::Some(EntityData::Enemy(Enemy { hp: damaged(en.hp, bl.damage), ..en })))
                        .update(b, Option::Some(EntityData::Bullet(Bullet { has_hit: 1, ..bl })))
                } else {
                    s
                }
            },
            _ => s,
        }
    } else {
        s
    }
}

/// Rule: an unspent enemy in slot `e` touching the planet in slot `p`
/// takes its damage from the planet's health and marks the enemy as spent.
/// Anything else leaves the store as it is.
pub open spec fn enemy_strike(
    s: Seq<Option<EntityData>>,
    e: int,
    p: int,
) -> Seq<Option<EntityData>> {
    if 0 <= e < s.len() && 0 <= p < s.len() {
        match (s[e], s[p]) {
            (Option::Some(EntityData::Enemy(en)), Option::Some(EntityData::Planet(pl))) => {
                if en.has_hit == 0 {
                    s.update(p, Option::Some(EntityData::Planet(Planet { hp: damaged(pl.hp, en.damage), ..pl })))
                        .update(e, Option::Some(EntityData::Enemy(Enemy { has_hit: 1, ..en })))
                } else {
                    s
                }
            },
            _ => s,
        }
    } else {
        s
    }
}

/// One event's full effect: the four guarded rules in their fixed order —
/// bullet rule on `(a, b)` and `(b, a)`, then enemy rule on `(a, b)` and
/// `(b, a)`.
pub open spec fn event_step(s: Seq<Option<EntityData>>, a: int, b: int) -> Seq<Option<EntityData>> {
    enemy_strike(enemy_strike(bullet_strike(bullet_strike(s, a, b), b, a), a, b), b, a)
}

/// The store after draining a whole tick's event stream, in order.
pub open spec fn resolve_events(
    s: Seq<Option<EntityData>>,
    events: Seq<ContactEvent>,
) -> Seq<Option<EntityData>>
    decreases events.len(),
{
    if events.len() == 0 {
        s
    } else {
        event_step(
            resolve_events(s, events.drop_last()),
            events.last().first as int,
            events.last().second as int,
        )
    }
}

impl World {
    /// Apply the bullet rule for the ordered pair `(b, e)`.
    fn apply_bullet_strike(&mut self, b: usize, e: usize)
        ensures
            final(self)@ == bullet_strike(old(self)@, b as int, e as int),
    {
        if let Some(EntityData::Bullet(bl)) = self.get(b) {
            if bl.has_hit == 0 {
                if let Some(EntityData::Enemy(en)) = self.get(e) {
                    let new_hp: i64 = if en.hp >= i64::MIN + (bl.damage as i64) {
                        en.hp - (bl.damage as i64)
                    } else {
                        i64::MIN
                    };
                    self.set_slot(e, Some(EntityData::Enemy(Enemy { hp: new_hp, ..en })));
                    self.set_slot(b, Some(EntityData::Bullet(Bullet { has_hit: 1, ..bl })));
                }
            }
        }
    }

    /// Apply the enemy rule for the ordered pair `(e, p)`.
    fn apply_enemy_strike(&mut self, e: usize, p: usize)
        ensures
            final(self)@ == enemy_strike(old(self)@, e as int, p as int),
    {
        if let Some(EntityData::Enemy(en)) = self.get(e) {
            if en.has_hit == 0 {
                if let Some(EntityData::Planet(pl)) = self.get(p) {
                    let new_hp: i64 = if pl.hp >= i64::MIN + (en.damage as i64) {
                        pl.hp - (en.damage as i64)
                    } else {
                        i64::MIN
                    };
                    self.set_slot(p, Some(EntityData::Planet(Planet { hp: new_hp, ..pl })));
                    self.set_slot(e, Some(EntityData::Enemy(Enemy { has_hit: 1, ..en })));
                }
            }
        }
    }

    /// Drain one tick's contact-start events, applying each event's four
    /// guarded rules in order. Only health and hit flags change; no entity
    /// appears or disappears here.
    pub fn resolve_contacts(&mut self, events: &Vec<ContactEvent>)
        ensures
            final(self)@ == resolve_events(old(self)@, events@),
            old(self).wf() ==> final(self).wf(),
            old(self).single_planet() ==> final(self).single_planet(),
    {
        let ghost s0 = self@;
        let n = events.len();
        for k in 0..n
            invariant
                n == events@.len(),
                self@ == resolve_events(s0, events@.take(k as int)),
        {
            let ev = events[k];
            self.apply_bullet_strike(ev.first, ev.second);
            self.apply_bullet_strike(ev.second, ev.first);
            self.apply_enemy_strike(ev.first, ev.second);
            self.apply_enemy_strike(ev.second, ev.first);
            proof {
                assert(events@.take(k + 1).drop_last() =~= events@.take(k as int));
                assert(events@.take(k + 1).last() == events@[k as int]);
            }
        }
        proof {
            assert(events@.take(n as int) =~= events@);
            if all_slots_wf(s0) {
                lemma_resolve_events_wf(s0, events@);
            }
            if planet_exactly_at(s0, 0) {
                lemma_resolve_events_single_planet(s0, events@);
            }
        }
    }
}

/// The rules only rewrite health and hit flags: every slot keeps its
/// emptiness and its entity kind through one event. In particular a handle
/// that resolves to nothing still resolves to nothing — a removed entity
/// can never re-appear through a stale contact event.
pub proof fn lemma_event_step_preserves_shape(s: Seq<Option<EntityData>>, a: int, b: int)
    ensures
        event_step(s, a, b).len() == s.len(),
        forall|i: int| 0 <= i < s.len() ==> ((#[trigger] event_step(s, a, b)[i]) is None <==> s[i] is None),
        forall|i: int|
            0 <= i < s.len() ==> (is_planet_slot(#[trigger] event_step(s, a, b)[i]) <==> is_planet_slot(s[i])),
        forall|i: int| 0 <= i < s.len() ==> slot_wf(s[i]) ==> slot_wf(#[trigger] event_step(s, a, b)[i]),
{
}

/// Well-formedness survives a whole event stream.
pub proof fn lemma_resolve_events_wf(s: Seq<Option<EntityData>>, events: Seq<ContactEvent>)
    requires
        all_slots_wf(s),
    ensures
        all_slots_wf(resolve_events(s, events)),
        resolve_events(s, events).len() == s.len(),
    decreases events.len(),
{
    if events.len() > 0 {
        lemma_resolve_events_wf(s, events.drop_last());
        lemma_event_step_preserves_shape(
            resolve_events(s, events.drop_last()),
            events.last().first as int,
            events.last().second as int,
        );
    }
}

/// The one planet stays the one planet through a whole event stream.
pub proof fn lemma_resolve_events_single_planet(s: Seq<Option<EntityData>>, events: Seq<ContactEvent>)
    requires
        planet_exactly_at(s, 0),
    ensures
        planet_exactly_at(resolve_events(s, events), 0),
    decreases events.len(),
{
    if events.len() > 0 {
        lemma_resolve_events_single_planet(s, events.drop_last());
        lemma_event_step_preserves_shape(
            resolve_events(s, events.drop_last()),
            events.last().first as int,
            events.last().second as int,
        );
    }
}

/// Law: resolution never lowers a hit flag — a bullet's counter either
/// stays or goes from armed to marked, an enemy's spent flag likewise, and
/// health never grows. The flags' march is one-way.
pub proof fn lemma_event_step_marks_monotone(s: Seq<Option<EntityData>>, a: int, b: int)
    ensures
        forall|i: int|
            0 <= i < s.len() ==> match (s[i], #[trigger] event_step(s, a, b)[i]) {
                (
                    Option::Some(EntityData::Bullet(b0)),
                    Option::Some(EntityData::Bullet(b1)),
                ) => b1.has_hit == b0.has_hit || (b0.has_hit == 0 && b1.has_hit == 1),
                (
                    Option::Some(EntityData::Enemy(e0)),
                    Option::Some(EntityData::Enemy(e1)),
                ) => (e1.has_hit == e0.has_hit || (e0.has_hit == 0 && e1.has_hit == 1))
                    && e1.hp <= e0.hp,
                (
                    Option::Some(EntityData::Planet(p0)),
                    Option::Some(EntityData::Planet(p1)),
                ) => p1.hp <= p0.hp,
                _ => true,
            },
{
}

/// Law: resolving the same contact event a second time changes nothing.
/// The hit marks set by the first pass disarm every rule, so no entity can
/// apply or take damage twice from one contact.
pub proof fn lemma_event_step_idempotent(s: Seq<Option<EntityData>>, a: int, b: int)
    ensures
        event_step(event_step(s, a, b), a, b) == event_step(s, a, b),
{
    let s1 = event_step(s, a, b);
    assert(event_step(s1, a, b) =~= s1);
}

} // verus!
