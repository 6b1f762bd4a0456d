//! The entity store.
//!
//! Entities live in an arena of slots; a handle is a slot index. Removal
//! empties the slot and never shifts the others, so a handle stays good for
//! the session or dangles harmlessly: looking up a removed or unknown
//! handle yields nothing, which the resolver and the sweeps treat as a
//! per-event skip, not an error. Health and hit flags can only be reached
//! through the store's methods — collision resolution marks, the cleanup
//! sweeps remove, nothing else writes them.

use vstd::prelude::*;
use crate::entities::EntityData;
use crate::entities::Enemy;
use crate::entities::Bullet;
use crate::entities::Planet;

verus! {

/// Well-formedness of one slot's record, if the slot is full.
pub open spec fn slot_wf(s: Option<EntityData>) -> bool {
    match s {
        Option::Some(d) => d.wf(),
        Option::None => true,
    }
}

/// The slot holds an enemy.
pub open spec fn is_enemy_slot(s: Option<EntityData>) -> bool {
    s matches Option::Some(EntityData::Enemy(_))
}

/// The slot holds a planet.
pub open spec fn is_planet_slot(s: Option<EntityData>) -> bool {
    s matches Option::Some(EntityData::Planet(_))
}

/// The slot holds a bullet.
pub open spec fn is_bullet_slot(s: Option<EntityData>) -> bool {
    s matches Option::Some(EntityData::Bullet(_))
}

/// Every full slot of the arena is well formed.
pub open spec fn all_slots_wf(s: Seq<Option<EntityData>>) -> bool {
    forall|i: int| 0 <= i < s.len() ==> slot_wf(#[trigger] s[i])
}

/// The planet sits in slot `p` and nowhere else.
pub open spec fn planet_exactly_at(s: Seq<Option<EntityData>>, p: int) -> bool {
    &&& 0 <= p < s.len()
    &&& is_planet_slot(s[p])
    &&& forall|i: int| 0 <= i < s.len() && i != p ==> !is_planet_slot(#[trigger] s[i])
}

/// The arena of entity slots. Its view is the sequence of slots.
pub struct World {
    slots: Vec<Option<EntityData>>,
}

impl View for World {
    type V = Seq<Option<EntityData>>;

    closed spec fn view(&self) -> Seq<Option<EntityData>> {
        self.slots@
    }
}

impl World {
    /// Every record in the store is well formed.
    pub open spec fn wf(self) -> bool {
        all_slots_wf(self@)
    }

    /// Exactly one planet exists, in the slot the store was built around.
    pub open spec fn single_planet(self) -> bool {
        planet_exactly_at(self@, 0)
    }

    /// A session's store starts with the planet alone, in slot 0.
    pub fn new(planet: Planet) -> (w: World)
        requires
            planet.wf(),
        ensures
            w@ == seq![Option::Some(EntityData::Planet(planet))],
            w.wf(),
            w.single_planet(),
    {
        let mut slots: Vec<Option<EntityData>> = Vec::new();
        slots.push(Some(EntityData::Planet(planet)));
        let w = World { slots };
        proof {
            assert(w@ =~= seq![Option::Some(EntityData::Planet(planet))]);
        }
        w
    }

    /// Number of slots ever allocated (full or emptied).
    pub fn len(&self) -> (n: usize)
        ensures
            n == self@.len(),
    {
        self.slots.len()
    }

    /// Look a handle up; a removed or unknown handle yields nothing.
    pub fn get(&self, h: usize) -> (e: Option<EntityData>)
        ensures
            e == if h < self@.len() {
                self@[h as int]
            } else {
                Option::<EntityData>::None
            },
    {
        if h < self.slots.len() {
            self.slots[h]
        } else {
            None
        }
    }

    /// Overwrite one slot (the resolver's and the sweeps' only write).
    pub(crate) fn set_slot(&mut self, h: usize, e: Option<EntityData>)
        requires
            h < old(self)@.len(),
        ensures
            final(self)@ == old(self)@.update(h as int, e),
    {
        self.slots.set(h, e);
    }

    /// Add a freshly spawned enemy; its handle is the new slot's index.
    pub fn spawn_enemy(&mut self, e: Enemy) -> (h: usize)
        requires
            e.wf(),
        ensures
            final(self)@ == old(self)@.push(Option::Some(EntityData::Enemy(e))),
            h == old(self)@.len(),
            old(self).wf() ==> final(self).wf(),
            old(self).single_planet() ==> final(self).single_planet(),
    {
        let h = self.slots.len();
        self.slots.push(Some(EntityData::Enemy(e)));
        h
    }

    /// Add a freshly fired bullet; its handle is the new slot's index.
    pub fn spawn_bullet(&mut self, b: Bullet) -> (h: usize)
        requires
            b.wf(),
        ensures
            final(self)@ == old(self)@.push(Option::Some(EntityData::Bullet(b))),
            h == old(self)@.len(),
            old(self).wf() ==> final(self).wf(),
            old(self).single_planet() ==> final(self).single_planet(),
    {
        let h = self.slots.len();
        self.slots.push(Some(EntityData::Bullet(b)));
        h
    }

    /// Whether any enemy is still alive — the spawner's wave-clear gate
    /// reads the population through this.
    pub fn enemies_alive(&self) -> (r: bool)
        ensures
            r <==> exists|i: int| 0 <= i < self@.len() && is_enemy_slot(#[trigger] self@[i]),
    {
        let n = self.slots.len();
        for h in 0..n
            invariant
                n == self@.len(),
                forall|i: int| 0 <= i < h ==> !is_enemy_slot(#[trigger] self@[i]),
        {
            match self.slots[h] {
                Some(EntityData::Enemy(_)) => {
                    return true;
                },
                _ => {},
            }
        }
        false
    }
}

} // verus!
