//! The wave spawner: timing and progression through the wave table.
//!
//! The spawner owns a pair of indices into the challenge and a running
//! timer. Each tick it may emit at most one spawn request. A wave advances
//! only once its entries are exhausted *and* no enemy is left alive — the
//! wave-clear gate that keeps waves from overlapping. Past the last wave
//! the spawner is terminal: the challenge is complete, which is a state to
//! display, not an error.
//!
//! Pacing quirk, kept deliberately: an entry's cooldown is written into the
//! timer in the same step that emits the entry, so it gates the *next*
//! firing. The very first spawn of a session therefore waits out the
//! spawner's starting duration, not the first table entry's cooldown.

use vstd::prelude::*;
use crate::challenge::Challenge;
use crate::challenge::SpawnAt;
use crate::entities::Enemy;
use crate::entities::fresh_enemy;
use crate::motion::FULL_TURN_URAD;
use crate::rng::rand_range_u64;
use crate::timer::Timer;
use crate::timer::sat_add_u64;

verus! {

/// Duration the spawn timer starts with, before any table entry has been
/// written into it, in milliseconds.
pub const SPAWN_TIMER_DEFAULT_MS: u64 = 2000;

/// Diameter of the spawn ring a session starts with, in world units.
pub const SPAWN_RING_SIZE: u64 = 1024;

/// Linear speed a freshly spawned enemy is launched with, tangentially,
/// in units per second.
pub const ENEMY_LAUNCH_SPEED: u64 = 120;

/// The entries of wave `w` of the table.
pub open spec fn wave_entries(c: Challenge, w: int) -> Seq<SpawnAt> {
    c.waves@[w].spawns@
}

/// One spawn request, handed to the entity-creation collaborator: place a
/// fresh enemy at `angle_urad` on the ring of radius `ring_radius` around
/// the spawner, launched tangentially.
#[derive(Clone, Copy, PartialEq, Eq, Structural, Debug)]
pub struct SpawnCommand {
    pub wave_index: usize,
    pub spawn_index: usize,
    pub angle_urad: u64,
    pub ring_radius: u64,
    pub launch_speed: u64,
    pub enemy: Enemy,
}

/// The spawner: progression indices plus the running inter-spawn timer.
#[derive(Clone, Copy, PartialEq, Eq, Structural, Debug)]
pub struct Spawner {
    pub spawn_timer: Timer,
    pub size: u64,
    pub current_wave: usize,
    pub current_spawn: usize,
}

/// The two states that only retime the spawner: indices and duration kept,
/// accumulation set to `elapsed`.
pub open spec fn holds_with_elapsed(o: Spawner, n: Spawner, elapsed: u64) -> bool {
    &&& n.size == o.size
    &&& n.current_wave == o.current_wave
    &&& n.current_spawn == o.current_spawn
    &&& n.spawn_timer.duration_ms == o.spawn_timer.duration_ms
    &&& n.spawn_timer.elapsed_ms == elapsed
}

/// The spawner landed on entry `(w, s)` and emitted from it: if the slot
/// exists, its cooldown is armed for the next firing and exactly one spawn
/// request for a fresh enemy goes out, at some angle on the ring; if the
/// wave is empty there is nothing to emit and the timer is merely rearmed.
pub open spec fn emits_from(
    o: Spawner,
    c: Challenge,
    w: usize,
    s: usize,
    n: Spawner,
    cmd: Option<SpawnCommand>,
) -> bool {
    &&& n.size == o.size
    &&& n.current_wave == w
    &&& n.current_spawn == s
    &&& n.spawn_timer.elapsed_ms == 0
    &&& if s < wave_entries(c, w as int).len() {
        &&& n.spawn_timer.duration_ms == wave_entries(c, w as int)[s as int].cooldown_ms
        &&& cmd matches Option::Some(cm) && cm.wave_index == w && cm.spawn_index == s
            && cm.angle_urad < FULL_TURN_URAD && cm.ring_radius == o.size / 2
            && cm.launch_speed == ENEMY_LAUNCH_SPEED && cm.enemy == fresh_enemy()
    } else {
        &&& n.spawn_timer.duration_ms == o.spawn_timer.duration_ms
        &&& cmd is None
    }
}

impl Spawner {
    /// The spawner has run off the end of the table: the challenge is
    /// complete and nothing will ever spawn again.
    pub open spec fn terminal(self, c: Challenge) -> bool {
        self.current_wave >= c.waves@.len()
    }

    /// The timer's accumulation after this tick.
    pub open spec fn ticked_elapsed(self, delta_ms: u64) -> u64 {
        sat_add_u64(self.spawn_timer.elapsed_ms, delta_ms)
    }

    /// The timer finishes on this tick.
    pub open spec fn fires(self, delta_ms: u64) -> bool {
        self.ticked_elapsed(delta_ms) >= self.spawn_timer.duration_ms
    }

    /// No next slot exists within the current wave.
    pub open spec fn wave_exhausted(self, c: Challenge) -> bool {
        self.current_spawn + 1 >= wave_entries(c, self.current_wave as int).len()
    }

    /// The indices never point past the table: the wave index stays within
    /// the table's length, and inside a non-empty wave the spawn index
    /// stays within the wave.
    pub open spec fn within(self, c: Challenge) -> bool {
        &&& self.current_wave <= c.waves@.len()
        &&& (self.current_wave < c.waves@.len() && wave_entries(c, self.current_wave as int).len()
            > 0 ==> self.current_spawn < wave_entries(c, self.current_wave as int).len())
    }

    /// The spawner a session starts with: at the head of the table, with
    /// the default duration running.
    pub fn new(size: u64) -> (sp: Spawner)
        ensures
            sp.spawn_timer.duration_ms == SPAWN_TIMER_DEFAULT_MS,
            sp.spawn_timer.elapsed_ms == 0,
            sp.size == size,
            sp.current_wave == 0,
            sp.current_spawn == 0,
            forall|c: Challenge| sp.within(c),
    {
        Spawner {
            spawn_timer: Timer::new(SPAWN_TIMER_DEFAULT_MS),
            size,
            current_wave: 0,
            current_spawn: 0,
        }
    }

    /// One tick of the progression state machine.
    ///
    /// Terminal spawners do nothing, ever. Otherwise the timer ticks; if it
    /// fires, the indices move to the next slot — into the next wave only
    /// if the current one is exhausted *and* the enemy population is empty
    /// (the wave-clear gate: with enemies alive the wave index does not
    /// move) — and one spawn request is emitted from the slot landed on,
    /// its cooldown armed for the firing after this one.
    pub fn step(
        &mut self,
        challenge: &Challenge,
        delta_ms: u64,
        enemies_alive: bool,
    ) -> (cmd: Option<SpawnCommand>)
        ensures
            old(self).terminal(*challenge) ==> *final(self) == *old(self) && cmd is None,
            !old(self).terminal(*challenge) && !old(self).fires(delta_ms) ==> cmd is None
                && holds_with_elapsed(*old(self), *final(self), old(self).ticked_elapsed(delta_ms)),
            !old(self).terminal(*challenge) && old(self).fires(delta_ms) && old(self).wave_exhausted(
                *challenge,
            ) && enemies_alive ==> cmd is None && holds_with_elapsed(
                *old(self),
                *final(self),
                old(self).ticked_elapsed(delta_ms),
            ),
            !old(self).terminal(*challenge) && old(self).fires(delta_ms) && old(self).wave_exhausted(
                *challenge,
            ) && !enemies_alive && old(self).current_wave + 1 >= challenge.waves@.len() ==> cmd
                is None && final(self).size == old(self).size && final(self).current_wave == old(
                self,
            ).current_wave + 1 && final(self).current_spawn == 0 && final(self).spawn_timer.duration_ms
                == old(self).spawn_timer.duration_ms && final(self).spawn_timer.elapsed_ms == 0,
            !old(self).terminal(*challenge) && old(self).fires(delta_ms) && old(self).wave_exhausted(
                *challenge,
            ) && !enemies_alive && old(self).current_wave + 1 < challenge.waves@.len()
                ==> emits_from(
                *old(self),
                *challenge,
                (old(self).current_wave + 1) as usize,
                0,
                *final(self),
                cmd,
            ),
            !old(self).terminal(*challenge) && old(self).fires(delta_ms) && !old(
                self,
            ).wave_exhausted(*challenge) ==> emits_from(
                *old(self),
                *challenge,
                old(self).current_wave,
                (old(self).current_spawn + 1) as usize,
                *final(self),
                cmd,
            ),
            old(self).within(*challenge) ==> final(self).within(*challenge),
    {
        if self.current_wave >= challenge.waves.len() {
            return None;
        }
        self.spawn_timer.tick(delta_ms);
        if !self.spawn_timer.finished() {
            return None;
        }
        let wave_len = challenge.waves[self.current_wave].spawns.len();
        let exhausted = wave_len == 0 || self.current_spawn >= wave_len - 1;
        if exhausted {
            if enemies_alive {
                return None;
            }
            self.current_spawn = 0;
            self.current_wave = self.current_wave + 1;
            self.spawn_timer.reset();
            if self.current_wave >= challenge.waves.len() {
                return None;
            }
        } else {
            self.current_spawn = self.current_spawn + 1;
            self.spawn_timer.reset();
        }
        let wave = &challenge.waves[self.current_wave];
        if self.current_spawn >= wave.spawns.len() {
            return None;
        }
        let entry = &wave.spawns[self.current_spawn];
        self.spawn_timer.set_duration(entry.cooldown_ms);
        self.spawn_timer.reset();
        let angle_urad = rand_range_u64(0, FULL_TURN_URAD);
        Some(
            SpawnCommand {
                wave_index: self.current_wave,
                spawn_index: self.current_spawn,
                angle_urad,
                ring_radius: self.size / 2,
                launch_speed: ENEMY_LAUNCH_SPEED,
                enemy: Enemy::standard(),
            },
        )
    }
}

/// What the presentation collaborator shows of the progression: the
/// one-based wave number against the total, or that the challenge is done.
#[derive(Clone, Copy, PartialEq, Eq, Structural, Debug)]
pub enum WaveStatus {
    InProgress(usize, usize),
    Completed,
}

/// The display decision: a wave index inside the table shows as its
/// one-based number over the total; an index past the table means the
/// challenge is complete.
pub fn wave_status(current_wave: usize, total_waves: usize) -> (r: WaveStatus)
    ensures
        current_wave < total_waves ==> r == WaveStatus::InProgress(
            (current_wave + 1) as usize,
            total_waves,
        ),
        current_wave >= total_waves ==> r == WaveStatus::Completed,
{
    if current_wave < total_waves {
        WaveStatus::InProgress(current_wave + 1, total_waves)
    } else {
        WaveStatus::Completed
    }
}

} // verus!
