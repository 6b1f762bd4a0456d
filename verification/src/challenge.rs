//! Wave-table generation.
//!
//! A challenge is the precomputed sequence of waves for one session:
//! deterministic in structure (wave `i` holds `3 * i` spawn entries of the
//! one enemy kind), randomized in parameters (each entry's cooldown is drawn
//! uniformly from the configured interval). It is built once at startup and
//! never changed afterwards.

use vstd::prelude::*;
use crate::rng::rand_range_u64;

verus! {

/// Smallest inter-spawn cooldown a generated entry can carry, inclusive.
pub const COOLDOWN_MIN_MS: u64 = 200;

/// Largest inter-spawn cooldown a generated entry can carry, exclusive.
pub const COOLDOWN_MAX_MS: u64 = 2000;

/// Number of waves a generated challenge holds.
pub const WAVES_PER_CHALLENGE: usize = 100;

/// Entries added to a wave for each step of the wave index.
pub const SPAWNS_PER_WAVE_STEP: usize = 3;

/// One timed spawn instruction: which enemy kind to create, and how long
/// the spawner waits after emitting it.
#[derive(Clone, Copy, PartialEq, Eq, Structural, Debug)]
pub struct SpawnAt {
    pub enemy_kind: u32,
    pub cooldown_ms: u64,
}

impl SpawnAt {
    /// A generated entry's cooldown lies in the configured interval.
    pub open spec fn wf(self) -> bool {
        COOLDOWN_MIN_MS <= self.cooldown_ms < COOLDOWN_MAX_MS
    }
}

/// An ordered list of timed spawn instructions; the unit of progression.
pub struct Wave {
    pub spawns: Vec<SpawnAt>,
}

impl Wave {
    /// Every entry of a generated wave is well formed and names the one
    /// enemy kind there is.
    pub open spec fn generated(self) -> bool {
        forall|j: int|
            0 <= j < self.spawns.len() ==> (#[trigger] self.spawns[j]).wf()
                && self.spawns[j].enemy_kind == 0
    }

    /// Build the wave for progression step `progress`: `3 * progress`
    /// entries, each with a cooldown drawn uniformly from the configured
    /// interval.
    pub fn from_progress(progress: usize) -> (w: Wave)
        requires
            SPAWNS_PER_WAVE_STEP * progress <= usize::MAX,
        ensures
            w.spawns.len() == SPAWNS_PER_WAVE_STEP * progress,
            w.generated(),
    {
        let count: usize = SPAWNS_PER_WAVE_STEP * progress;
        let mut spawns: Vec<SpawnAt> = Vec::new();
        for k in 0..count
            invariant
                spawns.len() == k,
                forall|j: int|
                    0 <= j < k ==> (#[trigger] spawns[j]).wf() && spawns[j].enemy_kind == 0,
        {
            let cooldown_ms = rand_range_u64(COOLDOWN_MIN_MS, COOLDOWN_MAX_MS);
            spawns.push(SpawnAt { enemy_kind: 0, cooldown_ms });
        }
        Wave { spawns }
    }
}

/// The full wave table of one session.
pub struct Challenge {
    pub waves: Vec<Wave>,
}

impl Challenge {
    /// Wave `i` holds exactly `3 * i` entries, all well formed.
    pub open spec fn generated(self) -> bool {
        forall|i: int|
            0 <= i < self.waves.len() ==> (#[trigger] self.waves[i]).spawns.len()
                == SPAWNS_PER_WAVE_STEP * i && self.waves[i].generated()
    }

    /// Generate the session's wave table: one hundred waves whose sizes
    /// grow linearly with the wave index.
    pub fn new() -> (c: Challenge)
        ensures
            c.waves.len() == WAVES_PER_CHALLENGE,
            c.generated(),
    {
        let mut waves: Vec<Wave> = Vec::new();
        for i in 0..WAVES_PER_CHALLENGE
            invariant
                waves.len() == i,
                forall|k: int|
                    0 <= k < i ==> (#[trigger] waves[k]).spawns.len() == SPAWNS_PER_WAVE_STEP * k
                        && waves[k].generated(),
        {
            waves.push(Wave::from_progress(i));
        }
        Challenge { waves }
    }
}

} // verus!
