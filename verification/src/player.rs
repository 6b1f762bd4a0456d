//! The player: orbital speed and the fire cooldown.
//!
//! One player exists at all times. Each tick its fire timer accumulates
//! the elapsed time; holding the fire signal while the cooldown has run out
//! produces exactly one fresh bullet and rearms the cooldown.

use vstd::prelude::*;
use crate::entities::Bullet;
use crate::entities::FIRE_COOLDOWN_MS;
use crate::entities::PLAYER_SPEED;
use crate::entities::fresh_bullet;
use crate::timer::Timer;

verus! {

/// The player's record: linear orbit speed and the shot cooldown timer.
#[derive(Clone, Copy, PartialEq, Eq, Structural, Debug)]
pub struct Player {
    pub speed: u64,
    pub fire_timer: Timer,
}

impl Player {
    /// The player a session starts with.
    pub fn new() -> (p: Player)
        ensures
            p.speed == PLAYER_SPEED,
            p.fire_timer.duration_ms == FIRE_COOLDOWN_MS,
            p.fire_timer.elapsed_ms == 0,
    {
        Player { speed: PLAYER_SPEED, fire_timer: Timer::new(FIRE_COOLDOWN_MS) }
    }

    /// One tick of the fire logic: the cooldown accumulates `delta_ms`; a
    /// bullet comes out exactly when the fire signal is held and the
    /// cooldown has run out, and that rearms the cooldown.
    pub fn try_fire(&mut self, delta_ms: u64, fire_pressed: bool) -> (b: Option<Bullet>)
        ensures
            final(self).speed == old(self).speed,
            final(self).fire_timer.duration_ms == old(self).fire_timer.duration_ms,
            ({
                let ticked = (Timer {
                    duration_ms: old(self).fire_timer.duration_ms,
                    elapsed_ms: crate::timer::sat_add_u64(old(self).fire_timer.elapsed_ms, delta_ms),
                });
                if fire_pressed && ticked.is_finished() {
                    final(self).fire_timer.elapsed_ms == 0 && b == Option::Some(fresh_bullet())
                } else {
                    final(self).fire_timer.elapsed_ms == ticked.elapsed_ms && b is None
                }
            }),
    {
        self.fire_timer.tick(delta_ms);
        if fire_pressed && self.fire_timer.finished() {
            self.fire_timer.reset();
            Some(Bullet::armed())
        } else {
            None
        }
    }
}

} // verus!
