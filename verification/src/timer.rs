//! Restartable countdown timers.
//!
//! A `Timer` accumulates elapsed milliseconds and reports `finished()` once
//! the accumulation reaches the configured duration. It does not repeat:
//! `finished()` stays true on every later tick until `reset()` zeroes the
//! accumulation. Callers that consume a "finished" signal must reset the
//! timer themselves.

use vstd::prelude::*;

verus! {

/// Addition on millisecond counters, saturating at `u64::MAX`.
pub open spec fn sat_add_u64(a: u64, b: u64) -> u64 {
    if a + b <= u64::MAX {
        (a + b) as u64
    } else {
        u64::MAX
    }
}

/// A non-repeating countdown: `elapsed_ms` only grows under `tick` and is
/// zeroed by `reset`; the threshold `duration_ms` changes only through
/// `set_duration`.
#[derive(Clone, Copy, PartialEq, Eq, Structural, Debug)]
pub struct Timer {
    pub duration_ms: u64,
    pub elapsed_ms: u64,
}

impl Timer {
    /// The timer has accumulated at least its configured duration.
    pub open spec fn is_finished(self) -> bool {
        self.elapsed_ms >= self.duration_ms
    }

    /// A fresh timer: nothing accumulated yet.
    pub fn new(duration_ms: u64) -> (t: Timer)
        ensures
            t.duration_ms == duration_ms,
            t.elapsed_ms == 0,
    {
        Timer { duration_ms, elapsed_ms: 0 }
    }

    /// Accumulate `delta_ms` of elapsed time (saturating at `u64::MAX`).
    pub fn tick(&mut self, delta_ms: u64)
        ensures
            final(self).duration_ms == old(self).duration_ms,
            final(self).elapsed_ms == sat_add_u64(old(self).elapsed_ms, delta_ms),
    {
        if self.elapsed_ms <= u64::MAX - delta_ms {
            self.elapsed_ms = self.elapsed_ms + delta_ms;
        } else {
            self.elapsed_ms = u64::MAX;
        }
    }

    /// True exactly when the accumulated time has reached the duration.
    pub fn finished(&self) -> (r: bool)
        ensures
            r == self.is_finished(),
    {
        self.elapsed_ms >= self.duration_ms
    }

    /// Zero the accumulation; the duration is kept.
    pub fn reset(&mut self)
        ensures
            final(self).duration_ms == old(self).duration_ms,
            final(self).elapsed_ms == 0,
    {
        self.elapsed_ms = 0;
    }

    /// Change the threshold; the accumulation is kept.
    pub fn set_duration(&mut self, duration_ms: u64)
        ensures
            final(self).duration_ms == duration_ms,
            final(self).elapsed_ms == old(self).elapsed_ms,
    {
        self.duration_ms = duration_ms;
    }
}

/// Exact sum of a sequence of tick deltas, as a mathematical integer.
pub open spec fn total_ms(deltas: Seq<u64>) -> int
    decreases deltas.len(),
{
    if deltas.len() == 0 {
        0
    } else {
        total_ms(deltas.drop_last()) + deltas.last()
    }
}

/// The accumulation a timer holds after ticking every delta in turn,
/// starting from `start`; each step saturates as `Timer::tick` does.
pub open spec fn elapsed_after(start: u64, deltas: Seq<u64>) -> u64
    decreases deltas.len(),
{
    if deltas.len() == 0 {
        start
    } else {
        sat_add_u64(elapsed_after(start, deltas.drop_last()), deltas.last())
    }
}

/// Starting from zero, the saturating accumulation equals the exact sum
/// wherever that sum fits in a counter, and pins at `u64::MAX` above it.
pub proof fn lemma_elapsed_after_matches_total(deltas: Seq<u64>)
    ensures
        elapsed_after(0, deltas) == if total_ms(deltas) <= u64::MAX {
            total_ms(deltas)
        } else {
            u64::MAX as int
        },
    decreases deltas.len(),
{
    if deltas.len() > 0 {
        lemma_elapsed_after_matches_total(deltas.drop_last());
    }
}

/// Law: for every sequence of deltas, a timer of duration `d` that starts
/// from zero accumulation (fresh, or just reset) is finished after ticking
/// the whole sequence exactly when the cumulative ticked time reaches `d`.
pub proof fn lemma_timer_finishes_on_cumulative_time(d: u64, deltas: Seq<u64>)
    ensures
        elapsed_after(0, deltas) >= d <==> total_ms(deltas) >= d,
{
    lemma_elapsed_after_matches_total(deltas);
}

/// Law: a finished timer stays finished under further ticking; only
/// `reset` rearms it.
pub proof fn lemma_finished_is_stable(t: Timer, delta_ms: u64)
    ensures
        t.is_finished() ==> (Timer {
            duration_ms: t.duration_ms,
            elapsed_ms: sat_add_u64(t.elapsed_ms, delta_ms),
        }).is_finished(),
{
}

} // verus!
