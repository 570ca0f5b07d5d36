//! Timing of engine trails: an emitter that releases a trail segment at
//! most once per interval.
//!
//! Durations are counted in microseconds.

use vstd::prelude::*;

verus! {

/// Releases a trail segment right after it is created, then once per
/// `interval`.
#[derive(Debug, Clone, Copy, PartialEq, Eq, Structural)]
pub struct TrailEmitter {
    interval: u64,
    remaining: u64,
}

/// One tick of `delta`: the emitter fires when the time left runs out, and
/// then waits a whole interval again.
pub open spec fn tick_spec(interval: u64, remaining: u64, delta: u64) -> (u64, bool) {
    if remaining > delta {
        ((remaining - delta) as u64, false)
    } else {
        (interval, true)
    }
}

/// The time left and the number of releases after `n` ticks of `delta`.
pub open spec fn run(interval: u64, remaining: u64, delta: u64, n: nat) -> (u64, nat)
    decreases n,
{
    if n == 0 {
        (remaining, 0)
    } else {
        let (r, fires) = run(interval, remaining, delta, (n - 1) as nat);
        let (r2, fired) = tick_spec(interval, r, delta);
        (r2, fires + if fired { 1nat } else { 0nat })
    }
}

impl TrailEmitter {
    /// The waiting time between two releases.
    pub closed spec fn interval_spec(self) -> u64 {
        self.interval
    }

    /// The time left before the next release.
    pub closed spec fn remaining_spec(self) -> u64 {
        self.remaining
    }

    /// An emitter that releases on its first tick.
    pub fn new(interval: u64) -> (e: Self)
        ensures
            e.interval_spec() == interval,
            e.remaining_spec() == 0,
    {
        TrailEmitter { interval, remaining: 0 }
    }

    /// Advances the emitter by `delta`; returns whether a segment is released.
    pub fn tick(&mut self, delta: u64) -> (fired: bool)
        ensures
            final(self).interval_spec() == old(self).interval_spec(),
            (final(self).remaining_spec(), fired)
                == tick_spec(old(self).interval_spec(), old(self).remaining_spec(), delta),
    {
        if self.remaining > delta {
            self.remaining = self.remaining - delta;
            return false;
        }
        self.remaining = self.interval;
        true
    }

    /// Advances the emitter only while its carrier moves fast enough to
    /// leave a trail; a slow carrier neither releases nor uses up time.
    pub fn tick_while_moving(&mut self, moving_fast: bool, delta: u64) -> (fired: bool)
        ensures
            !moving_fast ==> *final(self) == *old(self) && !fired,
            moving_fast ==> final(self).interval_spec() == old(self).interval_spec()
                && (final(self).remaining_spec(), fired)
                    == tick_spec(old(self).interval_spec(), old(self).remaining_spec(), delta),
    {
        if !moving_fast {
            return false;
        }
        self.tick(delta)
    }
}

/// A new emitter releases on its first tick, whatever the tick's length.
pub proof fn lemma_fires_on_first_tick(interval: u64, delta: u64)
    ensures
        tick_spec(interval, 0, delta) == (interval, true),
{
}

/// While the ticks add up to less than the time left, nothing is released
/// and the time left shrinks by exactly what has passed.
pub proof fn lemma_quiet_before_deadline(interval: u64, remaining: u64, delta: u64, n: nat)
    requires
        n * delta < remaining,
    ensures
        run(interval, remaining, delta, n) == ((remaining - n * delta) as u64, 0nat),
    decreases n,
{
    if n == 0 {
        assert(n * delta == 0) by (nonlinear_arith)
            requires n == 0;
    } else {
        let m = (n - 1) as nat;
        assert(n * delta == m * delta + delta) by (nonlinear_arith)
            requires n == m + 1;
        lemma_quiet_before_deadline(interval, remaining, delta, m);
        let r = (remaining - m * delta) as u64;
        assert(r > delta);
        assert(tick_spec(interval, r, delta) == ((remaining - n * delta) as u64, false));
    }
}

/// Right after a release, ticks of a fixed positive length release the next
/// segment exactly on the first tick at which a whole interval has passed,
/// and then the emitter waits a whole interval again.
pub proof fn lemma_one_release_per_interval(interval: u64, delta: u64, n: nat)
    requires
        delta > 0,
        n >= 1,
        (n - 1) * delta < interval,
        interval <= n * delta,
    ensures
        run(interval, interval, delta, (n - 1) as nat).1 == 0,
        run(interval, interval, delta, n) == (interval, 1nat),
{
    let m = (n - 1) as nat;
    lemma_quiet_before_deadline(interval, interval, delta, m);
    assert(n * delta == m * delta + delta) by (nonlinear_arith)
        requires n == m + 1;
}

} // verus!
