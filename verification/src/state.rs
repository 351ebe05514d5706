//! Application state: the heartbeat period and its tick counter.
//!
//! `tick` advances a counter once per control cycle and fires when the
//! counter wraps at the period `ticks_max`. The period is adjustable in
//! steps of twenty control cycles, clamped to stay within its bounds; a
//! smaller period means a faster heartbeat, hence the frequency-flavoured
//! names of the two adjustments.

use vstd::prelude::*;

verus! {

/// Smallest heartbeat period, in control cycles.
pub const TICKS_MIN: u32 = 20;

/// Largest heartbeat period, in control cycles.
pub const TICKS_MAX_LIMIT: u32 = 1000;

/// Size of one period adjustment, in control cycles.
pub const TICKS_STEP: u32 = 20;

/// Mutable application state shared between the screens and the heartbeat.
pub struct State {
    /// Heartbeat period: the tick counter wraps when it reaches this value.
    pub ticks_max: u32,
    /// Tick counter, advanced once per control cycle.
    pub tick: u32,
}

/// The period lowered by one step, floored at the smallest period.
pub open spec fn spec_increase_freq(ticks_max: u32) -> u32 {
    if ticks_max >= TICKS_MIN + TICKS_STEP {
        (ticks_max - TICKS_STEP) as u32
    } else {
        TICKS_MIN
    }
}

/// The period raised by one step, capped at the largest period.
pub open spec fn spec_decrease_freq(ticks_max: u32) -> u32 {
    if ticks_max + TICKS_STEP <= TICKS_MAX_LIMIT {
        (ticks_max + TICKS_STEP) as u32
    } else {
        TICKS_MAX_LIMIT
    }
}

/// One advance of the tick counter: it wraps to zero and fires when it has
/// reached the period, and counts on silently otherwise.
pub open spec fn spec_tick_step(s: State) -> (State, bool) {
    if s.tick >= s.ticks_max {
        (State { ticks_max: s.ticks_max, tick: 0 }, true)
    } else {
        (State { ticks_max: s.ticks_max, tick: (s.tick + 1) as u32 }, false)
    }
}

impl State {
    /// The period stays within its bounds and on the adjustment grid.
    pub open spec fn wf(self) -> bool {
        &&& TICKS_MIN <= self.ticks_max <= TICKS_MAX_LIMIT
        &&& self.ticks_max % TICKS_STEP == 0
    }

    /// Lower the period by one step, flooring at the smallest period; the
    /// heartbeat gets faster.
    pub fn increase_freq(&mut self)
        requires
            old(self).wf(),
        ensures
            final(self).wf(),
            final(self).ticks_max == spec_increase_freq(old(self).ticks_max),
            final(self).tick == old(self).tick,
    {
        let lowered = self.ticks_max - TICKS_STEP;
        self.ticks_max = if lowered > TICKS_MIN {
            lowered
        } else {
            TICKS_MIN
        };
    }

    /// Raise the period by one step, capping at the largest period; the
    /// heartbeat gets slower.
    pub fn decrease_freq(&mut self)
        requires
            old(self).wf(),
        ensures
            final(self).wf(),
            final(self).ticks_max == spec_decrease_freq(old(self).ticks_max),
            final(self).tick == old(self).tick,
    {
        let raised = self.ticks_max + TICKS_STEP;
        self.ticks_max = if raised < TICKS_MAX_LIMIT {
            raised
        } else {
            TICKS_MAX_LIMIT
        };
    }

    /// Advance the tick counter by one control cycle; report whether the
    /// period elapsed and the counter wrapped.
    pub fn tick(&mut self) -> (r: bool)
        requires
            old(self).wf(),
        ensures
            final(self).wf(),
            (*final(self), r) == spec_tick_step(*old(self)),
    {
        if self.tick >= self.ticks_max {
            self.tick = 0;
            true
        } else {
            self.tick = self.tick + 1;
            false
        }
    }
}

impl Default for State {
    /// The startup state: the smallest period, counter at zero.
    fn default() -> (r: Self)
        ensures
            r.ticks_max == TICKS_MIN,
            r.tick == 0,
            r.wf(),
    {
        State { ticks_max: TICKS_MIN, tick: 0 }
    }
}

/// Law: the period adjustments keep the period within its bounds and on the
/// adjustment grid, and each is idempotent at its own bound: lowering cannot
/// pass the floor and raising cannot pass the cap.
pub proof fn lemma_freq_clamp(ticks_max: u32)
    requires
        TICKS_MIN <= ticks_max <= TICKS_MAX_LIMIT,
    ensures
        TICKS_MIN <= spec_increase_freq(ticks_max) <= TICKS_MAX_LIMIT,
        TICKS_MIN <= spec_decrease_freq(ticks_max) <= TICKS_MAX_LIMIT,
        spec_increase_freq(TICKS_MIN) == TICKS_MIN,
        spec_decrease_freq(TICKS_MAX_LIMIT) == TICKS_MAX_LIMIT,
        ticks_max % TICKS_STEP == 0 ==> spec_increase_freq(ticks_max) % TICKS_STEP == 0
            && spec_decrease_freq(ticks_max) % TICKS_STEP == 0,
{
}

/// The state after `k` consecutive `tick` calls.
pub open spec fn spec_ticks_run(s: State, k: nat) -> State
    decreases k,
{
    if k == 0 {
        s
    } else {
        spec_tick_step(spec_ticks_run(s, (k - 1) as nat)).0
    }
}

/// Whether the `k`-th of a run of `tick` calls fires, for `k >= 1`.
pub open spec fn spec_tick_fired(s: State, k: nat) -> bool
    recommends
        1 <= k,
{
    spec_tick_step(spec_ticks_run(s, (k - 1) as nat)).1
}

/// Law: from a counter at zero, a run of `tick` calls keeps the period,
/// keeps the counter at the call count modulo one more than the period, and
/// fires exactly on every `ticks_max + 1`-th call.
pub proof fn lemma_tick_period(s: State, k: nat)
    requires
        s.wf(),
        s.tick == 0,
        1 <= k,
    ensures
        spec_ticks_run(s, k).ticks_max == s.ticks_max,
        spec_ticks_run(s, k).tick == k % ((s.ticks_max + 1) as nat),
        spec_tick_fired(s, k) == (k % ((s.ticks_max + 1) as nat) == 0nat),
    decreases k,
{
    let n: int = s.ticks_max + 1;
    if k == 1 {
        assert(spec_ticks_run(s, 0) == s);
        vstd::arithmetic::div_mod::lemma_small_mod(1nat, n as nat);
    } else {
        lemma_tick_period(s, (k - 1) as nat);
        vstd::arithmetic::div_mod::lemma_add_mod_noop((k - 1) as int, 1int, n);
        vstd::arithmetic::div_mod::lemma_small_mod(1nat, n as nat);
        vstd::arithmetic::div_mod::lemma_mod_bound((k - 1) as int, n);
        let m = (k - 1) as int % n;
        if m + 1 < n {
            vstd::arithmetic::div_mod::lemma_small_mod((m + 1) as nat, n as nat);
        } else {
            vstd::arithmetic::div_mod::lemma_mod_self_0(n);
        }
    }
}

} // verus!
