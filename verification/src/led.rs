//! Cycle-counted indicator driver.
//!
//! The driver owns a remaining-cycle counter and the level it last asked the
//! output line to take. A blink request extends the counter to at least the
//! requested pulse length and never shortens an in-flight pulse. Once per
//! control cycle `update` decrements the counter (flooring at zero) and
//! recomputes the level: active exactly while the counter is positive,
//! polarity adjusted by the active-low flag. The caller drives the physical
//! line with each returned level; the line is assumed to start low, matching
//! a freshly constructed driver.

use crate::max_u32;
use vstd::prelude::*;

verus! {

/// Length of a short indicator pulse, in milliseconds.
pub const SHORT_BLINK_MS: u32 = 25;

/// Length of a long indicator pulse, in milliseconds.
pub const LONG_BLINK_MS: u32 = 100;

/// Driver of one digital output line.
pub struct Led {
    /// Whether the line is active-low: the electrical level is the inverse
    /// of the logical "pulse running" state.
    pub active_low: bool,
    /// Control cycles per millisecond, at least one.
    pub cycles_per_ms: u32,
    /// Remaining pulse length in control cycles.
    pub cycles: u32,
    /// The level the driver last asked the line to take.
    pub level: bool,
}

/// A counter extended to at least the requested pulse length: extension
/// never shortens an in-flight pulse.
pub open spec fn spec_pulse_extend(cycles: u32, requested: u32) -> u32 {
    if cycles >= requested {
        cycles
    } else {
        requested
    }
}

/// One `update` of the driver: the counter decremented with a floor at
/// zero, and the level recomputed from the new counter and the polarity.
pub open spec fn spec_led_update(led: Led) -> Led {
    let c = if led.cycles > 0 {
        (led.cycles - 1) as u32
    } else {
        0u32
    };
    Led { cycles: c, level: (c > 0) != led.active_low, ..led }
}

impl Led {
    /// The per-millisecond cycle count is at least one and small enough that
    /// a hundredfold pulse length cannot overflow.
    pub open spec fn wf(self) -> bool {
        1 <= self.cycles_per_ms <= u32::MAX / 1000
    }

    /// A driver for a line of the given polarity on a control loop that runs
    /// `control_rate_hz` cycles per second, with no pulse running and the
    /// line assumed low.
    pub fn new(active_low: bool, control_rate_hz: u32) -> (r: Self)
        ensures
            r.active_low == active_low,
            r.cycles_per_ms == (if control_rate_hz / 1000 > 1 {
                control_rate_hz / 1000
            } else {
                1u32
            }),
            r.cycles == 0,
            r.level == false,
            r.wf(),
    {
        Self {
            active_low,
            cycles_per_ms: max_u32(control_rate_hz / 1000, 1),
            cycles: 0,
            level: false,
        }
    }

    /// Extend the running pulse to at least a short pulse.
    pub fn blink_short(&mut self)
        requires
            old(self).wf(),
        ensures
            final(self).wf(),
            final(self).cycles == spec_pulse_extend(
                old(self).cycles,
                (SHORT_BLINK_MS * old(self).cycles_per_ms) as u32,
            ),
            final(self).cycles >= old(self).cycles,
            final(self).active_low == old(self).active_low,
            final(self).cycles_per_ms == old(self).cycles_per_ms,
            final(self).level == old(self).level,
    {
        let requested = SHORT_BLINK_MS * self.cycles_per_ms;
        self.cycles = max_u32(self.cycles, requested);
    }

    /// Extend the running pulse to at least a long pulse.
    pub fn blink_long(&mut self)
        requires
            old(self).wf(),
        ensures
            final(self).wf(),
            final(self).cycles == spec_pulse_extend(
                old(self).cycles,
                (LONG_BLINK_MS * old(self).cycles_per_ms) as u32,
            ),
            final(self).cycles >= old(self).cycles,
            final(self).active_low == old(self).active_low,
            final(self).cycles_per_ms == old(self).cycles_per_ms,
            final(self).level == old(self).level,
    {
        let requested = LONG_BLINK_MS * self.cycles_per_ms;
        self.cycles = max_u32(self.cycles, requested);
    }

    /// Advance the pulse by one control cycle and return the level the line
    /// must take now.
    pub fn update(&mut self) -> (r: bool)
        ensures
            *final(self) == spec_led_update(*old(self)),
            r == final(self).level,
    {
        self.cycles = if self.cycles > 0 {
            self.cycles - 1
        } else {
            0
        };
        let enabled = (self.cycles > 0) != self.active_low;
        self.level = enabled;
        enabled
    }

    /// Flip the line unconditionally and return the level it must take now;
    /// used as a plain heartbeat independent of the pulse mechanism.
    pub fn toggle(&mut self) -> (r: bool)
        ensures
            final(self).level == !old(self).level,
            final(self).cycles == old(self).cycles,
            final(self).active_low == old(self).active_low,
            final(self).cycles_per_ms == old(self).cycles_per_ms,
            r == final(self).level,
    {
        self.level = !self.level;
        self.level
    }
}

/// The driver after `k` consecutive `update` calls.
pub open spec fn spec_led_after_updates(led: Led, k: nat) -> Led
    decreases k,
{
    if k == 0 {
        led
    } else {
        spec_led_update(spec_led_after_updates(led, (k - 1) as nat))
    }
}

/// Law: starting a pulse of `led.cycles` cycles, the `k`-th `update` leaves
/// the counter at the starting count less `k`, floored at zero, and leaves
/// the line active exactly while updates remain within the pulse.
pub proof fn lemma_led_pulse(led: Led, k: nat)
    requires
        1 <= k,
    ensures
        spec_led_after_updates(led, k).cycles == (if k <= led.cycles {
            led.cycles - k
        } else {
            0int
        }),
        spec_led_after_updates(led, k).level == ((k < led.cycles) != led.active_low),
        spec_led_after_updates(led, k).active_low == led.active_low,
        spec_led_after_updates(led, k).cycles_per_ms == led.cycles_per_ms,
    decreases k,
{
    if k == 1 {
        assert(spec_led_after_updates(led, 0) == led);
    } else {
        lemma_led_pulse(led, (k - 1) as nat);
    }
}

} // verus!
