//! Control core of a small rotary-encoder instrument panel.
//!
//! The core turns noisy electrical line samples into discrete user events
//! (encoder steps, button presses), paces a periodic heartbeat, drives a
//! timed indicator pulse, and routes events through a small set of display
//! screens. It is pure logic over plain values: the surrounding program
//! samples the input lines, hands the booleans in once per control cycle,
//! and carries the returned display commands and output levels to the
//! hardware.

use vstd::prelude::*;

pub mod button;
pub mod control;
pub mod encoder;
pub mod led;
pub mod screen;
pub mod state;

verus! {

/// The larger of two 32-bit values.
pub fn max_u32(a: u32, b: u32) -> (r: u32)
    ensures
        r == (if a > b {
            a
        } else {
            b
        }),
{
    if a > b {
        a
    } else {
        b
    }
}

} // verus!
