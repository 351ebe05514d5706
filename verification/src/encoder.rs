//! Quadrature-encoder decoder.
//!
//! A mechanical detent encoder has two lines, `a` and `b`. At rest in a
//! detent both lines are asserted. The direction of a step is resolved from
//! which single line was asserted on the scan immediately before the detent
//! was reached. Repeated both-asserted samples yield no further event, which
//! rejects bounce-induced doubles.

use vstd::prelude::*;

verus! {

/// Direction of one detent step of the rotary encoder.
#[derive(PartialEq, Eq, Structural, Clone, Copy, Debug)]
pub enum EncoderValue {
    Cw,
    Ccw,
}

/// The event one scan yields, given the sample pair seen on the previous
/// scan and the current pair `(a, b)`.
pub open spec fn spec_encoder_event(prev: (bool, bool), a: bool, b: bool) -> Option<EncoderValue> {
    if a && b {
        if !prev.0 && prev.1 {
            Some(EncoderValue::Cw)
        } else if prev.0 && !prev.1 {
            Some(EncoderValue::Ccw)
        } else {
            None
        }
    } else {
        None
    }
}

/// Decoder over the two encoder lines. It remembers only the sample pair
/// of the immediately previous scan.
pub struct Encoder {
    /// The `(a, b)` pair seen on the previous scan.
    pub previous_state: (bool, bool),
}

impl Encoder {
    /// A decoder at rest: as if both lines had read deasserted.
    pub fn new() -> (r: Self)
        ensures
            r.previous_state == (false, false),
    {
        Self { previous_state: (false, false) }
    }

    /// Consume one sample pair (already inverted from the active-low
    /// electrical levels, so `true` means asserted) and report a step event
    /// if a detent was just reached from a single-line state.
    pub fn scan(&mut self, a: bool, b: bool) -> (r: Option<EncoderValue>)
        ensures
            final(self).previous_state == (a, b),
            r == spec_encoder_event(old(self).previous_state, a, b),
    {
        let prev = self.previous_state;
        self.previous_state = (a, b);

        if a && b {
            match prev {
                (false, true) => Some(EncoderValue::Cw),
                (true, false) => Some(EncoderValue::Ccw),
                _ => None,
            }
        } else {
            None
        }
    }
}

/// Law: a clockwise event arises exactly from a `(false, true)` sample
/// followed by a both-asserted sample, and a counter-clockwise event exactly
/// from `(true, false)` followed by both-asserted.
pub proof fn lemma_encoder_direction(prev: (bool, bool), a: bool, b: bool)
    ensures
        spec_encoder_event(prev, a, b) == Some(EncoderValue::Cw) <==> (prev == (false, true) && a
            && b),
        spec_encoder_event(prev, a, b) == Some(EncoderValue::Ccw) <==> (prev == (true, false) && a
            && b),
{
}

/// Law: one detent yields at most one event. Once a both-asserted pair has
/// been sampled, the next scan yields no event, whatever it samples: an
/// intervening non-both-asserted sample is needed before another event.
pub proof fn lemma_encoder_one_event_per_detent(a1: bool, b1: bool, a2: bool, b2: bool)
    ensures
        a1 && b1 ==> spec_encoder_event((a1, b1), a2, b2) is None,
        spec_encoder_event((a1, b1), a2, b2) is Some ==> a2 && b2 && !(a1 && b1),
{
}

} // verus!
