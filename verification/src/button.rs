//! Debounced push-button detector with long-press recognition.
//!
//! The detector consumes one boolean line sample per control cycle. A short
//! debounce window absorbs contact bounce before the hold is trusted; a
//! one-second threshold turns a sustained hold into a single long-press
//! event. A plain press is reported only at release, and only when the hold
//! outlasted the debounce window and no long press was already reported for
//! the same hold.

use crate::max_u32;
use vstd::prelude::*;

verus! {

/// Event produced by the detector.
#[derive(PartialEq, Eq, Structural, Clone, Copy, Debug)]
pub enum LongPressButtonValue {
    Press,
    LongPress,
}

/// Detector state between scans.
#[derive(PartialEq, Eq, Structural, Clone, Copy, Debug)]
pub enum LongPressButtonState {
    /// The line reads released.
    Depressed,
    /// The line reads pressed, but the hold has not yet outlasted the
    /// debounce window; the counter counts scans spent here.
    Candidate(u32),
    /// A debounced hold; the counter counts scans toward the long-press
    /// threshold.
    Pressed(u32),
    /// A long press has been reported for the current hold; the rest of the
    /// hold, and its eventual release, yield no further event.
    StillPressed,
}

/// One scan of the detector: from the thresholds, the current state and the
/// sampled line level to the next state and the emitted event.
pub open spec fn spec_button_step(
    debounce: u32,
    longpress: u32,
    state: LongPressButtonState,
    pressed: bool,
) -> (LongPressButtonState, Option<LongPressButtonValue>) {
    if pressed {
        match state {
            LongPressButtonState::Depressed => (LongPressButtonState::Candidate(0), None),
            LongPressButtonState::Candidate(i) => if i > debounce {
                (LongPressButtonState::Pressed(0), None)
            } else {
                (LongPressButtonState::Candidate((i + 1) as u32), None)
            },
            LongPressButtonState::Pressed(i) => if i > longpress {
                (LongPressButtonState::StillPressed, Some(LongPressButtonValue::LongPress))
            } else {
                (LongPressButtonState::Pressed((i + 1) as u32), None)
            },
            LongPressButtonState::StillPressed => (LongPressButtonState::StillPressed, None),
        }
    } else {
        match state {
            LongPressButtonState::Pressed(_) => (
                LongPressButtonState::Depressed,
                Some(LongPressButtonValue::Press),
            ),
            _ => (LongPressButtonState::Depressed, None),
        }
    }
}

/// Debounced long-press detector over one input line.
pub struct LongPressButton {
    /// Scans a candidate hold must outlast before it counts as pressed;
    /// about one millisecond of control cycles.
    pub debounce_ticks: u32,
    /// Scans a debounced hold must outlast before a long press is reported;
    /// about one second of control cycles.
    pub longpress_ticks: u32,
    /// State carried between scans.
    pub state: LongPressButtonState,
}

impl LongPressButton {
    /// Both thresholds are at least one scan, and the stored counters never
    /// outgrow their threshold by more than one, so that incrementing them
    /// cannot overflow.
    pub open spec fn wf(self) -> bool {
        &&& 1 <= self.debounce_ticks < u32::MAX
        &&& 1 <= self.longpress_ticks < u32::MAX
        &&& match self.state {
            LongPressButtonState::Candidate(i) => i <= self.debounce_ticks + 1,
            LongPressButtonState::Pressed(i) => i <= self.longpress_ticks + 1,
            _ => true,
        }
    }

    /// A detector for a control loop that runs `control_rate_hz` cycles per
    /// second, starting with the line released.
    pub fn new(control_rate_hz: u32) -> (r: Self)
        requires
            control_rate_hz < u32::MAX,
        ensures
            r.state == LongPressButtonState::Depressed,
            r.debounce_ticks == (if control_rate_hz / 1000 > 1 {
                control_rate_hz / 1000
            } else {
                1u32
            }),
            r.longpress_ticks == (if control_rate_hz > 1 {
                control_rate_hz
            } else {
                1u32
            }),
            r.wf(),
    {
        Self {
            debounce_ticks: max_u32(control_rate_hz / 1000, 1),
            longpress_ticks: max_u32(control_rate_hz, 1),
            state: LongPressButtonState::Depressed,
        }
    }

    /// Consume one line sample (`true` means pressed, already inverted from
    /// the active-low electrical level) and report the event the transition
    /// table emits.
    pub fn scan(&mut self, pressed: bool) -> (r: Option<LongPressButtonValue>)
        requires
            old(self).wf(),
        ensures
            final(self).wf(),
            final(self).debounce_ticks == old(self).debounce_ticks,
            final(self).longpress_ticks == old(self).longpress_ticks,
            (final(self).state, r) == spec_button_step(
                old(self).debounce_ticks,
                old(self).longpress_ticks,
                old(self).state,
                pressed,
            ),
    {
        let (state, value) = match (pressed, self.state) {
            (true, LongPressButtonState::Depressed) => (LongPressButtonState::Candidate(0), None),
            (true, LongPressButtonState::Candidate(i)) if i > self.debounce_ticks => (
                LongPressButtonState::Pressed(0),
                None,
            ),
            (true, LongPressButtonState::Candidate(i)) => (
                LongPressButtonState::Candidate(i + 1),
                None,
            ),
            (true, LongPressButtonState::Pressed(i)) if i > self.longpress_ticks => (
                LongPressButtonState::StillPressed,
                Some(LongPressButtonValue::LongPress),
            ),
            (true, LongPressButtonState::Pressed(i)) => (
                LongPressButtonState::Pressed(i + 1),
                None,
            ),
            (true, LongPressButtonState::StillPressed) => (LongPressButtonState::StillPressed, None),
            (false, LongPressButtonState::Pressed(_)) => (
                LongPressButtonState::Depressed,
                Some(LongPressButtonValue::Press),
            ),
            (false, _) => (LongPressButtonState::Depressed, None),
        };
        self.state = state;
        value
    }
}

/// State of the detector after `k` consecutive scans that all sampled the
/// line as pressed, starting from `state`.
pub open spec fn spec_button_run_state(
    debounce: u32,
    longpress: u32,
    state: LongPressButtonState,
    k: nat,
) -> LongPressButtonState
    decreases k,
{
    if k == 0 {
        state
    } else {
        spec_button_step(
            debounce,
            longpress,
            spec_button_run_state(debounce, longpress, state, (k - 1) as nat),
            true,
        ).0
    }
}

/// Closed form of the state reached after `m >= 1` pressed scans from
/// `Depressed`: a candidate through the debounce window, then a debounced
/// hold through the long-press window, then the latched state.
pub open spec fn spec_button_held_state(
    debounce: u32,
    longpress: u32,
    m: nat,
) -> LongPressButtonState
    recommends
        1 <= m,
{
    if m <= debounce + 2 {
        LongPressButtonState::Candidate((m - 1) as u32)
    } else if m <= debounce + longpress + 4 {
        LongPressButtonState::Pressed((m - debounce - 3) as u32)
    } else {
        LongPressButtonState::StillPressed
    }
}

/// The event emitted by the `m`-th pressed scan of a hold that started from
/// `Depressed`: nothing, except a single long press the moment the hold
/// outlasts both windows.
pub open spec fn spec_button_held_event(
    debounce: u32,
    longpress: u32,
    m: nat,
) -> Option<LongPressButtonValue>
    recommends
        1 <= m,
{
    if m == debounce + longpress + 5 {
        Some(LongPressButtonValue::LongPress)
    } else {
        None
    }
}

/// Law: a hold of `m` pressed scans from `Depressed` walks the closed-form
/// states, and its `m`-th scan emits exactly the closed-form event.
pub proof fn lemma_button_hold(debounce: u32, longpress: u32, m: nat)
    requires
        1 <= debounce < u32::MAX,
        1 <= longpress < u32::MAX,
        1 <= m,
    ensures
        spec_button_run_state(debounce, longpress, LongPressButtonState::Depressed, m)
            == spec_button_held_state(debounce, longpress, m),
        spec_button_step(
            debounce,
            longpress,
            spec_button_run_state(debounce, longpress, LongPressButtonState::Depressed, (m - 1) as nat),
            true,
        ).1 == spec_button_held_event(debounce, longpress, m),
    decreases m,
{
    if m > 1 {
        lemma_button_hold(debounce, longpress, (m - 1) as nat);
    }
}

/// Law: holding the button for `m` pressed scans, where `m` outlasts the
/// debounce window but not the long-press window, emits no event while held
/// and exactly one `Press` on release.
pub proof fn lemma_button_single_press(debounce: u32, longpress: u32, m: nat)
    requires
        1 <= debounce < u32::MAX,
        1 <= longpress < u32::MAX,
        debounce + 3 <= m <= debounce + longpress + 4,
    ensures
        forall|j: nat|
            j < m ==> spec_button_step(
                debounce,
                longpress,
                #[trigger] spec_button_run_state(
                    debounce,
                    longpress,
                    LongPressButtonState::Depressed,
                    j,
                ),
                true,
            ).1 is None,
        spec_button_step(
            debounce,
            longpress,
            spec_button_run_state(debounce, longpress, LongPressButtonState::Depressed, m),
            false,
        ) == (LongPressButtonState::Depressed, Some(LongPressButtonValue::Press)),
{
    assert forall|j: nat|
        j < m implies spec_button_step(
        debounce,
        longpress,
        #[trigger] spec_button_run_state(debounce, longpress, LongPressButtonState::Depressed, j),
        true,
    ).1 is None by {
        lemma_button_hold(debounce, longpress, (j + 1) as nat);
    }
    lemma_button_hold(debounce, longpress, m);
}

/// Law: holding the button long enough for a long press emits exactly one
/// event over the whole hold — a `LongPress` on the scan that outlasts both
/// windows — and the eventual release emits nothing further.
pub proof fn lemma_button_long_press_once(debounce: u32, longpress: u32, m: nat)
    requires
        1 <= debounce < u32::MAX,
        1 <= longpress < u32::MAX,
        m >= debounce + longpress + 5,
    ensures
        forall|j: nat|
            j < m ==> (spec_button_step(
                debounce,
                longpress,
                #[trigger] spec_button_run_state(
                    debounce,
                    longpress,
                    LongPressButtonState::Depressed,
                    j,
                ),
                true,
            ).1 == (if j + 1 == debounce + longpress + 5 {
                Some(LongPressButtonValue::LongPress)
            } else {
                None::<LongPressButtonValue>
            })),
        spec_button_step(
            debounce,
            longpress,
            spec_button_run_state(debounce, longpress, LongPressButtonState::Depressed, m),
            false,
        ) == (LongPressButtonState::Depressed, None::<LongPressButtonValue>),
{
    assert forall|j: nat|
        j < m implies (spec_button_step(
        debounce,
        longpress,
        #[trigger] spec_button_run_state(debounce, longpress, LongPressButtonState::Depressed, j),
        true,
    ).1 == (if j + 1 == debounce + longpress + 5 {
        Some(LongPressButtonValue::LongPress)
    } else {
        None::<LongPressButtonValue>
    })) by {
        lemma_button_hold(debounce, longpress, (j + 1) as nat);
    }
    lemma_button_hold(debounce, longpress, m);
}

} // verus!
