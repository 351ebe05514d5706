//! The per-cycle decision core of the control loop.
//!
//! Once per control cycle the surrounding program samples the two encoder
//! lines and the button line, hands the three booleans to `step`, executes
//! the returned display commands on the display surface, drives the
//! heartbeat line with the returned level if one is returned, and then
//! blocks until the next timer tick. The ordering inside one cycle is fixed:
//! sample inputs, route events into the active screen, repaint, advance the
//! scheduler, drive the heartbeat.

use crate::button::spec_button_step;
use crate::button::LongPressButton;
use crate::button::LongPressButtonValue;
use crate::encoder::spec_encoder_event;
use crate::encoder::Encoder;
use crate::led::Led;
use crate::screen::spec_next_screen;
use crate::screen::spec_screen_draw_cmds;
use crate::screen::spec_screen_handle;
use crate::screen::spec_screen_painted;
use crate::screen::spec_screen_update_cmds;
use crate::screen::DisplayCommand;
use crate::screen::InputEvent;
use crate::screen::MainScreen;
use crate::screen::Screens;
use crate::screen::TicksScreen;
use crate::state::spec_tick_step;
use crate::state::State;
use vstd::prelude::*;

verus! {

/// Everything the control loop owns: the two input decoders, the heartbeat
/// driver, the shared application state and the active screen.
pub struct Core {
    pub encoder: Encoder,
    pub button: LongPressButton,
    pub led: Led,
    pub state: State,
    pub screen: Screens,
}

/// What one control cycle asks of the outside world: display commands to
/// execute in order, and, when the heartbeat period elapsed, the level the
/// heartbeat line must take.
pub struct StepOutput {
    pub commands: Vec<DisplayCommand>,
    pub led_level: Option<bool>,
}

/// The complete effect of one control cycle on the core: input samples are
/// decoded into events, events are routed into the active screen, a long
/// press navigates to the next screen and repaints it fully while any other
/// cycle repaints incrementally, the scheduler advances, and the heartbeat
/// line toggles when the period elapsed.
pub open spec fn spec_core_step(
    pre: Core,
    a: bool,
    b: bool,
    pressed: bool,
    columns: u16,
    post: Core,
    cmds: Seq<DisplayCommand>,
    led_level: Option<bool>,
) -> bool
    recommends
        columns >= 4,
{
    let enc_ev = spec_encoder_event(pre.encoder.previous_state, a, b);
    let (button_state, btn_ev) = spec_button_step(
        pre.button.debounce_ticks,
        pre.button.longpress_ticks,
        pre.button.state,
        pressed,
    );
    let (sc1, st1) = match enc_ev {
        Some(e) => spec_screen_handle(pre.screen, InputEvent::Encoder(e), pre.state),
        None => (pre.screen, pre.state),
    };
    let (sc2, st2) = match btn_ev {
        Some(e) => spec_screen_handle(sc1, InputEvent::EncoderButton(e), st1),
        None => (sc1, st1),
    };
    let nav = btn_ev == Some(LongPressButtonValue::LongPress);
    let sc3 = if nav {
        spec_next_screen(sc2)
    } else {
        sc2
    };
    let (st3, fired) = spec_tick_step(st2);
    &&& post.encoder.previous_state == (a, b)
    &&& post.button == (LongPressButton { state: button_state, ..pre.button })
    &&& post.screen == spec_screen_painted(sc3)
    &&& post.state == st3
    &&& post.led == (if fired {
        Led { level: !pre.led.level, ..pre.led }
    } else {
        pre.led
    })
    &&& led_level == (if fired {
        Some(!pre.led.level)
    } else {
        None::<bool>
    })
    &&& if nav {
        spec_screen_draw_cmds(sc3, cmds, st2, columns)
    } else {
        spec_screen_update_cmds(sc2, cmds, st2, columns)
    }
}

impl Core {
    /// All component invariants hold.
    pub open spec fn wf(self) -> bool {
        &&& self.button.wf()
        &&& self.led.wf()
        &&& self.state.wf()
    }

    /// A core at startup: decoders at rest, no pulse running, the default
    /// period, and the main screen active and not yet painted.
    pub fn new(control_rate_hz: u32, led_active_low: bool) -> (r: Core)
        requires
            control_rate_hz < u32::MAX,
        ensures
            r.wf(),
            r.encoder.previous_state == (false, false),
            r.button.state == crate::button::LongPressButtonState::Depressed,
            r.button.debounce_ticks == (if control_rate_hz / 1000 > 1 {
                control_rate_hz / 1000
            } else {
                1u32
            }),
            r.button.longpress_ticks == (if control_rate_hz > 1 {
                control_rate_hz
            } else {
                1u32
            }),
            r.led.cycles_per_ms == (if control_rate_hz / 1000 > 1 {
                control_rate_hz / 1000
            } else {
                1u32
            }),
            r.led.cycles == 0,
            r.led.level == false,
            r.led.active_low == led_active_low,
            r.state.ticks_max == crate::state::TICKS_MIN,
            r.state.tick == 0,
            r.screen == Screens::Main(MainScreen),
    {
        Core {
            encoder: Encoder::new(),
            button: LongPressButton::new(control_rate_hz),
            led: Led::new(led_active_low, control_rate_hz),
            state: State::default(),
            screen: Screens::Main(MainScreen),
        }
    }

    /// Fully repaint the active screen; called once at startup, before the
    /// loop, so the display shows the initial screen.
    pub fn draw_screen(&mut self, columns: u16) -> (r: Vec<DisplayCommand>)
        requires
            old(self).wf(),
            columns >= 4,
        ensures
            final(self).wf(),
            spec_screen_draw_cmds(old(self).screen, r@, old(self).state, columns),
            final(self).screen == spec_screen_painted(old(self).screen),
            final(self).encoder == old(self).encoder,
            final(self).button == old(self).button,
            final(self).led == old(self).led,
            final(self).state == old(self).state,
    {
        self.screen.draw(&self.state, columns)
    }

    /// Run one control cycle on the three input samples (already inverted
    /// from the active-low electrical levels): decode events, route them
    /// into the active screen, navigate on a long press, repaint, advance
    /// the scheduler and drive the heartbeat.
    pub fn step(&mut self, a: bool, b: bool, pressed: bool, columns: u16) -> (out: StepOutput)
        requires
            old(self).wf(),
            columns >= 4,
        ensures
            final(self).wf(),
            spec_core_step(
                *old(self),
                a,
                b,
                pressed,
                columns,
                *final(self),
                out.commands@,
                out.led_level,
            ),
    {
        let encoder_event = self.encoder.scan(a, b);
        let button_event = self.button.scan(pressed);

        if let Some(e) = encoder_event {
            self.screen.handle_input(InputEvent::Encoder(e), &mut self.state);
        }
        let nav = match button_event {
            Some(LongPressButtonValue::LongPress) => true,
            _ => false,
        };
        if let Some(e) = button_event {
            self.screen.handle_input(InputEvent::EncoderButton(e), &mut self.state);
        }

        let commands = if nav {
            self.screen = match self.screen {
                Screens::Main(_) => Screens::Ticks(TicksScreen { redraw_ticks: true }),
                Screens::Ticks(_) => Screens::Main(MainScreen),
            };
            self.screen.draw(&self.state, columns)
        } else {
            self.screen.update(&self.state, columns)
        };

        let fired = self.state.tick();
        let led_level = if fired {
            Some(self.led.toggle())
        } else {
            None
        };

        StepOutput { commands, led_level }
    }
}

} // verus!
