//! Screen dispatch: a closed set of display screens, each consuming input
//! events and producing display redraws.
//!
//! Screens never touch the display directly: `draw` and `update` return the
//! commands the display surface must execute, in order. A full repaint
//! (`draw`) happens once, on entering a screen; `update` repaints only the
//! fields marked dirty since the last repaint, and writes nothing when
//! nothing is dirty.

use crate::button::LongPressButtonValue;
use crate::encoder::EncoderValue;
use crate::state::spec_decrease_freq;
use crate::state::spec_increase_freq;
use crate::state::State;
use vstd::prelude::*;

verus! {

/// One event routed into the active screen.
#[derive(PartialEq, Eq, Structural, Clone, Copy, Debug)]
pub enum InputEvent {
    Encoder(EncoderValue),
    EncoderButton(LongPressButtonValue),
}

/// One operation for the display surface to execute.
#[derive(PartialEq, Eq, Clone, Debug)]
pub enum DisplayCommand {
    /// Clear the whole surface and home the cursor.
    Clear,
    /// Move the cursor to a column and row.
    SetCursor(u16, u16),
    /// Write the given text, one byte per character, at the cursor.
    WriteText(Vec<u8>),
}

/// Whether a command writes exactly the given text.
pub open spec fn spec_is_write(c: DisplayCommand, text: Seq<u8>) -> bool {
    c matches DisplayCommand::WriteText(v) && v@ == text
}

/// Title of the main screen, as display bytes.
pub open spec fn spec_main_title() -> Seq<u8> {
    seq![77u8, 97u8, 105u8, 110u8, 32u8, 80u8, 97u8, 110u8, 101u8, 108u8]
}

/// Title of the ticks screen, as display bytes.
pub open spec fn spec_ticks_title() -> Seq<u8> {
    seq![84u8, 105u8, 99u8, 107u8, 115u8, 32u8, 80u8, 97u8, 110u8, 101u8, 108u8]
}

fn main_title_text() -> (r: Vec<u8>)
    ensures
        r@ == spec_main_title(),
{
    let r: Vec<u8> = vec![77u8, 97u8, 105u8, 110u8, 32u8, 80u8, 97u8, 110u8, 101u8, 108u8];
    proof {
        assert(r@ =~= spec_main_title());
    }
    r
}

fn ticks_title_text() -> (r: Vec<u8>)
    ensures
        r@ == spec_ticks_title(),
{
    let r: Vec<u8> = vec![84u8, 105u8, 99u8, 107u8, 115u8, 32u8, 80u8, 97u8, 110u8, 101u8, 108u8];
    proof {
        assert(r@ =~= spec_ticks_title());
    }
    r
}

/// The display byte of one decimal digit.
pub open spec fn spec_digit_byte(d: nat) -> u8
    recommends
        d < 10,
{
    (48 + d) as u8
}

/// A value of at most four digits, rendered right-aligned in a four-column
/// field padded with spaces.
pub open spec fn spec_format_ticks(v: nat) -> Seq<u8>
    recommends
        v <= 9999,
{
    seq![
        if v >= 1000 {
            spec_digit_byte(v / 1000 % 10)
        } else {
            32u8
        },
        if v >= 100 {
            spec_digit_byte(v / 100 % 10)
        } else {
            32u8
        },
        if v >= 10 {
            spec_digit_byte(v / 10 % 10)
        } else {
            32u8
        },
        spec_digit_byte(v % 10),
    ]
}

/// Render a value right-aligned in a four-column field padded with spaces.
pub fn format_ticks(value: u32) -> (r: Vec<u8>)
    requires
        value <= 9999,
    ensures
        r@ == spec_format_ticks(value as nat),
        r@.len() == 4,
{
    let b3: u8 = if value >= 1000 {
        48 + (value / 1000 % 10) as u8
    } else {
        32
    };
    let b2: u8 = if value >= 100 {
        48 + (value / 100 % 10) as u8
    } else {
        32
    };
    let b1: u8 = if value >= 10 {
        48 + (value / 10 % 10) as u8
    } else {
        32
    };
    let b0: u8 = 48 + (value % 10) as u8;
    let r: Vec<u8> = vec![b3, b2, b1, b0];
    proof {
        assert(r@ =~= spec_format_ticks(value as nat));
    }
    r
}

/// The commands of a full repaint of the main screen: clear, then the title.
pub open spec fn spec_main_draw_cmds(cmds: Seq<DisplayCommand>) -> bool {
    &&& cmds.len() == 2
    &&& cmds[0] is Clear
    &&& spec_is_write(cmds[1], spec_main_title())
}

/// The commands of an incremental repaint of the ticks screen: the period
/// readout rewritten in the top right corner when it is dirty, nothing
/// otherwise.
pub open spec fn spec_ticks_update_cmds(
    cmds: Seq<DisplayCommand>,
    redraw: bool,
    ticks_max: u32,
    columns: u16,
) -> bool
    recommends
        columns >= 4,
{
    if redraw {
        &&& cmds.len() == 2
        &&& cmds[0] == DisplayCommand::SetCursor((columns - 4) as u16, 0u16)
        &&& spec_is_write(cmds[1], spec_format_ticks(ticks_max as nat))
    } else {
        cmds.len() == 0
    }
}

/// The commands of a full repaint of the ticks screen: clear, the title,
/// and then the incremental repaint of whatever was dirty.
pub open spec fn spec_ticks_draw_cmds(
    cmds: Seq<DisplayCommand>,
    redraw: bool,
    ticks_max: u32,
    columns: u16,
) -> bool
    recommends
        columns >= 4,
{
    &&& cmds.len() >= 2
    &&& cmds[0] is Clear
    &&& spec_is_write(cmds[1], spec_ticks_title())
    &&& spec_ticks_update_cmds(cmds.skip(2), redraw, ticks_max, columns)
}

/// The static main screen.
#[derive(PartialEq, Eq, Structural, Clone, Copy, Debug)]
pub struct MainScreen;

impl MainScreen {
    /// Full repaint: clear the surface and write the title.
    pub fn draw(&self, _state: &State) -> (r: Vec<DisplayCommand>)
        ensures
            spec_main_draw_cmds(r@),
    {
        let mut cmds: Vec<DisplayCommand> = Vec::new();
        cmds.push(DisplayCommand::Clear);
        cmds.push(DisplayCommand::WriteText(main_title_text()));
        cmds
    }

    /// The main screen consumes no events.
    pub fn handle_input(&self, _ev: InputEvent, state: &mut State)
        ensures
            *final(state) == *old(state),
    {
    }

    /// Nothing on the main screen is ever dirty.
    pub fn update(&self, _state: &State) -> (r: Vec<DisplayCommand>)
        ensures
            r@.len() == 0,
    {
        Vec::new()
    }
}

/// The ticks screen: shows the heartbeat period and adjusts it on encoder
/// events.
#[derive(PartialEq, Eq, Structural, Clone, Copy, Debug)]
pub struct TicksScreen {
    /// Whether the period readout must be repainted on the next `update`.
    pub redraw_ticks: bool,
}

impl Default for TicksScreen {
    /// A freshly entered ticks screen: the readout needs its first paint.
    fn default() -> (r: Self)
        ensures
            r.redraw_ticks == true,
    {
        Self { redraw_ticks: true }
    }
}

/// One event consumed by the ticks screen: encoder steps adjust the period
/// and mark the readout dirty; button events are ignored here.
pub open spec fn spec_ticks_handle(t: TicksScreen, ev: InputEvent, st: State) -> (
    TicksScreen,
    State,
) {
    match ev {
        InputEvent::Encoder(EncoderValue::Cw) => (
            TicksScreen { redraw_ticks: true },
            State { ticks_max: spec_increase_freq(st.ticks_max), tick: st.tick },
        ),
        InputEvent::Encoder(EncoderValue::Ccw) => (
            TicksScreen { redraw_ticks: true },
            State { ticks_max: spec_decrease_freq(st.ticks_max), tick: st.tick },
        ),
        InputEvent::EncoderButton(_) => (t, st),
    }
}

impl TicksScreen {
    /// Consume one event: a clockwise step lowers the period (raising the
    /// heartbeat frequency), a counter-clockwise step raises it, and either
    /// marks the readout dirty.
    pub fn handle_input(&mut self, ev: InputEvent, state: &mut State)
        requires
            old(state).wf(),
        ensures
            final(state).wf(),
            (*final(self), *final(state)) == spec_ticks_handle(*old(self), ev, *old(state)),
    {
        match ev {
            InputEvent::Encoder(EncoderValue::Cw) => {
                state.increase_freq();
                self.redraw_ticks = true;
            },
            InputEvent::Encoder(EncoderValue::Ccw) => {
                state.decrease_freq();
                self.redraw_ticks = true;
            },
            InputEvent::EncoderButton(_) => {},
        }
    }

    /// Incremental repaint: rewrite the period readout if it is dirty, then
    /// clear the dirty mark. Writes nothing when nothing is dirty.
    pub fn update(&mut self, state: &State, columns: u16) -> (r: Vec<DisplayCommand>)
        requires
            columns >= 4,
            state.wf(),
        ensures
            spec_ticks_update_cmds(r@, old(self).redraw_ticks, state.ticks_max, columns),
            final(self).redraw_ticks == false,
    {
        let mut cmds: Vec<DisplayCommand> = Vec::new();
        if self.redraw_ticks {
            self.redraw_ticks = false;
            cmds.push(DisplayCommand::SetCursor(columns - 4, 0));
            cmds.push(DisplayCommand::WriteText(format_ticks(state.ticks_max)));
        }
        cmds
    }

    /// Full repaint: clear the surface, write the title, then paint whatever
    /// is dirty.
    pub fn draw(&mut self, state: &State, columns: u16) -> (r: Vec<DisplayCommand>)
        requires
            columns >= 4,
            state.wf(),
        ensures
            spec_ticks_draw_cmds(r@, old(self).redraw_ticks, state.ticks_max, columns),
            final(self).redraw_ticks == false,
    {
        let mut cmds: Vec<DisplayCommand> = Vec::new();
        cmds.push(DisplayCommand::Clear);
        cmds.push(DisplayCommand::WriteText(ticks_title_text()));
        let mut rest = self.update(state, columns);
        let ghost head = cmds@;
        let ghost tail = rest@;
        cmds.append(&mut rest);
        proof {
            assert(cmds@ == head + tail);
            assert(cmds@.skip(2) =~= tail);
        }
        cmds
    }
}

/// The closed set of screens.
#[derive(PartialEq, Eq, Structural, Clone, Copy, Debug)]
pub enum Screens {
    Main(MainScreen),
    Ticks(TicksScreen),
}

/// The screen entered from `s` on a navigation step, in its initial
/// transient state: screens cycle Main, Ticks, Main, and a freshly entered
/// screen needs a full paint of its dynamic fields.
pub open spec fn spec_next_screen(s: Screens) -> Screens {
    match s {
        Screens::Main(_) => Screens::Ticks(TicksScreen { redraw_ticks: true }),
        Screens::Ticks(_) => Screens::Main(MainScreen),
    }
}

/// Law: navigation cycles through the closed screen set — Main to Ticks to
/// Main — and a freshly entered screen always needs a full paint of its
/// dynamic fields.
pub proof fn lemma_screen_navigation_cycle(s: Screens)
    ensures
        s is Main ==> spec_next_screen(s) == Screens::Ticks(TicksScreen { redraw_ticks: true }),
        s is Ticks ==> spec_next_screen(s) == Screens::Main(MainScreen),
        spec_next_screen(spec_next_screen(s)) is Main <==> s is Main,
{
}

/// One event routed into the active screen.
pub open spec fn spec_screen_handle(s: Screens, ev: InputEvent, st: State) -> (Screens, State) {
    match s {
        Screens::Main(_) => (s, st),
        Screens::Ticks(t) => {
            let (t2, st2) = spec_ticks_handle(t, ev, st);
            (Screens::Ticks(t2), st2)
        },
    }
}

/// The screen as a full or incremental repaint leaves it: every dirty mark
/// cleared.
pub open spec fn spec_screen_painted(s: Screens) -> Screens {
    match s {
        Screens::Main(m) => Screens::Main(m),
        Screens::Ticks(_) => Screens::Ticks(TicksScreen { redraw_ticks: false }),
    }
}

/// The commands of a full repaint of the given screen.
pub open spec fn spec_screen_draw_cmds(
    s: Screens,
    cmds: Seq<DisplayCommand>,
    st: State,
    columns: u16,
) -> bool
    recommends
        columns >= 4,
{
    match s {
        Screens::Main(_) => spec_main_draw_cmds(cmds),
        Screens::Ticks(t) => spec_ticks_draw_cmds(cmds, t.redraw_ticks, st.ticks_max, columns),
    }
}

/// The commands of an incremental repaint of the given screen.
pub open spec fn spec_screen_update_cmds(
    s: Screens,
    cmds: Seq<DisplayCommand>,
    st: State,
    columns: u16,
) -> bool
    recommends
        columns >= 4,
{
    match s {
        Screens::Main(_) => cmds.len() == 0,
        Screens::Ticks(t) => spec_ticks_update_cmds(cmds, t.redraw_ticks, st.ticks_max, columns),
    }
}

impl Screens {
    /// Full repaint of the active screen.
    pub fn draw(&mut self, state: &State, columns: u16) -> (r: Vec<DisplayCommand>)
        requires
            columns >= 4,
            state.wf(),
        ensures
            spec_screen_draw_cmds(*old(self), r@, *state, columns),
            *final(self) == spec_screen_painted(*old(self)),
    {
        match self {
            Screens::Main(p) => p.draw(state),
            Screens::Ticks(p) => p.draw(state, columns),
        }
    }

    /// Route one event into the active screen.
    pub fn handle_input(&mut self, ev: InputEvent, state: &mut State)
        requires
            old(state).wf(),
        ensures
            final(state).wf(),
            (*final(self), *final(state)) == spec_screen_handle(*old(self), ev, *old(state)),
    {
        match self {
            Screens::Main(p) => p.handle_input(ev, state),
            Screens::Ticks(p) => p.handle_input(ev, state),
        }
    }

    /// Incremental repaint of the active screen.
    pub fn update(&mut self, state: &State, columns: u16) -> (r: Vec<DisplayCommand>)
        requires
            columns >= 4,
            state.wf(),
        ensures
            spec_screen_update_cmds(*old(self), r@, *state, columns),
            *final(self) == spec_screen_painted(*old(self)),
    {
        match self {
            Screens::Main(p) => p.update(state),
            Screens::Ticks(p) => p.update(state, columns),
        }
    }
}

} // verus!
