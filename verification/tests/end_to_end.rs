use eload::control::Core;
use eload::screen::DisplayCommand;
use eload::screen::Screens;

const COLUMNS: u16 = 16;

fn write(text: &[u8]) -> DisplayCommand {
    DisplayCommand::WriteText(text.to_vec())
}

/// Hold the button long enough for exactly one long press, then release.
/// Returns the commands of the cycle in which the long press fired.
fn long_press(core: &mut Core) -> Vec<DisplayCommand> {
    let mut draw = Vec::new();
    let mut nonempty: u32 = 0;
    for _ in 0..1006 {
        let out = core.step(false, false, true, COLUMNS);
        if !out.commands.is_empty() {
            nonempty += 1;
            draw = out.commands;
        }
    }
    // Exactly one cycle of the hold repainted anything: the navigation.
    assert_eq!(nonempty, 1);
    let out = core.step(false, false, false, COLUMNS);
    assert_eq!(out.commands, Vec::new());
    draw
}

/// Turn the encoder one clockwise detent (line b first, then the detent),
/// with the button released. Returns the commands of the detent cycle.
fn clockwise_detent(core: &mut Core) -> Vec<DisplayCommand> {
    let out = core.step(false, true, false, COLUMNS);
    assert_eq!(out.commands, Vec::new());
    let out = core.step(true, true, false, COLUMNS);
    let detent = out.commands;
    let out = core.step(false, false, false, COLUMNS);
    assert_eq!(out.commands, Vec::new());
    detent
}

/// One counter-clockwise detent: line a first, then the detent.
fn counter_clockwise_detent(core: &mut Core) -> Vec<DisplayCommand> {
    let out = core.step(true, false, false, COLUMNS);
    assert_eq!(out.commands, Vec::new());
    let out = core.step(true, true, false, COLUMNS);
    let detent = out.commands;
    let out = core.step(false, false, false, COLUMNS);
    assert_eq!(out.commands, Vec::new());
    detent
}

#[test]
fn startup_draws_main_screen_once() {
    let mut core = Core::new(1000, true);
    let cmds = core.draw_screen(COLUMNS);
    assert_eq!(cmds, vec![DisplayCommand::Clear, write(b"Main Panel")]);
    // An idle cycle repaints nothing.
    let out = core.step(false, false, false, COLUMNS);
    assert_eq!(out.commands, Vec::new());
    assert_eq!(out.led_level, None);
}

#[test]
fn long_press_navigates_with_one_full_draw() {
    let mut core = Core::new(1000, true);
    core.draw_screen(COLUMNS);

    // First long press: Main to Ticks, repainted fully, exactly once.
    let draw = long_press(&mut core);
    assert!(matches!(core.screen, Screens::Ticks(_)));
    assert_eq!(
        draw,
        vec![
            DisplayCommand::Clear,
            write(b"Ticks Panel"),
            DisplayCommand::SetCursor(12, 0),
            write(b"  20"),
        ]
    );

    // Second long press: back to Main, repainted fully, exactly once.
    let draw = long_press(&mut core);
    assert!(matches!(core.screen, Screens::Main(_)));
    assert_eq!(draw, vec![DisplayCommand::Clear, write(b"Main Panel")]);
}

#[test]
fn encoder_on_ticks_screen_repaints_readout() {
    let mut core = Core::new(1000, true);
    core.draw_screen(COLUMNS);
    long_press(&mut core);

    // A counter-clockwise detent raises the period and repaints the
    // readout exactly once, in the cycle that saw the event.
    let detent = counter_clockwise_detent(&mut core);
    assert_eq!(core.state.ticks_max, 40);
    assert_eq!(
        detent,
        vec![DisplayCommand::SetCursor(12, 0), write(b"  40")]
    );

    // A clockwise detent lowers it back to the floor.
    let detent = clockwise_detent(&mut core);
    assert_eq!(core.state.ticks_max, 20);
    assert_eq!(
        detent,
        vec![DisplayCommand::SetCursor(12, 0), write(b"  20")]
    );
}

#[test]
fn three_clockwise_detents_stay_at_floor() {
    let mut core = Core::new(1000, true);
    core.draw_screen(COLUMNS);
    long_press(&mut core);
    assert_eq!(core.state.ticks_max, 20);

    // Lowering the period from its floor is exercised, not additive: each
    // clockwise detent calls the clamped adjustment and leaves the floor.
    for _ in 0..3 {
        clockwise_detent(&mut core);
        assert_eq!(core.state.ticks_max, 20);
    }
}

#[test]
fn heartbeat_toggles_once_per_period() {
    let mut core = Core::new(1000, true);
    core.draw_screen(COLUMNS);
    let mut toggles = Vec::new();
    for k in 1..=63u32 {
        let out = core.step(false, false, false, COLUMNS);
        if let Some(level) = out.led_level {
            toggles.push((k, level));
        }
    }
    // The period is 21 cycles (counter 0..=20), and the line alternates.
    assert_eq!(toggles, vec![(21, true), (42, false), (63, true)]);
}

#[test]
fn events_reach_scheduler_in_same_cycle() {
    let mut core = Core::new(1000, true);
    core.draw_screen(COLUMNS);
    long_press(&mut core);

    // Bring the counter to the brink of firing under the old period.
    while core.state.tick != 19 {
        core.step(false, false, false, COLUMNS);
    }
    let out = core.step(true, false, false, COLUMNS);
    assert_eq!(out.led_level, None);
    assert_eq!(core.state.tick, 20);

    // Under the old period this cycle would fire. The detent raises the
    // period before the scheduler advances, so it does not.
    let out = core.step(true, true, false, COLUMNS);
    assert_eq!(core.state.ticks_max, 40);
    assert_eq!(out.led_level, None);
    assert_eq!(core.state.tick, 21);
}
