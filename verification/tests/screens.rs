use eload::button::LongPressButtonValue;
use eload::encoder::EncoderValue;
use eload::screen::{DisplayCommand, InputEvent, MainScreen, Screens, TicksScreen};
use eload::state::State;

fn write(text: &[u8]) -> DisplayCommand {
    DisplayCommand::WriteText(text.to_vec())
}

#[test]
fn main_screen_draw_writes_title() {
    let screen = MainScreen;
    let state = State::default();
    let cmds = screen.draw(&state);
    assert_eq!(cmds, vec![DisplayCommand::Clear, write(b"Main Panel")]);
}

#[test]
fn main_screen_ignores_events() {
    let screen = MainScreen;
    let mut state = State::default();
    screen.handle_input(InputEvent::Encoder(EncoderValue::Cw), &mut state);
    assert_eq!(state.ticks_max, 20);
    assert_eq!(screen.update(&state), Vec::new());
}

#[test]
fn ticks_screen_full_draw() {
    let mut screen = TicksScreen::default();
    assert!(screen.redraw_ticks);
    let state = State::default();
    let cmds = screen.draw(&state, 16);
    assert_eq!(
        cmds,
        vec![
            DisplayCommand::Clear,
            write(b"Ticks Panel"),
            DisplayCommand::SetCursor(12, 0),
            write(b"  20"),
        ]
    );
    assert!(!screen.redraw_ticks);
}

#[test]
fn ticks_screen_update_is_idempotent_when_clean() {
    let mut screen = TicksScreen::default();
    let state = State::default();
    let first = screen.update(&state, 16);
    assert_eq!(
        first,
        vec![DisplayCommand::SetCursor(12, 0), write(b"  20")]
    );
    // Nothing is dirty any more: no display writes.
    assert_eq!(screen.update(&state, 16), Vec::new());
    assert_eq!(screen.update(&state, 16), Vec::new());
}

#[test]
fn ticks_screen_encoder_adjusts_and_marks_dirty() {
    let mut screen = TicksScreen::default();
    let mut state = State::default();
    screen.update(&state, 16);
    assert!(!screen.redraw_ticks);

    screen.handle_input(InputEvent::Encoder(EncoderValue::Ccw), &mut state);
    assert_eq!(state.ticks_max, 40);
    assert!(screen.redraw_ticks);
    assert_eq!(
        screen.update(&state, 16),
        vec![DisplayCommand::SetCursor(12, 0), write(b"  40")]
    );

    // Clockwise lowers the period, flooring at the smallest period.
    screen.handle_input(InputEvent::Encoder(EncoderValue::Cw), &mut state);
    assert_eq!(state.ticks_max, 20);
    screen.handle_input(InputEvent::Encoder(EncoderValue::Cw), &mut state);
    assert_eq!(state.ticks_max, 20);

    // Button events are not the ticks screen's business.
    let before = state.ticks_max;
    screen.handle_input(
        InputEvent::EncoderButton(LongPressButtonValue::Press),
        &mut state,
    );
    assert_eq!(state.ticks_max, before);
}

#[test]
fn ticks_screen_cursor_follows_columns() {
    let mut screen = TicksScreen::default();
    let state = State::default();
    let cmds = screen.update(&state, 20);
    assert_eq!(cmds[0], DisplayCommand::SetCursor(16, 0));
}

#[test]
fn screens_dispatch_matches_variant() {
    let mut screen = Screens::Ticks(TicksScreen::default());
    let mut state = State::default();
    screen.handle_input(InputEvent::Encoder(EncoderValue::Ccw), &mut state);
    assert_eq!(state.ticks_max, 40);
    let cmds = screen.update(&state, 16);
    assert_eq!(
        cmds,
        vec![DisplayCommand::SetCursor(12, 0), write(b"  40")]
    );

    let mut main = Screens::Main(MainScreen);
    main.handle_input(InputEvent::Encoder(EncoderValue::Ccw), &mut state);
    assert_eq!(state.ticks_max, 40);
    assert_eq!(main.update(&state, 16), Vec::new());
    assert_eq!(
        main.draw(&state, 16),
        vec![DisplayCommand::Clear, write(b"Main Panel")]
    );
}
