use laravox::app::{App, FrameAction, FrameEvent, FrameState, InputState, RunCommand, Window};
use laravox::general::Color;
use laravox::module::video::{glyph_atlas, glyph_atlas_pixels, line_between, line_points};
use laravox::system::{Button, FrameMode, FrameOutcome, Input, System};

#[test]
fn frame_state_flags_last_one_event() {
    let mut state = FrameState::new();
    let action = state.process(FrameEvent::Key { code: Some(4), pressed: true });
    assert_eq!(action, FrameAction::Continue);
    assert_eq!(state.board[4], InputState { up: false, press: true, release: false });
    state.process(FrameEvent::Key { code: Some(4), pressed: false });
    assert_eq!(state.board[4], InputState { up: true, press: false, release: true });
    state.process(FrameEvent::Other);
    assert_eq!(state.board[4], InputState { up: true, press: false, release: false });
    state.process(FrameEvent::Key { code: Some(4), pressed: true });
    assert_eq!(state.board[4], InputState { up: false, press: true, release: false });
}

#[test]
fn frame_state_mouse_and_actions() {
    let mut state = FrameState::new();
    assert_eq!(state.process(FrameEvent::MouseButton { button: 2, pressed: true }), FrameAction::Continue);
    assert_eq!(state.mouse[2], InputState { up: false, press: true, release: false });
    state.process(FrameEvent::MouseButton { button: 99, pressed: true });
    assert!(state.mouse.iter().all(|m| !m.press));
    assert_eq!(
        state.process(FrameEvent::Resized { width: 800, height: 600 }),
        FrameAction::Resize { width: 800, height: 600 }
    );
    assert_eq!(
        state.process(FrameEvent::ScaleFactorChanged { width: 1600, height: 1200 }),
        FrameAction::Resize { width: 1600, height: 1200 }
    );
    assert_eq!(state.process(FrameEvent::CloseRequested), FrameAction::Exit);
    assert_eq!(state.process(FrameEvent::OtherWindowEvent), FrameAction::Continue);
    assert_eq!(InputState::default(), InputState { up: false, press: false, release: false });
}

#[test]
fn runner_input_press_then_release() {
    let mut input = Input::default();
    assert_eq!(input.board[0], Button { down: false, press: false, release: false });
    input.process(FrameEvent::Key { code: Some(162), pressed: true });
    assert!(input.board[162].down && input.board[162].press);
    input.process(FrameEvent::Key { code: Some(162), pressed: false });
    assert!(!input.board[162].down && input.board[162].release && !input.board[162].press);
    input.process(FrameEvent::MouseButton { button: 15, pressed: true });
    assert!(input.mouse[15].press && !input.board[162].release);
    assert_eq!(input.process(FrameEvent::CloseRequested), FrameAction::Exit);
    assert!(input.mouse[15].down && !input.mouse[15].press);
}

#[test]
fn frame_codes() {
    assert_eq!(App::frame_command(0), None);
    assert_eq!(App::frame_command(1), Some(RunCommand::Exit));
    assert_eq!(App::frame_command(2), Some(RunCommand::Reload));
    assert_eq!(App::frame_command(3), Some(RunCommand::Restart));
    assert_eq!(App::frame_command(4), None);
    assert_eq!(System::frame_command(1), Some(RunCommand::Exit));
    assert_eq!(System::frame_command(2), Some(RunCommand::Reload));
    assert_eq!(System::frame_command(3), Some(RunCommand::Restart));
    assert_eq!(System::frame_command(usize::MAX), None);
    assert_eq!(App::error_command(true), RunCommand::Restart);
    assert_eq!(App::error_command(false), RunCommand::Exit);
}

#[test]
fn panel_command_order() {
    assert_eq!(
        System::panel_commands(true, true, true),
        vec![RunCommand::Reload, RunCommand::Restart, RunCommand::Exit]
    );
    assert_eq!(System::panel_commands(false, true, false), vec![RunCommand::Restart]);
    assert!(System::panel_commands(false, false, false).is_empty());
}

#[test]
fn app_window_settings() {
    let window = Window {
        title: Some("Game".to_string()),
        min_scale: Some((320, 240)),
        max_scale: Some((1920, 1080)),
        scale: Some((800, 600)),
        full: Some(true),
    };
    let settings = App::load_window(&window);
    assert_eq!(settings.title, Some("Game".to_string()));
    assert_eq!(settings.size, None);
    assert_eq!(settings.min_size, Some((320, 240)));
    assert_eq!(settings.max_size, Some((320, 240)));
}

#[test]
fn runner_window_settings() {
    let mut window = laravox::script::Window::default();
    window.scale_max = Some((2000, 1000));
    let settings = System::new(&window);
    assert_eq!(settings.title, Some("Laravox".to_string()));
    assert_eq!(settings.size, Some((1024, 768)));
    assert_eq!(settings.min_size, None);
    assert_eq!(settings.max_size, Some((2000, 1000)));
}

#[test]
fn colors() {
    assert_eq!(Color::new(1, 2, 3, 4), Color { r: 1, g: 2, b: 3, a: 4 });
    assert_eq!(Color::white(), Color { r: 255, g: 255, b: 255, a: 255 });
    assert_eq!(Color::black(), Color { r: 0, g: 0, b: 0, a: 255 });
}

fn line(a: (i32, i32), b: (i32, i32)) -> Vec<(i32, i32)> {
    let dx = (b.0 - a.0).abs();
    let dy = -(b.1 - a.1).abs();
    let sx = if a.0 < b.0 { 1 } else { -1 };
    let sy = if a.1 < b.1 { 1 } else { -1 };
    line_points(a, b, dx, dy, sx, sy)
}

#[test]
fn line_shallow() {
    assert_eq!(line((0, 0), (3, 1)), vec![(0, 0), (1, 0), (2, 1), (3, 1)]);
}

#[test]
fn line_steep_and_backward() {
    assert_eq!(line((0, 0), (1, 3)), vec![(0, 0), (0, 1), (1, 2), (1, 3)]);
    assert_eq!(line((3, 3), (0, 0)), vec![(3, 3), (2, 2), (1, 1), (0, 0)]);
    assert_eq!(line((2, 0), (-2, 0)), vec![(2, 0), (1, 0), (0, 0), (-1, 0), (-2, 0)]);
}

#[test]
fn line_single_point() {
    assert_eq!(line((5, -5), (5, -5)), vec![(5, -5)]);
}

#[test]
fn line_ends_at_end_and_steps_to_neighbours() {
    let points = line((-7, 4), (12, -9));
    assert_eq!(points[0], (-7, 4));
    assert_eq!(*points.last().unwrap(), (12, -9));
    for pair in points.windows(2) {
        assert!((pair[0].0 - pair[1].0).abs() <= 1);
        assert!((pair[0].1 - pair[1].1).abs() <= 1);
        assert_ne!(pair[0], pair[1]);
    }
    assert_eq!(points.len(), 20);
}

#[test]
fn line_with_short_steps_stops_early() {
    // Steps smaller than the distance to the end make the walk stop at the end column.
    let points = line_points((0, 0), (4, 0), 1, 0, 1, 1);
    assert_eq!(*points.last().unwrap(), (4, 0));
    let points = line_points((0, 0), (4, 4), 0, 0, 1, 1);
    assert_eq!(points, vec![(0, 0), (1, 1), (2, 2), (3, 3), (4, 4)]);
}

#[test]
fn line_between_endpoints() {
    assert_eq!(line_between((0, 0), (3, 1)), vec![(0, 0), (1, 0), (2, 1), (3, 1)]);
    assert_eq!(line_between((3, 3), (0, 0)), vec![(3, 3), (2, 2), (1, 1), (0, 0)]);
    assert_eq!(line_between((5, -5), (5, -5)), vec![(5, -5)]);
    let points = line_between((-7, 4), (12, -9));
    assert_eq!(points.len(), 20);
    assert_eq!(points, line((-7, 4), (12, -9)));
    let steep = line_between((2, 10), (-1, -30));
    assert_eq!(steep.len(), 41);
    assert_eq!(steep[0], (2, 10));
    assert_eq!(*steep.last().unwrap(), (-1, -30));
}

#[test]
fn watch_rebuilds_compiled_script() {
    assert_eq!(System::watch_command(true, true), Some(RunCommand::Reload));
    assert_eq!(System::watch_command(false, true), None);
    assert_eq!(System::watch_command(true, false), None);
}

#[test]
fn pending_error_shows_panel() {
    assert_eq!(System::frame_mode(true), FrameMode::Panel);
    assert_eq!(System::frame_mode(false), FrameMode::Run);
    assert_eq!(
        System::frame_commands(FrameOutcome::Panel { rebuild: false, restart: true, exit: true }),
        vec![RunCommand::Restart, RunCommand::Exit]
    );
    assert_eq!(System::frame_commands(FrameOutcome::Ran { code: 2 }), vec![RunCommand::Reload]);
    assert!(System::frame_commands(FrameOutcome::Ran { code: 7 }).is_empty());
}

#[test]
fn main_loop_step() {
    assert_eq!(
        System::step(true, true, false, FrameOutcome::Ran { code: 1 }),
        vec![RunCommand::Reload, RunCommand::Exit]
    );
    assert_eq!(
        System::step(true, false, true, FrameOutcome::Panel { rebuild: true, restart: false, exit: false }),
        vec![RunCommand::Reload]
    );
    assert!(System::step(false, true, false, FrameOutcome::Ran { code: 0 }).is_empty());
}

#[test]
fn glyph_atlas_layout() {
    let (shifts, size) = glyph_atlas(&vec![(5, 7), (3, 9), (0, 0), (6, 2)]);
    assert_eq!(shifts, vec![0, 9, 16, 20]);
    assert_eq!(size, (30, 9));
    let (shifts, size) = glyph_atlas(&vec![]);
    assert!(shifts.is_empty());
    assert_eq!(size, (0, 0));
}

#[test]
fn glyph_rasters_copied_into_atlas() {
    let glyphs = vec![(2, vec![1, 2, 3, 4]), (1, vec![5, 6])];
    let pixels = glyph_atlas_pixels(&glyphs, (11, 2));
    let mut expected = vec![0u8; 22];
    expected[0] = 1;
    expected[1] = 2;
    expected[11] = 3;
    expected[12] = 4;
    expected[6] = 5;
    expected[17] = 6;
    assert_eq!(pixels, expected);
    assert_eq!(glyph_atlas_pixels(&vec![], (3, 2)), vec![0u8; 6]);
}
