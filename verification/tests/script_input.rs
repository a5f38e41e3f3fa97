use laravox::module::input::{Board, InputError, Mouse, Pad};
use laravox::module::video::Window as WindowAccess;
use laravox::script::{
    report, Button, Input, InputEvent, MouseButton, PadEvent, PadState, Script, ScriptCall,
    Window, WindowCommand, WindowSet,
};

fn idle() -> Button {
    Button {
        down: false,
        press: false,
        release: false,
    }
}

#[test]
fn button_report() {
    let mut b = idle();
    report(&mut b, true);
    assert_eq!(b, Button { down: true, press: true, release: false });
    report(&mut b, false);
    assert_eq!(b, Button { down: false, press: true, release: true });
}

#[test]
fn key_press_then_release() {
    let mut input = Input::default();
    let commands = input.process(InputEvent::KeyboardInput { code: Some(10), pressed: true });
    assert!(commands.is_empty());
    assert_eq!(Board::down(&input, 10), Ok(true));
    assert_eq!(Board::press(&input, 10), Ok(true));
    assert_eq!(Board::up(&input, 10), Ok(false));
    input.process(InputEvent::MainEventsCleared);
    assert_eq!(Board::press(&input, 10), Ok(false));
    assert_eq!(Board::down(&input, 10), Ok(true));
    input.process(InputEvent::KeyboardInput { code: Some(10), pressed: false });
    assert_eq!(Board::release(&input, 10), Ok(true));
    assert_eq!(Board::down(&input, 10), Ok(false));
    assert_eq!(Board::up(&input, 10), Ok(true));
    input.process(InputEvent::MainEventsCleared);
    assert_eq!(Board::release(&input, 10), Ok(false));
    assert_eq!(Board::get_index(&input, 10), Ok(idle()));
}

#[test]
fn key_without_code_changes_nothing() {
    let mut input = Input::default();
    input.process(InputEvent::KeyboardInput { code: None, pressed: true });
    for i in 0..163 {
        assert_eq!(Board::get_index(&input, i), Ok(idle()));
    }
}

#[test]
fn board_errors() {
    let input = Input::default();
    assert_eq!(Board::get_index(&input, 163), Err(InputError::BoardButton(163)));
    assert_eq!(Board::down(&input, 500), Err(InputError::BoardButton(500)));
    assert_eq!(Board::last_press(&input), None);
    assert_eq!(Board::last_release(&input), None);
}

#[test]
fn board_key_names() {
    assert_eq!(Board::key_name(0), Ok("KEY_1".to_string()));
    assert_eq!(Board::key_name(162), Ok("KEY_CUT".to_string()));
    assert_eq!(Board::key_name(163), Err(InputError::BoardKeyName(163)));
}

#[test]
fn mouse_buttons() {
    let mut input = Input::default();
    input.process(InputEvent::MouseInput { button: MouseButton::Right, pressed: true });
    assert_eq!(Mouse::press(&input, 1), Ok(true));
    assert_eq!(Mouse::down(&input, 1), Ok(true));
    input.process(InputEvent::MouseInput { button: MouseButton::Other(40), pressed: true });
    assert_eq!(Mouse::get_index(&input, 15), Ok(idle()));
    assert_eq!(Mouse::get_index(&input, 16), Err(InputError::MouseButton(16)));
    input.process(InputEvent::CursorEntered);
    assert_eq!(input.mouse.state, Some(true));
    input.process(InputEvent::CursorLeft);
    assert_eq!(input.mouse.state, Some(false));
    input.process(InputEvent::MainEventsCleared);
    assert_eq!(input.mouse.state, None);
    assert_eq!(Mouse::press(&input, 1), Ok(false));
    assert_eq!(Mouse::up(&input, 1), Ok(false));
    assert_eq!(MouseButton::Middle.index(), 2);
    assert_eq!(MouseButton::Other(7).index(), 7);
}

#[test]
fn mouse_cursor_requests() {
    let mut input = Input::default();
    assert_eq!(Mouse::icon(&mut input, 3), Ok(()));
    assert_eq!(input.window_set.cursor_icon, Some(3));
    assert_eq!(Mouse::icon(&mut input, 34), Err(InputError::MouseIcon(34)));
    assert_eq!(input.window_set.cursor_icon, Some(3));
    Mouse::show(&mut input, false);
    Mouse::lock(&mut input, true);
    let commands = input.process(InputEvent::MainEventsCleared);
    assert_eq!(commands.len(), 3);
    assert!(matches!(commands[0], WindowCommand::SetCursorIcon(3)));
    assert!(matches!(commands[1], WindowCommand::SetCursorVisible(false)));
    assert!(matches!(commands[2], WindowCommand::SetCursorLock(true)));
    assert!(input.process(InputEvent::MainEventsCleared).is_empty());
}

#[test]
fn window_events_recorded() {
    let mut input = Input::default();
    input.process(InputEvent::Resized { maximized: true, full: false });
    assert!(input.window_get.maximize);
    assert!(!input.window_get.full);
    input.process(InputEvent::Focused { focus: true, minimized: Some(true) });
    assert!(input.window_get.focus);
    assert!(input.window_get.minimize);
    input.process(InputEvent::Focused { focus: false, minimized: None });
    assert!(!input.window_get.focus);
    assert!(input.window_get.minimize);
    input.process(InputEvent::Other);
    assert!(input.window_get.maximize);
}

fn full_set() -> WindowSet {
    WindowSet {
        minimize: Some(()),
        maximize: Some(()),
        focus: Some(()),
        name: Some("Title".to_string()),
        icon: Some("icon.png".to_string()),
        full: Some(true),
        cursor_icon: Some(1),
        cursor_show: Some(true),
        cursor_lock: Some(false),
    }
}

#[test]
fn requests_in_order() {
    let mut set = full_set();
    let commands = set.take_commands();
    assert_eq!(commands.len(), 8);
    assert!(matches!(commands[0], WindowCommand::Minimize));
    assert!(matches!(commands[1], WindowCommand::Maximize));
    assert!(matches!(commands[2], WindowCommand::Focus));
    assert!(matches!(&commands[3], WindowCommand::SetName(name) if name == "Title"));
    assert!(matches!(commands[4], WindowCommand::SetFull(true)));
    assert!(matches!(commands[5], WindowCommand::SetCursorIcon(1)));
    assert!(matches!(commands[6], WindowCommand::SetCursorVisible(true)));
    assert!(matches!(commands[7], WindowCommand::SetCursorLock(false)));
}

#[test]
fn requests_carried_out_once() {
    let mut set = full_set();
    set.take_commands();
    assert_eq!(set.icon, Some("icon.png".to_string()));
    let again = set.take_commands();
    assert_eq!(again.len(), 1);
    assert!(matches!(again[0], WindowCommand::Maximize));
    let mut empty = WindowSet::default();
    assert!(empty.take_commands().is_empty());
}

#[test]
fn pad_events() {
    let mut input = Input::default();
    input.pad.process_event(42, PadEvent::ButtonPressed(0));
    input.pad.process_event(42, PadEvent::AxisChanged(1, 0x3f80_0000));
    input.pad.process_event(7, PadEvent::TriggerChanged { right: true, value: 0x3f00_0000 });
    input.pad.process_event(7, PadEvent::TriggerChanged { right: false, value: 5 });
    assert_eq!(Pad::name(&input, 0), Ok(42));
    assert_eq!(Pad::name(&input, 1), Ok(7));
    assert_eq!(Pad::name(&input, 2), Err(InputError::Pad(2)));
    assert_eq!(Pad::press(&input, 0, 0), Ok(true));
    assert_eq!(Pad::down(&input, 0, 0), Ok(true));
    assert_eq!(Pad::up(&input, 1, 0), Ok(true));
    assert_eq!(Pad::axis(&input, 0, 1), Ok(0x3f80_0000));
    assert_eq!(Pad::axis(&input, 1, 5), Ok(0x3f00_0000));
    assert_eq!(Pad::axis(&input, 1, 2), Ok(5));
    assert_eq!(Pad::axis(&input, 1, 9), Err(InputError::Pad(1)));
    assert_eq!(Pad::get_index(&input, 0, 20), Err(InputError::PadButton(20)));
    assert_eq!(Pad::get_index(&input, 3, 0), Err(InputError::PadButton(0)));
    assert_eq!(input.pad.position(7), Some(1));
    assert_eq!(input.pad.position(8), None);
}

#[test]
fn pads_kept_over_frames() {
    let mut input = Input::default();
    input.pad.process_event(5, PadEvent::ButtonPressed(3));
    input.pad.process_event(6, PadEvent::ButtonReleased(4));
    input.pad.process_event(5, PadEvent::AxisChanged(0, 9));
    input.process(InputEvent::MainEventsCleared);
    assert_eq!(input.pad.data.len(), 2);
    assert_eq!(Pad::name(&input, 0), Ok(5));
    assert_eq!(Pad::name(&input, 1), Ok(6));
    assert_eq!(Pad::press(&input, 0, 3), Ok(false));
    assert_eq!(Pad::down(&input, 0, 3), Ok(true));
    assert_eq!(Pad::release(&input, 1, 4), Ok(false));
    assert_eq!(Pad::axis(&input, 0, 0), Ok(9));
    input.pad.process_event(6, PadEvent::Other);
    assert_eq!(input.pad.data.len(), 2);
}

#[test]
fn idle_pad_state() {
    let pad = PadState::default();
    assert!(pad.button.iter().all(|b| *b == idle()));
    assert!(pad.axis.iter().all(|a| *a == 0));
    assert_eq!(pad.last_press, None);
}

#[test]
fn default_window() {
    let window = Window::default();
    assert_eq!(window.name, "Laravox");
    assert_eq!(window.scale, (1024, 768));
    assert!(window.head && window.sync && window.decor && window.resize);
    assert!(!window.full && !window.hidden && !window.minimize && !window.maximize);
    assert_eq!(window.icon, None);
    assert_eq!(window.scale_min, None);
}

#[test]
fn script_host_calls() {
    let mut script: Script<u32, String> = Script::new(Ok(1));
    assert_eq!(script.frame_call(), Some(ScriptCall::Begin));
    script.begin("state".to_string());
    assert_eq!(script.frame_call(), Some(ScriptCall::Frame));
    script.record(Ok(()));
    assert_eq!(script.error, None);
    script.record(Err("oops".to_string()));
    assert_eq!(script.error, Some("oops".to_string()));
    script.rebuild(Ok(2));
    assert_eq!(script.handle, Some(2));
    assert_eq!(script.error, None);
    assert_eq!(script.state, Some("state".to_string()));
    assert!(script.restart(Err("bad".to_string()), "fresh".to_string()));
    assert_eq!(script.handle, Some(2));
    assert_eq!(script.error, Some("bad".to_string()));
    assert_eq!(script.state, Some("fresh".to_string()));
    assert_eq!(script.window().name, "Laravox");

    let mut broken: Script<u32, String> = Script::new(Err("parse".to_string()));
    assert_eq!(broken.frame_call(), None);
    assert_eq!(broken.error, Some("parse".to_string()));
    assert!(!broken.restart(Err("again".to_string()), "lost".to_string()));
    assert_eq!(broken.state, None);
    assert_eq!(broken.frame_call(), None);
    assert!(broken.restart(Ok(3), "new".to_string()));
    assert_eq!(broken.state, Some("new".to_string()));
    assert_eq!(broken.frame_call(), Some(ScriptCall::Frame));
}

#[test]
fn window_requests_from_script() {
    let mut input = Input::default();
    assert!(!WindowAccess::get_full(&input));
    WindowAccess::set_name(&mut input, "Demo");
    WindowAccess::set_icon(&mut input, "icon.png");
    WindowAccess::set_full(&mut input, true);
    WindowAccess::set_focus(&mut input);
    WindowAccess::set_minimize(&mut input);
    assert_eq!(input.window_set.name, Some("Demo".to_string()));
    assert_eq!(input.window_set.icon, Some("icon.png".to_string()));
    let commands = input.process(InputEvent::MainEventsCleared);
    assert_eq!(commands.len(), 4);
    assert!(matches!(commands[0], WindowCommand::Minimize));
    assert!(matches!(commands[1], WindowCommand::Focus));
    assert!(matches!(&commands[2], WindowCommand::SetName(name) if name == "Demo"));
    assert!(matches!(commands[3], WindowCommand::SetFull(true)));
    assert_eq!(input.window_set.icon, Some("icon.png".to_string()));
    input.process(InputEvent::Resized { maximized: false, full: true });
    assert!(WindowAccess::get_full(&input));
}

#[test]
fn maximize_request_stays_queued() {
    let mut input = Input::default();
    WindowAccess::set_maximize(&mut input);
    let first = input.process(InputEvent::MainEventsCleared);
    let second = input.process(InputEvent::MainEventsCleared);
    assert_eq!(first.len(), 1);
    assert_eq!(second.len(), 1);
    assert!(matches!(second[0], WindowCommand::Maximize));
}

#[test]
fn last_press_and_release_recorded() {
    let mut input = Input::default();
    input.process(InputEvent::MainEventsCleared);
    input.process(InputEvent::KeyboardInput { code: Some(12), pressed: true });
    assert_eq!(Board::last_press(&input), Some(12));
    assert_eq!(Board::last_release(&input), None);
    input.process(InputEvent::KeyboardInput { code: Some(30), pressed: true });
    input.process(InputEvent::KeyboardInput { code: Some(12), pressed: false });
    assert_eq!(Board::last_press(&input), Some(30));
    assert_eq!(Board::last_release(&input), Some(12));
    input.process(InputEvent::MouseInput { button: MouseButton::Middle, pressed: true });
    input.process(InputEvent::MouseInput { button: MouseButton::Other(99), pressed: true });
    assert_eq!(Mouse::last_press(&input), Some(2));
    input.process(InputEvent::MouseInput { button: MouseButton::Left, pressed: false });
    assert_eq!(Mouse::last_release(&input), Some(0));
    input.process(InputEvent::MainEventsCleared);
    assert_eq!(Board::last_press(&input), None);
    assert_eq!(Mouse::last_release(&input), None);
}

#[test]
fn pad_last_press_recorded() {
    let mut input = Input::default();
    input.pad.process_event(3, PadEvent::ButtonPressed(5));
    input.pad.process_event(3, PadEvent::ButtonReleased(1));
    assert_eq!(input.pad.data[0].1.last_press, Some(5));
    assert_eq!(input.pad.data[0].1.last_release, Some(1));
    input.process(InputEvent::MainEventsCleared);
    assert_eq!(input.pad.data[0].1.last_press, None);
}
