//! Per-frame button state of the windowed application: each event clears the one-frame
//! `press` and `release` flags, then records what the event reports.
use vstd::prelude::*;

verus! {

/// Number of keyboard keys that the window layer reports (its virtual key codes).
pub const BUTTON_COUNT_BOARD: usize = 163;

/// Number of mouse buttons that are tracked; higher button numbers are ignored.
pub const BUTTON_COUNT_MOUSE: usize = 16;

/// The state of one button.
#[derive(Clone, Copy, Debug, PartialEq, Eq, Structural)]
pub struct InputState {
    /// The button is up: it was released last, and not pressed since.
    pub up: bool,
    /// The button was pressed by the latest event.
    pub press: bool,
    /// The button was released by the latest event.
    pub release: bool,
}

impl Default for InputState {
    fn default() -> (state: Self)
        ensures
            state == (InputState { up: false, press: false, release: false }),
    {
        InputState { up: false, press: false, release: false }
    }
}

/// A button in its default state: no flag set.
pub open spec fn idle_button() -> InputState {
    InputState { up: false, press: false, release: false }
}

/// A button with its one-frame flags cleared.
pub open spec fn cleared(s: InputState) -> InputState {
    InputState { up: s.up, press: false, release: false }
}

/// A button after a press (`pressed`) or a release report.
pub open spec fn reported(s: InputState, pressed: bool) -> InputState {
    if pressed {
        InputState { up: false, press: true, release: s.release }
    } else {
        InputState { up: true, press: s.press, release: true }
    }
}

/// What the window layer reports to the frame state.
#[derive(Clone, Copy, Debug, PartialEq, Eq, Structural)]
pub enum FrameEvent {
    /// The window was resized to the given physical size.
    Resized { width: u32, height: u32 },
    /// The scale factor changed; the window's new physical size is given.
    ScaleFactorChanged { width: u32, height: u32 },
    /// The user asked to close the window.
    CloseRequested,
    /// Any other window event.
    OtherWindowEvent,
    /// A raw mouse button event, by button number.
    MouseButton { button: u32, pressed: bool },
    /// A raw keyboard event, with the virtual key code when there is one.
    Key { code: Option<usize>, pressed: bool },
    /// Any other event.
    Other,
}

/// What the window layer has to do after an event.
#[derive(Clone, Copy, Debug, PartialEq, Eq, Structural)]
pub enum FrameAction {
    Continue,
    /// Resize the drawing surface to the given physical size.
    Resize { width: u32, height: u32 },
    /// Leave the event loop.
    Exit,
}

/// The action an event calls for.
pub open spec fn frame_action(event: FrameEvent) -> FrameAction {
    match event {
        FrameEvent::Resized { width, height } => FrameAction::Resize { width, height },
        FrameEvent::ScaleFactorChanged { width, height } => FrameAction::Resize { width, height },
        FrameEvent::CloseRequested => FrameAction::Exit,
        _ => FrameAction::Continue,
    }
}

/// Whether the event reports the keyboard key `i`, and as a press or a release.
pub open spec fn key_target(event: FrameEvent, i: int) -> Option<bool> {
    match event {
        FrameEvent::Key { code: Some(c), pressed } => if c == i {
            Some(pressed)
        } else {
            None
        },
        _ => None,
    }
}

/// Whether the event reports the mouse button `i`, and as a press or a release.
pub open spec fn mouse_target(event: FrameEvent, i: int) -> Option<bool> {
    match event {
        FrameEvent::MouseButton { button, pressed } => if button == i {
            Some(pressed)
        } else {
            None
        },
        _ => None,
    }
}

/// One button after an event: cleared, then updated when the event is about it.
pub open spec fn button_after(s: InputState, target: Option<bool>) -> InputState {
    match target {
        Some(pressed) => reported(cleared(s), pressed),
        None => cleared(s),
    }
}

/// The input events that the window layer may hand over.
pub open spec fn valid_frame_event(event: FrameEvent) -> bool {
    event matches FrameEvent::Key { code: Some(c), .. } ==> c < BUTTON_COUNT_BOARD
}

/// Keyboard and mouse button state, kept across frames.
#[derive(Clone, Copy, Debug)]
pub struct FrameState {
    pub board: [InputState; 163],
    pub mouse: [InputState; 16],
}

impl FrameState {
    /// Every button in its default state.
    pub fn new() -> (state: Self)
        ensures
            forall|i: int|
                0 <= i < BUTTON_COUNT_BOARD ==> #[trigger] state.board@[i] == idle_button(),
            forall|i: int|
                0 <= i < BUTTON_COUNT_MOUSE ==> #[trigger] state.mouse@[i] == idle_button(),
    {
        FrameState {
            board: [InputState { up: false, press: false, release: false }; 163],
            mouse: [InputState { up: false, press: false, release: false }; 16],
        }
    }

    /// Apply one event: clear every one-frame flag, record the button that the event
    /// reports, and say what the window layer has to do.
    pub fn process(&mut self, event: FrameEvent) -> (action: FrameAction)
        requires
            valid_frame_event(event),
        ensures
            action == frame_action(event),
            forall|i: int|
                0 <= i < BUTTON_COUNT_BOARD ==> #[trigger] final(self).board@[i] == button_after(
                    old(self).board@[i],
                    key_target(event, i),
                ),
            forall|i: int|
                0 <= i < BUTTON_COUNT_MOUSE ==> #[trigger] final(self).mouse@[i] == button_after(
                    old(self).mouse@[i],
                    mouse_target(event, i),
                ),
    {
        let ghost board0 = self.board@;
        let ghost mouse0 = self.mouse@;
        let mut i: usize = 0;
        while i < BUTTON_COUNT_BOARD
            invariant
                i <= BUTTON_COUNT_BOARD,
                self.mouse@ == mouse0,
                forall|j: int| 0 <= j < i ==> #[trigger] self.board@[j] == cleared(board0[j]),
                forall|j: int| i <= j < BUTTON_COUNT_BOARD ==> #[trigger] self.board@[j] == board0[j],
            decreases BUTTON_COUNT_BOARD - i,
        {
            let mut button = self.board[i];
            button.press = false;
            button.release = false;
            self.board[i] = button;
            i = i + 1;
        }
        let mut i: usize = 0;
        while i < BUTTON_COUNT_MOUSE
            invariant
                i <= BUTTON_COUNT_MOUSE,
                forall|j: int| 0 <= j < BUTTON_COUNT_BOARD ==> #[trigger] self.board@[j] == cleared(board0[j]),
                forall|j: int| 0 <= j < i ==> #[trigger] self.mouse@[j] == cleared(mouse0[j]),
                forall|j: int| i <= j < BUTTON_COUNT_MOUSE ==> #[trigger] self.mouse@[j] == mouse0[j],
            decreases BUTTON_COUNT_MOUSE - i,
        {
            let mut button = self.mouse[i];
            button.press = false;
            button.release = false;
            self.mouse[i] = button;
            i = i + 1;
        }

        match event {
            FrameEvent::Resized { width, height } => FrameAction::Resize { width, height },
            FrameEvent::ScaleFactorChanged { width, height } => FrameAction::Resize { width, height },
            FrameEvent::CloseRequested => FrameAction::Exit,
            FrameEvent::MouseButton { button, pressed } => {
                if (button as usize) < BUTTON_COUNT_MOUSE {
                    let index = button as usize;
                    let mut entry = self.mouse[index];
                    if pressed {
                        entry.up = false;
                        entry.press = true;
                    } else {
                        entry.up = true;
                        entry.release = true;
                    }
                    self.mouse[index] = entry;
                }
                FrameAction::Continue
            },
            FrameEvent::Key { code, pressed } => {
                if let Some(index) = code {
                    let mut entry = self.board[index];
                    if pressed {
                        entry.up = false;
                        entry.press = true;
                    } else {
                        entry.up = true;
                        entry.release = true;
                    }
                    self.board[index] = entry;
                }
                FrameAction::Continue
            },
            _ => FrameAction::Continue,
        }
    }
}

//================================================================

/// What the main loop does after a frame of the script.
#[derive(Clone, Copy, Debug, PartialEq, Eq, Structural)]
pub enum RunCommand {
    /// Leave the application.
    Exit,
    /// Compile the script again, keeping its state.
    Reload,
    /// Start the script again from scratch.
    Restart,
}

/// The command a script's frame code asks for: 1 exits, 2 reloads, 3 restarts; any other code
/// asks for nothing.
pub open spec fn code_command(code: usize) -> Option<RunCommand> {
    if code == 1 {
        Some(RunCommand::Exit)
    } else if code == 2 {
        Some(RunCommand::Reload)
    } else if code == 3 {
        Some(RunCommand::Restart)
    } else {
        None
    }
}

/// The window configuration that a script's `window` entry point returns.
#[derive(Debug)]
pub struct Window {
    pub title: Option<String>,
    pub min_scale: Option<(u32, u32)>,
    pub max_scale: Option<(u32, u32)>,
    pub scale: Option<(u32, u32)>,
    pub full: Option<bool>,
}

/// What the window layer is asked to build: each setting only when it is given.
#[derive(Debug)]
pub struct WindowSettings {
    pub title: Option<String>,
    pub size: Option<(u32, u32)>,
    pub min_size: Option<(u32, u32)>,
    pub max_size: Option<(u32, u32)>,
}

/// The application's main loop.
pub struct App {}

impl App {
    /// The window settings for a script's window configuration: its title, and its minimum
    /// scale as both the minimum and the maximum inner size. The requested size, maximum scale
    /// and full-screen setting are not applied.
    pub fn load_window(window: &Window) -> (settings: WindowSettings)
        ensures
            settings.title == window.title,
            settings.size is None,
            settings.min_size == window.min_scale,
            settings.max_size == window.min_scale,
    {
        WindowSettings {
            title: window.title.clone(),
            size: None,
            min_size: window.min_scale,
            max_size: window.min_scale,
        }
    }

    /// The command that a frame returning `code` asks for.
    pub fn frame_command(code: usize) -> (command: Option<RunCommand>)
        ensures
            command == code_command(code),
    {
        if code == 1 {
            Some(RunCommand::Exit)
        } else if code == 2 {
            Some(RunCommand::Reload)
        } else if code == 3 {
            Some(RunCommand::Restart)
        } else {
            None
        }
    }

    /// The command after a frame failed and the user answered the error dialog: a restart
    /// when the user asked for it, an exit otherwise.
    pub fn error_command(restart: bool) -> (command: RunCommand)
        ensures
            command == (if restart {
                RunCommand::Restart
            } else {
                RunCommand::Exit
            }),
    {
        if restart {
            RunCommand::Restart
        } else {
            RunCommand::Exit
        }
    }
}

//================================================================
// Laws of the frame state.

/// An event clears the one-frame flags of every button it does not report, and keeps whether
/// that button is up.
pub proof fn lemma_unreported_button(s: InputState)
    ensures
        button_after(s, None).press == false,
        button_after(s, None).release == false,
        button_after(s, None).up == s.up,
{
}

/// A press reported in one event and a release of the same button in the next leave the
/// button up, released, and no longer pressed; a release followed by a press leaves it down
/// and pressed.
pub proof fn lemma_press_then_release(s: InputState)
    ensures
        button_after(button_after(s, Some(true)), Some(false)) == (InputState {
            up: true,
            press: false,
            release: true,
        }),
        button_after(button_after(s, Some(false)), Some(true)) == (InputState {
            up: false,
            press: true,
            release: false,
        }),
{
}

/// Frame codes: 1 exits, 2 reloads, 3 restarts, and no other code asks for anything.
pub proof fn lemma_code_commands(code: usize)
    ensures
        code_command(code) is Some <==> (1 <= code <= 3),
        code_command(code) == Some(RunCommand::Exit) <==> code == 1,
        code_command(code) == Some(RunCommand::Reload) <==> code == 2,
        code_command(code) == Some(RunCommand::Restart) <==> code == 3,
{
}

} // verus!
