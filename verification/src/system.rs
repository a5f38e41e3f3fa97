//! Button state and main-loop decisions of the script runner.
use vstd::prelude::*;
use crate::app::{code_command, WindowSettings, FrameAction, FrameEvent, RunCommand, frame_action, key_target, mouse_target, valid_frame_event};
use crate::script::{cleared, reported, report, idle_button, BUTTON_COUNT_BOARD, BUTTON_COUNT_MOUSE};
/// The state of one button, as the script input keeps it.
pub use crate::script::Button;

verus! {

/// One button after an event: cleared, then updated when the event is about it.
pub open spec fn button_after(b: Button, target: Option<bool>) -> Button {
    match target {
        Some(pressed) => reported(cleared(b), pressed),
        None => cleared(b),
    }
}

/// Keyboard and mouse button state, kept across frames.
#[derive(Clone, Copy, Debug)]
pub struct Input {
    pub board: [Button; 163],
    pub mouse: [Button; 16],
}

impl Default for Input {
    fn default() -> (input: Self)
        ensures
            forall|i: int| 0 <= i < BUTTON_COUNT_BOARD ==> #[trigger] input.board@[i] == idle_button(),
            forall|i: int| 0 <= i < BUTTON_COUNT_MOUSE ==> #[trigger] input.mouse@[i] == idle_button(),
    {
        Input {
            board: [Button { down: false, press: false, release: false }; 163],
            mouse: [Button { down: false, press: false, release: false }; 16],
        }
    }
}

impl Input {
    /// Apply one event: clear every one-frame flag, record the button that the event
    /// reports, and say what the window layer has to do.
    pub fn process(&mut self, event: FrameEvent) -> (action: FrameAction)
        requires
            valid_frame_event(event),
        ensures
            action == frame_action(event),
            forall|i: int|
                0 <= i < BUTTON_COUNT_BOARD ==> #[trigger] final(self).board@[i] == button_after(
                    old(self).board@[i],
                    key_target(event, i),
                ),
            forall|i: int|
                0 <= i < BUTTON_COUNT_MOUSE ==> #[trigger] final(self).mouse@[i] == button_after(
                    old(self).mouse@[i],
                    mouse_target(event, i),
                ),
    {
        let ghost board0 = self.board@;
        let ghost mouse0 = self.mouse@;
        let mut i: usize = 0;
        while i < BUTTON_COUNT_BOARD
            invariant
                i <= BUTTON_COUNT_BOARD,
                self.mouse@ == mouse0,
                forall|j: int| 0 <= j < i ==> #[trigger] self.board@[j] == cleared(board0[j]),
                forall|j: int| i <= j < BUTTON_COUNT_BOARD ==> #[trigger] self.board@[j] == board0[j],
            decreases BUTTON_COUNT_BOARD - i,
        {
            let mut button = self.board[i];
            button.press = false;
            button.release = false;
            self.board[i] = button;
            i = i + 1;
        }
        let mut i: usize = 0;
        while i < BUTTON_COUNT_MOUSE
            invariant
                i <= BUTTON_COUNT_MOUSE,
                forall|j: int| 0 <= j < BUTTON_COUNT_BOARD ==> #[trigger] self.board@[j] == cleared(board0[j]),
                forall|j: int| 0 <= j < i ==> #[trigger] self.mouse@[j] == cleared(mouse0[j]),
                forall|j: int| i <= j < BUTTON_COUNT_MOUSE ==> #[trigger] self.mouse@[j] == mouse0[j],
            decreases BUTTON_COUNT_MOUSE - i,
        {
            let mut button = self.mouse[i];
            button.press = false;
            button.release = false;
            self.mouse[i] = button;
            i = i + 1;
        }

        match event {
            FrameEvent::Resized { width, height } => FrameAction::Resize { width, height },
            FrameEvent::ScaleFactorChanged { width, height } => FrameAction::Resize { width, height },
            FrameEvent::CloseRequested => FrameAction::Exit,
            FrameEvent::MouseButton { button, pressed } => {
                if (button as usize) < BUTTON_COUNT_MOUSE {
                    let index = button as usize;
                    let mut entry = self.mouse[index];
                    report(&mut entry, pressed);
                    self.mouse[index] = entry;
                }
                FrameAction::Continue
            },
            FrameEvent::Key { code, pressed } => {
                if let Some(index) = code {
                    let mut entry = self.board[index];
                    report(&mut entry, pressed);
                    self.board[index] = entry;
                }
                FrameAction::Continue
            },
            _ => FrameAction::Continue,
        }
    }
}

/// The script runner's main loop.
pub struct System {}

impl System {
    /// The window settings for a script's window configuration: its name as the title, its
    /// scale as the inner size, and its minimum and maximum scales when given.
    pub fn new(window: &crate::script::Window) -> (settings: WindowSettings)
        ensures
            settings.title == Some(window.name),
            settings.size == Some(window.scale),
            settings.min_size == window.scale_min,
            settings.max_size == window.scale_max,
    {
        WindowSettings {
            title: Some(window.name.clone()),
            size: Some(window.scale),
            min_size: window.scale_min,
            max_size: window.scale_max,
        }
    }

    /// The command that a frame returning `code` asks for: 1 exits, 2 rebuilds (a reload that
    /// keeps the state), 3 restarts.
    pub fn frame_command(code: usize) -> (command: Option<RunCommand>)
        ensures
            command == code_command(code),
    {
        if code == 1 {
            Some(RunCommand::Exit)
        } else if code == 2 {
            Some(RunCommand::Reload)
        } else if code == 3 {
            Some(RunCommand::Restart)
        } else {
            None
        }
    }

    /// The commands that the error panel asked for in a frame, in the order they are carried
    /// out: rebuild, restart, exit.
    pub fn panel_commands(rebuild: bool, restart: bool, exit: bool) -> (commands: Vec<RunCommand>)
        ensures
            commands@ == panel_commands_spec(rebuild, restart, exit),
    {
        let mut commands = Vec::new();
        if rebuild {
            commands.push(RunCommand::Reload);
        }
        if restart {
            commands.push(RunCommand::Restart);
        }
        if exit {
            commands.push(RunCommand::Exit);
        }
        proof {
            let a: Seq<RunCommand> = if rebuild { seq![RunCommand::Reload] } else { Seq::empty() };
            let b: Seq<RunCommand> = if restart { seq![RunCommand::Restart] } else { Seq::empty() };
            let c: Seq<RunCommand> = if exit { seq![RunCommand::Exit] } else { Seq::empty() };
            assert(commands@ =~= a + b + c);
        }
        commands
    }
}

//================================================================
// The steps of the main loop at the end of a frame's events.

/// Whether a frame runs the script, or shows the error panel in its place.
#[derive(Clone, Copy, Debug, PartialEq, Eq, Structural)]
pub enum FrameMode {
    /// Run the script's frame.
    Run,
    /// Show the pending script error, with its rebuild, restart and exit choices.
    Panel,
}

/// What came of a frame: the code that the script's frame returned, or the choices made on the
/// error panel.
#[derive(Clone, Copy, Debug, PartialEq, Eq, Structural)]
pub enum FrameOutcome {
    Ran { code: usize },
    Panel { rebuild: bool, restart: bool, exit: bool },
}

/// The commands of the error panel's choices, in the order they are carried out: rebuild,
/// restart, exit.
pub open spec fn panel_commands_spec(rebuild: bool, restart: bool, exit: bool) -> Seq<RunCommand> {
    (if rebuild {
        seq![RunCommand::Reload]
    } else {
        Seq::empty()
    }) + (if restart {
        seq![RunCommand::Restart]
    } else {
        Seq::empty()
    }) + (if exit {
        seq![RunCommand::Exit]
    } else {
        Seq::empty()
    })
}

/// The commands that a frame's outcome asks for.
pub open spec fn outcome_commands(outcome: FrameOutcome) -> Seq<RunCommand> {
    match outcome {
        FrameOutcome::Ran { code } => match code_command(code) {
            Some(command) => seq![command],
            None => Seq::empty(),
        },
        FrameOutcome::Panel { rebuild, restart, exit } => panel_commands_spec(rebuild, restart, exit),
    }
}

/// The command that the script file's watcher calls for before a frame: a rebuild, when a
/// script is compiled and its file was closed after a write.
pub open spec fn watch_command_spec(compiled: bool, write_closed: bool) -> Option<RunCommand> {
    if compiled && write_closed {
        Some(RunCommand::Reload)
    } else {
        None
    }
}

/// The watcher asks for a rebuild exactly when a compiled script's file was closed after a
/// write: never without a write, never without a compiled script, and never for anything but
/// a rebuild.
pub proof fn lemma_watch_rebuilds_after_write(compiled: bool, write_closed: bool)
    ensures
        watch_command_spec(compiled, write_closed) is Some <==> (compiled && write_closed),
        !write_closed ==> watch_command_spec(compiled, write_closed) is None,
        !compiled ==> watch_command_spec(compiled, write_closed) is None,
        watch_command_spec(compiled, write_closed) is Some ==> watch_command_spec(
            compiled,
            write_closed,
        ) == Some(RunCommand::Reload),
{
}

/// With no write reported, a frame's step asks for nothing but what its outcome asks for.
pub proof fn lemma_step_without_write(compiled: bool, outcome: FrameOutcome)
    ensures
        (match watch_command_spec(compiled, false) {
            Some(command) => seq![command],
            None => Seq::<RunCommand>::empty(),
        }) + outcome_commands(outcome) == outcome_commands(outcome),
{
    assert(Seq::<RunCommand>::empty() + outcome_commands(outcome) =~= outcome_commands(outcome));
}

impl System {
    /// The command that the watcher's report calls for before a frame: a rebuild when a
    /// compiled script's file was closed after a write.
    pub fn watch_command(compiled: bool, write_closed: bool) -> (command: Option<RunCommand>)
        ensures
            command == watch_command_spec(compiled, write_closed),
    {
        if compiled && write_closed {
            Some(RunCommand::Reload)
        } else {
            None
        }
    }

    /// Whether the frame runs: while a script error is pending the script's frame is not
    /// called, and the error panel is shown instead.
    pub fn frame_mode(error_pending: bool) -> (mode: FrameMode)
        ensures
            mode == (if error_pending {
                FrameMode::Panel
            } else {
                FrameMode::Run
            }),
    {
        if error_pending {
            FrameMode::Panel
        } else {
            FrameMode::Run
        }
    }

    /// The commands that a frame's outcome asks for, in the order they are carried out.
    pub fn frame_commands(outcome: FrameOutcome) -> (commands: Vec<RunCommand>)
        ensures
            commands@ == outcome_commands(outcome),
    {
        match outcome {
            FrameOutcome::Ran { code } => {
                let mut commands = Vec::new();
                if let Some(command) = Self::frame_command(code) {
                    commands.push(command);
                }
                proof {
                    assert(commands@ =~= outcome_commands(outcome));
                }
                commands
            },
            FrameOutcome::Panel { rebuild, restart, exit } => Self::panel_commands(rebuild, restart, exit),
        }
    }

    /// One step of the main loop at the end of a frame's events: the rebuild that the watcher's
    /// report calls for, then the commands of the frame's outcome. `error_pending` is whether a
    /// script error is pending once the watcher's rebuild is done; it decides whether the
    /// outcome is the script's frame code or the error panel's choices.
    pub fn step(compiled: bool, write_closed: bool, error_pending: bool, outcome: FrameOutcome) -> (commands: Vec<RunCommand>)
        requires
            (outcome is Panel) == error_pending,
        ensures
            commands@ == (match watch_command_spec(compiled, write_closed) {
                Some(command) => seq![command],
                None => Seq::<RunCommand>::empty(),
            }) + outcome_commands(outcome),
            error_pending ==> commands@ == (match watch_command_spec(compiled, write_closed) {
                Some(command) => seq![command],
                None => Seq::<RunCommand>::empty(),
            }) + panel_commands_spec(outcome->rebuild, outcome->restart, outcome->exit),
            !error_pending ==> commands@ == (match watch_command_spec(compiled, write_closed) {
                Some(command) => seq![command],
                None => Seq::<RunCommand>::empty(),
            }) + match code_command(outcome->code) {
                Some(command) => seq![command],
                None => Seq::<RunCommand>::empty(),
            },
    {
        let mut commands = Vec::new();
        if let Some(command) = Self::watch_command(compiled, write_closed) {
            commands.push(command);
        }
        let rest = Self::frame_commands(outcome);
        let ghost first = commands@;
        let mut i: usize = 0;
        while i < rest.len()
            invariant
                i <= rest@.len(),
                commands@ == first + rest@.take(i as int),
            decreases rest@.len() - i,
        {
            commands.push(rest[i]);
            assert(rest@.take(i + 1) =~= rest@.take(i as int).push(rest@[i as int]));
            i = i + 1;
        }
        assert(rest@.take(rest@.len() as int) =~= rest@);
        proof {
            assert(first =~= (match watch_command_spec(compiled, write_closed) {
                Some(command) => seq![command],
                None => Seq::<RunCommand>::empty(),
            }));
        }
        commands
    }
}

} // verus!
