//! Script host state: the window configuration, the per-frame input state that scripts read,
//! and the window requests that scripts queue up for the window layer.
use vstd::prelude::*;

verus! {

/// Number of keyboard keys that the window layer reports (its virtual key codes).
pub const BUTTON_COUNT_BOARD: usize = 163;

/// Number of mouse buttons that are tracked; higher button numbers are ignored.
pub const BUTTON_COUNT_MOUSE: usize = 16;

/// Number of buttons of a pad.
pub const BUTTON_COUNT_PAD: usize = 20;

/// Number of axes of a pad.
pub const AXIS_COUNT_PAD: usize = 9;

//================================================================

/// The window configuration that a script asks for.
#[derive(Debug)]
pub struct Window {
    pub name: String,
    pub icon: Option<String>,
    pub scale_min: Option<(u32, u32)>,
    pub scale_max: Option<(u32, u32)>,
    pub scale: (u32, u32),
    pub head: bool,
    pub sync: bool,
    pub full: bool,
    pub decor: bool,
    pub resize: bool,
    pub hidden: bool,
    pub minimize: bool,
    pub maximize: bool,
}

impl Window {
    /// The configuration used when a script asks for nothing else.
    pub open spec fn is_default(&self) -> bool {
        &&& self.name@ == "Laravox"@
        &&& self.icon is None
        &&& self.scale_min is None
        &&& self.scale_max is None
        &&& self.scale == (1024u32, 768u32)
        &&& self.head
        &&& self.sync
        &&& !self.full
        &&& self.decor
        &&& self.resize
        &&& !self.hidden
        &&& !self.minimize
        &&& !self.maximize
    }
}

impl Default for Window {
    fn default() -> (window: Self)
        ensures
            window.is_default(),
    {
        Window {
            name: String::from_str("Laravox"),
            icon: None,
            scale_min: None,
            scale_max: None,
            scale: (1024, 768),
            head: true,
            sync: true,
            full: false,
            decor: true,
            resize: true,
            hidden: false,
            minimize: false,
            maximize: false,
        }
    }
}

//================================================================

/// The state of one button.
#[derive(Clone, Copy, Debug, PartialEq, Eq, Structural)]
pub struct Button {
    /// The button is held down.
    pub down: bool,
    /// The button was pressed in this frame.
    pub press: bool,
    /// The button was released in this frame.
    pub release: bool,
}

impl Default for Button {
    fn default() -> (button: Self)
        ensures
            button == idle_button(),
    {
        Button { down: false, press: false, release: false }
    }
}

/// A button in its default state: up, with no flag set.
pub open spec fn idle_button() -> Button {
    Button { down: false, press: false, release: false }
}

/// A button with its one-frame flags cleared.
pub open spec fn cleared(b: Button) -> Button {
    Button { down: b.down, press: false, release: false }
}

/// A button after a press (`pressed`) or a release report.
pub open spec fn reported(b: Button, pressed: bool) -> Button {
    if pressed {
        Button { down: true, press: true, release: b.release }
    } else {
        Button { down: false, press: b.press, release: true }
    }
}

/// Sets `b` as a press (`pressed`) or a release reports it.
pub fn report(b: &mut Button, pressed: bool)
    ensures
        *final(b) == reported(*old(b), pressed),
{
    if pressed {
        b.down = true;
        b.press = true;
    } else {
        b.down = false;
        b.release = true;
    }
}

/// The keyboard.
#[derive(Clone, Copy, Debug)]
pub struct Board {
    pub data: [Button; 163],
    /// Last key press.
    pub last_press: Option<usize>,
    /// Last key release.
    pub last_release: Option<usize>,
}

impl Default for Board {
    fn default() -> (board: Self)
        ensures
            forall|i: int| 0 <= i < BUTTON_COUNT_BOARD ==> #[trigger] board.data@[i] == idle_button(),
            board.last_press is None,
            board.last_release is None,
    {
        Board {
            data: [Button { down: false, press: false, release: false }; 163],
            last_press: None,
            last_release: None,
        }
    }
}

/// The mouse.
#[derive(Clone, Copy, Debug)]
pub struct Mouse {
    pub data: [Button; 16],
    /// Whether the cursor entered (`Some(true)`) or left (`Some(false)`) the window in this
    /// frame.
    pub state: Option<bool>,
    /// Last mouse button press.
    pub last_press: Option<usize>,
    /// Last mouse button release.
    pub last_release: Option<usize>,
}

impl Default for Mouse {
    fn default() -> (mouse: Self)
        ensures
            forall|i: int| 0 <= i < BUTTON_COUNT_MOUSE ==> #[trigger] mouse.data@[i] == idle_button(),
            mouse.state is None,
            mouse.last_press is None,
            mouse.last_release is None,
    {
        Mouse {
            data: [Button { down: false, press: false, release: false }; 16],
            state: None,
            last_press: None,
            last_release: None,
        }
    }
}

//================================================================

/// The state of one pad. Axis values are kept as the bit patterns of the `f32` values that the
/// pad layer reports.
#[derive(Clone, Copy, Debug)]
pub struct PadState {
    pub button: [Button; 20],
    pub axis: [u32; 9],
    /// Last pad button press.
    pub last_press: Option<usize>,
    /// Last pad button release.
    pub last_release: Option<usize>,
}

impl PadState {
    /// A pad in its default state: every button idle, every axis at zero.
    pub open spec fn is_idle(&self) -> bool {
        &&& forall|i: int| 0 <= i < BUTTON_COUNT_PAD ==> #[trigger] self.button@[i] == idle_button()
        &&& forall|i: int| 0 <= i < AXIS_COUNT_PAD ==> #[trigger] self.axis@[i] == 0
        &&& self.last_press is None
        &&& self.last_release is None
    }
}

impl Default for PadState {
    fn default() -> (pad: Self)
        ensures
            pad.is_idle(),
    {
        PadState {
            button: [Button { down: false, press: false, release: false }; 20],
            axis: [0u32; 9],
            last_press: None,
            last_release: None,
        }
    }
}

/// What the pad layer reports about one pad.
#[derive(Clone, Copy, Debug, PartialEq, Eq, Structural)]
pub enum PadEvent {
    /// A button, by its code, was pressed.
    ButtonPressed(usize),
    /// A button, by its code, was released.
    ButtonReleased(usize),
    /// An axis, by its code, moved to a new value (the bit pattern of an `f32`).
    AxisChanged(usize, u32),
    /// An analog trigger (the right one when `right`) moved to a new value.
    TriggerChanged { right: bool, value: u32 },
    /// Anything else: connection, disconnection, other analog buttons.
    Other,
}

/// The events that the pad layer may hand over: codes within the pad's tables.
pub open spec fn valid_pad_event(event: PadEvent) -> bool {
    match event {
        PadEvent::ButtonPressed(b) => b < BUTTON_COUNT_PAD,
        PadEvent::ButtonReleased(b) => b < BUTTON_COUNT_PAD,
        PadEvent::AxisChanged(a, _) => a < AXIS_COUNT_PAD,
        _ => true,
    }
}

/// The buttons of a pad after an event.
pub open spec fn pad_buttons_after(buttons: Seq<Button>, event: PadEvent) -> Seq<Button> {
    match event {
        PadEvent::ButtonPressed(b) => buttons.update(b as int, reported(buttons[b as int], true)),
        PadEvent::ButtonReleased(b) => buttons.update(b as int, reported(buttons[b as int], false)),
        _ => buttons,
    }
}

/// The axes of a pad after an event. The left analog trigger is axis 2, the right one axis 5.
pub open spec fn pad_axes_after(axes: Seq<u32>, event: PadEvent) -> Seq<u32> {
    match event {
        PadEvent::AxisChanged(a, value) => axes.update(a as int, value),
        PadEvent::TriggerChanged { right, value } => axes.update(
            if right {
                5
            } else {
                2
            },
            value,
        ),
        _ => axes,
    }
}

/// The last button press of a pad after an event: the button that the event presses, if any.
pub open spec fn pad_last_press_after(last: Option<usize>, event: PadEvent) -> Option<usize> {
    match event {
        PadEvent::ButtonPressed(b) => Some(b),
        _ => last,
    }
}

/// The last button release of a pad after an event: the button that the event releases, if
/// any.
pub open spec fn pad_last_release_after(last: Option<usize>, event: PadEvent) -> Option<usize> {
    match event {
        PadEvent::ButtonReleased(b) => Some(b),
        _ => last,
    }
}

/// The buttons of a pad that was not seen before.
pub open spec fn idle_buttons() -> Seq<Button> {
    Seq::new(BUTTON_COUNT_PAD as nat, |i: int| idle_button())
}

/// The axes of a pad that was not seen before.
pub open spec fn zero_axes() -> Seq<u32> {
    Seq::new(AXIS_COUNT_PAD as nat, |i: int| 0u32)
}

/// The pads seen so far, in the order they were first seen, each under its identifier.
pub struct Pad {
    pub data: Vec<(usize, PadState)>,
}

/// No identifier occurs twice.
pub open spec fn ids_unique(data: Seq<(usize, PadState)>) -> bool {
    forall|i: int, j: int| 0 <= i < j < data.len() ==> data[i].0 != data[j].0
}

impl Pad {
    pub open spec fn wf(&self) -> bool {
        ids_unique(self.data@)
    }

    pub fn new() -> (pad: Self)
        ensures
            pad.wf(),
            pad.data@.len() == 0,
    {
        Pad { data: Vec::new() }
    }

    /// The pad at `index`, in the order pads were first seen.
    pub fn get_pad(&self, index: usize) -> (pad: Option<&(usize, PadState)>)
        ensures
            pad == (if index < self.data@.len() {
                Some(&self.data@[index as int])
            } else {
                None
            }),
    {
        if index < self.data.len() {
            Some(&self.data[index])
        } else {
            None
        }
    }

    /// The position of the pad `id`, when it was seen.
    pub fn position(&self, id: usize) -> (at: Option<usize>)
        requires
            self.wf(),
        ensures
            match at {
                Some(i) => i < self.data@.len() && self.data@[i as int].0 == id,
                None => forall|i: int| 0 <= i < self.data@.len() ==> self.data@[i].0 != id,
            },
    {
        let mut i: usize = 0;
        while i < self.data.len()
            invariant
                i <= self.data@.len(),
                forall|j: int| 0 <= j < i ==> self.data@[j].0 != id,
            decreases self.data@.len() - i,
        {
            if self.data[i].0 == id {
                return Some(i);
            }
            i = i + 1;
        }
        None
    }

    /// Start a new frame: clear every pad's one-frame flags and last press and release.
    pub fn begin_frame(&mut self)
        requires
            old(self).wf(),
        ensures
            final(self).wf(),
            final(self).data@.len() == old(self).data@.len(),
            forall|p: int|
                #![trigger final(self).data@[p]]
                0 <= p < old(self).data@.len() ==> {
                    let before = old(self).data@[p];
                    let after = final(self).data@[p];
                    &&& after.0 == before.0
                    &&& after.1.axis == before.1.axis
                    &&& after.1.last_press is None
                    &&& after.1.last_release is None
                    &&& forall|i: int|
                        0 <= i < BUTTON_COUNT_PAD ==> #[trigger] after.1.button@[i] == cleared(
                            before.1.button@[i],
                        )
                },
    {
        let n = self.data.len();
        let mut p: usize = 0;
        while p < n
            invariant
                n == self.data@.len(),
                n == old(self).data@.len(),
                p <= n,
                forall|q: int| p <= q < n ==> #[trigger] self.data@[q] == old(self).data@[q],
                forall|q: int|
                    #![trigger self.data@[q]]
                    0 <= q < p ==> {
                        let before = old(self).data@[q];
                        let after = self.data@[q];
                        &&& after.0 == before.0
                        &&& after.1.axis == before.1.axis
                        &&& after.1.last_press is None
                        &&& after.1.last_release is None
                        &&& forall|i: int|
                            0 <= i < BUTTON_COUNT_PAD ==> #[trigger] after.1.button@[i] == cleared(
                                before.1.button@[i],
                            )
                    },
            decreases n - p,
        {
            let (id, mut state) = self.data[p];
            let ghost start = state;
            let mut i: usize = 0;
            while i < BUTTON_COUNT_PAD
                invariant
                    i <= BUTTON_COUNT_PAD,
                    state.axis == start.axis,
                    state.last_press == start.last_press,
                    state.last_release == start.last_release,
                    forall|j: int| 0 <= j < i ==> #[trigger] state.button@[j] == cleared(start.button@[j]),
                    forall|j: int| i <= j < BUTTON_COUNT_PAD ==> #[trigger] state.button@[j] == start.button@[j],
                decreases BUTTON_COUNT_PAD - i,
            {
                let mut button = state.button[i];
                button.press = false;
                button.release = false;
                state.button[i] = button;
                i = i + 1;
            }
            state.last_press = None;
            state.last_release = None;
            self.data.set(p, (id, state));
            p = p + 1;
        }
    }

    /// Record an event of the pad `id`, which is added, in its default state, when it was
    /// not seen before.
    pub fn process_event(&mut self, id: usize, event: PadEvent)
        requires
            old(self).wf(),
            valid_pad_event(event),
        ensures
            final(self).wf(),
            ({
                let old_data = old(self).data@;
                let new_data = final(self).data@;
                let seen = exists|i: int| 0 <= i < old_data.len() && old_data[i].0 == id;
                &&& new_data.len() == if seen {
                    old_data.len()
                } else {
                    old_data.len() + 1
                }
                &&& !seen ==> new_data.last().0 == id
                &&& forall|i: int|
                    #![trigger new_data[i]]
                    0 <= i < new_data.len() ==> if new_data[i].0 == id {
                        let known = i < old_data.len();
                        &&& new_data[i].1.button@ == pad_buttons_after(
                            if known {
                                old_data[i].1.button@
                            } else {
                                idle_buttons()
                            },
                            event,
                        )
                        &&& new_data[i].1.axis@ == pad_axes_after(
                            if known {
                                old_data[i].1.axis@
                            } else {
                                zero_axes()
                            },
                            event,
                        )
                        &&& new_data[i].1.last_press == pad_last_press_after(
                            if known {
                                old_data[i].1.last_press
                            } else {
                                None
                            },
                            event,
                        )
                        &&& new_data[i].1.last_release == pad_last_release_after(
                            if known {
                                old_data[i].1.last_release
                            } else {
                                None
                            },
                            event,
                        )
                    } else {
                        i < old_data.len() && new_data[i] == old_data[i]
                    }
            }),
    {
        let at = match self.position(id) {
            Some(i) => i,
            None => {
                let fresh = PadState::default();
                self.data.push((id, fresh));
                self.data.len() - 1
            },
        };
        let (_, mut state) = self.data[at];
        match event {
            PadEvent::ButtonPressed(b) => {
                let mut button = state.button[b];
                report(&mut button, true);
                state.button[b] = button;
                state.last_press = Some(b);
            },
            PadEvent::ButtonReleased(b) => {
                let mut button = state.button[b];
                report(&mut button, false);
                state.button[b] = button;
                state.last_release = Some(b);
            },
            PadEvent::AxisChanged(a, value) => {
                state.axis[a] = value;
            },
            PadEvent::TriggerChanged { right, value } => {
                if right {
                    state.axis[5] = value;
                } else {
                    state.axis[2] = value;
                }
            },
            PadEvent::Other => {},
        }
        self.data.set(at, (id, state));
    }
}

//================================================================

/// What the window layer last reported about the window.
#[derive(Clone, Copy, Debug, PartialEq, Eq, Structural)]
pub struct WindowGet {
    /// The window is minimized.
    pub minimize: bool,
    /// The window is maximized.
    pub maximize: bool,
    /// The window has the focus.
    pub focus: bool,
    /// The window is full-screen.
    pub full: bool,
}

impl Default for WindowGet {
    fn default() -> (get: Self)
        ensures
            get == (WindowGet { minimize: false, maximize: false, focus: false, full: false }),
    {
        WindowGet { minimize: false, maximize: false, focus: false, full: false }
    }
}

/// The window requests that a script queued up in this frame.
#[derive(Debug)]
pub struct WindowSet {
    /// Minimize the window.
    pub minimize: Option<()>,
    /// Maximize the window.
    pub maximize: Option<()>,
    /// Focus the window.
    pub focus: Option<()>,
    /// Set the window name.
    pub name: Option<String>,
    /// Set the window icon.
    pub icon: Option<String>,
    /// Go full-screen (`true`), or back to window mode.
    pub full: Option<bool>,
    /// Set the cursor icon, by index.
    pub cursor_icon: Option<usize>,
    /// Show (`true`), or hide the cursor.
    pub cursor_show: Option<bool>,
    /// Lock (`true`), or free the cursor.
    pub cursor_lock: Option<bool>,
}

impl WindowSet {
    pub open spec fn is_empty(&self) -> bool {
        &&& self.minimize is None
        &&& self.maximize is None
        &&& self.focus is None
        &&& self.name is None
        &&& self.icon is None
        &&& self.full is None
        &&& self.cursor_icon is None
        &&& self.cursor_show is None
        &&& self.cursor_lock is None
    }
}

impl Default for WindowSet {
    fn default() -> (set: Self)
        ensures
            set.is_empty(),
    {
        WindowSet {
            minimize: None,
            maximize: None,
            focus: None,
            name: None,
            icon: None,
            full: None,
            cursor_icon: None,
            cursor_show: None,
            cursor_lock: None,
        }
    }
}

/// A request for the window layer.
#[derive(Debug)]
pub enum WindowCommand {
    Minimize,
    Maximize,
    Focus,
    SetName(String),
    /// Go full-screen (borderless, on the current monitor) when `true`, or back to window mode.
    SetFull(bool),
    SetCursorIcon(usize),
    SetCursorVisible(bool),
    /// Confine the cursor to the window when `true`, or free it.
    SetCursorLock(bool),
}

/// The command of a request without a value, when it is queued.
pub open spec fn flag_command(request: Option<()>, command: WindowCommand) -> Seq<WindowCommand> {
    if request is Some {
        seq![command]
    } else {
        Seq::empty()
    }
}

pub open spec fn name_command(request: Option<String>) -> Seq<WindowCommand> {
    match request {
        Some(name) => seq![WindowCommand::SetName(name)],
        None => Seq::empty(),
    }
}

pub open spec fn full_command(request: Option<bool>) -> Seq<WindowCommand> {
    match request {
        Some(full) => seq![WindowCommand::SetFull(full)],
        None => Seq::empty(),
    }
}

pub open spec fn cursor_icon_command(request: Option<usize>) -> Seq<WindowCommand> {
    match request {
        Some(icon) => seq![WindowCommand::SetCursorIcon(icon)],
        None => Seq::empty(),
    }
}

pub open spec fn cursor_show_command(request: Option<bool>) -> Seq<WindowCommand> {
    match request {
        Some(show) => seq![WindowCommand::SetCursorVisible(show)],
        None => Seq::empty(),
    }
}

pub open spec fn cursor_lock_command(request: Option<bool>) -> Seq<WindowCommand> {
    match request {
        Some(lock) => seq![WindowCommand::SetCursorLock(lock)],
        None => Seq::empty(),
    }
}

/// The requests of `set` in the order the window layer carries them out. The window icon
/// request has no command.
pub open spec fn window_commands(set: WindowSet) -> Seq<WindowCommand> {
    flag_command(set.minimize, WindowCommand::Minimize) + flag_command(
        set.maximize,
        WindowCommand::Maximize,
    ) + flag_command(set.focus, WindowCommand::Focus) + name_command(set.name) + full_command(
        set.full,
    ) + cursor_icon_command(set.cursor_icon) + cursor_show_command(set.cursor_show)
        + cursor_lock_command(set.cursor_lock)
}

/// The queue after its requests were handed to the window layer. A maximize request stays
/// queued, and is issued again each frame; the icon request is kept too.
pub open spec fn window_set_after(set: WindowSet) -> WindowSet {
    WindowSet {
        minimize: None,
        maximize: set.maximize,
        focus: None,
        name: None,
        icon: set.icon,
        full: None,
        cursor_icon: None,
        cursor_show: None,
        cursor_lock: None,
    }
}

/// A mouse button as the window layer names it.
#[derive(Clone, Copy, Debug, PartialEq, Eq, Structural)]
pub enum MouseButton {
    Left,
    Right,
    Middle,
    Other(u16),
}

impl MouseButton {
    pub open spec fn index_spec(&self) -> usize {
        match self {
            MouseButton::Left => 0,
            MouseButton::Right => 1,
            MouseButton::Middle => 2,
            MouseButton::Other(i) => *i as usize,
        }
    }

    /// The button's index in the mouse table.
    pub fn index(&self) -> (i: usize)
        ensures
            i == self.index_spec(),
    {
        match self {
            MouseButton::Left => 0,
            MouseButton::Right => 1,
            MouseButton::Middle => 2,
            MouseButton::Other(i) => *i as usize,
        }
    }
}

/// What the window layer reports to the script input.
#[derive(Clone, Copy, Debug, PartialEq, Eq, Structural)]
pub enum InputEvent {
    /// All events of a frame were delivered.
    MainEventsCleared,
    /// The window was resized; whether it is now maximized and full-screen.
    Resized { maximized: bool, full: bool },
    /// The window gained or lost the focus; whether it is minimized, when that is known.
    Focused { focus: bool, minimized: Option<bool> },
    /// A key, by its virtual key code when there is one, was pressed or released.
    KeyboardInput { code: Option<usize>, pressed: bool },
    CursorEntered,
    CursorLeft,
    MouseInput { button: MouseButton, pressed: bool },
    /// Anything else.
    Other,
}

/// The last key press after an event: the key that the event presses, if any.
pub open spec fn key_press_after(last: Option<usize>, event: InputEvent) -> Option<usize> {
    match event {
        InputEvent::KeyboardInput { code: Some(c), pressed: true } => Some(c),
        _ => last,
    }
}

/// The last key release after an event: the key that the event releases, if any.
pub open spec fn key_release_after(last: Option<usize>, event: InputEvent) -> Option<usize> {
    match event {
        InputEvent::KeyboardInput { code: Some(c), pressed: false } => Some(c),
        _ => last,
    }
}

/// The last mouse button press after an event: the tracked button that the event presses, if
/// any.
pub open spec fn mouse_press_after(last: Option<usize>, event: InputEvent) -> Option<usize> {
    match event {
        InputEvent::MouseInput { button, pressed: true } => if button.index_spec()
            < BUTTON_COUNT_MOUSE {
            Some(button.index_spec())
        } else {
            last
        },
        _ => last,
    }
}

/// The last mouse button release after an event: the tracked button that the event releases,
/// if any.
pub open spec fn mouse_release_after(last: Option<usize>, event: InputEvent) -> Option<usize> {
    match event {
        InputEvent::MouseInput { button, pressed: false } => if button.index_spec()
            < BUTTON_COUNT_MOUSE {
            Some(button.index_spec())
        } else {
            last
        },
        _ => last,
    }
}

pub open spec fn valid_input_event(event: InputEvent) -> bool {
    event matches InputEvent::KeyboardInput { code: Some(c), .. } ==> c < BUTTON_COUNT_BOARD
}

/// The input state that scripts read, and the window requests they queue up.
pub struct Input {
    pub board: Board,
    pub mouse: Mouse,
    pub pad: Pad,
    pub window_get: WindowGet,
    pub window_set: WindowSet,
}

impl Default for Input {
    fn default() -> (input: Self)
        ensures
            forall|i: int| 0 <= i < BUTTON_COUNT_BOARD ==> #[trigger] input.board.data@[i] == idle_button(),
            input.board.last_press is None,
            input.board.last_release is None,
            forall|i: int| 0 <= i < BUTTON_COUNT_MOUSE ==> #[trigger] input.mouse.data@[i] == idle_button(),
            input.mouse.state is None,
            input.mouse.last_press is None,
            input.mouse.last_release is None,
            input.pad.wf(),
            input.pad.data@.len() == 0,
            input.window_get == (WindowGet { minimize: false, maximize: false, focus: false, full: false }),
            input.window_set.is_empty(),
    {
        Input {
            board: Board::default(),
            mouse: Mouse::default(),
            pad: Pad::new(),
            window_get: WindowGet::default(),
            window_set: WindowSet::default(),
        }
    }
}

/// The pads after the start of a frame: same pads, one-frame flags and last press and release
/// cleared, axes kept.
pub open spec fn pads_begun(before: Seq<(usize, PadState)>, after: Seq<(usize, PadState)>) -> bool {
    &&& after.len() == before.len()
    &&& forall|p: int|
        #![trigger after[p]]
        0 <= p < before.len() ==> {
            &&& after[p].0 == before[p].0
            &&& after[p].1.axis == before[p].1.axis
            &&& after[p].1.last_press is None
            &&& after[p].1.last_release is None
            &&& forall|i: int|
                0 <= i < BUTTON_COUNT_PAD ==> #[trigger] after[p].1.button@[i] == cleared(
                    before[p].1.button@[i],
                )
        }
}

impl WindowSet {
    /// Take the queued requests, in the order the window layer carries them out.
    pub fn take_commands(&mut self) -> (commands: Vec<WindowCommand>)
        ensures
            commands@ == window_commands(*old(self)),
            *final(self) == window_set_after(*old(self)),
    {
        let ghost set = *self;
        let mut commands: Vec<WindowCommand> = Vec::new();
        if self.minimize.is_some() {
            commands.push(WindowCommand::Minimize);
            self.minimize = None;
        }
        if self.maximize.is_some() {
            commands.push(WindowCommand::Maximize);
            self.minimize = None;
        }
        if self.focus.is_some() {
            commands.push(WindowCommand::Focus);
            self.focus = None;
        }
        proof {
            assert(commands@ =~= flag_command(set.minimize, WindowCommand::Minimize) + flag_command(
                set.maximize,
                WindowCommand::Maximize,
            ) + flag_command(set.focus, WindowCommand::Focus));
        }
        let name_request = self.name.take();
        push_name(&mut commands, name_request);
        let full_request = self.full.take();
        push_full(&mut commands, full_request);
        let icon_request = self.cursor_icon.take();
        push_cursor_icon(&mut commands, icon_request);
        let show_request = self.cursor_show.take();
        push_cursor_show(&mut commands, show_request);
        let lock_request = self.cursor_lock.take();
        push_cursor_lock(&mut commands, lock_request);
        commands
    }
}

fn push_name(commands: &mut Vec<WindowCommand>, request: Option<String>)
    ensures
        final(commands)@ == old(commands)@ + name_command(request),
{
    if let Some(name) = request {
        commands.push(WindowCommand::SetName(name));
    }
    assert(final(commands)@ =~= old(commands)@ + name_command(request));
}

fn push_full(commands: &mut Vec<WindowCommand>, request: Option<bool>)
    ensures
        final(commands)@ == old(commands)@ + full_command(request),
{
    if let Some(full) = request {
        commands.push(WindowCommand::SetFull(full));
    }
    assert(final(commands)@ =~= old(commands)@ + full_command(request));
}

fn push_cursor_icon(commands: &mut Vec<WindowCommand>, request: Option<usize>)
    ensures
        final(commands)@ == old(commands)@ + cursor_icon_command(request),
{
    if let Some(icon) = request {
        commands.push(WindowCommand::SetCursorIcon(icon));
    }
    assert(final(commands)@ =~= old(commands)@ + cursor_icon_command(request));
}

fn push_cursor_show(commands: &mut Vec<WindowCommand>, request: Option<bool>)
    ensures
        final(commands)@ == old(commands)@ + cursor_show_command(request),
{
    if let Some(show) = request {
        commands.push(WindowCommand::SetCursorVisible(show));
    }
    assert(final(commands)@ =~= old(commands)@ + cursor_show_command(request));
}

fn push_cursor_lock(commands: &mut Vec<WindowCommand>, request: Option<bool>)
    ensures
        final(commands)@ == old(commands)@ + cursor_lock_command(request),
{
    if let Some(lock) = request {
        commands.push(WindowCommand::SetCursorLock(lock));
    }
    assert(final(commands)@ =~= old(commands)@ + cursor_lock_command(request));
}

impl Board {
    /// Start a new frame: clear every key's one-frame flags, and forget the last press and
    /// release.
    pub fn begin_frame(&mut self)
        ensures
            forall|i: int|
                0 <= i < BUTTON_COUNT_BOARD ==> #[trigger] final(self).data@[i] == cleared(old(self).data@[i]),
            final(self).last_press is None,
            final(self).last_release is None,
    {
        let ghost board0 = self.data@;
        let mut i: usize = 0;
        while i < BUTTON_COUNT_BOARD
            invariant
                i <= BUTTON_COUNT_BOARD,
                forall|j: int| 0 <= j < i ==> #[trigger] self.data@[j] == cleared(board0[j]),
                forall|j: int| i <= j < BUTTON_COUNT_BOARD ==> #[trigger] self.data@[j] == board0[j],
            decreases BUTTON_COUNT_BOARD - i,
        {
            let mut button = self.data[i];
            button.press = false;
            button.release = false;
            self.data[i] = button;
            i = i + 1;
        }
        self.last_press = None;
        self.last_release = None;
    }
}

impl Mouse {
    /// Start a new frame: clear every button's one-frame flags, and forget the last press and
    /// release and the cursor's enter or leave.
    pub fn begin_frame(&mut self)
        ensures
            forall|i: int|
                0 <= i < BUTTON_COUNT_MOUSE ==> #[trigger] final(self).data@[i] == cleared(old(self).data@[i]),
            final(self).state is None,
            final(self).last_press is None,
            final(self).last_release is None,
    {
        let ghost mouse0 = self.data@;
        let mut i: usize = 0;
        while i < BUTTON_COUNT_MOUSE
            invariant
                i <= BUTTON_COUNT_MOUSE,
                forall|j: int| 0 <= j < i ==> #[trigger] self.data@[j] == cleared(mouse0[j]),
                forall|j: int| i <= j < BUTTON_COUNT_MOUSE ==> #[trigger] self.data@[j] == mouse0[j],
            decreases BUTTON_COUNT_MOUSE - i,
        {
            let mut button = self.data[i];
            button.press = false;
            button.release = false;
            self.data[i] = button;
            i = i + 1;
        }
        self.last_press = None;
        self.last_release = None;
        self.state = None;
    }
}

impl Input {
    /// Hand the queued window requests over, and start a new frame: clear every one-frame
    /// flag of the keyboard, the mouse and the pads, and forget the last presses and
    /// releases and the cursor's enter or leave.
    pub fn handle_state(&mut self) -> (commands: Vec<WindowCommand>)
        requires
            old(self).pad.wf(),
        ensures
            commands@ == window_commands(old(self).window_set),
            final(self).window_set == window_set_after(old(self).window_set),
            final(self).window_get == old(self).window_get,
            forall|i: int|
                0 <= i < BUTTON_COUNT_BOARD ==> #[trigger] final(self).board.data@[i] == cleared(
                    old(self).board.data@[i],
                ),
            final(self).board.last_press is None,
            final(self).board.last_release is None,
            forall|i: int|
                0 <= i < BUTTON_COUNT_MOUSE ==> #[trigger] final(self).mouse.data@[i] == cleared(
                    old(self).mouse.data@[i],
                ),
            final(self).mouse.state is None,
            final(self).mouse.last_press is None,
            final(self).mouse.last_release is None,
            final(self).pad.wf(),
            pads_begun(old(self).pad.data@, final(self).pad.data@),
    {
        let commands = self.window_set.take_commands();
        self.board.begin_frame();
        self.mouse.begin_frame();
        self.pad.begin_frame();
        commands
    }

    /// Record one event of the window layer. At the end of a frame's events, hand the queued
    /// window requests over and start a new frame, as `handle_state` does; no other event
    /// yields a request. A key or tracked mouse button event is also recorded as the last
    /// press or release.
    pub fn process(&mut self, event: InputEvent) -> (commands: Vec<WindowCommand>)
        requires
            old(self).pad.wf(),
            valid_input_event(event),
        ensures
            final(self).pad.wf(),
            event == InputEvent::MainEventsCleared ==> {
                &&& commands@ == window_commands(old(self).window_set)
                &&& final(self).window_set == window_set_after(old(self).window_set)
                &&& final(self).window_get == old(self).window_get
                &&& forall|i: int|
                    0 <= i < BUTTON_COUNT_BOARD ==> #[trigger] final(self).board.data@[i] == cleared(
                        old(self).board.data@[i],
                    )
                &&& final(self).board.last_press is None
                &&& final(self).board.last_release is None
                &&& forall|i: int|
                    0 <= i < BUTTON_COUNT_MOUSE ==> #[trigger] final(self).mouse.data@[i] == cleared(
                        old(self).mouse.data@[i],
                    )
                &&& final(self).mouse.state is None
                &&& final(self).mouse.last_press is None
                &&& final(self).mouse.last_release is None
                &&& pads_begun(old(self).pad.data@, final(self).pad.data@)
            },
            event != InputEvent::MainEventsCleared ==> {
                &&& commands@.len() == 0
                &&& final(self).window_set == old(self).window_set
                &&& final(self).pad.data@ == old(self).pad.data@
                &&& final(self).board.last_press == key_press_after(old(self).board.last_press, event)
                &&& final(self).board.last_release == key_release_after(
                    old(self).board.last_release,
                    event,
                )
                &&& final(self).mouse.last_press == mouse_press_after(old(self).mouse.last_press, event)
                &&& final(self).mouse.last_release == mouse_release_after(
                    old(self).mouse.last_release,
                    event,
                )
                &&& final(self).window_get == match event {
                    InputEvent::Resized { maximized, full } => WindowGet {
                        maximize: maximized,
                        full,
                        ..old(self).window_get
                    },
                    InputEvent::Focused { focus, minimized } => WindowGet {
                        focus,
                        minimize: match minimized {
                            Some(m) => m,
                            None => old(self).window_get.minimize,
                        },
                        ..old(self).window_get
                    },
                    _ => old(self).window_get,
                }
                &&& final(self).mouse.state == match event {
                    InputEvent::CursorEntered => Some(true),
                    InputEvent::CursorLeft => Some(false),
                    _ => old(self).mouse.state,
                }
                &&& final(self).board.data@ == match event {
                    InputEvent::KeyboardInput { code: Some(c), pressed } => old(
                        self,
                    ).board.data@.update(c as int, reported(old(self).board.data@[c as int], pressed)),
                    _ => old(self).board.data@,
                }
                &&& final(self).mouse.data@ == match event {
                    InputEvent::MouseInput { button, pressed } => if button.index_spec()
                        < BUTTON_COUNT_MOUSE {
                        old(self).mouse.data@.update(
                            button.index_spec() as int,
                            reported(old(self).mouse.data@[button.index_spec() as int], pressed),
                        )
                    } else {
                        old(self).mouse.data@
                    },
                    _ => old(self).mouse.data@,
                }
            },
    {
        match event {
            InputEvent::MainEventsCleared => {
                return self.handle_state();
            },
            InputEvent::Resized { maximized, full } => {
                self.window_get.maximize = maximized;
                self.window_get.full = full;
            },
            InputEvent::Focused { focus, minimized } => {
                if let Some(minimize) = minimized {
                    self.window_get.minimize = minimize;
                }
                self.window_get.focus = focus;
            },
            InputEvent::KeyboardInput { code, pressed } => {
                if let Some(index) = code {
                    let mut button = self.board.data[index];
                    report(&mut button, pressed);
                    self.board.data[index] = button;
                    if pressed {
                        self.board.last_press = Some(index);
                    } else {
                        self.board.last_release = Some(index);
                    }
                }
            },
            InputEvent::CursorEntered => {
                self.mouse.state = Some(true);
            },
            InputEvent::CursorLeft => {
                self.mouse.state = Some(false);
            },
            InputEvent::MouseInput { button, pressed } => {
                let index = button.index();
                if index < BUTTON_COUNT_MOUSE {
                    let mut entry = self.mouse.data[index];
                    report(&mut entry, pressed);
                    self.mouse.data[index] = entry;
                    if pressed {
                        self.mouse.last_press = Some(index);
                    } else {
                        self.mouse.last_release = Some(index);
                    }
                }
            },
            InputEvent::Other => {},
        }
        Vec::new()
    }
}

//================================================================

/// The entry point that a frame calls.
#[derive(Clone, Copy, Debug, PartialEq, Eq, Structural)]
pub enum ScriptCall {
    /// Set up the script state: the first frame after a (re)start.
    Begin,
    /// Run one frame of the script.
    Frame,
}

/// The script host: the compiled script (`H`), once compiling succeeded; the host state
/// (`S`) that scripts run against, once the script was begun; and the text of the last error.
pub struct Script<H, S> {
    pub handle: Option<H>,
    pub state: Option<S>,
    pub error: Option<String>,
}

impl<H, S> Script<H, S> {
    /// A script host for the result of compiling the script: the compiled script, or the
    /// text of the compile error.
    pub fn new(compiled: Result<H, String>) -> (script: Self)
        ensures
            script.state is None,
            match compiled {
                Ok(handle) => script.handle == Some(handle) && script.error is None,
                Err(error) => script.handle is None && script.error == Some(error),
            },
    {
        match compiled {
            Ok(handle) => Script { handle: Some(handle), state: None, error: None },
            Err(error) => Script { handle: None, state: None, error: Some(error) },
        }
    }

    /// The window configuration of the script.
    pub fn window(&self) -> (window: Window)
        ensures
            window.is_default(),
    {
        Window::default()
    }

    /// The entry point that the next frame calls: none without a compiled script, `Frame`
    /// once the script was begun, `Begin` before.
    pub fn frame_call(&self) -> (call: Option<ScriptCall>)
        ensures
            call == (if self.handle is None {
                None
            } else if self.state is Some {
                Some(ScriptCall::Frame)
            } else {
                Some(ScriptCall::Begin)
            }),
    {
        if self.handle.is_none() {
            None
        } else if self.state.is_some() {
            Some(ScriptCall::Frame)
        } else {
            Some(ScriptCall::Begin)
        }
    }

    /// Begin the script with a fresh host state.
    pub fn begin(&mut self, state: S)
        ensures
            final(self).state == Some(state),
            final(self).handle == old(self).handle,
            final(self).error == old(self).error,
    {
        self.state = Some(state);
    }

    /// Record the outcome of a call into the script: an error is kept, a success changes
    /// nothing.
    pub fn record(&mut self, outcome: Result<(), String>)
        ensures
            final(self).handle == old(self).handle,
            final(self).state == old(self).state,
            final(self).error == match outcome {
                Ok(_) => old(self).error,
                Err(error) => Some(error),
            },
    {
        if let Err(error) = outcome {
            self.error = Some(error);
        }
    }

    /// Replace the compiled script by a new compile result, keeping the host state. The last
    /// error is forgotten; a compile error becomes the new one.
    pub fn rebuild(&mut self, compiled: Result<H, String>)
        ensures
            final(self).state == old(self).state,
            match compiled {
                Ok(handle) => final(self).handle == Some(handle) && final(self).error is None,
                Err(error) => final(self).handle == old(self).handle && final(self).error == Some(
                    error,
                ),
            },
    {
        self.error = None;
        match compiled {
            Ok(handle) => self.handle = Some(handle),
            Err(error) => self.error = Some(error),
        }
    }

    /// Start the script again from scratch: rebuild, then, when there is a compiled script,
    /// begin it with the fresh host state `fresh`, losing the old one. Tells whether the
    /// script was begun, so that the caller runs its begin entry point.
    pub fn restart(&mut self, compiled: Result<H, String>, fresh: S) -> (begin: bool)
        ensures
            match compiled {
                Ok(handle) => final(self).handle == Some(handle) && final(self).error is None,
                Err(error) => final(self).handle == old(self).handle && final(self).error == Some(
                    error,
                ),
            },
            begin == final(self).handle is Some,
            final(self).state == (if begin {
                Some(fresh)
            } else {
                old(self).state
            }),
    {
        self.rebuild(compiled);
        if self.handle.is_some() {
            self.begin(fresh);
            true
        } else {
            false
        }
    }
}

//================================================================
// Laws of the script input.

/// A press reported in one event and a release of the same button in the next leave the
/// button up and released; a release followed by a press leaves it down and pressed. Clearing
/// the one-frame flags at the start of a frame keeps whether a button is held.
pub proof fn lemma_press_then_release(b: Button)
    ensures
        reported(reported(b, true), false).down == false,
        reported(reported(b, true), false).release == true,
        reported(reported(b, false), true).down == true,
        reported(reported(b, false), true).press == true,
        cleared(b).down == b.down,
        cleared(cleared(b)) == cleared(b),
{
}

/// Each queued window request is carried out once: handing the requests over a second time
/// issues only the maximize request again, when there was one, and a queue with no request
/// issues nothing.
pub proof fn lemma_requests_carried_out_once(set: WindowSet)
    ensures
        window_commands(window_set_after(set)) == flag_command(set.maximize, WindowCommand::Maximize),
        window_set_after(window_set_after(set)) == window_set_after(set),
        set.is_empty() ==> window_commands(set).len() == 0,
{
    let after = window_set_after(set);
    assert(window_commands(after) =~= flag_command(set.maximize, WindowCommand::Maximize));
    if set.is_empty() {
        assert(window_commands(set) =~= Seq::<WindowCommand>::empty());
    }
}

/// Starting a frame keeps the pads: the same identifiers at the same places, so a pad is
/// still found at the index it had.
pub proof fn lemma_pads_kept(before: Seq<(usize, PadState)>, after: Seq<(usize, PadState)>)
    requires
        pads_begun(before, after),
        ids_unique(before),
    ensures
        ids_unique(after),
        forall|p: int| 0 <= p < before.len() ==> #[trigger] after[p].0 == before[p].0,
{
}

/// A queued cursor request is handed over at the end of the frame: the commands of a queue
/// that holds a cursor icon, visibility or lock request contain the matching command.
pub proof fn lemma_cursor_requests_issued(set: WindowSet)
    ensures
        set.cursor_icon matches Some(icon) ==> window_commands(set).contains(
            WindowCommand::SetCursorIcon(icon),
        ),
        set.cursor_show matches Some(show) ==> window_commands(set).contains(
            WindowCommand::SetCursorVisible(show),
        ),
        set.cursor_lock matches Some(lock) ==> window_commands(set).contains(
            WindowCommand::SetCursorLock(lock),
        ),
{
    let head = flag_command(set.minimize, WindowCommand::Minimize) + flag_command(
        set.maximize,
        WindowCommand::Maximize,
    ) + flag_command(set.focus, WindowCommand::Focus) + name_command(set.name) + full_command(
        set.full,
    );
    let icon = cursor_icon_command(set.cursor_icon);
    let show = cursor_show_command(set.cursor_show);
    let lock = cursor_lock_command(set.cursor_lock);
    let all = window_commands(set);
    assert(all == head + icon + show + lock);
    if let Some(i) = set.cursor_icon {
        assert(all[head.len() as int] == WindowCommand::SetCursorIcon(i));
    }
    if let Some(v) = set.cursor_show {
        assert(all[(head.len() + icon.len()) as int] == WindowCommand::SetCursorVisible(v));
    }
    if let Some(l) = set.cursor_lock {
        assert(all[(head.len() + icon.len() + show.len()) as int] == WindowCommand::SetCursorLock(l));
    }
}

/// A queued window request is handed over at the end of the frame, whatever its value: the
/// commands of a queue that holds a minimize, maximize, focus, title or full-screen request
/// contain the matching command.
pub proof fn lemma_window_requests_issued(set: WindowSet)
    ensures
        set.minimize is Some ==> window_commands(set).contains(WindowCommand::Minimize),
        set.maximize is Some ==> window_commands(set).contains(WindowCommand::Maximize),
        set.focus is Some ==> window_commands(set).contains(WindowCommand::Focus),
        set.name matches Some(name) ==> window_commands(set).contains(WindowCommand::SetName(name)),
        set.full matches Some(full) ==> window_commands(set).contains(WindowCommand::SetFull(full)),
{
    let a = flag_command(set.minimize, WindowCommand::Minimize);
    let b = flag_command(set.maximize, WindowCommand::Maximize);
    let c = flag_command(set.focus, WindowCommand::Focus);
    let d = name_command(set.name);
    let f = full_command(set.full);
    let i = cursor_icon_command(set.cursor_icon);
    let v = cursor_show_command(set.cursor_show);
    let l = cursor_lock_command(set.cursor_lock);
    let p1 = a;
    let p2 = p1 + b;
    let p3 = p2 + c;
    let p4 = p3 + d;
    let p5 = p4 + f;
    let p6 = p5 + i;
    let p7 = p6 + v;
    let p8 = p7 + l;
    assert(window_commands(set) == p8);
    lemma_contains_in_concat(p1, b);
    lemma_contains_in_concat(p2, c);
    lemma_contains_in_concat(p3, d);
    lemma_contains_in_concat(p4, f);
    lemma_contains_in_concat(p5, i);
    lemma_contains_in_concat(p6, v);
    lemma_contains_in_concat(p7, l);
    if set.minimize is Some {
        assert(a[0] == WindowCommand::Minimize);
        assert(a.contains(WindowCommand::Minimize));
    }
    if set.maximize is Some {
        assert(b[0] == WindowCommand::Maximize);
        assert(b.contains(WindowCommand::Maximize));
    }
    if set.focus is Some {
        assert(c[0] == WindowCommand::Focus);
        assert(c.contains(WindowCommand::Focus));
    }
    if let Some(n) = set.name {
        assert(d[0] == WindowCommand::SetName(n));
        assert(d.contains(WindowCommand::SetName(n)));
    }
    if let Some(w) = set.full {
        assert(f[0] == WindowCommand::SetFull(w));
        assert(f.contains(WindowCommand::SetFull(w)));
    }
}

proof fn lemma_contains_in_concat(a: Seq<WindowCommand>, b: Seq<WindowCommand>)
    ensures
        forall|x: WindowCommand| a.contains(x) ==> #[trigger] (a + b).contains(x),
        forall|x: WindowCommand| b.contains(x) ==> #[trigger] (a + b).contains(x),
{
    assert forall|x: WindowCommand| a.contains(x) implies #[trigger] (a + b).contains(x) by {
        let i = choose|i: int| 0 <= i < a.len() && a[i] == x;
        assert((a + b)[i] == x);
    }
    assert forall|x: WindowCommand| b.contains(x) implies #[trigger] (a + b).contains(x) by {
        let i = choose|i: int| 0 <= i < b.len() && b[i] == x;
        assert((a + b)[a.len() + i] == x);
    }
}

/// The number of queued requests that have a command: every request but the window icon.
pub open spec fn request_count(set: WindowSet) -> int {
    (if set.minimize is Some { 1int } else { 0 }) + (if set.maximize is Some { 1int } else { 0 })
        + (if set.focus is Some { 1int } else { 0 }) + (if set.name is Some { 1int } else { 0 }) + (
    if set.full is Some { 1int } else { 0 }) + (if set.cursor_icon is Some { 1int } else { 0 }) + (
    if set.cursor_show is Some { 1int } else { 0 }) + (if set.cursor_lock is Some { 1int } else { 0 })
}

/// No request is dropped or doubled: the end of a frame hands over one command per queued
/// request (the window icon has none).
pub proof fn lemma_one_command_per_request(set: WindowSet)
    ensures
        window_commands(set).len() == request_count(set),
{
}

/// The last press and release name the latest key, tracked mouse button or pad button that was
/// pressed or released, whatever was recorded before; a press leaves the last release alone
/// and a release the last press.
pub proof fn lemma_last_press_recorded(last: Option<usize>, c: usize, button: MouseButton, b: usize)
    ensures
        key_press_after(last, InputEvent::KeyboardInput { code: Some(c), pressed: true }) == Some(c),
        key_release_after(last, InputEvent::KeyboardInput { code: Some(c), pressed: false }) == Some(c),
        key_press_after(last, InputEvent::KeyboardInput { code: Some(c), pressed: false }) == last,
        key_release_after(last, InputEvent::KeyboardInput { code: Some(c), pressed: true }) == last,
        button.index_spec() < BUTTON_COUNT_MOUSE ==> mouse_press_after(
            last,
            InputEvent::MouseInput { button, pressed: true },
        ) == Some(button.index_spec()),
        button.index_spec() < BUTTON_COUNT_MOUSE ==> mouse_release_after(
            last,
            InputEvent::MouseInput { button, pressed: false },
        ) == Some(button.index_spec()),
        pad_last_press_after(last, PadEvent::ButtonPressed(b)) == Some(b),
        pad_last_release_after(last, PadEvent::ButtonReleased(b)) == Some(b),
        pad_last_press_after(last, PadEvent::ButtonReleased(b)) == last,
        pad_last_release_after(last, PadEvent::ButtonPressed(b)) == last,
{
}

} // verus!
