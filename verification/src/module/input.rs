//! What scripts may ask about the keyboard, the mouse and the pads, and the cursor requests
//! they may queue up.
use vstd::prelude::*;
use crate::script::{
    Button, Input, WindowSet, BUTTON_COUNT_BOARD, BUTTON_COUNT_MOUSE, BUTTON_COUNT_PAD, AXIS_COUNT_PAD,
};

verus! {

/// A request that names a button, key, icon or pad that does not exist.
#[derive(Clone, Copy, Debug, PartialEq, Eq, Structural)]
pub enum InputError {
    /// No keyboard key has this index.
    BoardButton(usize),
    /// No keyboard key name has this index.
    BoardKeyName(usize),
    /// No mouse button has this index.
    MouseButton(usize),
    /// No cursor icon has this index.
    MouseIcon(usize),
    /// No button of a connected pad has this index; the button index is given.
    PadButton(usize),
    /// No pad has this index.
    Pad(usize),
}

/// Accessor for the keyboard.
pub struct Board {}

impl Board {
    pub const LIST_KEY: [&'static str; 163] = [
        "KEY_1",
        "KEY_2",
        "KEY_3",
        "KEY_4",
        "KEY_5",
        "KEY_6",
        "KEY_7",
        "KEY_8",
        "KEY_9",
        "KEY_0",
        "KEY_A",
        "KEY_B",
        "KEY_C",
        "KEY_D",
        "KEY_E",
        "KEY_F",
        "KEY_G",
        "KEY_H",
        "KEY_I",
        "KEY_J",
        "KEY_K",
        "KEY_L",
        "KEY_M",
        "KEY_N",
        "KEY_O",
        "KEY_P",
        "KEY_Q",
        "KEY_R",
        "KEY_S",
        "KEY_T",
        "KEY_U",
        "KEY_V",
        "KEY_W",
        "KEY_X",
        "KEY_Y",
        "KEY_Z",
        "KEY_ESCAPE",
        "KEY_F1",
        "KEY_F2",
        "KEY_F3",
        "KEY_F4",
        "KEY_F5",
        "KEY_F6",
        "KEY_F7",
        "KEY_F8",
        "KEY_F9",
        "KEY_F10",
        "KEY_F11",
        "KEY_F12",
        "KEY_F13",
        "KEY_F14",
        "KEY_F15",
        "KEY_F16",
        "KEY_F17",
        "KEY_F18",
        "KEY_F19",
        "KEY_F20",
        "KEY_F21",
        "KEY_F22",
        "KEY_F23",
        "KEY_F24",
        "KEY_SNAPSHOT",
        "KEY_SCROLL",
        "KEY_PAUSE",
        "KEY_INSERT",
        "KEY_HOME",
        "KEY_DELETE",
        "KEY_END",
        "KEY_PAGE_DOWN",
        "KEY_PAGE_UP",
        "KEY_LEFT",
        "KEY_UP",
        "KEY_RIGHT",
        "KEY_DOWN",
        "KEY_BACK",
        "KEY_RETURN",
        "KEY_SPACE",
        "KEY_COMPOSE",
        "KEY_CARET",
        "KEY_NUMBER_LOCK",
        "KEY_NUMBER_PAD_0",
        "KEY_NUMBER_PAD_1",
        "KEY_NUMBER_PAD_2",
        "KEY_NUMBER_PAD_3",
        "KEY_NUMBER_PAD_4",
        "KEY_NUMBER_PAD_5",
        "KEY_NUMBER_PAD_6",
        "KEY_NUMBER_PAD_7",
        "KEY_NUMBER_PAD_8",
        "KEY_NUMBER_PAD_9",
        "KEY_NUMBER_PAD_ADD",
        "KEY_NUMBER_PAD_DIVIDE",
        "KEY_NUMBER_PAD_DECIMAL",
        "KEY_NUMBER_PAD_COMMA",
        "KEY_NUMBER_PAD_ENTER",
        "KEY_NUMBER_PAD_EQUAL",
        "KEY_NUMBER_PAD_MULTIPLY",
        "KEY_NUMBER_PAD_SUBTRACT",
        "KEY_ABNTC1",
        "KEY_ABNTC2",
        "KEY_APOSTROPHE",
        "KEY_APPS",
        "KEY_ASTERISK",
        "KEY_AT",
        "KEY_AX",
        "KEY_BACKSLASH",
        "KEY_CALCULATOR",
        "KEY_CAPITAL",
        "KEY_COLON",
        "KEY_COMMA",
        "KEY_CONVERT",
        "KEY_EQUALS",
        "KEY_GRAVE",
        "KEY_KANA",
        "KEY_KANJI",
        "KEY_LEFT_ALTERNATE",
        "KEY_LEFT_BRACKET",
        "KEY_LEFT_CONTROL",
        "KEY_LEFT_SHIFT",
        "KEY_LEFT_SUPER",
        "KEY_MAIL",
        "KEY_MEDIA_SELECT",
        "KEY_MEDIA_STOP",
        "KEY_MINUS",
        "KEY_MUTE",
        "KEY_MY_COMPUTER",
        "KEY_NAVIGATE_FORWARD",
        "KEY_NAVIGATE_BACKWARD",
        "KEY_NEXT_TRACK",
        "KEY_NO_CONVERT",
        "KEY_OEM102",
        "KEY_PERIOD",
        "KEY_PLAY_PAUSE",
        "KEY_PLUS",
        "KEY_POWER",
        "KEY_PREVIOUS_TRACK",
        "KEY_RIGHT_ALTERNATE",
        "KEY_RIGHT_BRACKET",
        "KEY_RIGHT_CONTROL",
        "KEY_RIGHT_SHIFT",
        "KEY_RIGHT_SUPER",
        "KEY_SEMICOLON",
        "KEY_SLASH",
        "KEY_SLEEP",
        "KEY_STOP",
        "KEY_SYSRQ",
        "KEY_TAB",
        "KEY_UNDERLINE",
        "KEY_NO_LABEL",
        "KEY_VOLUME_DOWN",
        "KEY_VOLUME_UP",
        "KEY_WAKE",
        "KEY_WEB_BACK",
        "KEY_WEB_FAVORITES",
        "KEY_WEB_FORWARD",
        "KEY_WEB_HOME",
        "KEY_WEB_REFRESH",
        "KEY_WEB_SEARCH",
        "KEY_WEB_STOP",
        "KEY_YEN",
        "KEY_COPY",
        "KEY_PASTE",
        "KEY_CUT",
    ];

    /// The key `index`, when there is one.
    pub fn get_index(input: &Input, index: usize) -> (button: Result<Button, InputError>)
        ensures
            button == (if index < BUTTON_COUNT_BOARD {
                Ok(input.board.data@[index as int])
            } else {
                Err(InputError::BoardButton(index))
            }),
    {
        if index < BUTTON_COUNT_BOARD {
            Ok(input.board.data[index])
        } else {
            Err(InputError::BoardButton(index))
        }
    }

    /// Whether the key `index` is up.
    pub fn up(input: &Input, index: usize) -> (up: Result<bool, InputError>)
        ensures
            up == (if index < BUTTON_COUNT_BOARD {
                Ok(!input.board.data@[index as int].down)
            } else {
                Err(InputError::BoardButton(index))
            }),
    {
        let button = Self::get_index(input, index)?;
        Ok(!button.down)
    }

    /// Whether the key `index` is down.
    pub fn down(input: &Input, index: usize) -> (down: Result<bool, InputError>)
        ensures
            down == (if index < BUTTON_COUNT_BOARD {
                Ok(input.board.data@[index as int].down)
            } else {
                Err(InputError::BoardButton(index))
            }),
    {
        let button = Self::get_index(input, index)?;
        Ok(button.down)
    }

    /// Whether the key `index` was pressed in this frame.
    pub fn press(input: &Input, index: usize) -> (press: Result<bool, InputError>)
        ensures
            press == (if index < BUTTON_COUNT_BOARD {
                Ok(input.board.data@[index as int].press)
            } else {
                Err(InputError::BoardButton(index))
            }),
    {
        let button = Self::get_index(input, index)?;
        Ok(button.press)
    }

    /// Whether the key `index` was released in this frame.
    pub fn release(input: &Input, index: usize) -> (release: Result<bool, InputError>)
        ensures
            release == (if index < BUTTON_COUNT_BOARD {
                Ok(input.board.data@[index as int].release)
            } else {
                Err(InputError::BoardButton(index))
            }),
    {
        let button = Self::get_index(input, index)?;
        Ok(button.release)
    }

    /// The last key press.
    pub fn last_press(input: &Input) -> (key: Option<usize>)
        ensures
            key == input.board.last_press,
    {
        input.board.last_press
    }

    /// The last key release.
    pub fn last_release(input: &Input) -> (key: Option<usize>)
        ensures
            key == input.board.last_release,
    {
        input.board.last_release
    }

    /// A human-readable name for the key `key`.
    pub fn key_name(key: usize) -> (name: Result<String, InputError>)
        ensures
            match name {
                Ok(name) => key < Self::LIST_KEY.len() && name@ == Self::LIST_KEY@[key as int]@,
                Err(error) => key >= Self::LIST_KEY.len() && error == InputError::BoardKeyName(key),
            },
    {
        if key < Self::LIST_KEY.len() {
            Ok(String::from_str(Self::LIST_KEY[key]))
        } else {
            Err(InputError::BoardKeyName(key))
        }
    }
}

/// Accessor for the mouse.
pub struct Mouse {}

impl Mouse {
    pub const LIST_KEY: [&'static str; 5] = [
        "KEY_LEFT",
        "KEY_RIGHT",
        "KEY_MIDDLE",
        "KEY_BACK",
        "KEY_FORWARD",
    ];

    pub const LIST_ICON: [&'static str; 34] = [
        "ICON_DEFAULT",
        "ICON_CONTEXT_MENU",
        "ICON_HELP",
        "ICON_POINTER",
        "ICON_PROGRESS",
        "ICON_WAIT",
        "ICON_CELL",
        "ICON_CROSSHAIR",
        "ICON_TEXT",
        "ICON_VERTICAL_TEXT",
        "ICON_ALIAS",
        "ICON_COPY",
        "ICON_MOVE",
        "ICON_NO_DROP",
        "ICON_NOT_ALLOWED",
        "ICON_GRAB",
        "ICON_GRABBING",
        "ICON_E_RESIZE",
        "ICON_N_RESIZE",
        "ICON_NE_RESIZE",
        "ICON_NW_RESIZE",
        "ICON_SR_ESIZE",
        "ICON_SE_RESIZE",
        "ICON_SW_RESIZE",
        "ICON_W_RESIZE",
        "ICON_EW_RESIZE",
        "ICON_NS_RESIZE",
        "ICON_NE_SW_RESIZE",
        "ICON_NW_SERESIZE",
        "ICON_COL_RESIZE",
        "ICON_ROW_RESIZE",
        "ICON_ALL_SCROLL",
        "ICON_ZOOM_IN",
        "ICON_ZOOM_OUT",
    ];

    /// The mouse button `index`, when there is one.
    pub fn get_index(input: &Input, index: usize) -> (button: Result<Button, InputError>)
        ensures
            button == (if index < BUTTON_COUNT_MOUSE {
                Ok(input.mouse.data@[index as int])
            } else {
                Err(InputError::MouseButton(index))
            }),
    {
        if index < BUTTON_COUNT_MOUSE {
            Ok(input.mouse.data[index])
        } else {
            Err(InputError::MouseButton(index))
        }
    }

    /// Whether the mouse button `index` is up.
    pub fn up(input: &Input, index: usize) -> (up: Result<bool, InputError>)
        ensures
            up == (if index < BUTTON_COUNT_MOUSE {
                Ok(!input.mouse.data@[index as int].down)
            } else {
                Err(InputError::MouseButton(index))
            }),
    {
        let button = Self::get_index(input, index)?;
        Ok(!button.down)
    }

    /// Whether the mouse button `index` is down.
    pub fn down(input: &Input, index: usize) -> (down: Result<bool, InputError>)
        ensures
            down == (if index < BUTTON_COUNT_MOUSE {
                Ok(input.mouse.data@[index as int].down)
            } else {
                Err(InputError::MouseButton(index))
            }),
    {
        let button = Self::get_index(input, index)?;
        Ok(button.down)
    }

    /// Whether the mouse button `index` was pressed in this frame.
    pub fn press(input: &Input, index: usize) -> (press: Result<bool, InputError>)
        ensures
            press == (if index < BUTTON_COUNT_MOUSE {
                Ok(input.mouse.data@[index as int].press)
            } else {
                Err(InputError::MouseButton(index))
            }),
    {
        let button = Self::get_index(input, index)?;
        Ok(button.press)
    }

    /// Whether the mouse button `index` was released in this frame.
    pub fn release(input: &Input, index: usize) -> (release: Result<bool, InputError>)
        ensures
            release == (if index < BUTTON_COUNT_MOUSE {
                Ok(input.mouse.data@[index as int].release)
            } else {
                Err(InputError::MouseButton(index))
            }),
    {
        let button = Self::get_index(input, index)?;
        Ok(button.release)
    }

    /// The last mouse button press.
    pub fn last_press(input: &Input) -> (button: Option<usize>)
        ensures
            button == input.mouse.last_press,
    {
        input.mouse.last_press
    }

    /// The last mouse button release.
    pub fn last_release(input: &Input) -> (button: Option<usize>)
        ensures
            button == input.mouse.last_release,
    {
        input.mouse.last_release
    }

    /// Queue a cursor icon change, by its index among the `ICON_*` names.
    pub fn icon(input: &mut Input, index: usize) -> (result: Result<(), InputError>)
        ensures
            index < Self::LIST_ICON.len() ==> result is Ok && *final(input) == (Input {
                window_set: WindowSet { cursor_icon: Some(index), ..old(input).window_set },
                ..*old(input)
            }),
            index >= Self::LIST_ICON.len() ==> result == Err::<(), InputError>(
                InputError::MouseIcon(index),
            ) && *final(input) == *old(input),
    {
        if index < Self::LIST_ICON.len() {
            input.window_set.cursor_icon = Some(index);
            return Ok(());
        }
        Err(InputError::MouseIcon(index))
    }

    /// Queue showing (`true`) or hiding the cursor.
    pub fn show(input: &mut Input, value: bool)
        ensures
            *final(input) == (Input {
                window_set: WindowSet { cursor_show: Some(value), ..old(input).window_set },
                ..*old(input)
            }),
    {
        input.window_set.cursor_show = Some(value);
    }

    /// Queue locking (`true`) or freeing the cursor.
    pub fn lock(input: &mut Input, value: bool)
        ensures
            *final(input) == (Input {
                window_set: WindowSet { cursor_lock: Some(value), ..old(input).window_set },
                ..*old(input)
            }),
    {
        input.window_set.cursor_lock = Some(value);
    }
}

/// Accessor for the pads.
pub struct Pad {}

impl Pad {
    pub const LIST_KEY: [&'static str; 20] = [
        "KEY_SOUTH",
        "KEY_EAST",
        "KEY_NORTH",
        "KEY_WEST",
        "KEY_C",
        "KEY_Z",
        "KEY_LEFT_BUMPER",
        "KEY_LEFT_TRIGGER",
        "KEY_RIGHT_BUMPER",
        "KEY_RIGHT_TRIGGER",
        "KEY_SELECT",
        "KEY_START",
        "KEY_MODE",
        "KEY_LEFT_THUMB",
        "KEY_RIGHT_THUMB",
        "KEY_UP",
        "KEY_DOWN",
        "KEY_LEFT",
        "KEY_RIGHT",
        "KEY_UNKNOWN",
    ];

    pub const LIST_AXIS: [&'static str; 9] = [
        "AXIS_LEFT_STICK_X",
        "AXIS_LEFT_STICK_Y",
        "AXIS_LEFT_TRIGGER",
        "AXIS_RIGHT_STICK_X",
        "AXIS_RIGHT_STICK_Y",
        "AXIS_RIGHT_TRIGGER",
        "AXIS_X",
        "AXIS_Y",
        "AXIS_UNKNOWN",
    ];

    /// The button `index` of the pad `which`, when both exist.
    pub fn get_index(input: &Input, which: usize, index: usize) -> (button: Result<Button, InputError>)
        ensures
            button == (if which < input.pad.data@.len() && index < BUTTON_COUNT_PAD {
                Ok(input.pad.data@[which as int].1.button@[index as int])
            } else {
                Err(InputError::PadButton(index))
            }),
    {
        if let Some(entry) = input.pad.get_pad(which) {
            if index < BUTTON_COUNT_PAD {
                return Ok(entry.1.button[index]);
            }
        }
        Err(InputError::PadButton(index))
    }

    /// Whether the button `index` of the pad `which` is up.
    pub fn up(input: &Input, which: usize, index: usize) -> (up: Result<bool, InputError>)
        ensures
            up == (if which < input.pad.data@.len() && index < BUTTON_COUNT_PAD {
                Ok(!input.pad.data@[which as int].1.button@[index as int].down)
            } else {
                Err(InputError::PadButton(index))
            }),
    {
        let button = Self::get_index(input, which, index)?;
        Ok(!button.down)
    }

    /// Whether the button `index` of the pad `which` is down.
    pub fn down(input: &Input, which: usize, index: usize) -> (down: Result<bool, InputError>)
        ensures
            down == (if which < input.pad.data@.len() && index < BUTTON_COUNT_PAD {
                Ok(input.pad.data@[which as int].1.button@[index as int].down)
            } else {
                Err(InputError::PadButton(index))
            }),
    {
        let button = Self::get_index(input, which, index)?;
        Ok(button.down)
    }

    /// Whether the button `index` of the pad `which` was pressed in this frame.
    pub fn press(input: &Input, which: usize, index: usize) -> (press: Result<bool, InputError>)
        ensures
            press == (if which < input.pad.data@.len() && index < BUTTON_COUNT_PAD {
                Ok(input.pad.data@[which as int].1.button@[index as int].press)
            } else {
                Err(InputError::PadButton(index))
            }),
    {
        let button = Self::get_index(input, which, index)?;
        Ok(button.press)
    }

    /// Whether the button `index` of the pad `which` was released in this frame.
    pub fn release(input: &Input, which: usize, index: usize) -> (release: Result<bool, InputError>)
        ensures
            release == (if which < input.pad.data@.len() && index < BUTTON_COUNT_PAD {
                Ok(input.pad.data@[which as int].1.button@[index as int].release)
            } else {
                Err(InputError::PadButton(index))
            }),
    {
        let button = Self::get_index(input, which, index)?;
        Ok(button.release)
    }

    /// The axis `index` of the pad `which` (the bit pattern of its `f32` value), when both
    /// exist.
    pub fn axis(input: &Input, which: usize, index: usize) -> (axis: Result<u32, InputError>)
        ensures
            axis == (if which < input.pad.data@.len() && index < AXIS_COUNT_PAD {
                Ok(input.pad.data@[which as int].1.axis@[index as int])
            } else {
                Err(InputError::Pad(which))
            }),
    {
        if let Some(entry) = input.pad.get_pad(which) {
            if index < AXIS_COUNT_PAD {
                return Ok(entry.1.axis[index]);
            }
        }
        Err(InputError::Pad(which))
    }

    /// The identifier of the pad `which`, whose name the pad layer knows, when it exists.
    pub fn name(input: &Input, which: usize) -> (identifier: Result<usize, InputError>)
        ensures
            identifier == (if which < input.pad.data@.len() {
                Ok(input.pad.data@[which as int].0)
            } else {
                Err(InputError::Pad(which))
            }),
    {
        if let Some(entry) = input.pad.get_pad(which) {
            return Ok(entry.0);
        }
        Err(InputError::Pad(which))
    }
}

} // verus!
