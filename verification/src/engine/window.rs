//! Window API decisions.
use vstd::prelude::*;

verus! {

/// The exit key to set: the given key code, or 0 (no exit key) when none is given.
pub fn exit_key(code: Option<i32>) -> (key: i32)
    ensures
        key == match code {
            Some(c) => c,
            None => 0,
        },
{
    match code {
        Some(c) => c,
        None => 0,
    }
}

/// The level of a message dialog.
#[derive(Clone, Copy, Debug, PartialEq, Eq, Structural)]
pub enum MessageLevel {
    Info,
    Warning,
    Error,
}

/// The level of a message dialog by its code: 0 informs, 1 warns, any other code is an error.
pub fn message_level(kind: usize) -> (level: MessageLevel)
    ensures
        level == (if kind == 0 {
            MessageLevel::Info
        } else if kind == 1 {
            MessageLevel::Warning
        } else {
            MessageLevel::Error
        }),
{
    match kind {
        0 => MessageLevel::Info,
        1 => MessageLevel::Warning,
        _ => MessageLevel::Error,
    }
}

} // verus!
