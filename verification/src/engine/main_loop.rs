//! The engine's start-up settings and the decisions of its main loop.
use vstd::prelude::*;
use crate::text::{chars_of, find_pattern, lemma_pattern_index, pattern_index, push_range};

verus! {

/// The window settings that a script's `info` entry point returns.
pub struct ContextInfo {
    pub icon: Option<String>,
    pub name: Option<String>,
    pub scale: (i32, i32),
    pub sync: bool,
    pub full: bool,
    pub rate: u32,
    pub log: bool,
}

impl ContextInfo {
    /// The window configuration flags: the sum of the vertical-sync flag when `sync` is set
    /// and of the full-screen flag when `full` is set, given the two flag values.
    pub fn config_flags(&self, vsync_flag: u32, fullscreen_flag: u32) -> (flags: u32)
        requires
            vsync_flag + fullscreen_flag <= u32::MAX,
        ensures
            flags == (if self.sync {
                vsync_flag
            } else {
                0
            }) + (if self.full {
                fullscreen_flag
            } else {
                0
            }),
    {
        let mut flag: u32 = 0;
        if self.sync {
            flag = flag + vsync_flag;
        }
        if self.full {
            flag = flag + fullscreen_flag;
        }
        flag
    }

    /// The window title: the name the script gives, or `Laravox`.
    pub fn title(&self) -> (title: String)
        ensures
            title@ == match self.name {
                Some(name) => name@,
                None => "Laravox"@,
            },
    {
        match &self.name {
            Some(name) => name.clone(),
            None => String::from_str("Laravox"),
        }
    }
}

/// Whether the script last ran well, or the text of the error it failed with.
#[derive(Debug)]
pub enum ScriptState {
    Success,
    Failure(String),
}

/// What the main loop does after the script's `main` (in the `Success` state) or `fail` (in
/// the `Failure` state) entry point returned.
#[derive(Debug)]
pub enum MainStep {
    /// Go on with the same script, in this state.
    Stay(ScriptState),
    /// Load the script again.
    Reload,
    /// Leave the main loop.
    Exit,
    /// The failure handler itself failed: report this error and stop the program.
    Fatal(String),
}

/// The step after an entry point returned `outcome`: `true` reloads, `false` exits; an error
/// of `main` moves to the `Failure` state, an error of `fail` is fatal.
pub open spec fn main_step_spec(state: ScriptState, outcome: Result<bool, String>) -> MainStep {
    match outcome {
        Ok(true) => MainStep::Reload,
        Ok(false) => MainStep::Exit,
        Err(error) => match state {
            ScriptState::Success => MainStep::Stay(ScriptState::Failure(error)),
            ScriptState::Failure(_) => MainStep::Fatal(error),
        },
    }
}

pub fn main_step(state: &ScriptState, outcome: Result<bool, String>) -> (step: MainStep)
    ensures
        step == main_step_spec(*state, outcome),
{
    match outcome {
        Ok(true) => MainStep::Reload,
        Ok(false) => MainStep::Exit,
        Err(error) => match state {
            ScriptState::Success => MainStep::Stay(ScriptState::Failure(error)),
            ScriptState::Failure(_) => MainStep::Fatal(error),
        },
    }
}

/// What an entry point's answer means, whatever state the script is in: `true` reloads the
/// script, `false` leaves the loop, and an error is never dropped: it becomes the failure the
/// script stays in, or, when the failure handler itself failed, the fatal error.
pub proof fn lemma_main_step_answers(state: ScriptState, error: String)
    ensures
        main_step_spec(state, Ok(true)) == MainStep::Reload,
        main_step_spec(state, Ok(false)) == MainStep::Exit,
        main_step_spec(state, Err(error)) is Stay || main_step_spec(state, Err(error)) is Fatal,
        main_step_spec(state, Err(error)) matches MainStep::Stay(next) ==> next == ScriptState::Failure(error),
        main_step_spec(state, Err(error)) matches MainStep::Fatal(e) ==> e == error,
        (main_step_spec(state, Err(error)) is Fatal) <==> (state is Failure),
{
}

/// The state after a reload: a fresh script starts in `Success`; a script that failed to load
/// leaves the old one in place, in `Failure` with the load error.
pub fn reload_state(loaded: Result<(), String>) -> (state: ScriptState)
    ensures
        state == match loaded {
            Ok(_) => ScriptState::Success,
            Err(error) => ScriptState::Failure(error),
        },
{
    match loaded {
        Ok(_) => ScriptState::Success,
        Err(error) => ScriptState::Failure(error),
    }
}

//================================================================
// Scripts packed in the `main` archive.

/// The prefix of the module paths that name a file of the `main` archive.
pub open spec fn archive_prefix() -> Seq<char> {
    "main/"@
}

/// The archive entry of a required module path: the piece of the path between its first and
/// its second `main/` (or its end), with `.lua` added; none when `main/` does not occur.
pub open spec fn module_entry_spec(path: Seq<char>) -> Option<Seq<char>> {
    let p = archive_prefix();
    let first = pattern_index(path, p, 0);
    if first >= path.len() {
        None
    } else {
        let start = first + p.len();
        let second = pattern_index(path, p, start);
        Some(path.subrange(start, second) + ".lua"@)
    }
}

/// The entry of the `main` archive that holds the module a script requires by `path`.
pub fn module_entry(path: &str) -> (entry: Option<String>)
    ensures
        match entry {
            Some(e) => module_entry_spec(path@) == Some(e@),
            None => module_entry_spec(path@) is None,
        },
{
    let chars = chars_of(path);
    let prefix = chars_of("main/");
    proof {
        reveal_strlit("main/");
    }
    let first = find_pattern(&chars, &prefix, 0);
    proof {
        lemma_pattern_index(chars@, prefix@, 0);
    }
    if first >= chars.len() {
        return None;
    }
    let start = first + prefix.len();
    let second = find_pattern(&chars, &prefix, start);
    proof {
        lemma_pattern_index(chars@, prefix@, start as int);
    }
    let mut entry = String::new();
    push_range(&mut entry, &chars, start, second);
    entry.append(".lua");
    Some(entry)
}

} // verus!
