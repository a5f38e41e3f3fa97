//! Sounds: which copy of a sound a call acts on.
use vstd::prelude::*;

verus! {

/// The alias copy that a sound call acts on: the copy `alias` when it is given and exists,
/// otherwise none, meaning the sound itself.
pub fn select_alias(alias: Option<usize>, count: usize) -> (copy: Option<usize>)
    ensures
        copy == match alias {
            Some(a) => if a < count {
                Some(a)
            } else {
                None
            },
            None => None,
        },
{
    match alias {
        Some(a) => if a < count {
            Some(a)
        } else {
            None
        },
        None => None,
    }
}

} // verus!
