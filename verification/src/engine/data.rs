//! Host facts that the data API reports.
use vstd::prelude::*;
use crate::text::str_equal;

verus! {

/// The kind code of an operating system, by the name the standard library gives it: 0 for
/// `linux`, 1 for `windows`, 2 for a Mac (`macos`, or `mac`), 3 for `android`, 4 for `ios`, 5
/// for any other.
pub open spec fn system_kind_spec(os: Seq<char>) -> usize {
    if os == "linux"@ {
        0
    } else if os == "windows"@ {
        1
    } else if os == "macos"@ || os == "mac"@ {
        2
    } else if os == "android"@ {
        3
    } else if os == "ios"@ {
        4
    } else {
        5
    }
}

/// The kind code of the operating system named `os`.
pub fn get_system(os: &str) -> (kind: usize)
    ensures
        kind == system_kind_spec(os@),
{
    if str_equal(os, "linux") {
        0
    } else if str_equal(os, "windows") {
        1
    } else if str_equal(os, "macos") || str_equal(os, "mac") {
        2
    } else if str_equal(os, "android") {
        3
    } else if str_equal(os, "ios") {
        4
    } else {
        5
    }
}

} // verus!
