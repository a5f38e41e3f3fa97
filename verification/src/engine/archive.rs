//! Archive paths: what a path inside an archive says about its file.
use vstd::prelude::*;
use crate::text::{char_index, chars_of, find_char, lemma_char_index, push_range};

verus! {

/// The extension of `path` as the loaders expect it: a `.` and the text between the first
/// and the second `.` of the path (or its end); none when the path has no `.`.
pub open spec fn extension_spec(path: Seq<char>) -> Option<Seq<char>> {
    let first = char_index(path, '.', 0);
    if first >= path.len() {
        None
    } else {
        let second = char_index(path, '.', first + 1);
        Some("."@ + path.subrange(first + 1, second))
    }
}

/// The extension of a path inside an archive, for the loaders that tell a format by it.
pub fn extension(path: &str) -> (ext: Option<String>)
    ensures
        match ext {
            Some(ext) => extension_spec(path@) == Some(ext@),
            None => extension_spec(path@) is None,
        },
{
    let chars = chars_of(path);
    let first = find_char(&chars, '.', 0);
    proof {
        lemma_char_index(chars@, '.', 0);
    }
    if first >= chars.len() {
        return None;
    }
    let second = find_char(&chars, '.', first + 1);
    proof {
        lemma_char_index(chars@, '.', first + 1);
    }
    let mut ext = String::from_str(".");
    push_range(&mut ext, &chars, first + 1, second);
    Some(ext)
}

/// The kind code of a path: 0 for a file, 1 for a folder, 2 for a symbolic link; none when
/// the path was not found or is of none of these kinds.
pub open spec fn path_kind_spec(found: bool, file: bool, dir: bool, symlink: bool) -> Option<usize> {
    if !found {
        None
    } else if file {
        Some(0)
    } else if dir {
        Some(1)
    } else if symlink {
        Some(2)
    } else {
        None
    }
}

/// The kind code of a path, from what a lookup found out about it.
pub fn path_kind(found: bool, file: bool, dir: bool, symlink: bool) -> (kind: Option<usize>)
    ensures
        kind == path_kind_spec(found, file, dir, symlink),
{
    if found {
        if file {
            return Some(0);
        } else if dir {
            return Some(1);
        } else if symlink {
            return Some(2);
        }
    }
    None
}

/// A path has an extension exactly when it holds a `.`; the extension is a `.` followed by a
/// piece of the path that holds no `.` and comes right after the path's first `.`.
pub proof fn lemma_extension_shape(path: Seq<char>)
    ensures
        extension_spec(path) is None <==> !path.contains('.'),
        extension_spec(path) matches Some(ext) ==> {
            &&& ext.len() >= 1
            &&& ext[0] == '.'
            &&& forall|k: int| 1 <= k < ext.len() ==> #[trigger] ext[k] != '.'
            &&& exists|first: int|
                0 <= first < path.len() && path[first] == '.' && (forall|j: int|
                    0 <= j < first ==> #[trigger] path[j] != '.') && first + ext.len() <= path.len()
                    && #[trigger] path.subrange(first, first + ext.len()) == ext
        },
{
    reveal_strlit(".");
    lemma_char_index(path, '.', 0);
    let first = char_index(path, '.', 0);
    if first < path.len() {
        assert(path.contains('.'));
        lemma_char_index(path, '.', first + 1);
        let second = char_index(path, '.', first + 1);
        let ext = "."@ + path.subrange(first + 1, second);
        assert(ext[0] == '.');
        assert forall|k: int| 1 <= k < ext.len() implies #[trigger] ext[k] != '.' by {
            assert(ext[k] == path[first + k]);
        }
        assert(path.subrange(first, first + ext.len()) =~= ext);
    } else {
        if path.contains('.') {
            let j = choose|j: int| 0 <= j < path.len() && path[j] == '.';
            assert(path[j] != '.');
        }
    }
}

/// A path kind is reported only for a path that was found, and is one of the three kinds.
pub proof fn lemma_path_kind_found(found: bool, file: bool, dir: bool, symlink: bool)
    ensures
        path_kind_spec(found, file, dir, symlink) is Some ==> found && (file || dir || symlink),
        path_kind_spec(found, file, dir, symlink) matches Some(k) ==> k <= 2,
        found && file ==> path_kind_spec(found, file, dir, symlink) == Some(0usize),
{
}

} // verus!
