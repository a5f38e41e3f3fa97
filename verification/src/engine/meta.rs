//! The annotation file that collects every annotation block of the scripting API.
use vstd::prelude::*;
use crate::text::{chars_of, push_trimmed, trim};

verus! {

/// The opening of the annotation file.
pub open spec fn meta_header() -> Seq<char> {
    "---@meta\n\n---@class flak\nflak = {}\n\n"@
}

/// The annotation blocks, each trimmed and followed by an empty line, in the order given.
pub open spec fn meta_body(blocks: Seq<Seq<char>>) -> Seq<char>
    decreases blocks.len(),
{
    if blocks.len() == 0 {
        Seq::empty()
    } else {
        meta_body(blocks.drop_last()) + trim(blocks.last()) + "\n\n"@
    }
}

/// The texts of a list of strings.
pub open spec fn texts(blocks: Seq<String>) -> Seq<Seq<char>> {
    blocks.map_values(|b: String| b@)
}

/// The annotation file made of the given annotation blocks, in the order given.
pub fn meta_text(blocks: &Vec<String>) -> (text: String)
    ensures
        text@ == meta_header() + meta_body(texts(blocks@)),
{
    let mut buffer = String::from_str("---@meta\n\n---@class flak\nflak = {}\n\n");
    let n = blocks.len();
    let mut i: usize = 0;
    while i < n
        invariant
            n == blocks@.len(),
            i <= n,
            buffer@ == meta_header() + meta_body(texts(blocks@.take(i as int))),
        decreases n - i,
    {
        let chars = chars_of(blocks[i].as_str());
        push_trimmed(&mut buffer, &chars, 0, chars.len());
        buffer.append("\n\n");
        proof {
            let done = texts(blocks@.take(i + 1));
            assert(done.drop_last() =~= texts(blocks@.take(i as int)));
            assert(done.last() == blocks@[i as int]@);
            assert(chars@.subrange(0, chars@.len() as int) =~= chars@);
        }
        i = i + 1;
    }
    assert(blocks@.take(n as int) =~= blocks@);
    buffer
}

} // verus!
