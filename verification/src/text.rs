use vstd::prelude::*;

verus! {

/// Whether `c` has the Unicode `White_Space` property, which `char::is_whitespace` reports:
/// U+0009 to U+000D, U+0020, U+0085, U+00A0, U+1680, U+2000 to U+200A, U+2028, U+2029,
/// U+202F, U+205F and U+3000.
pub open spec fn white_space(c: char) -> bool {
    let v = c as u32;
    ||| (0x9 <= v <= 0xd)
    ||| v == 0x20
    ||| v == 0x85
    ||| v == 0xa0
    ||| v == 0x1680
    ||| (0x2000 <= v <= 0x200a)
    ||| v == 0x2028
    ||| v == 0x2029
    ||| v == 0x202f
    ||| v == 0x205f
    ||| v == 0x3000
}

/// Whether `c` is white space, as `char::is_whitespace` says.
pub fn is_white_space(c: char) -> (r: bool)
    ensures
        r == white_space(c),
{
    let v = c as u32;
    (0x9 <= v && v <= 0xd) || v == 0x20 || v == 0x85 || v == 0xa0 || v == 0x1680 || (0x2000 <= v
        && v <= 0x200a) || v == 0x2028 || v == 0x2029 || v == 0x202f || v == 0x205f || v == 0x3000
}

/// Calls `String::push`, which appends one character.
#[verifier::external_body]
fn push_char(s: &mut String, c: char)
    ensures
        final(s)@ == old(s)@.push(c),
{
    s.push(c)
}

/// The characters of `s`, in order.
pub fn chars_of(s: &str) -> (out: Vec<char>)
    ensures
        out@ == s@,
{
    broadcast use vstd::string::group_string_axioms;

    let mut out: Vec<char> = Vec::new();
    for c in iter: s.chars()
        invariant
            out@ == iter.seq().take(iter.index() as int),
    {
        out.push(c);
    }
    out
}

/// Whether `a` and `b` hold the same characters.
pub fn str_equal(a: &str, b: &str) -> (equal: bool)
    ensures
        equal == (a@ == b@),
{
    let x = chars_of(a);
    let y = chars_of(b);
    if x.len() != y.len() {
        return false;
    }
    let mut i: usize = 0;
    while i < x.len()
        invariant
            x@ == a@,
            y@ == b@,
            x.len() == y.len(),
            i <= x.len(),
            forall|j: int| 0 <= j < i ==> x@[j] == y@[j],
        decreases x.len() - i,
    {
        if x[i] != y[i] {
            return false;
        }
        i = i + 1;
    }
    assert(x@ =~= y@);
    true
}

/// The index of the first `c` at or after `from`, or `s.len()` when there is none.
pub open spec fn char_index(s: Seq<char>, c: char, from: int) -> int
    decreases s.len() - from,
{
    if from >= s.len() {
        s.len() as int
    } else if s[from] == c {
        from
    } else {
        char_index(s, c, from + 1)
    }
}

pub proof fn lemma_char_index(s: Seq<char>, c: char, from: int)
    requires
        0 <= from <= s.len(),
    ensures
        from <= char_index(s, c, from) <= s.len(),
        char_index(s, c, from) < s.len() ==> s[char_index(s, c, from)] == c,
        forall|j: int| from <= j < char_index(s, c, from) ==> s[j] != c,
    decreases s.len() - from,
{
    if from < s.len() && s[from] != c {
        lemma_char_index(s, c, from + 1);
    }
}

/// The index of the first `c` in `chars` at or after `from`, or `chars.len()`.
pub fn find_char(chars: &Vec<char>, c: char, from: usize) -> (at: usize)
    requires
        from <= chars.len(),
    ensures
        at == char_index(chars@, c, from as int),
{
    let mut k = from;
    while k < chars.len() && chars[k] != c
        invariant
            from <= k <= chars.len(),
            char_index(chars@, c, from as int) == char_index(chars@, c, k as int),
        decreases chars.len() - k,
    {
        k = k + 1;
    }
    k
}

/// Whether `pat` occurs in `s` at index `i`.
pub open spec fn pattern_at(s: Seq<char>, pat: Seq<char>, i: int) -> bool {
    0 <= i && i + pat.len() <= s.len() && s.subrange(i, i + pat.len()) == pat
}

/// The index of the first occurrence of the non-empty `pat` in `s` at or after `from`, or
/// `s.len()` when there is none.
pub open spec fn pattern_index(s: Seq<char>, pat: Seq<char>, from: int) -> int
    decreases s.len() - from,
{
    if from < 0 || from + pat.len() > s.len() || pat.len() == 0 {
        s.len() as int
    } else if pattern_at(s, pat, from) {
        from
    } else {
        pattern_index(s, pat, from + 1)
    }
}

pub proof fn lemma_pattern_index(s: Seq<char>, pat: Seq<char>, from: int)
    requires
        0 <= from <= s.len(),
        pat.len() > 0,
    ensures
        from <= pattern_index(s, pat, from) <= s.len(),
        pattern_index(s, pat, from) < s.len() ==> pattern_at(s, pat, pattern_index(s, pat, from)),
        forall|j: int| from <= j < pattern_index(s, pat, from) ==> !pattern_at(s, pat, j),
    decreases s.len() - from,
{
    if from + pat.len() <= s.len() && !pattern_at(s, pat, from) {
        lemma_pattern_index(s, pat, from + 1);
    }
}

/// Whether `pat` occurs in `chars` at index `i`.
fn matches_at(chars: &Vec<char>, pat: &Vec<char>, i: usize) -> (found: bool)
    requires
        i + pat.len() <= chars.len(),
    ensures
        found == pattern_at(chars@, pat@, i as int),
{
    let mut k: usize = 0;
    while k < pat.len()
        invariant
            i + pat.len() <= chars.len(),
            k <= pat.len(),
            forall|j: int| 0 <= j < k ==> chars@[i + j] == pat@[j],
        decreases pat.len() - k,
    {
        if chars[i + k] != pat[k] {
            assert(chars@.subrange(i as int, i + pat@.len())[k as int] != pat@[k as int]);
            return false;
        }
        k = k + 1;
    }
    assert(chars@.subrange(i as int, i + pat@.len()) =~= pat@);
    true
}

/// The index of the first occurrence of `pat` in `chars` at or after `from`, or `chars.len()`.
pub fn find_pattern(chars: &Vec<char>, pat: &Vec<char>, from: usize) -> (at: usize)
    requires
        from <= chars.len(),
        pat.len() > 0,
    ensures
        at == pattern_index(chars@, pat@, from as int),
{
    let mut k = from;
    while k < chars.len()
        invariant
            from <= k <= chars.len(),
            pat.len() > 0,
            pattern_index(chars@, pat@, from as int) == pattern_index(chars@, pat@, k as int),
        decreases chars.len() - k,
    {
        if pat.len() > chars.len() - k {
            return chars.len();
        }
        if matches_at(chars, pat, k) {
            return k;
        }
        k = k + 1;
    }
    k
}

//================================================================
// Line splitting, as `str::lines` documents it.

/// The index of the first `'\n'` at or after `from`, or `s.len()` when there is none.
pub open spec fn newline_index(s: Seq<char>, from: int) -> int
    decreases s.len() - from,
{
    if from >= s.len() {
        s.len() as int
    } else if s[from] == '\n' {
        from
    } else {
        newline_index(s, from + 1)
    }
}

pub proof fn lemma_newline_index(s: Seq<char>, from: int)
    requires
        0 <= from <= s.len(),
    ensures
        from <= newline_index(s, from) <= s.len(),
        newline_index(s, from) < s.len() ==> s[newline_index(s, from)] == '\n',
        forall|j: int| from <= j < newline_index(s, from) ==> s[j] != '\n',
    decreases s.len() - from,
{
    if from < s.len() && s[from] != '\n' {
        lemma_newline_index(s, from + 1);
    }
}

/// A line without its final carriage return, when it ended with `"\r\n"`.
pub open spec fn strip_cr(line: Seq<char>) -> Seq<char> {
    if line.len() > 0 && line.last() == '\r' {
        line.drop_last()
    } else {
        line
    }
}

/// The lines of `s` from index `start` on: pieces split at `'\n'`, a `"\r\n"` ending counting
/// as one line ending, and no empty piece after a final line ending.
pub open spec fn lines_from(s: Seq<char>, start: int) -> Seq<Seq<char>>
    decreases s.len() - start,
{
    if start < 0 || start >= s.len() {
        Seq::empty()
    } else {
        let i = newline_index(s, start);
        if i >= s.len() {
            seq![s.subrange(start, s.len() as int)]
        } else {
            proof {
                lemma_newline_index(s, start);
            }
            seq![strip_cr(s.subrange(start, i))] + lines_from(s, i + 1)
        }
    }
}

/// The lines of `s`, as `str::lines` yields them.
pub open spec fn text_lines(s: Seq<char>) -> Seq<Seq<char>> {
    lines_from(s, 0)
}

//================================================================
// Trimming, as `str::trim` documents it.

pub open spec fn trim_start(s: Seq<char>) -> Seq<char>
    decreases s.len(),
{
    if s.len() > 0 && white_space(s[0]) {
        trim_start(s.drop_first())
    } else {
        s
    }
}

pub open spec fn trim_end(s: Seq<char>) -> Seq<char>
    decreases s.len(),
{
    if s.len() > 0 && white_space(s.last()) {
        trim_end(s.drop_last())
    } else {
        s
    }
}

/// `s` without its leading and trailing white space.
pub open spec fn trim(s: Seq<char>) -> Seq<char> {
    trim_end(trim_start(s))
}

/// Appends `chars[lo..hi]` to `out`.
pub fn push_range(out: &mut String, chars: &Vec<char>, lo: usize, hi: usize)
    requires
        lo <= hi <= chars.len(),
    ensures
        final(out)@ == old(out)@ + chars@.subrange(lo as int, hi as int),
{
    let mut k = lo;
    while k < hi
        invariant
            lo <= k <= hi <= chars.len(),
            out@ == old(out)@ + chars@.subrange(lo as int, k as int),
        decreases hi - k,
    {
        push_char(out, chars[k]);
        assert(chars@.subrange(lo as int, k + 1) =~= chars@.subrange(lo as int, k as int).push(
            chars@[k as int],
        ));
        k = k + 1;
    }
}

/// Appends `chars[lo..hi]`, trimmed, to `out`.
pub fn push_trimmed(out: &mut String, chars: &Vec<char>, lo: usize, hi: usize)
    requires
        lo <= hi <= chars.len(),
    ensures
        final(out)@ == old(out)@ + trim(chars@.subrange(lo as int, hi as int)),
{
    let ghost whole = chars@.subrange(lo as int, hi as int);
    let mut a = lo;
    while a < hi && is_white_space(chars[a])
        invariant
            lo <= a <= hi <= chars.len(),
            trim_start(whole) == trim_start(chars@.subrange(a as int, hi as int)),
        decreases hi - a,
    {
        assert(chars@.subrange(a as int, hi as int).drop_first() =~= chars@.subrange(
            a + 1,
            hi as int,
        ));
        a = a + 1;
    }
    assert(trim_start(whole) == chars@.subrange(a as int, hi as int));
    let mut b = hi;
    while b > a && is_white_space(chars[b - 1])
        invariant
            lo <= a <= b <= hi <= chars.len(),
            trim(whole) == trim_end(chars@.subrange(a as int, b as int)),
        decreases b - a,
    {
        assert(chars@.subrange(a as int, b as int).drop_last() =~= chars@.subrange(
            a as int,
            b - 1,
        ));
        b = b - 1;
    }
    assert(trim(whole) == chars@.subrange(a as int, b as int));
    push_range(out, chars, a, b);
}

//================================================================
// Laws of line splitting.

proof fn lemma_newline_index_push(s: Seq<char>, j: int)
    requires
        0 <= j <= s.len(),
    ensures
        newline_index(s.push('\n'), j) == newline_index(s, j),
    decreases s.len() - j,
{
    if j < s.len() && s[j] != '\n' {
        lemma_newline_index_push(s, j + 1);
    }
}

proof fn lemma_lines_from_push(s: Seq<char>, start: int)
    requires
        0 <= start < s.len(),
        s.last() != '\n',
        s.last() != '\r',
    ensures
        lines_from(s.push('\n'), start) == lines_from(s, start),
    decreases s.len() - start,
{
    let t = s.push('\n');
    let n = s.len() as int;
    lemma_newline_index_push(s, start);
    lemma_newline_index(s, start);
    let i = newline_index(s, start);
    if i < n {
        assert(t.subrange(start, i) =~= s.subrange(start, i));
        assert(i + 1 < n);
        lemma_lines_from_push(s, i + 1);
    } else {
        assert(t[n] == '\n');
        assert(newline_index(t, start) == n);
        assert(t.subrange(start, n) =~= s.subrange(start, n));
        assert(strip_cr(s.subrange(start, n)) == s.subrange(start, n));
        assert(lines_from(t, n + 1) =~= Seq::<Seq<char>>::empty());
        assert(lines_from(t, start) =~= seq![s.subrange(start, n)]);
    }
}

/// A final line ending is optional: a non-empty text whose last character is no line ending
/// character has the same lines with a `'\n'` added at its end.
pub proof fn lemma_final_line_ending(s: Seq<char>)
    requires
        s.len() > 0,
        s.last() != '\n',
        s.last() != '\r',
    ensures
        text_lines(s.push('\n')) == text_lines(s),
{
    lemma_lines_from_push(s, 0);
}

/// A text without a line ending is a single line.
pub proof fn lemma_single_line(s: Seq<char>)
    requires
        s.len() > 0,
        forall|i: int| 0 <= i < s.len() ==> s[i] != '\n',
    ensures
        text_lines(s) == seq![s],
{
    lemma_newline_index(s, 0);
    if newline_index(s, 0) < s.len() {
        assert(s[newline_index(s, 0)] == '\n');
    }
    assert(s.subrange(0, s.len() as int) =~= s);
}

} // verus!
