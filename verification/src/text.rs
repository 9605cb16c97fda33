//! Questions about texts that the client's rules ask: whether a text is blank
//! and whether it ends with a marker.

use vstd::prelude::*;

verus! {

/// Whether `c` is white space as std's `char::is_whitespace` tells it: the
/// characters with the Unicode property `White_Space`.
pub uninterp spec fn is_white_space(c: char) -> bool;

/// `char::is_whitespace` looks at the character alone, so its answer is the
/// value of [`is_white_space`] at that character. Which characters those are
/// is not stated here.
pub assume_specification[ char::is_whitespace ](c: char) -> (r: bool)
    ensures
        r == is_white_space(c),
;

/// A text is blank when nothing is left of it once leading and trailing white
/// space is trimmed away, that is when every character of it is white space.
/// The empty text is blank.
pub open spec fn is_blank(s: Seq<char>) -> bool {
    forall|i: int| 0 <= i < s.len() ==> is_white_space(#[trigger] s[i])
}

/// The characters of `s`, in order.
pub fn chars_of(s: &str) -> (v: Vec<char>)
    ensures
        v@ == s@,
{
    let mut v: Vec<char> = Vec::new();
    for c in it: s.chars()
        invariant
            it.seq() == s@,
            v@ == s@.take(it.index()),
    {
        v.push(c);
    }
    v
}

/// Tells whether `s` is blank.
pub fn is_blank_text(s: &str) -> (r: bool)
    ensures
        r == is_blank(s@),
{
    for c in it: s.chars()
        invariant
            it.seq() == s@,
            forall|i: int| 0 <= i < it.index() ==> is_white_space(#[trigger] s@[i]),
    {
        if !c.is_whitespace() {
            return false;
        }
    }
    true
}

/// Tells whether `text` ends with `suffix`. Every text ends with the empty
/// text and with itself.
pub fn ends_with(text: &str, suffix: &str) -> (r: bool)
    ensures
        r == suffix@.is_suffix_of(text@),
{
    let t = chars_of(text);
    let s = chars_of(suffix);
    if s.len() > t.len() {
        return false;
    }
    let shift: usize = t.len() - s.len();
    let mut i: usize = 0;
    while i < s.len()
        invariant
            t@ == text@,
            s@ == suffix@,
            i <= s.len(),
            shift + s.len() == t.len(),
            forall|j: int| 0 <= j < i ==> t@[shift + j] == s@[j],
        decreases s.len() - i,
    {
        if t[shift + i] != s[i] {
            return false;
        }
        i += 1;
    }
    true
}

} // verus!
