//! Questions about strings, asked of their characters.

use vstd::prelude::*;

verus! {

/// `text` ends with `suffix`.
pub open spec fn ends_with(text: Seq<char>, suffix: Seq<char>) -> bool {
    suffix.is_suffix_of(text)
}

/// `needle` stands in `text` at position `at`.
pub open spec fn occurs_at(text: Seq<char>, needle: Seq<char>, at: int) -> bool {
    &&& 0 <= at
    &&& at + needle.len() <= text.len()
    &&& text.subrange(at, at + needle.len()) == needle
}

/// `needle` stands somewhere in `text`.
pub open spec fn contains(text: Seq<char>, needle: Seq<char>) -> bool {
    exists|at: int| occurs_at(text, needle, at)
}

/// What `str::trim` makes of a text: the text without the white space at
/// its two ends, white space being what Unicode's `White_Space` property
/// marks.
pub uninterp spec fn trimmed(text: Seq<char>) -> Seq<char>;

/// `str::trim` returns the part of the string that is left when leading and
/// trailing white space is taken away. The result depends on the string
/// alone.
pub assume_specification<'a>[ str::trim ](text: &'a str) -> (part: &'a str)
    ensures
        part@ == trimmed(text@),
;

/// `first` followed by `second`.
pub fn joined(first: &str, second: &str) -> (whole: String)
    ensures
        whole@ == first@ + second@,
{
    let mut whole = first.to_owned();
    whole.append(second);
    whole
}

/// The characters of a string, one by one.
pub fn chars_of(text: &str) -> (chars: Vec<char>)
    ensures
        chars@ == text@,
{
    let mut chars: Vec<char> = Vec::new();
    for c in it: text.chars()
        invariant
            it.seq() == text@,
            chars@ == text@.take(it.index()),
    {
        chars.push(c);
    }
    assert(text@.take(text@.len() as int) == text@);
    chars
}

/// Whether `needle` stands in `text` at position `at`, compared character by
/// character.
fn matches_at(text: &Vec<char>, needle: &Vec<char>, at: usize) -> (found: bool)
    ensures
        found == occurs_at(text@, needle@, at as int),
{
    let total: usize = text.len();
    let len: usize = needle.len();
    if at > total || len > total - at {
        return false;
    }
    let mut k: usize = 0;
    while k < len
        invariant
            len == needle@.len(),
            total == text@.len(),
            k <= len,
            at + len <= total,
            forall|j: int| 0 <= j < k ==> text@[at + j] == needle@[j],
        decreases len - k,
    {
        if text[at + k] != needle[k] {
            assert(text@.subrange(at as int, at + len)[k as int] == text@[at + k]);
            return false;
        }
        k += 1;
    }
    assert(text@.subrange(at as int, at + len) =~= needle@);
    true
}

/// Whether `text` ends with `suffix`.
pub fn has_suffix(text: &str, suffix: &str) -> (found: bool)
    ensures
        found == ends_with(text@, suffix@),
{
    let hay = chars_of(text);
    let tail = chars_of(suffix);
    if tail.len() > hay.len() {
        return false;
    }
    matches_at(&hay, &tail, hay.len() - tail.len())
}

/// Whether `needle` stands somewhere in `text`.
pub fn has_infix(text: &str, needle: &str) -> (found: bool)
    ensures
        found == contains(text@, needle@),
{
    let hay = chars_of(text);
    let pin = chars_of(needle);
    if pin.len() > hay.len() {
        return false;
    }
    let last: usize = hay.len() - pin.len();
    let mut at: usize = 0;
    loop
        invariant
            hay@ == text@,
            pin@ == needle@,
            last == hay@.len() - pin@.len(),
            at <= last,
            forall|j: int| 0 <= j < at ==> !occurs_at(hay@, pin@, j),
        decreases last - at,
    {
        if matches_at(&hay, &pin, at) {
            return true;
        }
        if at == last {
            return false;
        }
        at += 1;
    }
}

} // verus!
