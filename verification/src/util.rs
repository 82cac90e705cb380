//! File-name hygiene for titles that come from the network.

use vstd::prelude::*;

verus! {

/// The characters that survive in a file name: ASCII letters and digits, the
/// space, the hyphen and the underscore.
pub open spec fn is_filename_char(c: char) -> bool {
    ||| 'a' <= c <= 'z'
    ||| 'A' <= c <= 'Z'
    ||| '0' <= c <= '9'
    ||| c == ' '
    ||| c == '-'
    ||| c == '_'
}

/// A title with every character dropped that is not a file-name character,
/// the others kept in their order.
pub open spec fn sanitized(title: Seq<char>) -> Seq<char> {
    title.filter(|c: char| is_filename_char(c))
}

/// `String::push` appends one character to the end of the string.
pub assume_specification[ String::push ](s: &mut String, c: char)
    ensures
        final(s)@ == old(s)@.push(c),
;

/// Decides whether one character may stay in a file name.
pub fn keeps_char(c: char) -> (keep: bool)
    ensures
        keep == is_filename_char(c),
{
    (c >= 'a' && c <= 'z') || (c >= 'A' && c <= 'Z') || (c >= '0' && c <= '9') || c == ' '
        || c == '-' || c == '_'
}

/// Reduces a title to the characters that are safe in a file name.
pub fn sanitize_filename(title: &str) -> (name: String)
    ensures
        name@ == sanitized(title@),
        name@.len() <= title@.len(),
        forall|i: int| 0 <= i < name@.len() ==> is_filename_char(#[trigger] name@[i]),
{
    let mut name = String::new();
    for c in it: title.chars()
        invariant
            it.seq() == title@,
            name@ == sanitized(title@.take(it.index())),
    {
        proof {
            let k = it.index();
            assert(title@.take(k + 1).drop_last() == title@.take(k));
            reveal(Seq::filter);
        }
        if keeps_char(c) {
            name.push(c);
        }
    }
    proof {
        assert(title@.take(title@.len() as int) == title@);
        title@.lemma_filter_len(|c: char| is_filename_char(c));
        assert forall|i: int| 0 <= i < name@.len() implies is_filename_char(
            #[trigger] name@[i],
        ) by {
            title@.lemma_filter_pred(|c: char| is_filename_char(c), i);
        }
    }
    name
}

/// A sequence whose elements all pass a filter is left as it is by the
/// filter.
proof fn lemma_filter_keeps_all(text: Seq<char>, keep: spec_fn(char) -> bool)
    requires
        forall|i: int| 0 <= i < text.len() ==> keep(#[trigger] text[i]),
    ensures
        text.filter(keep) == text,
    decreases text.len(),
{
    reveal(Seq::filter);
    if text.len() > 0 {
        assert forall|i: int| 0 <= i < text.drop_last().len() implies keep(
            #[trigger] text.drop_last()[i],
        ) by {
            assert(text.drop_last()[i] == text[i]);
        }
        lemma_filter_keeps_all(text.drop_last(), keep);
        assert(text.drop_last().push(text.last()) =~= text);
    }
}

/// A sanitized title holds file-name characters only, and sanitizing it
/// once more changes nothing.
pub proof fn law_sanitized_is_stable(title: Seq<char>)
    ensures
        forall|i: int|
            0 <= i < sanitized(title).len() ==> is_filename_char(#[trigger] sanitized(title)[i]),
        sanitized(sanitized(title)) == sanitized(title),
{
    let keep = |c: char| is_filename_char(c);
    assert forall|i: int| 0 <= i < sanitized(title).len() implies is_filename_char(
        #[trigger] sanitized(title)[i],
    ) by {
        title.lemma_filter_pred(keep, i);
    }
    assert forall|i: int| 0 <= i < title.filter(keep).len() implies keep(
        #[trigger] title.filter(keep)[i],
    ) by {
        title.lemma_filter_pred(keep, i);
    }
    lemma_filter_keeps_all(title.filter(keep), keep);
}

} // verus!
