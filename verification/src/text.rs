//! Text primitives shared by the rest of the library: comparison of string
//! slices, replacement of a pattern, and removal of surrounding white space.

use vstd::prelude::*;
use vstd::string::*;

verus! {

/// Whether `c` has the Unicode property `White_Space`.
pub open spec fn white_space(c: char) -> bool {
    let code = c as u32;
    ||| 0x09 <= code <= 0x0D
    ||| code == 0x20
    ||| code == 0x85
    ||| code == 0xA0
    ||| code == 0x1680
    ||| 0x2000 <= code <= 0x200A
    ||| code == 0x2028
    ||| code == 0x2029
    ||| code == 0x202F
    ||| code == 0x205F
    ||| code == 0x3000
}

/// `text` without its leading white space.
pub open spec fn without_leading_space(text: Seq<char>) -> Seq<char>
    decreases text.len(),
{
    if text.len() > 0 && white_space(text.first()) {
        without_leading_space(text.drop_first())
    } else {
        text
    }
}

/// `text` without its trailing white space.
pub open spec fn without_trailing_space(text: Seq<char>) -> Seq<char>
    decreases text.len(),
{
    if text.len() > 0 && white_space(text.last()) {
        without_trailing_space(text.drop_last())
    } else {
        text
    }
}

/// `text` without the white space at either end.
pub open spec fn trimmed(text: Seq<char>) -> Seq<char> {
    without_trailing_space(without_leading_space(text))
}

/// `text` with every occurrence of `pattern` replaced by `replacement`. The
/// occurrences are found from left to right and do not overlap: the search
/// goes on behind each one. An empty pattern replaces nothing.
pub open spec fn replaced(text: Seq<char>, pattern: Seq<char>, replacement: Seq<char>) -> Seq<char>
    decreases text.len(),
{
    if pattern.len() == 0 || text.len() < pattern.len() {
        text
    } else if text.take(pattern.len() as int) == pattern {
        replacement + replaced(text.skip(pattern.len() as int), pattern, replacement)
    } else {
        seq![text.first()] + replaced(text.drop_first(), pattern, replacement)
    }
}

/// The mathematical value of an optional string slice.
pub open spec fn optional_text(text: Option<&str>) -> Option<Seq<char>> {
    match text {
        Some(text) => Some(text@),
        None => None,
    }
}

/// The mathematical value of an optional string.
pub open spec fn optional_string(text: Option<String>) -> Option<Seq<char>> {
    match text {
        Some(text) => Some(text@),
        None => None,
    }
}

/// Compares two string slices with the `==` of `str`, which holds exactly
/// when both have the same characters.
#[verifier::external_body]
pub(crate) fn str_eq(left: &str, right: &str) -> (same: bool)
    ensures
        same == (left@ == right@),
{
    left == right
}

/// Whether a character has the Unicode property `White_Space`.
pub fn is_white_space(c: char) -> (result: bool)
    ensures
        result == white_space(c),
{
    let code = c as u32;
    (0x09 <= code && code <= 0x0D) || code == 0x20 || code == 0x85 || code == 0xA0 || code
        == 0x1680 || (0x2000 <= code && code <= 0x200A) || code == 0x2028 || code == 0x2029
        || code == 0x202F || code == 0x205F || code == 0x3000
}

/// Calls `str::replace` with a pattern that is not empty: a new string in
/// which every match of the pattern, found from left to right without
/// overlap, is replaced.
#[verifier::external_body]
pub(crate) fn replace_all(text: &str, pattern: &str, replacement: &str) -> (result: String)
    requires
        pattern@.len() > 0,
    ensures
        result@ == replaced(text@, pattern@, replacement@),
{
    text.replace(pattern, replacement)
}

/// Skipping leading white space leaves a suffix of the text, all of whose
/// skipped characters are white space.
pub proof fn lemma_leading_space(text: Seq<char>, start: int)
    requires
        0 <= start <= text.len(),
        forall|i: int| 0 <= i < start ==> white_space(#[trigger] text[i]),
        start < text.len() ==> !white_space(text[start]),
    ensures
        without_leading_space(text) == text.subrange(start, text.len() as int),
    decreases start,
{
    if start == 0 {
        assert(text.subrange(0, text.len() as int) == text);
    } else {
        let rest = text.drop_first();
        assert(white_space(text[0]));
        assert forall|i: int| 0 <= i < start - 1 implies white_space(#[trigger] rest[i]) by {
            assert(rest[i] == text[i + 1]);
        }
        lemma_leading_space(rest, start - 1);
        assert(rest.subrange(start - 1, rest.len() as int) == text.subrange(
            start,
            text.len() as int,
        ));
    }
}

/// Skipping trailing white space leaves a prefix of the text, all of whose
/// skipped characters are white space.
pub proof fn lemma_trailing_space(text: Seq<char>, end: int)
    requires
        0 <= end <= text.len(),
        forall|i: int| end <= i < text.len() ==> white_space(#[trigger] text[i]),
        end > 0 ==> !white_space(text[end - 1]),
    ensures
        without_trailing_space(text) == text.subrange(0, end),
    decreases text.len() - end,
{
    if end == text.len() {
        assert(text.subrange(0, end) == text);
    } else {
        let rest = text.drop_last();
        assert(white_space(text[text.len() - 1]));
        lemma_trailing_space(rest, end);
        assert(rest.subrange(0, end) == text.subrange(0, end));
    }
}

/// The slice of `text` that is left when the white space at both ends is
/// removed.
pub fn trim(text: &str) -> (result: &str)
    ensures
        result@ == trimmed(text@),
{
    let length = text.unicode_len();
    let mut start: usize = 0;
    while start < length && is_white_space(text.get_char(start))
        invariant
            start <= length,
            length == text@.len(),
            forall|i: int| 0 <= i < start ==> white_space(#[trigger] text@[i]),
        decreases length - start,
    {
        start += 1;
    }
    let mut end: usize = length;
    while end > start && is_white_space(text.get_char(end - 1))
        invariant
            start <= end <= length,
            length == text@.len(),
            forall|i: int| end <= i < length ==> white_space(#[trigger] text@[i]),
        decreases end,
    {
        end -= 1;
    }
    proof {
        let tail = text@.subrange(start as int, length as int);
        lemma_leading_space(text@, start as int);
        assert forall|i: int| end - start <= i < tail.len() implies white_space(
            #[trigger] tail[i],
        ) by {
            assert(tail[i] == text@[i + start]);
        }
        lemma_trailing_space(tail, end - start);
        assert(tail.subrange(0, end - start) == text@.subrange(start as int, end as int));
    }
    text.substring_char(start, end)
}

} // verus!
