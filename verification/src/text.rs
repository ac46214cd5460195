//! Text operations on Unicode scalar values: cutting a span out of a source
//! text, and joining rendered pieces with a separator.

use vstd::prelude::*;
use vstd::string::*;

verus! {

/// The first `count` characters of `text`, or all of it where it is shorter.
pub open spec fn take_chars(text: Seq<char>, count: nat) -> Seq<char> {
    if count <= text.len() {
        text.take(count as int)
    } else {
        text
    }
}

/// What is left of `text` after its first `count` characters, or nothing
/// where it is shorter.
pub open spec fn skip_chars(text: Seq<char>, count: nat) -> Seq<char> {
    if count <= text.len() {
        text.skip(count as int)
    } else {
        Seq::empty()
    }
}

/// The characters of `text` at the positions from `left` (inclusive) to
/// `right` (exclusive): keep at most `right` characters, then pass over at
/// most `left` of them. Positions count Unicode scalar values, not bytes.
pub open spec fn char_span(text: Seq<char>, left: nat, right: nat) -> Seq<char> {
    skip_chars(take_chars(text, right), left)
}

/// The pieces of `parts` in order, with `separator` between each two
/// neighbours.
pub open spec fn join(parts: Seq<Seq<char>>, separator: Seq<char>) -> Seq<char>
    decreases parts.len(),
{
    if parts.len() == 0 {
        Seq::empty()
    } else if parts.len() == 1 {
        parts[0]
    } else {
        join(parts.drop_last(), separator) + separator + parts.last()
    }
}

/// A span is the subrange between its two positions, once `right` is cut to
/// the length of the text and `left` to that cut.
pub proof fn lemma_char_span_is_subrange(text: Seq<char>, left: nat, right: nat)
    ensures
        ({
            let end = if right <= text.len() { right } else { text.len() };
            let start = if left <= end { left } else { end };
            char_span(text, left, right) =~= text.subrange(start as int, end as int)
        }),
{
}

/// The length of a span: the distance between the two positions after
/// cutting both to the text.
pub proof fn lemma_char_span_len(text: Seq<char>, left: nat, right: nat)
    ensures
        left >= right ==> char_span(text, left, right).len() == 0,
        left >= text.len() ==> char_span(text, left, right).len() == 0,
        left <= right <= text.len() ==> char_span(text, left, right).len() == right - left,
        left <= text.len() <= right ==> char_span(text, left, right).len() == text.len() - left,
{
}

/// A span that lies within the text holds the text's characters at the
/// positions it names.
pub proof fn lemma_char_span_index(text: Seq<char>, left: nat, right: nat, i: int)
    requires
        0 <= i < char_span(text, left, right).len(),
    ensures
        left + i < text.len(),
        left + i < right,
        char_span(text, left, right)[i] == text[left + i],
{
}

/// Cut the characters from position `left` to position `right` out of
/// `text`, as an owned string. Never fails: positions past the end give a
/// shorter or empty result.
pub fn char_slice(text: &str, left: usize, right: usize) -> (span: String)
    ensures
        span@ == char_span(text@, left as nat, right as nat),
{
    let len = text.unicode_len();
    let end = if right < len { right } else { len };
    let start = if left < end { left } else { end };
    let window = text.substring_char(start, end);
    proof {
        lemma_char_span_is_subrange(text@, left as nat, right as nat);
    }
    window.to_owned()
}

/// Join the strings of `parts` with `separator` between each two
/// neighbours.
pub fn join_strings(parts: &Vec<String>, separator: &str) -> (joined: String)
    ensures
        joined@ == join(parts.deep_view(), separator@),
{
    let mut joined = String::new();
    let mut i: usize = 0;
    while i < parts.len()
        invariant
            i <= parts.len(),
            joined@ == join(parts.deep_view().take(i as int), separator@),
        decreases parts.len() - i,
    {
        let ghost before = parts.deep_view().take(i as int);
        let ghost after = parts.deep_view().take(i + 1);
        proof {
            assert(after.drop_last() =~= before);
        }
        if i > 0 {
            joined.append(separator);
        }
        joined.append(parts[i].as_str());
        i += 1;
    }
    proof {
        assert(parts.deep_view().take(parts.len() as int) =~= parts.deep_view());
    }
    joined
}

} // verus!
