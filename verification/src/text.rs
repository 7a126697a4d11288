//! Statements about the text of messages.

use vstd::prelude::*;

verus! {

/// Whether `part` stands somewhere in `text`, character for character.
pub open spec fn contains(text: Seq<char>, part: Seq<char>) -> bool {
    exists|start: int, end: int|
        0 <= start <= end <= text.len() && #[trigger] text.subrange(start, end) == part
}

/// What stands between two texts stands in the whole.
pub proof fn lemma_contains_middle(before: Seq<char>, part: Seq<char>, after: Seq<char>)
    ensures
        contains(before + part + after, part),
{
    let whole = before + part + after;
    let start = before.len() as int;
    let end = start + part.len();
    assert(whole.subrange(start, end) =~= part);
}

/// What stands in a text stands in every text around it.
pub proof fn lemma_contains_around(before: Seq<char>, text: Seq<char>, after: Seq<char>, part: Seq<char>)
    requires
        contains(text, part),
    ensures
        contains(before + text + after, part),
{
    let (start, end) = choose|start: int, end: int|
        0 <= start <= end <= text.len() && #[trigger] text.subrange(start, end) == part;
    let whole = before + text + after;
    let shift = before.len() as int;
    assert(whole.subrange(shift + start, shift + end) =~= text.subrange(start, end));
}

} // verus!
