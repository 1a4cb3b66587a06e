//! Small helpers on text.

use vstd::prelude::*;

verus! {

/// `text` begins with `prefix`.
pub open spec fn begins_with(text: Seq<char>, prefix: Seq<char>) -> bool {
    prefix.len() <= text.len() && text.subrange(0, prefix.len() as int) == prefix
}

/// `head` followed by `tail`.
pub(crate) fn joined(head: &str, tail: &str) -> (text: String)
    ensures
        text@ == head@ + tail@,
        begins_with(text@, head@),
{
    let mut text = head.to_owned();
    text.append(tail);
    assert(text@.subrange(0, head@.len() as int) =~= head@);
    text
}

} // verus!
