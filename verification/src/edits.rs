//! Editing a stored record field by field: the current value is shown, and a
//! blank answer keeps it while any other answer replaces it.

use vstd::prelude::*;
use crate::text::{trim, trimmed};

verus! {

/// The value a field takes after the answer `entered`.
pub open spec fn merged(current: Seq<char>, entered: Seq<char>) -> Seq<char> {
    if trimmed(entered).len() == 0 {
        current
    } else {
        entered
    }
}

/// Applies one answer to one field.
pub fn merge_field(current: String, entered: String) -> (r: String)
    ensures
        r@ == merged(current@, entered@),
{
    let t = trim(entered.as_str());
    if t.as_str().is_empty() {
        current
    } else {
        entered
    }
}

/// Giving the same answer twice changes nothing the second time.
pub proof fn lemma_merge_idempotent(current: Seq<char>, entered: Seq<char>)
    ensures
        merged(merged(current, entered), entered) == merged(current, entered),
{
}

/// A blank answer keeps the field; any other answer becomes the field.
pub proof fn lemma_merge_blank_keeps(current: Seq<char>, entered: Seq<char>)
    ensures
        trimmed(entered).len() == 0 ==> merged(current, entered) == current,
        trimmed(entered).len() != 0 ==> merged(current, entered) == entered,
{
}

} // verus!
