//! The text reported when an annotated unwrap finds no payload.

use vstd::prelude::*;
use vstd::string::StringExecFns;

verus! {

/// The text that every violation message starts with.
pub open spec fn violation_prefix() -> Seq<char> {
    "[BUG] violated: "@
}

/// The message for a violated assumption: the prefix, then the reason verbatim.
pub open spec fn violation_text(reason: Seq<char>) -> Seq<char> {
    violation_prefix() + reason
}

/// Builds the message reported when the assumption justified by `reason` is violated.
pub fn violation_message(reason: &str) -> (r: String)
    ensures
        r@ == violation_text(reason@),
{
    let mut m = String::from_str("[BUG] violated: ");
    m.append(reason);
    m
}

} // verus!
