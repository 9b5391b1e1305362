//! The wording of a failure message.
use vstd::prelude::*;
use vstd::string::StringExecFns;

verus! {

/// The words that open every failure message.
pub open spec fn failure_prefix() -> Seq<char> {
    "Failed to read file: "@
}

/// The failure message for a read that failed for `reason`: the opening
/// words, then the reason as it was given.
pub open spec fn failure_text(reason: Seq<char>) -> Seq<char> {
    failure_prefix() + reason
}

/// Builds the failure message for a read that failed for `reason`.
pub fn failure_message(reason: &str) -> (message: String)
    ensures
        message@ == failure_text(reason@),
{
    let opening = String::from_str("Failed to read file: ");
    opening.concat(reason)
}

/// Every failure message starts with the opening words, and what follows
/// them is the reason, unchanged.
pub proof fn lemma_failure_text_parts(reason: Seq<char>)
    ensures
        failure_prefix().is_prefix_of(failure_text(reason)),
        failure_text(reason).len() == failure_prefix().len() + reason.len(),
        failure_text(reason).skip(failure_prefix().len() as int) == reason,
{
}

} // verus!
