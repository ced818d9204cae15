//! Failures of the store, as every layer reports them.

use vstd::prelude::*;
use vstd::string::StringExecFns;

verus! {

/// Why a store operation failed: the step of the operation that failed, and
/// what the store said.
#[derive(Debug)]
pub struct Failure {
    pub context: String,
    pub cause: String,
}

/// The view of a [`Failure`].
pub struct FailureView {
    pub context: Seq<char>,
    pub cause: Seq<char>,
}

impl View for Failure {
    type V = FailureView;

    open spec fn view(&self) -> FailureView {
        FailureView { context: self.context@, cause: self.cause@ }
    }
}

/// The two kinds of failure that callers tell apart, in every layer.
pub enum Fault {
    /// The store failed; nothing was changed.
    Unknown(FailureView),
    /// The recipe that the operation names does not exist.
    NotFound,
}

/// The text that reports an unknown failure.
pub open spec fn unknown_message(failure: FailureView) -> Seq<char> {
    "An unknown error occured: "@ + failure.context
}

/// The text that reports a missing recipe.
pub open spec fn not_found_message() -> Seq<char> {
    "The recipe could not be found"@
}

/// The text that reports a fault.
pub open spec fn fault_message(fault: Fault) -> Seq<char> {
    match fault {
        Fault::Unknown(failure) => unknown_message(failure),
        Fault::NotFound => not_found_message(),
    }
}

impl Failure {
    /// A failure of the step `context`, caused by `cause`.
    pub fn new(context: &str, cause: String) -> (failure: Failure)
        ensures
            failure@ == (FailureView { context: context@, cause: cause@ }),
    {
        Failure { context: String::from_str(context), cause }
    }

    /// The report of an unknown failure: a fixed prefix and the failed step.
    pub fn message(&self) -> (text: String)
        ensures
            text@ == unknown_message(self@),
    {
        let mut text = String::from_str("An unknown error occured: ");
        text.append(self.context.as_str());
        text
    }
}

/// The report of a missing recipe.
pub fn not_found_text() -> (text: String)
    ensures
        text@ == not_found_message(),
{
    String::from_str("The recipe could not be found")
}

} // verus!
