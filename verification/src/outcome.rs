//! What one attempt on one identifier can come to.

use vstd::prelude::*;

verus! {

/// An acquired resource: its identifier and the name it is stored under.
#[derive(Clone, Debug, PartialEq, Eq)]
pub struct ResourceMetadata {
    /// The identifier that was probed.
    pub id: u32,
    /// The file name under which the resource is kept.
    pub filename: String,
}

/// The result of one retrieval.
#[derive(Clone, Debug, PartialEq, Eq)]
pub enum FetchOutcome {
    /// The response qualified as a resource and was stored.
    Acquired(ResourceMetadata),
    /// The exchange completed, but the response is no resource.
    Rejected,
    /// The exchange itself failed; the text names the cause.
    TransportError(String),
}

/// How the unit of work that ran one retrieval ended.
#[derive(Clone, Debug, PartialEq, Eq)]
pub enum TaskResult {
    /// The unit ran to completion and reports an outcome.
    Finished(FetchOutcome),
    /// The unit did not run to completion, so no outcome is known.
    Aborted,
}

/// One identifier of a batch, paired with the end of its unit of work.
#[derive(Clone, Debug, PartialEq, Eq)]
pub struct BatchItem {
    /// The identifier that the unit was given.
    pub id: u32,
    /// How the unit ended.
    pub result: TaskResult,
}

impl FetchOutcome {
    /// Tells whether the outcome is an acquisition.
    pub fn is_acquired(&self) -> (yes: bool)
        ensures
            yes == (self is Acquired),
    {
        match self {
            FetchOutcome::Acquired(_) => true,
            _ => false,
        }
    }
}

impl BatchItem {
    /// The item counts as a success.
    pub open spec fn acquired(&self) -> bool {
        self.result matches TaskResult::Finished(FetchOutcome::Acquired(_))
    }

    /// The item's unit of work did not run to completion.
    pub open spec fn aborted(&self) -> bool {
        self.result is Aborted
    }

    /// The item's retrieval ran and failed, which frees its identifier for
    /// a later draw.
    pub open spec fn released(&self) -> bool {
        !self.acquired() && !self.aborted()
    }

    /// Tells whether the item counts as a success.
    pub fn is_acquired(&self) -> (yes: bool)
        ensures
            yes == self.acquired(),
    {
        match &self.result {
            TaskResult::Finished(outcome) => outcome.is_acquired(),
            TaskResult::Aborted => false,
        }
    }

    /// Tells whether the item's unit of work did not run to completion.
    pub fn is_aborted(&self) -> (yes: bool)
        ensures
            yes == self.aborted(),
    {
        match &self.result {
            TaskResult::Finished(_) => false,
            TaskResult::Aborted => true,
        }
    }
}

} // verus!
