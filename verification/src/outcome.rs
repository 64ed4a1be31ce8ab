//! The outcomes that one call into the engine can report.

use vstd::prelude::*;

verus! {

/// What one step of a statement reports.
#[derive(Clone, Copy, Debug, PartialEq, Eq, Structural)]
pub enum StepOutcome {
    /// A result row is available; the next step resumes after it.
    Row,
    /// A storage operation is pending; the caller services I/O and steps again.
    Io,
    /// The program ran to its end.
    Done,
    /// The run was cancelled from outside.
    Interrupt,
    /// A lock is held by another writer; the statement has not advanced.
    Busy,
}

/// What one call of a page-cache flush reports.
#[derive(Clone, Copy, Debug, PartialEq, Eq, Structural)]
pub enum CheckpointOutcome {
    /// Every dirty page has reached storage.
    Done,
    /// A storage operation is pending; the caller services I/O and flushes again.
    Io,
}

} // verus!
