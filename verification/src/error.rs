//! The failure kinds a task contains. All of them are per-element or
//! per-checkpoint conditions: they are logged by the host and never crash the
//! task's message loop.

use vstd::prelude::*;

verus! {

/// Why one element was rejected or its transformation failed. The element is
/// dropped — not retried, not forwarded — and the task goes on with the next
/// message.
#[derive(Clone, Debug, PartialEq, Eq)]
pub enum TaskError {
    /// The element's declared task id does not match the receiving task's.
    /// Both ids are carried so the log line can show them.
    BadTask { element_task_id: String, task_id: String },
    /// Construction of the execution context for a UDF call failed; carries
    /// the underlying diagnostic.
    Context { message: String },
    /// The UDF invocation itself failed or returned an unusable result.
    UdfExecution { message: String },
}

/// A checkpoint or state-persistence failure. Best-effort checkpointing:
/// logged, the task remains live, later messages are processed normally.
#[derive(Clone, Debug, PartialEq, Eq)]
pub struct PersistError {
    pub message: String,
}

} // verus!
