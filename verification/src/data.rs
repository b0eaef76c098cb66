//! The values that flow through a task: elements, the message protocol, the
//! routing destination, outbound messages, and the periodic metric report.

use vstd::prelude::*;

verus! {

/// One unit of streaming data: an identity, an event timestamp, the logical
/// id of the task that must process it, and the payload bytes. Immutable once
/// constructed; ownership transfers on send.
#[derive(Clone, Debug, PartialEq, Eq)]
pub struct Element {
    pub id: u64,
    pub timestamp: u64,
    pub task_id: String,
    pub data: Vec<u8>,
}

/// The inbound message protocol: a tagged union with exactly three kinds.
/// A wire message whose payload carries none of them is a protocol error and
/// is discarded at the receiving boundary, before it reaches a task.
#[derive(Clone, Debug, PartialEq, Eq)]
pub enum TaskMsg {
    /// A time-progress signal; reserved for watermark propagation, handled as
    /// a no-op rather than a fatal condition.
    Watermark(u64),
    /// A data element to run through the task's transformation.
    Element(Element),
    /// A request to persist state durably, carrying the checkpoint identifier.
    Checkpoint(String),
}

/// A resolved downstream address plus the logical id of the target task; a
/// pure value object, fixed at task construction.
#[derive(Clone, Debug, PartialEq, Eq)]
pub struct Destination {
    pub path: String,
    pub task_id: String,
}

/// An element message addressed to a downstream path, ready for the transport
/// collaborator to send.
#[derive(Clone, Debug, PartialEq, Eq)]
pub struct Outbound {
    pub path: String,
    pub element: Element,
}

/// A periodic performance report: the task's id and its current running
/// average of UDF execution times, in nanoseconds. Ephemeral — produced on
/// each report-timer tick, never persisted.
#[derive(Clone, Debug, PartialEq, Eq)]
pub struct Metric {
    pub task_id: String,
    pub task_avg: u64,
}

} // verus!
