//! The shapes in which a history is handed to consumers.
use vstd::prelude::*;
use crate::event::{History, HistoryEvent};

verus! {

/// A workflow type, by name.
#[derive(Clone, Debug, PartialEq, Eq)]
pub struct WorkflowType {
    pub name: String,
}

/// How a task queue is used.
#[derive(Clone, Copy, Debug, PartialEq, Eq, Structural)]
pub enum TaskQueueKind {
    Unspecified,
    Normal,
    Sticky,
}

/// A task queue, by name and kind.
#[derive(Clone, Debug, PartialEq, Eq)]
pub struct TaskQueue {
    pub name: String,
    pub kind: TaskQueueKind,
}

/// A response to a poll for a workflow task.
#[derive(Debug, PartialEq, Eq)]
pub struct PollWorkflowTaskQueueResponse {
    /// Opaque handle that correlates the task with its completion.
    pub task_token: Vec<u8>,
    pub workflow_type: Option<WorkflowType>,
    pub previous_started_event_id: i64,
    pub started_event_id: i64,
    pub history: Option<History>,
    pub workflow_execution_task_queue: Option<TaskQueue>,
}

/// A response to a request for a workflow execution's history.
#[derive(Debug, PartialEq, Eq)]
pub struct GetWorkflowExecutionHistoryResponse {
    pub history: Option<History>,
    pub archived: bool,
}

/// The events that a history response carries, if it carries a history.
pub open spec fn response_events(r: GetWorkflowExecutionHistoryResponse) -> Option<Seq<HistoryEvent>> {
    match r.history {
        Some(h) => Some(h.events@),
        None => None,
    }
}

} // verus!
