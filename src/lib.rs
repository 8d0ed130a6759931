//! A validated, task-boundary-aware view over a workflow execution's event history.

pub mod event;
pub mod history_info;
pub mod laws;
pub mod responses;

pub use event::{
    EventAttributes, EventType, History, HistoryEvent, WorkflowExecutionStartedAttributes,
};
pub use history_info::{HistoryInfo, HistoryInfoError};
pub use responses::{
    GetWorkflowExecutionHistoryResponse, PollWorkflowTaskQueueResponse, TaskQueue, TaskQueueKind,
    WorkflowType,
};
