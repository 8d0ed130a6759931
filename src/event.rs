//! History events, as far as the history logic reads them.
use vstd::prelude::*;

verus! {

/// The kind of a history event.
#[derive(Clone, Copy, Debug, PartialEq, Eq, Structural)]
pub enum EventType {
    Unspecified,
    WorkflowExecutionStarted,
    WorkflowExecutionCompleted,
    WorkflowExecutionFailed,
    WorkflowExecutionTimedOut,
    WorkflowTaskScheduled,
    WorkflowTaskStarted,
    WorkflowTaskCompleted,
    WorkflowTaskTimedOut,
    WorkflowTaskFailed,
    ActivityTaskScheduled,
    ActivityTaskStarted,
    ActivityTaskCompleted,
    ActivityTaskFailed,
    TimerStarted,
    TimerFired,
    TimerCanceled,
    WorkflowExecutionCancelRequested,
    WorkflowExecutionCanceled,
    MarkerRecorded,
    WorkflowExecutionSignaled,
    WorkflowExecutionTerminated,
    WorkflowExecutionContinuedAsNew,
}

/// Event kinds that end a workflow execution.
pub open spec fn is_terminal_kind(t: EventType) -> bool {
    match t {
        EventType::WorkflowExecutionCompleted
        | EventType::WorkflowExecutionFailed
        | EventType::WorkflowExecutionTimedOut
        | EventType::WorkflowExecutionCanceled
        | EventType::WorkflowExecutionTerminated
        | EventType::WorkflowExecutionContinuedAsNew => true,
        _ => false,
    }
}

/// Event kinds that end a workflow task attempt without completing it.
pub open spec fn is_task_failure_kind(t: EventType) -> bool {
    t == EventType::WorkflowTaskFailed || t == EventType::WorkflowTaskTimedOut
}

/// What a workflow-execution-started event records.
#[derive(Debug, PartialEq, Eq)]
pub struct WorkflowExecutionStartedAttributes {
    /// The workflow type name, when the event names one.
    pub workflow_type: Option<String>,
    pub original_execution_run_id: String,
}

impl Clone for WorkflowExecutionStartedAttributes {
    fn clone(&self) -> (r: Self)
        ensures
            r == *self,
    {
        let workflow_type = match &self.workflow_type {
            Some(name) => Some(name.clone()),
            None => None,
        };
        WorkflowExecutionStartedAttributes {
            workflow_type,
            original_execution_run_id: self.original_execution_run_id.clone(),
        }
    }
}

/// Kind-specific data of an event. Only the started event's data is read here.
#[derive(Debug, PartialEq, Eq)]
pub enum EventAttributes {
    WorkflowExecutionStarted(WorkflowExecutionStartedAttributes),
    Other,
}

impl Clone for EventAttributes {
    fn clone(&self) -> (r: Self)
        ensures
            r == *self,
    {
        match self {
            EventAttributes::WorkflowExecutionStarted(a) => EventAttributes::WorkflowExecutionStarted(
                a.clone(),
            ),
            EventAttributes::Other => EventAttributes::Other,
        }
    }
}

/// One entry of a workflow execution's history.
#[derive(Debug, PartialEq, Eq)]
pub struct HistoryEvent {
    pub event_id: i64,
    pub event_type: EventType,
    pub attributes: Option<EventAttributes>,
}

impl Clone for HistoryEvent {
    fn clone(&self) -> (r: Self)
        ensures
            r == *self,
    {
        let attributes = match &self.attributes {
            Some(a) => Some(a.clone()),
            None => None,
        };
        HistoryEvent { event_id: self.event_id, event_type: self.event_type, attributes }
    }
}

impl HistoryEvent {
    /// Whether this event marks the end of the workflow execution.
    pub fn is_final_wf_execution_event(&self) -> (r: bool)
        ensures
            r == is_terminal_kind(self.event_type),
    {
        match self.event_type {
            EventType::WorkflowExecutionCompleted
            | EventType::WorkflowExecutionFailed
            | EventType::WorkflowExecutionTimedOut
            | EventType::WorkflowExecutionCanceled
            | EventType::WorkflowExecutionTerminated
            | EventType::WorkflowExecutionContinuedAsNew => true,
            _ => false,
        }
    }
}

/// The started-event data of `e`, if `e` carries it.
pub open spec fn started_attributes(e: HistoryEvent) -> Option<WorkflowExecutionStartedAttributes> {
    match e.attributes {
        Some(EventAttributes::WorkflowExecutionStarted(a)) => Some(a),
        _ => None,
    }
}

/// The workflow type name that `e` records, if it is a started event that names one.
pub open spec fn workflow_type_of(e: HistoryEvent) -> Option<Seq<char>> {
    match started_attributes(e) {
        Some(a) => match a.workflow_type {
            Some(name) => Some(name@),
            None => None,
        },
        None => None,
    }
}

/// An ordered sequence of events.
#[derive(Debug, PartialEq, Eq)]
pub struct History {
    pub events: Vec<HistoryEvent>,
}

} // verus!
