use history_info::{
    EventAttributes, EventType, History, HistoryEvent, HistoryInfo, HistoryInfoError,
    GetWorkflowExecutionHistoryResponse, TaskQueueKind, WorkflowExecutionStartedAttributes,
};

fn started_event(id: i64, wf_type: Option<&str>) -> HistoryEvent {
    HistoryEvent {
        event_id: id,
        event_type: EventType::WorkflowExecutionStarted,
        attributes: Some(EventAttributes::WorkflowExecutionStarted(
            WorkflowExecutionStartedAttributes {
                workflow_type: wf_type.map(|s| s.to_string()),
                original_execution_run_id: "run-1".to_string(),
            },
        )),
    }
}

fn ev(id: i64, t: EventType) -> HistoryEvent {
    HistoryEvent { event_id: id, event_type: t, attributes: None }
}

fn history(types: &[EventType]) -> History {
    let mut events = vec![started_event(1, Some("wf"))];
    for (i, t) in types.iter().enumerate() {
        events.push(ev(i as i64 + 2, *t));
    }
    History { events }
}

/// Started, one full workflow task, a timer that fires, then a second task that is
/// scheduled and started.
fn single_timer() -> History {
    history(&[
        EventType::WorkflowTaskScheduled,
        EventType::WorkflowTaskStarted,
        EventType::WorkflowTaskCompleted,
        EventType::TimerStarted,
        EventType::TimerFired,
        EventType::WorkflowTaskScheduled,
        EventType::WorkflowTaskStarted,
    ])
}

fn ids(hi: &HistoryInfo) -> Vec<i64> {
    hi.events().iter().map(|e| e.event_id).collect()
}

#[test]
fn history_info_constructs_properly() {
    let t = single_timer();

    let history_info = HistoryInfo::new_from_history(&t, Some(1)).unwrap();
    assert_eq!(3, history_info.events().len());
    let history_info = HistoryInfo::new_from_history(&t, Some(2)).unwrap();
    assert_eq!(8, history_info.events().len());
}

#[test]
fn incremental_works() {
    let t = single_timer();
    let mut hi = HistoryInfo::new_from_history(&t, Some(2)).unwrap();
    hi.make_incremental();
    assert_eq!(hi.events().len(), 4);
    assert_eq!(hi.events()[0].event_id, 5);
}

#[test]
fn task_markers_of_single_timer() {
    let t = single_timer();
    let hi = HistoryInfo::new_from_history(&t, Some(1)).unwrap();
    assert_eq!(hi.wf_task_count(), 1);
    assert_eq!(hi.previous_started_event_id(), 0);
    assert_eq!(hi.workflow_task_started_event_id(), 3);
    let hi = HistoryInfo::new_from_history(&t, Some(2)).unwrap();
    assert_eq!(hi.wf_task_count(), 2);
    assert_eq!(hi.previous_started_event_id(), 3);
    assert_eq!(hi.workflow_task_started_event_id(), 8);
    let full = HistoryInfo::new_from_history(&t, None).unwrap();
    assert_eq!(full, hi);
}

#[test]
fn incremental_keeps_bookkeeping() {
    let t = single_timer();
    let mut hi = HistoryInfo::new_from_history(&t, Some(2)).unwrap();
    hi.make_incremental();
    assert_eq!(ids(&hi), vec![5, 6, 7, 8]);
    assert_eq!(hi.wf_task_count(), 2);
    assert_eq!(hi.previous_started_event_id(), 3);
    assert_eq!(hi.workflow_task_started_event_id(), 8);
}

fn three_completed_tasks() -> History {
    history(&[
        EventType::WorkflowTaskScheduled,
        EventType::WorkflowTaskStarted,
        EventType::WorkflowTaskCompleted,
        EventType::TimerStarted,
        EventType::TimerFired,
        EventType::WorkflowTaskScheduled,
        EventType::WorkflowTaskStarted,
        EventType::WorkflowTaskCompleted,
        EventType::ActivityTaskScheduled,
        EventType::ActivityTaskCompleted,
        EventType::WorkflowTaskScheduled,
        EventType::WorkflowTaskStarted,
        EventType::WorkflowTaskCompleted,
        EventType::WorkflowExecutionCompleted,
    ])
}

#[test]
fn full_history_counts_every_task() {
    let h = three_completed_tasks();
    let hi = HistoryInfo::new_from_history(&h, None).unwrap();
    assert_eq!(hi.wf_task_count(), 3);
    assert_eq!(hi.events(), &h.events[..]);
    // The synthesized close at the terminal event repeats the last started id.
    assert_eq!(hi.previous_started_event_id(), 13);
    assert_eq!(hi.workflow_task_started_event_id(), 13);
}

#[test]
fn target_task_cuts_before_its_completion() {
    let h = three_completed_tasks();
    let hi = HistoryInfo::new_from_history(&h, Some(2)).unwrap();
    assert_eq!(hi.wf_task_count(), 2);
    assert_eq!(ids(&hi), (1..=8).collect::<Vec<i64>>());
    assert_eq!(h.events[8].event_type, EventType::WorkflowTaskCompleted);
    assert!(hi.previous_started_event_id() < hi.workflow_task_started_event_id());
    let hi = HistoryInfo::new_from_history(&h, Some(3)).unwrap();
    assert_eq!(hi.wf_task_count(), 3);
    assert_eq!(hi.events().len(), 13);
    assert_eq!(hi.previous_started_event_id(), 8);
    assert_eq!(hi.workflow_task_started_event_id(), 13);
}

#[test]
fn target_beyond_last_task_keeps_whole_terminated_history() {
    let h = three_completed_tasks();
    let hi = HistoryInfo::new_from_history(&h, Some(7)).unwrap();
    assert_eq!(hi.wf_task_count(), 3);
    assert_eq!(hi.events().len(), h.events.len());
}

#[test]
fn incremental_after_previous_completion() {
    let h = three_completed_tasks();
    let mut hi = HistoryInfo::new_from_history(&h, Some(3)).unwrap();
    hi.make_incremental();
    assert_eq!(ids(&hi), vec![10, 11, 12, 13]);
}

fn ends_mid_task(last: EventType) -> History {
    history(&[
        EventType::WorkflowTaskScheduled,
        EventType::WorkflowTaskStarted,
        EventType::TimerStarted,
        EventType::TimerFired,
        EventType::WorkflowTaskScheduled,
        EventType::WorkflowTaskStarted,
        last,
    ])
}

#[test]
fn started_without_completion_is_rejected() {
    let h = history(&[
        EventType::WorkflowTaskScheduled,
        EventType::WorkflowTaskStarted,
        EventType::TimerStarted,
        EventType::TimerFired,
        EventType::WorkflowTaskScheduled,
        EventType::WorkflowTaskStarted,
    ]);
    assert_eq!(
        HistoryInfo::new_from_history(&h, None),
        Err(HistoryInfoError::UnexpectedEventAfterTaskStarted)
    );
}

#[test]
fn history_ending_mid_task_is_rejected_when_cut() {
    let h = ends_mid_task(EventType::WorkflowTaskFailed);
    assert_eq!(
        HistoryInfo::new_from_history(&h, None),
        Err(HistoryInfoError::UnexpectedEventAfterTaskStarted)
    );
    let h = history(&[
        EventType::WorkflowTaskScheduled,
        EventType::WorkflowTaskStarted,
        EventType::WorkflowTaskFailed,
        EventType::WorkflowTaskScheduled,
    ]);
    assert_eq!(
        HistoryInfo::new_from_history(&h, Some(1)),
        Err(HistoryInfoError::UnexpectedHistoryEnd)
    );
}

#[test]
fn history_ending_mid_task_is_kept_whole_or_at_terminal() {
    let h = history(&[
        EventType::WorkflowTaskScheduled,
        EventType::WorkflowTaskStarted,
        EventType::WorkflowTaskFailed,
        EventType::WorkflowTaskScheduled,
    ]);
    let hi = HistoryInfo::new_from_history(&h, None).unwrap();
    assert_eq!(hi.events().len(), 5);
    assert_eq!(hi.wf_task_count(), 0);
    let h = history(&[
        EventType::WorkflowTaskScheduled,
        EventType::WorkflowTaskStarted,
        EventType::WorkflowTaskTimedOut,
        EventType::WorkflowExecutionTerminated,
    ]);
    let hi = HistoryInfo::new_from_history(&h, Some(1)).unwrap();
    assert_eq!(hi.events().len(), 5);
    assert_eq!(hi.wf_task_count(), 0);
    assert_eq!(hi.previous_started_event_id(), 0);
}

#[test]
fn empty_history_is_rejected() {
    let h = History { events: vec![] };
    assert_eq!(HistoryInfo::new_from_history(&h, None), Err(HistoryInfoError::EmptyHistory));
}

#[test]
fn first_event_must_be_execution_started() {
    let h = History { events: vec![ev(1, EventType::WorkflowTaskScheduled)] };
    assert_eq!(
        HistoryInfo::new_from_history(&h, None),
        Err(HistoryInfoError::MalformedFirstEvent)
    );
    let h = History { events: vec![started_event(1, None)] };
    assert_eq!(
        HistoryInfo::new_from_history(&h, None),
        Err(HistoryInfoError::MalformedFirstEvent)
    );
}

#[test]
fn repeated_started_id_is_rejected() {
    let h = History {
        events: vec![
            started_event(1, Some("wf")),
            ev(3, EventType::WorkflowTaskStarted),
            ev(4, EventType::WorkflowTaskCompleted),
            ev(3, EventType::WorkflowTaskStarted),
        ],
    };
    assert_eq!(
        HistoryInfo::new_from_history(&h, None),
        Err(HistoryInfoError::DuplicateStartedId)
    );
}

#[test]
fn original_run_id_comes_from_first_event() {
    let hi = HistoryInfo::new_from_history(&single_timer(), Some(1)).unwrap();
    assert_eq!(hi.orig_run_id(), "run-1");
}

#[test]
fn poll_response_carries_history_and_markers() {
    let hi = HistoryInfo::new_from_history(&single_timer(), Some(2)).unwrap();
    let r = hi.as_poll_wft_response("q1".to_string());
    assert_eq!(r.task_token.len(), 16);
    assert_eq!(r.history.as_ref().unwrap().events, hi.events().to_vec());
    assert_eq!(r.workflow_type.as_ref().unwrap().name, "wf");
    let q = r.workflow_execution_task_queue.as_ref().unwrap();
    assert_eq!(q.name, "q1");
    assert_eq!(q.kind, TaskQueueKind::Normal);
    assert_eq!(r.previous_started_event_id, 3);
    assert_eq!(r.started_event_id, 8);
}

#[test]
fn poll_tokens_differ() {
    let hi = HistoryInfo::new_from_history(&single_timer(), Some(1)).unwrap();
    let a = hi.as_poll_wft_response("q".to_string());
    let b = hi.as_poll_wft_response("q".to_string());
    assert_ne!(a.task_token, b.task_token);
}

#[test]
fn history_response_round_trip() {
    let h = three_completed_tasks();
    let hi = HistoryInfo::new_from_history(&h, Some(2)).unwrap();
    let kept = hi.events().to_vec();
    let resp: GetWorkflowExecutionHistoryResponse = hi.clone().into();
    assert_eq!(resp.history.unwrap().events, kept);
    let plain: History = hi.into();
    assert_eq!(plain.events, kept);
}
