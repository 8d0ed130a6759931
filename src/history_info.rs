//! Validation and task-boundary segmentation of a workflow history.
use vstd::prelude::*;
use crate::event::{
    is_task_failure_kind, is_terminal_kind, started_attributes, workflow_type_of, EventAttributes,
    EventType, History, HistoryEvent,
};
use crate::responses::{
    response_events, GetWorkflowExecutionHistoryResponse, PollWorkflowTaskQueueResponse,
    TaskQueue, TaskQueueKind, WorkflowType,
};

verus! {

/// Why a history was rejected.
#[derive(Clone, Copy, Debug, PartialEq, Eq, Structural)]
pub enum HistoryInfoError {
    /// The history holds no event.
    EmptyHistory,
    /// The first event is not a workflow-execution-started event naming a workflow type.
    MalformedFirstEvent,
    /// Two task closings resolved to the same started-event id.
    DuplicateStartedId,
    /// A task-started event is followed by something other than the task's completion,
    /// failure or time-out.
    UnexpectedEventAfterTaskStarted,
    /// The history stops in the middle of a task without a terminal event.
    UnexpectedHistoryEnd,
}

/// Where the scan over a history ends: a result retaining the first `len` events, a
/// rejection, or running off the end without deciding.
pub enum ScanOutcome {
    Built { prev: int, started: int, len: nat, count: nat },
    Rejected(HistoryInfoError),
    Undecided,
}

/// Whether the task count `c` is the requested stopping point.
pub open spec fn is_target(target: Option<usize>, c: nat) -> bool {
    match target {
        Some(k) => k == c,
        None => false,
    }
}

/// `evs[i]` is a task-started event that closes its task: it is the last event, or the
/// task's completion follows it.
pub open spec fn closes_task(evs: Seq<HistoryEvent>, i: int) -> bool {
    &&& evs[i].event_type == EventType::WorkflowTaskStarted
    &&& (i + 1 == evs.len() || evs[i + 1].event_type == EventType::WorkflowTaskCompleted)
}

/// `evs[i]` is a task-started event followed by an event that cannot follow it.
pub open spec fn bad_successor(evs: Seq<HistoryEvent>, i: int) -> bool {
    &&& evs[i].event_type == EventType::WorkflowTaskStarted
    &&& i + 1 < evs.len()
    &&& evs[i + 1].event_type != EventType::WorkflowTaskCompleted
    &&& !is_task_failure_kind(evs[i + 1].event_type)
}

/// The scan of `evs` from index `i`, with `started` the id of the last closing
/// task-started event so far (0 if none) and `count` the tasks closed so far.
pub open spec fn scan(
    evs: Seq<HistoryEvent>,
    target: Option<usize>,
    i: int,
    started: int,
    count: nat,
) -> ScanOutcome
    decreases evs.len() - i,
{
    if i < 0 || i >= evs.len() {
        ScanOutcome::Undecided
    } else {
        let last = i + 1 == evs.len();
        let id = evs[i].event_id as int;
        if closes_task(evs, i) {
            if id == started {
                ScanOutcome::Rejected(HistoryInfoError::DuplicateStartedId)
            } else if is_target(target, count + 1) || last {
                ScanOutcome::Built { prev: started, started: id, len: (i + 1) as nat, count: count + 1 }
            } else {
                scan(evs, target, i + 1, id, count + 1)
            }
        } else if bad_successor(evs, i) {
            ScanOutcome::Rejected(HistoryInfoError::UnexpectedEventAfterTaskStarted)
        } else if last {
            if is_terminal_kind(evs[i].event_type) || target is None {
                ScanOutcome::Built { prev: started, started, len: (i + 1) as nat, count }
            } else if started != id {
                ScanOutcome::Rejected(HistoryInfoError::UnexpectedHistoryEnd)
            } else {
                ScanOutcome::Undecided
            }
        } else {
            scan(evs, target, i + 1, started, count)
        }
    }
}

/// What constructing from `evs`, stopping at task `target`, comes to.
pub open spec fn construction(evs: Seq<HistoryEvent>, target: Option<usize>) -> ScanOutcome {
    if evs.len() == 0 {
        ScanOutcome::Rejected(HistoryInfoError::EmptyHistory)
    } else if workflow_type_of(evs[0]) is None {
        ScanOutcome::Rejected(HistoryInfoError::MalformedFirstEvent)
    } else {
        scan(evs, target, 0, 0, 0)
    }
}

/// Every task-started event but the last event is followed by the task's completion,
/// failure or time-out.
pub open spec fn successors_valid(evs: Seq<HistoryEvent>) -> bool {
    forall|i: int| 0 <= i < evs.len() - 1 ==> !#[trigger] bad_successor(evs, i)
}

/// The abstract content of a `HistoryInfo`.
pub struct HistoryInfoView {
    pub previous_started_event_id: int,
    pub workflow_task_started_event_id: int,
    pub events: Seq<HistoryEvent>,
    pub wf_task_count: nat,
    pub wf_type: Seq<char>,
}

/// A validated history, possibly cut at a requested workflow task. Used for replay and
/// other testing.
#[derive(Debug, PartialEq)]
pub struct HistoryInfo {
    previous_started_event_id: i64,
    workflow_task_started_event_id: i64,
    // Private, so that the validating constructor is the only way to obtain a value.
    events: Vec<HistoryEvent>,
    wf_task_count: usize,
    wf_type: String,
}

impl View for HistoryInfo {
    type V = HistoryInfoView;

    closed spec fn view(&self) -> HistoryInfoView {
        HistoryInfoView {
            previous_started_event_id: self.previous_started_event_id as int,
            workflow_task_started_event_id: self.workflow_task_started_event_id as int,
            events: self.events@,
            wf_task_count: self.wf_task_count as nat,
            wf_type: self.wf_type@,
        }
    }
}

/// `v` is what constructing from `evs` with stopping point `target` yields.
pub open spec fn built_from(v: HistoryInfoView, evs: Seq<HistoryEvent>, target: Option<usize>) -> bool {
    &&& construction(evs, target) == (ScanOutcome::Built {
        prev: v.previous_started_event_id,
        started: v.workflow_task_started_event_id,
        len: v.events.len(),
        count: v.wf_task_count,
    })
    &&& v.events == evs.subrange(0, v.events.len() as int)
    &&& workflow_type_of(evs[0]) == Some(v.wf_type)
}

proof fn lemma_prefix_successors(evs: Seq<HistoryEvent>, m: int)
    requires
        0 < m <= evs.len(),
        forall|j: int| 0 <= j < m - 1 ==> !#[trigger] bad_successor(evs, j),
    ensures
        successors_valid(evs.subrange(0, m)),
{
    let p = evs.subrange(0, m);
    assert forall|j: int| 0 <= j < p.len() - 1 implies !#[trigger] bad_successor(p, j) by {
        assert(p[j] == evs[j] && p[j + 1] == evs[j + 1]);
        assert(!bad_successor(evs, j));
    }
}

/// Index of the last event of kind `t` in `s`, or -1 if there is none.
pub open spec fn last_index_of(s: Seq<HistoryEvent>, t: EventType) -> int
    decreases s.len(),
{
    if s.len() == 0 {
        -1
    } else if s.last().event_type == t {
        s.len() - 1
    } else {
        last_index_of(s.drop_last(), t)
    }
}

/// What remains of `s` once everything up to and including its last task completion is
/// removed.
pub open spec fn after_last_completion(s: Seq<HistoryEvent>) -> Seq<HistoryEvent> {
    s.subrange(last_index_of(s, EventType::WorkflowTaskCompleted) + 1, s.len() as int)
}

pub(crate) proof fn lemma_last_index_of(s: Seq<HistoryEvent>, t: EventType, j: int)
    requires
        0 <= j < s.len(),
        s[j].event_type == t,
        forall|k: int| j < k < s.len() ==> (#[trigger] s[k]).event_type != t,
    ensures
        last_index_of(s, t) == j,
    decreases s.len(),
{
    if s.last().event_type != t {
        lemma_last_index_of(s.drop_last(), t, j);
    }
}

proof fn lemma_suffix_successors(evs: Seq<HistoryEvent>, m: int)
    requires
        0 <= m <= evs.len(),
        successors_valid(evs),
    ensures
        successors_valid(evs.subrange(m, evs.len() as int)),
{
    let p = evs.subrange(m, evs.len() as int);
    assert forall|j: int| 0 <= j < p.len() - 1 implies !#[trigger] bad_successor(p, j) by {
        assert(p[j] == evs[j + m] && p[j + 1] == evs[j + m + 1]);
        assert(!bad_successor(evs, j + m));
    }
}

/// Relies on rand's `thread_rng` and `Rng::gen`: sixteen random bytes.
#[verifier::external_body]
fn random_task_token() -> (r: Vec<u8>)
    ensures
        r@.len() == 16,
{
    let token: [u8; 16] = rand::Rng::gen(&mut rand::thread_rng());
    token.to_vec()
}

impl HistoryInfo {
    /// The retained events keep the task sequencing rules.
    #[verifier::type_invariant]
    spec fn well_formed(self) -> bool {
        successors_valid(self.events@)
    }

    /// Constructs a new instance, retaining only enough events to reach workflow task
    /// number `to_wf_task_num`. If it is not given, all events are retained.
    pub fn new_from_history(h: &History, to_wf_task_num: Option<usize>) -> (r: Result<
        Self,
        HistoryInfoError,
    >)
        requires
            !(construction(h.events@, to_wf_task_num) is Undecided),
        ensures
            match r {
                Ok(hi) => built_from(hi@, h.events@, to_wf_task_num),
                Err(e) => construction(h.events@, to_wf_task_num) == ScanOutcome::Rejected(e),
            },
    {
        let events = &h.events;
        if events.len() == 0 {
            return Err(HistoryInfoError::EmptyHistory);
        }
        let is_all_hist = to_wf_task_num.is_none();
        let wf_type = match &events[0].attributes {
            Some(EventAttributes::WorkflowExecutionStarted(attrs)) => match &attrs.workflow_type {
                Some(name) => name.clone(),
                None => return Err(HistoryInfoError::MalformedFirstEvent),
            },
            _ => return Err(HistoryInfoError::MalformedFirstEvent),
        };
        let ghost evs = events@;
        let mut workflow_task_started_event_id: i64 = 0;
        let mut wf_task_count: usize = 0;
        let mut kept: Vec<HistoryEvent> = Vec::new();
        let n = events.len();
        let mut i: usize = 0;
        while i < n
            invariant
                n == evs.len(),
                evs == events@,
                evs == h.events@,
                i <= n,
                wf_task_count <= i,
                is_all_hist == (to_wf_task_num is None),
                kept@ == evs.subrange(0, i as int),
                forall|j: int| 0 <= j < i ==> !#[trigger] bad_successor(evs, j),
                workflow_type_of(evs[0]) == Some(wf_type@),
                construction(evs, to_wf_task_num) == scan(
                    evs,
                    to_wf_task_num,
                    i as int,
                    workflow_task_started_event_id as int,
                    wf_task_count as nat,
                ),
                !(construction(evs, to_wf_task_num) is Undecided),
            decreases n - i,
        {
            let event = &events[i];
            let has_next = i + 1 < n;
            kept.push(event.clone());
            proof {
                assert(kept@ =~= evs.subrange(0, i + 1));
                lemma_prefix_successors(evs, i + 1);
            }
            if event.event_type == EventType::WorkflowTaskStarted {
                let next_is_completed = has_next && events[i + 1].event_type
                    == EventType::WorkflowTaskCompleted;
                let next_is_failed_or_timeout = has_next && (events[i + 1].event_type
                    == EventType::WorkflowTaskFailed || events[i + 1].event_type
                    == EventType::WorkflowTaskTimedOut);
                if !has_next || next_is_completed {
                    let previous_started_event_id = workflow_task_started_event_id;
                    workflow_task_started_event_id = event.event_id;
                    if workflow_task_started_event_id == previous_started_event_id {
                        return Err(HistoryInfoError::DuplicateStartedId);
                    }
                    wf_task_count = wf_task_count + 1;
                    let reached = match to_wf_task_num {
                        Some(k) => k == wf_task_count,
                        None => false,
                    };
                    if reached || !has_next {
                        return Ok(
                            HistoryInfo {
                                previous_started_event_id,
                                workflow_task_started_event_id,
                                events: kept,
                                wf_task_count,
                                wf_type,
                            },
                        );
                    }
                } else if !next_is_failed_or_timeout {
                    return Err(HistoryInfoError::UnexpectedEventAfterTaskStarted);
                }
            }
            if !has_next {
                if event.is_final_wf_execution_event() || is_all_hist {
                    // At the end of the execution, act as if the complete history were being
                    // replayed: the previously started task is then the last task.
                    return Ok(
                        HistoryInfo {
                            previous_started_event_id: workflow_task_started_event_id,
                            workflow_task_started_event_id,
                            events: kept,
                            wf_task_count,
                            wf_type,
                        },
                    );
                }
                if workflow_task_started_event_id != event.event_id {
                    return Err(HistoryInfoError::UnexpectedHistoryEnd);
                }
            }
            i = i + 1;
        }
        vstd::pervasive::unreached()
    }

    /// Removes events from the beginning of this history so that it looks like what would
    /// have been delivered on a sticky queue, where the previously started task was the one
    /// before the last task in this history.
    ///
    /// This is not fully accurate: it keeps the commands that were part of the last task
    /// completion, which the server would typically not include. That is good enough for
    /// testing.
    pub fn make_incremental(&mut self)
        requires
            exists|j: int|
                0 <= j < old(self)@.events.len() && (#[trigger] old(self)@.events[j]).event_type
                    == EventType::WorkflowTaskCompleted,
        ensures
            final(self)@ == (HistoryInfoView {
                events: after_last_completion(old(self)@.events),
                ..old(self)@
            }),
    {
        proof {
            use_type_invariant(&*self);
        }
        let ghost s = self.events@;
        let n = self.events.len();
        // Candidates lie below `ix`.
        let mut ix: usize = n;
        while ix > 0
            invariant
                s == self.events@,
                n == s.len(),
                ix <= n,
                forall|k: int| ix <= k < n ==> (#[trigger] s[k]).event_type
                    != EventType::WorkflowTaskCompleted,
            ensures
                ix > 0 ==> s[ix - 1].event_type == EventType::WorkflowTaskCompleted,
            decreases ix,
        {
            if self.events[ix - 1].event_type == EventType::WorkflowTaskCompleted {
                break;
            }
            ix = ix - 1;
        }
        proof {
            if ix == 0 {
                let j = choose|j: int|
                    0 <= j < s.len() && (#[trigger] s[j]).event_type
                        == EventType::WorkflowTaskCompleted;
                assert(s[j].event_type == EventType::WorkflowTaskCompleted);
            }
        }
        let last_complete_ix = ix - 1;
        proof {
            lemma_last_index_of(s, EventType::WorkflowTaskCompleted, last_complete_ix as int);
            lemma_suffix_successors(s, ix as int);
        }
        self.events = copy_events(&self.events, last_complete_ix + 1);
    }

    /// The retained events, in order.
    pub fn events(&self) -> (r: &[HistoryEvent])
        ensures
            r@ == self@.events,
    {
        self.events.as_slice()
    }

    /// The original run id, read from the first event.
    pub fn orig_run_id(&self) -> (r: &str)
        requires
            self@.events.len() > 0,
            started_attributes(self@.events[0]) is Some,
        ensures
            r@ == started_attributes(self@.events[0])->0.original_execution_run_id@,
    {
        match &self.events[0].attributes {
            Some(EventAttributes::WorkflowExecutionStarted(wes)) => wes.original_execution_run_id.as_str(),
            _ => vstd::pervasive::unreached(),
        }
    }

    /// The number of workflow tasks in this history.
    pub fn wf_task_count(&self) -> (r: usize)
        ensures
            r == self@.wf_task_count,
    {
        self.wf_task_count
    }

    /// The id of the task-started event before the current one.
    pub fn previous_started_event_id(&self) -> (r: i64)
        ensures
            r == self@.previous_started_event_id,
    {
        self.previous_started_event_id
    }

    /// The id of the current task-started event.
    pub fn workflow_task_started_event_id(&self) -> (r: i64)
        ensures
            r == self@.workflow_task_started_event_id,
    {
        self.workflow_task_started_event_id
    }

    /// A workflow task poll response holding all the events of this history and a randomly
    /// generated task token. Callers attach a workflow execution where they need one.
    pub fn as_poll_wft_response(&self, task_q: String) -> (r: PollWorkflowTaskQueueResponse)
        ensures
            r.task_token@.len() == 16,
            r.history matches Some(h) && h.events@ == self@.events,
            r.workflow_type matches Some(t) && t.name@ == self@.wf_type,
            r.workflow_execution_task_queue matches Some(q) && q.name == task_q && q.kind
                == TaskQueueKind::Normal,
            r.previous_started_event_id == self@.previous_started_event_id,
            r.started_event_id == self@.workflow_task_started_event_id,
    {
        let task_token = random_task_token();
        let events = copy_events(&self.events, 0);
        assert(events@ =~= self.events@);
        PollWorkflowTaskQueueResponse {
            task_token,
            workflow_type: Some(WorkflowType { name: self.wf_type.clone() }),
            previous_started_event_id: self.previous_started_event_id,
            started_event_id: self.workflow_task_started_event_id,
            history: Some(History { events }),
            workflow_execution_task_queue: Some(TaskQueue { name: task_q, kind: TaskQueueKind::Normal }),
        }
    }

    /// The history that `into_history` produces.
    pub closed spec fn spec_into_history(self) -> History {
        History { events: self.events }
    }

    /// Moves the retained events out into a plain history.
    pub fn into_history(self) -> (r: History)
        ensures
            r == self.spec_into_history(),
            r.events@ == self@.events,
    {
        History { events: self.events }
    }

    /// Moves the retained events out into a history response.
    pub fn into_history_response(self) -> (r: GetWorkflowExecutionHistoryResponse)
        ensures
            r == (GetWorkflowExecutionHistoryResponse {
                history: Some(self.spec_into_history()),
                archived: false,
            }),
            response_events(r) == Some(self@.events),
    {
        let history = self.into_history();
        GetWorkflowExecutionHistoryResponse { history: Some(history), archived: false }
    }
}

/// A copy of `v` from index `from` on.
fn copy_events(v: &Vec<HistoryEvent>, from: usize) -> (r: Vec<HistoryEvent>)
    requires
        from <= v@.len(),
    ensures
        r@ == v@.subrange(from as int, v@.len() as int),
{
    let mut r: Vec<HistoryEvent> = Vec::new();
    let mut i: usize = from;
    while i < v.len()
        invariant
            from <= i <= v.len(),
            r@ == v@.subrange(from as int, i as int),
        decreases v.len() - i,
    {
        r.push(v[i].clone());
        proof {
            assert(r@ =~= v@.subrange(from as int, i + 1));
        }
        i = i + 1;
    }
    r
}

impl Clone for HistoryInfo {
    fn clone(&self) -> (r: Self)
        ensures
            r@ == self@,
    {
        proof {
            use_type_invariant(self);
        }
        let events = copy_events(&self.events, 0);
        assert(events@ =~= self.events@);
        HistoryInfo {
            previous_started_event_id: self.previous_started_event_id,
            workflow_task_started_event_id: self.workflow_task_started_event_id,
            events,
            wf_task_count: self.wf_task_count,
            wf_type: self.wf_type.clone(),
        }
    }
}

impl From<HistoryInfo> for History {
    fn from(i: HistoryInfo) -> (r: History)
        ensures
            r.events@ == i@.events,
    {
        i.into_history()
    }
}

impl vstd::std_specs::convert::FromSpecImpl<HistoryInfo> for History {
    open spec fn obeys_from_spec() -> bool {
        true
    }

    open spec fn from_spec(i: HistoryInfo) -> History {
        i.spec_into_history()
    }
}

impl From<HistoryInfo> for GetWorkflowExecutionHistoryResponse {
    fn from(i: HistoryInfo) -> (r: GetWorkflowExecutionHistoryResponse)
        ensures
            response_events(r) == Some(i@.events),
    {
        i.into_history_response()
    }
}

impl vstd::std_specs::convert::FromSpecImpl<HistoryInfo> for GetWorkflowExecutionHistoryResponse {
    open spec fn obeys_from_spec() -> bool {
        true
    }

    open spec fn from_spec(i: HistoryInfo) -> GetWorkflowExecutionHistoryResponse {
        GetWorkflowExecutionHistoryResponse { history: Some(i.spec_into_history()), archived: false }
    }
}

} // verus!
