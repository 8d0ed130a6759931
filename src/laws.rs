//! What construction and truncation guarantee on well-shaped histories.
use vstd::prelude::*;
use crate::event::{is_terminal_kind, workflow_type_of, EventType, HistoryEvent};
use crate::history_info::{
    after_last_completion, bad_successor, built_from, closes_task, construction, is_target,
    last_index_of, lemma_last_index_of, scan, HistoryInfoView, ScanOutcome,
};

verus! {

/// The number of events of kind `t` in `s`.
pub open spec fn count_kind(s: Seq<HistoryEvent>, t: EventType) -> nat
    decreases s.len(),
{
    if s.len() == 0 {
        0
    } else {
        count_kind(s.drop_last(), t) + if s.last().event_type == t {
            1nat
        } else {
            0nat
        }
    }
}

/// Event ids are positive and strictly ascending.
pub open spec fn ids_ascending(s: Seq<HistoryEvent>) -> bool {
    &&& forall|i: int| 0 <= i < s.len() ==> (#[trigger] s[i]).event_id >= 1
    &&& forall|i: int, j: int| 0 <= i < j < s.len() ==> s[i].event_id < s[j].event_id
}

/// A history that starts an execution, completes every workflow task right after it
/// starts, records a task completion only right after a task start, and ends in a terminal
/// event.
pub open spec fn completes_every_task(s: Seq<HistoryEvent>) -> bool {
    &&& s.len() > 0
    &&& s[0].event_type == EventType::WorkflowExecutionStarted
    &&& workflow_type_of(s[0]) is Some
    &&& forall|i: int| 0 <= i < s.len() ==> #[trigger] task_paired_at(s, i)
    &&& is_terminal_kind(s.last().event_type)
}

/// At index `i`, a task start is directly followed by its completion, and a task
/// completion directly follows a task start.
pub open spec fn task_paired_at(s: Seq<HistoryEvent>, i: int) -> bool {
    &&& s[i].event_type == EventType::WorkflowTaskStarted ==> i + 1 < s.len() && s[i
        + 1].event_type == EventType::WorkflowTaskCompleted
    &&& s[i].event_type == EventType::WorkflowTaskCompleted ==> i > 0 && s[i - 1].event_type
        == EventType::WorkflowTaskStarted
}

proof fn lemma_count_step(s: Seq<HistoryEvent>, t: EventType, i: int)
    requires
        0 <= i < s.len(),
    ensures
        count_kind(s.subrange(0, i + 1), t) == count_kind(s.subrange(0, i), t) + if s[i].event_type
            == t {
            1nat
        } else {
            0nat
        },
{
    assert(s.subrange(0, i + 1).drop_last() =~= s.subrange(0, i));
}

proof fn lemma_count_mono(s: Seq<HistoryEvent>, t: EventType, a: int, b: int)
    requires
        0 <= a <= b <= s.len(),
    ensures
        count_kind(s.subrange(0, a), t) <= count_kind(s.subrange(0, b), t),
    decreases b - a,
{
    if a < b {
        lemma_count_step(s, t, b - 1);
        lemma_count_mono(s, t, a, b - 1);
    }
}

proof fn lemma_count_whole(s: Seq<HistoryEvent>, t: EventType)
    ensures
        count_kind(s.subrange(0, s.len() as int), t) == count_kind(s, t),
{
    assert(s.subrange(0, s.len() as int) =~= s);
}

/// In a history completing every task, the completions up to and including index `m`
/// match the task starts before `m`.
proof fn lemma_completions_match_starts(s: Seq<HistoryEvent>, m: int)
    requires
        completes_every_task(s),
        0 <= m < s.len(),
    ensures
        count_kind(s.subrange(0, m + 1), EventType::WorkflowTaskCompleted) == count_kind(
            s.subrange(0, m),
            EventType::WorkflowTaskStarted,
        ),
    decreases m,
{
    lemma_count_step(s, EventType::WorkflowTaskCompleted, m);
    if m == 0 {
        assert(task_paired_at(s, 0));
        assert(s.subrange(0, 0) =~= Seq::<HistoryEvent>::empty());
    } else {
        lemma_completions_match_starts(s, m - 1);
        lemma_count_step(s, EventType::WorkflowTaskStarted, m - 1);
        assert(task_paired_at(s, m - 1));
        assert(task_paired_at(s, m));
    }
}

/// The scan of a history completing every task, from a state reached along it.
proof fn lemma_scan_completing(
    s: Seq<HistoryEvent>,
    target: Option<usize>,
    i: int,
    started: int,
    count: nat,
)
    requires
        completes_every_task(s),
        ids_ascending(s),
        0 <= i < s.len(),
        count == count_kind(s.subrange(0, i), EventType::WorkflowTaskStarted),
        forall|k: int| i <= k < s.len() ==> started < (#[trigger] s[k]).event_id,
        target matches Some(k) ==> count < k,
    ensures
        ({
            let n = count_kind(s, EventType::WorkflowTaskStarted);
            if target is Some && target->0 <= n {
                let k = target->0;
                scan(s, target, i, started, count) matches ScanOutcome::Built {
                    prev,
                    started: st,
                    len,
                    count: c,
                } && c == k && 0 < len < s.len() && s[len - 1].event_type
                    == EventType::WorkflowTaskStarted && s[len as int].event_type
                    == EventType::WorkflowTaskCompleted && count_kind(
                    s.subrange(0, len as int),
                    EventType::WorkflowTaskStarted,
                ) == k && prev < st
            } else {
                scan(s, target, i, started, count) matches ScanOutcome::Built { len, count: c, .. }
                    && len == s.len() && c == n
            }
        }),
    decreases s.len() - i,
{
    let t = EventType::WorkflowTaskStarted;
    lemma_count_step(s, t, i);
    lemma_count_mono(s, t, i + 1, s.len() as int);
    lemma_count_whole(s, t);
    let ev = s[i];
    assert(task_paired_at(s, i));
    if ev.event_type == t {
        assert(closes_task(s, i));
        assert(started < ev.event_id);
        if !is_target(target, count + 1) {
            assert forall|k: int| i + 1 <= k < s.len() implies ev.event_id < (
            #[trigger] s[k]).event_id by {}
            lemma_scan_completing(s, target, i + 1, ev.event_id as int, count + 1);
        }
    } else {
        assert(!closes_task(s, i));
        assert(!bad_successor(s, i));
        if i + 1 < s.len() {
            lemma_scan_completing(s, target, i + 1, started, count);
        } else {
            assert(s.subrange(0, i + 1) =~= s);
        }
    }
}

/// Built with no stopping point, a history that completes every task and ends in a
/// terminal event is accepted whole, and every task started in it is counted.
pub proof fn lemma_full_history_kept(evs: Seq<HistoryEvent>, v: HistoryInfoView)
    requires
        completes_every_task(evs),
        ids_ascending(evs),
    ensures
        construction(evs, None) is Built,
        built_from(v, evs, None) ==> v.events == evs && v.wf_task_count == count_kind(
            evs,
            EventType::WorkflowTaskStarted,
        ),
{
    assert(evs.subrange(0, 0) =~= Seq::<HistoryEvent>::empty());
    lemma_scan_completing(evs, None, 0, 0, 0);
    if built_from(v, evs, None) {
        assert(v.events =~= evs);
    }
}

/// Built with stopping point `k`, between 1 and the number of tasks, a history that
/// completes every task is accepted, counts `k` tasks, and keeps exactly the events before
/// its `k`-th task completion.
pub proof fn lemma_cut_at_task(evs: Seq<HistoryEvent>, k: usize, v: HistoryInfoView)
    requires
        completes_every_task(evs),
        ids_ascending(evs),
        1 <= k <= count_kind(evs, EventType::WorkflowTaskStarted),
    ensures
        construction(evs, Some(k)) is Built,
        built_from(v, evs, Some(k)) ==> {
            &&& v.wf_task_count == k
            &&& v.events.len() < evs.len()
            &&& evs[v.events.len() as int].event_type == EventType::WorkflowTaskCompleted
            &&& count_kind(evs.subrange(0, v.events.len() + 1int), EventType::WorkflowTaskCompleted)
                == k
        },
{
    assert(evs.subrange(0, 0) =~= Seq::<HistoryEvent>::empty());
    lemma_scan_completing(evs, Some(k), 0, 0, 0);
    if built_from(v, evs, Some(k)) {
        lemma_completions_match_starts(evs, v.events.len() as int);
    }
}

/// The scan never closes a task on a started id that does not exceed the previous one,
/// when ids ascend.
proof fn lemma_scan_ids_increase(
    s: Seq<HistoryEvent>,
    target: Option<usize>,
    i: int,
    started: int,
    count: nat,
)
    requires
        ids_ascending(s),
        0 <= i,
        forall|k: int| i <= k < s.len() ==> started < (#[trigger] s[k]).event_id,
    ensures
        scan(s, target, i, started, count) matches ScanOutcome::Built { prev, started: st, len, .. }
            ==> i < len <= s.len() && (s[len - 1].event_type == EventType::WorkflowTaskStarted
            ==> prev < st),
    decreases s.len() - i,
{
    if i < s.len() {
        let ev = s[i];
        if closes_task(s, i) {
            assert forall|k: int| i + 1 <= k < s.len() implies ev.event_id < (
            #[trigger] s[k]).event_id by {}
            lemma_scan_ids_increase(s, target, i + 1, ev.event_id as int, count + 1);
        } else {
            lemma_scan_ids_increase(s, target, i + 1, started, count);
        }
    }
}

/// When ids ascend and at least two tasks have closed, a result that ends at the closing
/// task-started event has a previous started id strictly below the current one.
pub proof fn lemma_started_ids_increase(
    evs: Seq<HistoryEvent>,
    target: Option<usize>,
    v: HistoryInfoView,
)
    requires
        ids_ascending(evs),
        built_from(v, evs, target),
        v.wf_task_count >= 2,
        v.events.len() > 0,
        v.events.last().event_type == EventType::WorkflowTaskStarted,
    ensures
        v.previous_started_event_id < v.workflow_task_started_event_id,
{
    lemma_scan_ids_increase(evs, target, 0, 0, 0);
    assert(v.events[v.events.len() - 1] == evs[v.events.len() - 1]);
}

/// Cut at task `k` (at least 2) and made incremental, a history that completes every task
/// keeps exactly the events after its `(k - 1)`-th task completion, at index `q`.
pub proof fn lemma_incremental_after_previous_task(
    evs: Seq<HistoryEvent>,
    k: usize,
    v: HistoryInfoView,
    q: int,
)
    requires
        completes_every_task(evs),
        ids_ascending(evs),
        2 <= k <= count_kind(evs, EventType::WorkflowTaskStarted),
        built_from(v, evs, Some(k)),
        0 <= q < evs.len(),
        evs[q].event_type == EventType::WorkflowTaskCompleted,
        count_kind(evs.subrange(0, q + 1), EventType::WorkflowTaskCompleted) == k - 1,
    ensures
        q < v.events.len(),
        v.events[q].event_type == EventType::WorkflowTaskCompleted,
        after_last_completion(v.events) == evs.subrange(q + 1, v.events.len() as int),
{
    let c = EventType::WorkflowTaskCompleted;
    lemma_cut_at_task(evs, k, v);
    let l = v.events.len() as int;
    lemma_count_step(evs, c, l);
    if q >= l {
        lemma_count_mono(evs, c, l + 1, q + 1);
    }
    assert forall|m: int| q < m < l implies (#[trigger] v.events[m]).event_type != c by {
        if v.events[m].event_type == c {
            assert(evs[m] == v.events[m]);
            lemma_count_step(evs, c, m);
            lemma_count_mono(evs, c, q + 1, m);
            lemma_count_mono(evs, c, m + 1, l);
        }
    }
    assert(v.events[q] == evs[q]);
    lemma_last_index_of(v.events, c, q);
    assert(after_last_completion(v.events) =~= evs.subrange(q + 1, l));
}

} // verus!
