//! A mathematical model of the ordered pipeline and the two laws that hold
//! of every run of it: results leave in launch order, and the number of
//! tasks in flight stays within the bound.

use crate::pipeline::{lemma_pending_remove_first, lemma_pending_update, pending_count};
use vstd::prelude::*;

verus! {

/// What a pipeline holds: its bound, the label of its oldest outstanding
/// task, and the outstanding slots, oldest first.
pub struct PipelineState<T> {
    pub limit: Option<usize>,
    pub first: nat,
    pub slots: Seq<Option<T>>,
}

/// What a driver can do to a pipeline.
pub enum Event<T> {
    /// Launch the next task.
    Launch,
    /// Report that the task `label` finished with `value`.
    Complete { label: usize, value: T },
    /// Ask for the result of the oldest outstanding task.
    Poll,
}

/// Whether another task may be launched in `s`.
pub open spec fn room<T>(s: PipelineState<T>) -> bool {
    &&& s.first + s.slots.len() < usize::MAX
    &&& match s.limit {
        Some(k) => pending_count(s.slots) < k,
        None => true,
    }
}

/// Whether `label` names a task in flight in `s`.
pub open spec fn pending<T>(s: PipelineState<T>, label: usize) -> bool {
    &&& s.first <= label < s.first + s.slots.len()
    &&& s.slots[label - s.first] is None
}

/// Whether the oldest outstanding task of `s` has finished.
pub open spec fn front_ready<T>(s: PipelineState<T>) -> bool {
    s.slots.len() > 0 && s.slots[0] is Some
}

/// The state after an event. An event that cannot take place (a launch
/// without room, the completion of a task that is not in flight, a poll while
/// the oldest task runs) leaves the state as it is.
pub open spec fn after<T>(s: PipelineState<T>, e: Event<T>) -> PipelineState<T> {
    match e {
        Event::Launch => if room(s) {
            PipelineState { slots: s.slots.push(None), ..s }
        } else {
            s
        },
        Event::Complete { label, value } => if pending(s, label) {
            PipelineState { slots: s.slots.update(label - s.first, Some(value)), ..s }
        } else {
            s
        },
        Event::Poll => if front_ready(s) {
            PipelineState { first: s.first + 1, slots: s.slots.remove(0), ..s }
        } else {
            s
        },
    }
}

/// A run so far: the state reached, the results handed out in the order they
/// left, and for each label the result that was accepted for it.
pub struct Trace<T> {
    pub state: PipelineState<T>,
    pub delivered: Seq<T>,
    pub accepted: Map<nat, T>,
}

/// The trace extended by one event.
pub open spec fn record<T>(t: Trace<T>, e: Event<T>) -> Trace<T> {
    Trace {
        state: after(t.state, e),
        delivered: match e {
            Event::Poll => if front_ready(t.state) {
                t.delivered.push(t.state.slots[0].unwrap())
            } else {
                t.delivered
            },
            _ => t.delivered,
        },
        accepted: match e {
            Event::Complete { label, value } => if pending(t.state, label) {
                t.accepted.insert(label as nat, value)
            } else {
                t.accepted
            },
            _ => t.accepted,
        },
    }
}

/// The trace of a run that starts from the empty pipeline with bound `limit`
/// and sees `events` in order.
pub open spec fn replay<T>(limit: Option<usize>, events: Seq<Event<T>>) -> Trace<T>
    decreases events.len(),
{
    if events.len() == 0 {
        Trace {
            state: PipelineState { limit, first: 0, slots: Seq::empty() },
            delivered: Seq::empty(),
            accepted: Map::empty(),
        }
    } else {
        record(replay(limit, events.drop_last()), events.last())
    }
}

/// What holds of every trace: as many results have left as the first label
/// says, each is the one accepted for its position, every finished slot
/// holds the result accepted for its label, and the bound is kept.
pub open spec fn consistent<T>(t: Trace<T>) -> bool {
    &&& t.delivered.len() == t.state.first
    &&& forall|k: nat|
        k < t.delivered.len() ==> #[trigger] t.accepted.contains_key(k) && t.accepted[k]
            == t.delivered[k as int]
    &&& forall|i: int|
        0 <= i < t.state.slots.len() && (#[trigger] t.state.slots[i]) is Some
            ==> t.accepted.contains_key((t.state.first + i) as nat) && t.accepted[(t.state.first
            + i) as nat] == t.state.slots[i].unwrap()
    &&& match t.state.limit {
        Some(k) => pending_count(t.state.slots) <= k,
        None => true,
    }
}

/// One event keeps a trace consistent.
pub proof fn lemma_record_consistent<T>(t: Trace<T>, e: Event<T>)
    requires
        consistent(t),
    ensures
        consistent(record(t, e)),
{
    let s = t.state;
    let n = record(t, e);
    match e {
        Event::Launch => {
            if room(s) {
                assert(s.slots.push(None).drop_last() =~= s.slots);
                assert forall|i: int|
                    0 <= i < n.state.slots.len() && (#[trigger] n.state.slots[i]) is Some implies n.accepted.contains_key(
                    (n.state.first + i) as nat,
                ) && n.accepted[(n.state.first + i) as nat] == n.state.slots[i].unwrap() by {
                    assert(s.slots[i] is Some);
                }
            }
            assert forall|k: nat| k < n.delivered.len() implies #[trigger] n.accepted.contains_key(
                k,
            ) && n.accepted[k] == n.delivered[k as int] by {
                assert(t.accepted.contains_key(k));
            }
        },
        Event::Complete { label, value } => {
            if pending(s, label) {
                let at = label - s.first;
                lemma_pending_update(s.slots, at, Some(value));
                assert forall|i: int|
                    0 <= i < n.state.slots.len() && (#[trigger] n.state.slots[i]) is Some implies n.accepted.contains_key(
                    (n.state.first + i) as nat,
                ) && n.accepted[(n.state.first + i) as nat] == n.state.slots[i].unwrap() by {
                    if i != at {
                        assert(s.slots[i] is Some);
                    }
                }
            }
            assert forall|k: nat| k < n.delivered.len() implies #[trigger] n.accepted.contains_key(
                k,
            ) && n.accepted[k] == n.delivered[k as int] by {
                assert(t.accepted.contains_key(k));
            }
        },
        Event::Poll => {
            if front_ready(s) {
                lemma_pending_remove_first(s.slots);
                assert(s.slots[0] is Some);
                assert forall|i: int|
                    0 <= i < n.state.slots.len() && (#[trigger] n.state.slots[i]) is Some implies n.accepted.contains_key(
                    (n.state.first + i) as nat,
                ) && n.accepted[(n.state.first + i) as nat] == n.state.slots[i].unwrap() by {
                    assert(s.slots[i + 1] is Some);
                }
            }
            assert forall|k: nat| k < n.delivered.len() implies #[trigger] n.accepted.contains_key(
                k,
            ) && n.accepted[k] == n.delivered[k as int] by {
                if k < t.delivered.len() {
                    assert(t.accepted.contains_key(k));
                }
            }
        },
    }
}

/// Every run from the empty pipeline is consistent.
pub proof fn lemma_replay_consistent<T>(limit: Option<usize>, events: Seq<Event<T>>)
    ensures
        consistent(replay(limit, events)),
    decreases events.len(),
{
    if events.len() > 0 {
        lemma_replay_consistent(limit, events.drop_last());
        lemma_record_consistent(replay(limit, events.drop_last()), events.last());
    }
}

/// Results leave in launch order: in every run, whatever the order in which
/// tasks finish, the result handed out at position `k` is the one that was
/// accepted for the task with label `k`.
pub proof fn lemma_results_leave_in_launch_order<T>(
    limit: Option<usize>,
    events: Seq<Event<T>>,
    k: int,
)
    requires
        0 <= k < replay(limit, events).delivered.len(),
    ensures
        replay(limit, events).accepted.contains_key(k as nat),
        replay(limit, events).delivered[k] == replay(limit, events).accepted[k as nat],
        replay(limit, events).delivered.len() == replay(limit, events).state.first,
{
    lemma_replay_consistent(limit, events);
    let t = replay(limit, events);
    assert(t.accepted.contains_key(k as nat));
}

/// The bound holds in every run: with a bound of `k`, never more than `k`
/// tasks are in flight, whatever the driver asks for.
pub proof fn lemma_bound_holds_in_every_run<T>(limit: Option<usize>, events: Seq<Event<T>>)
    ensures
        limit matches Some(k) ==> pending_count(replay(limit, events).state.slots) <= k,
        replay(limit, events).state.limit == limit,
    decreases events.len(),
{
    lemma_replay_consistent(limit, events);
    if events.len() > 0 {
        lemma_bound_holds_in_every_run(limit, events.drop_last());
    }
}

} // verus!
