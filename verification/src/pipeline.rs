//! An ordered concurrent map: tasks are launched in listing order, finish in
//! any order, and hand their results out strictly in launch order, with an
//! optional bound on how many may be in flight at once.

use crate::ordering::{after, Event, PipelineState};
use vstd::prelude::*;

verus! {

/// The number of slots that still wait for their result.
pub open spec fn pending_count<T>(slots: Seq<Option<T>>) -> nat
    decreases slots.len(),
{
    if slots.len() == 0 {
        0
    } else {
        pending_count(slots.drop_last()) + if slots.last() is None {
            1nat
        } else {
            0nat
        }
    }
}

/// There are never more waiting slots than slots.
pub proof fn lemma_pending_bounded<T>(slots: Seq<Option<T>>)
    ensures
        pending_count(slots) <= slots.len(),
    decreases slots.len(),
{
    if slots.len() > 0 {
        lemma_pending_bounded(slots.drop_last());
    }
}

/// Filling or clearing one slot changes the count by that slot alone.
pub proof fn lemma_pending_update<T>(slots: Seq<Option<T>>, i: int, v: Option<T>)
    requires
        0 <= i < slots.len(),
    ensures
        pending_count(slots.update(i, v)) + (if slots[i] is None {
            1nat
        } else {
            0nat
        }) == pending_count(slots) + (if v is None {
            1nat
        } else {
            0nat
        }),
    decreases slots.len(),
{
    let last = slots.len() - 1;
    if i == last {
        assert(slots.update(i, v).drop_last() =~= slots.drop_last());
    } else {
        lemma_pending_update(slots.drop_last(), i, v);
        assert(slots.update(i, v).drop_last() =~= slots.drop_last().update(i, v));
    }
}

/// Taking the first slot away changes the count by that slot alone.
pub proof fn lemma_pending_remove_first<T>(slots: Seq<Option<T>>)
    requires
        slots.len() > 0,
    ensures
        pending_count(slots.remove(0)) + (if slots[0] is None {
            1nat
        } else {
            0nat
        }) == pending_count(slots),
    decreases slots.len(),
{
    if slots.len() == 1 {
        assert(slots.remove(0) =~= Seq::<Option<T>>::empty());
        assert(slots.drop_last() =~= Seq::<Option<T>>::empty());
    } else {
        lemma_pending_remove_first(slots.drop_last());
        assert(slots.remove(0).drop_last() =~= slots.drop_last().remove(0));
    }
}

/// When no slot waits, every slot holds a result.
pub proof fn lemma_none_pending_all_ready<T>(slots: Seq<Option<T>>)
    requires
        pending_count(slots) == 0,
    ensures
        forall|i: int| 0 <= i < slots.len() ==> (#[trigger] slots[i]) is Some,
    decreases slots.len(),
{
    if slots.len() > 0 {
        lemma_none_pending_all_ready(slots.drop_last());
        assert forall|i: int| 0 <= i < slots.len() implies (#[trigger] slots[i]) is Some by {
            if i < slots.len() - 1 {
                assert(slots.drop_last()[i] is Some);
            }
        }
    }
}

/// What the driver of a pipeline should do next.
#[derive(Clone, Copy, Debug, PartialEq, Eq, Structural)]
pub enum Action {
    /// The oldest outstanding task has finished: take its result.
    Deliver,
    /// There is room for another task: pull the next listing entry and launch it.
    PullNext,
    /// Nothing can be delivered or launched: wait for a task to finish.
    Await,
    /// The listing is exhausted and every result has been delivered.
    Finished,
    /// Nothing is outstanding, yet no further label can be given out.
    Saturated,
}

/// A first-in, first-out queue of task slots. Slot `i` of `slots()` belongs
/// to the task with label `first_label() + i`; it is `None` while the task is
/// in flight and holds the task's result once it has finished.
pub struct OrderedPipeline<T> {
    limit: Option<usize>,
    first: usize,
    slots: Vec<Option<T>>,
    in_flight: usize,
}

impl<T> OrderedPipeline<T> {
    /// The bound on tasks in flight; `None` when unbounded.
    pub closed spec fn limit(&self) -> Option<usize> {
        self.limit
    }

    /// The label of the oldest outstanding task.
    pub closed spec fn first_label(&self) -> nat {
        self.first as nat
    }

    /// The outstanding slots, oldest first.
    pub closed spec fn slots(&self) -> Seq<Option<T>> {
        self.slots@
    }

    /// The pipeline as the model of its runs sees it.
    pub open spec fn state(&self) -> PipelineState<T> {
        PipelineState { limit: self.limit(), first: self.first_label(), slots: self.slots() }
    }

    /// The number of tasks launched and not yet finished.
    pub open spec fn in_flight(&self) -> nat {
        pending_count(self.slots())
    }

    /// The label that the next launch will give out.
    pub open spec fn next_label(&self) -> nat {
        self.first_label() + self.slots().len()
    }

    /// Whether `label` names a task that is in flight.
    pub open spec fn is_pending(&self, label: usize) -> bool {
        &&& self.first_label() <= label < self.next_label()
        &&& self.slots()[label - self.first_label()] is None
    }

    /// Whether another task may be launched: the bound leaves room and a
    /// label is left to give out.
    pub open spec fn has_room(&self) -> bool {
        &&& self.next_label() < usize::MAX
        &&& match self.limit() {
            Some(k) => self.in_flight() < k,
            None => true,
        }
    }

    /// The invariant of the pipeline: the bound is positive and respected.
    pub closed spec fn wf(&self) -> bool {
        &&& self.limit != Some(0usize)
        &&& self.in_flight == pending_count(self.slots@)
        &&& self.first + self.slots@.len() <= usize::MAX
        &&& match self.limit {
            Some(k) => self.in_flight <= k,
            None => true,
        }
    }

    /// In every reachable state the number of tasks in flight is within the
    /// configured bound, and the bound is positive.
    pub proof fn lemma_in_flight_bounded(&self)
        requires
            self.wf(),
        ensures
            self.limit() != Some(0usize),
            self.limit() matches Some(k) ==> self.in_flight() <= k,
            self.in_flight() <= self.slots().len(),
            self.next_label() <= usize::MAX,
    {
        lemma_pending_bounded(self.slots());
    }

    /// An empty pipeline. `None` exactly when the bound is zero, under which
    /// no task could ever run.
    pub fn new(limit: Option<usize>) -> (r: Option<Self>)
        ensures
            r is None <==> limit == Some(0usize),
            r matches Some(p) ==> {
                &&& p.wf()
                &&& p.limit() == limit
                &&& p.first_label() == 0
                &&& p.slots() == Seq::<Option<T>>::empty()
            },
    {
        match limit {
            Some(k) => {
                if k == 0 {
                    return None;
                }
            },
            None => {},
        }
        Some(OrderedPipeline { limit, first: 0, slots: Vec::new(), in_flight: 0 })
    }

    /// The number of tasks in flight.
    pub fn in_flight_count(&self) -> (n: usize)
        requires
            self.wf(),
        ensures
            n == self.in_flight(),
    {
        self.in_flight
    }

    /// The number of outstanding tasks: in flight, or finished and not yet
    /// delivered.
    pub fn outstanding(&self) -> (n: usize)
        ensures
            n == self.slots().len(),
    {
        self.slots.len()
    }

    /// Whether another task may be launched now.
    pub fn can_launch(&self) -> (b: bool)
        requires
            self.wf(),
        ensures
            b == self.has_room(),
    {
        if self.slots.len() >= usize::MAX - self.first {
            return false;
        }
        match self.limit {
            Some(k) => self.in_flight < k,
            None => true,
        }
    }

    /// Launches the next task and returns its label. Labels count up from
    /// zero in launch order.
    pub fn launch(&mut self) -> (label: usize)
        requires
            old(self).wf(),
            old(self).has_room(),
        ensures
            final(self).wf(),
            label == old(self).next_label(),
            final(self).slots() == old(self).slots().push(None),
            final(self).first_label() == old(self).first_label(),
            final(self).limit() == old(self).limit(),
            final(self).in_flight() == old(self).in_flight() + 1,
            final(self).state() == after(old(self).state(), Event::Launch),
    {
        let label = self.first + self.slots.len();
        proof {
            assert(self.slots@.push(None).drop_last() =~= self.slots@);
            lemma_pending_bounded(self.slots@);
        }
        self.slots.push(None);
        self.in_flight = self.in_flight + 1;
        label
    }

    /// Records that the task `label` finished with `value`. Returns `false`,
    /// changing nothing, exactly when no task with that label is in flight.
    pub fn complete(&mut self, label: usize, value: T) -> (accepted: bool)
        requires
            old(self).wf(),
        ensures
            final(self).wf(),
            accepted == old(self).is_pending(label),
            final(self).first_label() == old(self).first_label(),
            final(self).limit() == old(self).limit(),
            accepted ==> final(self).slots() == old(self).slots().update(
                label - old(self).first_label(),
                Some(value),
            ),
            accepted ==> final(self).in_flight() + 1 == old(self).in_flight(),
            !accepted ==> final(self).slots() == old(self).slots(),
            final(self).state() == after(old(self).state(), Event::Complete { label, value }),
    {
        if label < self.first {
            return false;
        }
        let at = label - self.first;
        if at >= self.slots.len() {
            return false;
        }
        if self.slots[at].is_some() {
            return false;
        }
        proof {
            lemma_pending_update(self.slots@, at as int, Some(value));
        }
        self.slots[at] = Some(value);
        self.in_flight = self.in_flight - 1;
        true
    }

    /// Hands out the result of the oldest outstanding task if it has
    /// finished. Results leave in launch order only: while the oldest task is
    /// in flight nothing is handed out, whatever else has finished.
    pub fn poll_next(&mut self) -> (r: Option<T>)
        requires
            old(self).wf(),
        ensures
            final(self).wf(),
            final(self).limit() == old(self).limit(),
            r == if old(self).slots().len() > 0 {
                old(self).slots()[0]
            } else {
                None
            },
            r is Some ==> {
                &&& final(self).slots() == old(self).slots().remove(0)
                &&& final(self).first_label() == old(self).first_label() + 1
                &&& final(self).in_flight() == old(self).in_flight()
            },
            r is None ==> {
                &&& final(self).slots() == old(self).slots()
                &&& final(self).first_label() == old(self).first_label()
            },
            final(self).state() == after(old(self).state(), Event::Poll),
    {
        if self.slots.len() == 0 {
            return None;
        }
        if self.slots[0].is_none() {
            return None;
        }
        proof {
            lemma_pending_remove_first(self.slots@);
        }
        let r = self.slots.remove(0);
        self.first = self.first + 1;
        r
    }

    /// The next step for a driver that feeds listing entries to the pipeline,
    /// where `listing_exhausted` says that the listing has no further entry.
    pub open spec fn next_action(&self, listing_exhausted: bool) -> Action {
        if self.slots().len() > 0 && self.slots()[0] is Some {
            Action::Deliver
        } else if !listing_exhausted && self.has_room() {
            Action::PullNext
        } else if self.slots().len() > 0 {
            Action::Await
        } else if listing_exhausted {
            Action::Finished
        } else {
            Action::Saturated
        }
    }

    /// Decides the driver's next step.
    pub fn decide(&self, listing_exhausted: bool) -> (a: Action)
        requires
            self.wf(),
        ensures
            a == self.next_action(listing_exhausted),
    {
        if self.slots.len() > 0 && self.slots[0].is_some() {
            Action::Deliver
        } else if !listing_exhausted && self.can_launch() {
            Action::PullNext
        } else if self.slots.len() > 0 {
            Action::Await
        } else if listing_exhausted {
            Action::Finished
        } else {
            Action::Saturated
        }
    }

    /// Every step that a driver is told to take can be taken: a result is
    /// ready when it is told to take one, there is room when it is told to
    /// launch, a task is in flight when it is told to wait, and nothing is
    /// left when it is told that the run has finished. It is told that the
    /// pipeline is saturated only when the labels have run out.
    pub proof fn lemma_actions_are_enabled(&self, listing_exhausted: bool)
        requires
            self.wf(),
        ensures
            match self.next_action(listing_exhausted) {
                Action::Deliver => self.slots().len() > 0 && self.slots()[0] is Some,
                Action::PullNext => !listing_exhausted && self.has_room(),
                Action::Await => self.in_flight() > 0,
                Action::Finished => listing_exhausted && self.slots().len() == 0,
                Action::Saturated => self.next_label() == usize::MAX,
            },
    {
        if self.slots().len() > 0 && self.slots()[0] is None {
            lemma_pending_remove_first(self.slots());
        }
    }
}

/// Whether `completions` finish each of the labels `0 .. completions.len()`
/// exactly once.
pub open spec fn is_labelling<T>(completions: Seq<(usize, T)>) -> bool {
    &&& forall|i: int|
        0 <= i < completions.len() ==> (#[trigger] completions[i]).0 < completions.len()
    &&& forall|i: int, j: int|
        0 <= i < j < completions.len() ==> (#[trigger] completions[i]).0 != (
        #[trigger] completions[j]).0
}

/// Puts results that arrived in completion order back into launch order.
/// `completions` lists each task's label and result, in whatever order the
/// tasks finished. The outcome holds, at every index, the result of the task
/// with that label, so the order of `completions` has no influence on it; it
/// is `None` exactly when the labels are not `0 .. n`, each once.
pub fn collect_in_order<T>(completions: Vec<(usize, T)>) -> (r: Option<Vec<T>>)
    ensures
        r is Some <==> is_labelling(completions@),
        r matches Some(out) ==> {
            &&& out@.len() == completions@.len()
            &&& forall|i: int|
                0 <= i < completions@.len() ==> out@[(#[trigger] completions@[i]).0 as int]
                    == completions@[i].1
        },
{
    let n = completions.len();
    let ghost all = completions@;
    let mut pipeline = match OrderedPipeline::<T>::new(None) {
        Some(p) => p,
        None => {
            return None;
        },
    };
    let mut launched: usize = 0;
    while launched < n
        invariant
            launched <= n,
            pipeline.wf(),
            pipeline.limit() == None::<usize>,
            pipeline.first_label() == 0,
            pipeline.slots().len() == launched,
            pipeline.in_flight() == launched,
            forall|l: int| 0 <= l < launched ==> (#[trigger] pipeline.slots()[l]) is None,
        decreases n - launched,
    {
        let _ = pipeline.launch();
        launched = launched + 1;
    }
    let mut rest = completions;
    while rest.len() > 0
        invariant
            all == completions@,
            n == all.len(),
            rest@ == all.take(rest@.len() as int),
            rest@.len() <= n,
            pipeline.wf(),
            pipeline.limit() == None::<usize>,
            pipeline.first_label() == 0,
            pipeline.slots().len() == n,
            pipeline.in_flight() == rest@.len(),
            forall|i: int|
                rest@.len() <= i < n ==> (#[trigger] all[i]).0 < n && pipeline.slots()[all[i].0 as int]
                    == Some(all[i].1),
            forall|l: int|
                0 <= l < n && (#[trigger] pipeline.slots()[l]) is Some ==> exists|i: int|
                    rest@.len() <= i < n && (#[trigger] all[i]).0 == l,
            forall|i: int, j: int|
                rest@.len() <= i < j < n ==> (#[trigger] all[i]).0 != (#[trigger] all[j]).0,
        decreases rest@.len(),
    {
        let ghost before = pipeline.slots();
        let ghost j = rest@.len() as int;
        let (label, value) = match rest.pop() {
            Some(entry) => entry,
            None => {
                return None;
            },
        };
        assert(all[j - 1] == (label, value));
        proof {
            if label < n && pipeline.slots()[label as int] is Some {
                let i = choose|i: int| j <= i < n && (#[trigger] all[i]).0 == label as int;
                assert(all[j - 1].0 == all[i].0);
                assert(!is_labelling(all));
            }
            if label >= n {
                assert(!(all[j - 1].0 < all.len()));
                assert(!is_labelling(all));
            }
        }
        let accepted = pipeline.complete(label, value);
        if !accepted {
            return None;
        }
        proof {
            assert(rest@ =~= all.take(j - 1));
            assert forall|l: int| 0 <= l < n && (#[trigger] pipeline.slots()[l]) is Some implies exists|
                i: int,
            |
                j - 1 <= i < n && (#[trigger] all[i]).0 == l by {
                if l == label {
                    assert(all[j - 1].0 == l);
                } else {
                    assert(before[l] is Some);
                    let i = choose|i: int| j <= i < n && (#[trigger] all[i]).0 == l;
                    assert(all[i].0 == l);
                }
            }
        }
    }
    let ghost full = pipeline.slots();
    proof {
        lemma_none_pending_all_ready(full);
        assert(is_labelling(all));
    }
    let mut out: Vec<T> = Vec::new();
    while out.len() < n
        invariant
            all == completions@,
            is_labelling(all),
            n == all.len(),
            full.len() == n,
            out@.len() <= n,
            pipeline.wf(),
            pipeline.slots() == full.skip(out@.len() as int),
            forall|l: int| 0 <= l < n ==> (#[trigger] full[l]) is Some,
            forall|l: int| 0 <= l < out@.len() ==> Some(#[trigger] out@[l]) == full[l],
        decreases n - out@.len(),
    {
        let ghost k = out@.len() as int;
        assert(full.skip(k)[0] == full[k]);
        match pipeline.poll_next() {
            Some(v) => {
                out.push(v);
            },
            None => {
                return None;
            },
        }
        proof {
            assert(full.skip(k).remove(0) =~= full.skip(k + 1));
        }
    }
    proof {
        assert forall|i: int| 0 <= i < n implies out@[(#[trigger] all[i]).0 as int]
            == all[i].1 by {
            let l = all[i].0 as int;
            assert(full[l] == Some(all[i].1));
            assert(Some(out@[l]) == full[l]);
        }
    }
    Some(out)
}

} // verus!
