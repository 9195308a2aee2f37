//! The dispatcher: it sizes the rendezvous to every attempt-slot of every
//! task, hands out one worker for each slot, and aggregates what the workers
//! end with into one result, and one notice, for each task. The first
//! deciding outcome of a task is its result; a task times out only when the
//! last of its workers is back and none has decided it.

use crate::error::ErrorKind;
use crate::notice::{result_notice, Notice, NoticeView};
use crate::outcome::{ClaimOutcome, OutcomeKind};
use crate::plan::{tasks_view, ClaimTask, ClaimTaskView};
use crate::slot::AggregatedResult;
use crate::worker::{timed_out, Worker, WorkerPhase};
use vstd::prelude::*;

verus! {

/// The attempt-slots that race for one task unless the caller says
/// otherwise.
pub const DEFAULT_FAN_OUT: usize = 5;

/// The time, in milliseconds, that the workers of a dispatch have unless the
/// caller says otherwise.
pub const DEFAULT_WINDOW_MS: i64 = 2000;

/// The sleep between two attempts of a worker, in milliseconds, unless the
/// caller says otherwise.
pub const DEFAULT_BACKOFF_MS: u64 = 20;

/// The deadline of a dispatch that starts at `now_ms` and has `window_ms`:
/// their sum, or the latest moment that can be written where the sum
/// cannot.
pub open spec fn deadline_of(now_ms: i64, window_ms: i64) -> i64 {
    if now_ms + window_ms > i64::MAX {
        i64::MAX
    } else if now_ms + window_ms < i64::MIN {
        i64::MIN
    } else {
        (now_ms + window_ms) as i64
    }
}

/// The deadline of a dispatch that starts at `now_ms` and has `window_ms`.
pub fn deadline_after(now_ms: i64, window_ms: i64) -> (d: i64)
    ensures
        d == deadline_of(now_ms, window_ms),
{
    match now_ms.checked_add(window_ms) {
        Some(d) => d,
        None => {
            if window_ms > 0 {
                i64::MAX
            } else {
                i64::MIN
            }
        },
    }
}

/// The attempt-slots of all tasks together.
pub open spec fn total_slots(tasks: Seq<ClaimTaskView>) -> nat
    decreases tasks.len(),
{
    if tasks.len() == 0 {
        0
    } else {
        total_slots(tasks.drop_last()) + tasks.last().fan_out as nat
    }
}

/// Whether every task has at least one attempt-slot.
pub open spec fn all_have_slots(tasks: Seq<ClaimTaskView>) -> bool {
    forall|i: int| 0 <= i < tasks.len() ==> (#[trigger] tasks[i]).fan_out >= 1
}

/// The workers of the task with index `task`, one for each of its slots,
/// all waiting at the rendezvous.
pub open spec fn task_workers(task: int, t: ClaimTaskView, backoff_ms: u64) -> Seq<Worker> {
    Seq::new(
        t.fan_out as nat,
        |s: int|
            Worker {
                task: task as usize,
                slot: s as usize,
                deadline_ms: t.deadline_ms,
                backoff_ms,
                phase: WorkerPhase::AtRendezvous,
                attempts: 0,
            },
    )
}

/// The workers of all tasks, task by task.
pub open spec fn all_workers(tasks: Seq<ClaimTaskView>, backoff_ms: u64) -> Seq<Worker>
    decreases tasks.len(),
{
    if tasks.len() == 0 {
        Seq::empty()
    } else {
        all_workers(tasks.drop_last(), backoff_ms) + task_workers(
            tasks.len() - 1,
            tasks.last(),
            backoff_ms,
        )
    }
}

/// One task of a running dispatch and its result so far.
#[derive(Debug)]
pub struct Racing {
    task: ClaimTask,
    result: AggregatedResult,
    pending: usize,
}

/// A running dispatch.
#[derive(Debug)]
pub struct Dispatcher {
    entries: Vec<Racing>,
    slots: usize,
    outstanding: usize,
}

/// The mathematical content of a [`Dispatcher`].
#[verifier::ext_equal]
pub ghost struct DispatcherView {
    /// The tasks, in the order in which they were handed in.
    pub tasks: Seq<ClaimTaskView>,
    /// The result of each task so far.
    pub results: Seq<Option<(OutcomeKind, Seq<char>)>>,
    /// For each task the workers of it that have not come back yet.
    pub pending: Seq<nat>,
    /// The size of the rendezvous.
    pub slots: nat,
    /// The workers that have not come back yet.
    pub outstanding: nat,
}

impl View for Dispatcher {
    type V = DispatcherView;

    closed spec fn view(&self) -> DispatcherView {
        DispatcherView {
            tasks: self.entries@.map_values(|e: Racing| e.task@),
            results: self.entries@.map_values(|e: Racing| e.result@),
            pending: self.entries@.map_values(|e: Racing| e.pending as nat),
            slots: self.slots as nat,
            outstanding: self.outstanding as nat,
        }
    }
}

/// Whether an outcome of this kind decides a task: the reward was granted,
/// or it is gone.
pub open spec fn decides(kind: OutcomeKind) -> bool {
    kind == OutcomeKind::Success || kind == OutcomeKind::AlreadyClaimed
}

/// What the end of a worker means to its task: the outcome where it decides
/// the task, and else that this worker ran out of time.
pub open spec fn settled(outcome: (OutcomeKind, Seq<char>)) -> (OutcomeKind, Seq<char>) {
    if decides(outcome.0) {
        outcome
    } else {
        timed_out()
    }
}

/// Whether a dispatch has one result and one count of pending workers for
/// each task.
pub open spec fn well_formed(d: DispatcherView) -> bool {
    d.results.len() == d.tasks.len() && d.pending.len() == d.tasks.len()
}

/// A count less one, and no less than nothing.
pub open spec fn one_less(n: nat) -> nat {
    if n > 0 {
        (n - 1) as nat
    } else {
        0
    }
}

/// Whether the end of a worker of `task` with `outcome` fills the task's
/// result: the result must be empty, and the outcome must decide the task or
/// the worker must be the last of the task to come back.
pub open spec fn completion_fills(d: DispatcherView, task: int, outcome: (OutcomeKind, Seq<char>))
    -> bool {
    d.results[task] is None && (decides(outcome.0) || one_less(d.pending[task]) == 0)
}

/// The dispatch after a worker of a task came back with an outcome, and the
/// notice to emit. The worker no longer counts as pending. An outcome that
/// decides the task fills the task's result if that is empty; the last
/// worker of a task that comes back without a decision fills an empty result
/// with the time-out. Only the completion that fills the result is
/// announced. A task index that the dispatch does not have changes nothing.
pub open spec fn after_completion(
    d: DispatcherView,
    task: int,
    outcome: (OutcomeKind, Seq<char>),
) -> (DispatcherView, Option<NoticeView>) {
    if 0 <= task < d.tasks.len() && task < d.results.len() && task < d.pending.len() {
        (
            DispatcherView {
                results: if completion_fills(d, task, outcome) {
                    d.results.update(task, Some(settled(outcome)))
                } else {
                    d.results
                },
                pending: d.pending.update(task, one_less(d.pending[task])),
                outstanding: one_less(d.outstanding),
                ..d
            },
            if completion_fills(d, task, outcome) {
                Some(result_notice(d.tasks[task], settled(outcome)))
            } else {
                None
            },
        )
    } else {
        (d, None)
    }
}

/// The dispatch after a run of completions, each the index of a task and
/// the outcome that one of its workers ended with.
pub open spec fn after_completions(
    d: DispatcherView,
    events: Seq<(int, (OutcomeKind, Seq<char>))>,
) -> DispatcherView
    decreases events.len(),
{
    if events.len() == 0 {
        d
    } else {
        after_completion(
            after_completions(d, events.drop_last()),
            events.last().0,
            events.last().1,
        ).0
    }
}

/// How many notices a run of completions brings for one task.
pub open spec fn notices_for(
    d: DispatcherView,
    events: Seq<(int, (OutcomeKind, Seq<char>))>,
    task: int,
) -> nat
    decreases events.len(),
{
    if events.len() == 0 {
        0
    } else {
        let earlier = events.drop_last();
        notices_for(d, earlier, task) + if events.last().0 == task && after_completion(
            after_completions(d, earlier),
            events.last().0,
            events.last().1,
        ).1 is Some {
            1nat
        } else {
            0nat
        }
    }
}

/// How many completions of a run are for one task.
pub open spec fn completions_of(events: Seq<(int, (OutcomeKind, Seq<char>))>, task: int) -> nat
    decreases events.len(),
{
    if events.len() == 0 {
        0
    } else {
        completions_of(events.drop_last(), task) + if events.last().0 == task {
            1nat
        } else {
            0nat
        }
    }
}

/// Whether the completion at `index` of a run is the first that decides the
/// task.
pub open spec fn first_decision(
    events: Seq<(int, (OutcomeKind, Seq<char>))>,
    task: int,
    index: int,
) -> bool {
    &&& 0 <= index < events.len()
    &&& events[index].0 == task
    &&& decides(events[index].1.0)
    &&& forall|j: int| 0 <= j < index ==> !((#[trigger] events[j]).0 == task && decides(events[j].1.0))
}

/// Whether a run of completions holds an outcome that decides a task.
pub open spec fn decided_in(events: Seq<(int, (OutcomeKind, Seq<char>))>, task: int) -> bool {
    exists|i: int|
        0 <= i < events.len() && (#[trigger] events[i]).0 == task && decides(events[i].1.0)
}

proof fn lemma_result_stays(
    d: DispatcherView,
    events: Seq<(int, (OutcomeKind, Seq<char>))>,
    task: int,
)
    requires
        well_formed(d),
        0 <= task < d.tasks.len(),
        d.results[task] is Some,
    ensures
        well_formed(after_completions(d, events)),
        after_completions(d, events).tasks == d.tasks,
        after_completions(d, events).results[task] == d.results[task],
        notices_for(d, events, task) == 0,
    decreases events.len(),
{
    if events.len() > 0 {
        lemma_result_stays(d, events.drop_last(), task);
    }
}

proof fn lemma_completions(
    d: DispatcherView,
    events: Seq<(int, (OutcomeKind, Seq<char>))>,
    task: int,
)
    requires
        well_formed(d),
        0 <= task < d.tasks.len(),
        d.results[task] is None,
    ensures
        well_formed(after_completions(d, events)),
        after_completions(d, events).tasks == d.tasks,
        after_completions(d, events).pending[task] == if completions_of(events, task)
            <= d.pending[task] {
            d.pending[task] - completions_of(events, task)
        } else {
            0
        },
        notices_for(d, events, task) == if after_completions(d, events).results[task] is Some {
            1nat
        } else {
            0nat
        },
        !decided_in(events, task) && (completions_of(events, task) < d.pending[task]
            || completions_of(events, task) == 0) ==> after_completions(d, events).results[task]
            is None,
        !decided_in(events, task) && completions_of(events, task) >= d.pending[task]
            && completions_of(events, task) >= 1 ==> after_completions(d, events).results[task]
            == Some(timed_out()),
        decided_in(events, task) && completions_of(events, task) <= d.pending[task]
            ==> exists|i: int| #[trigger]
            first_decision(events, task, i) && after_completions(d, events).results[task] == Some(
                events[i].1,
            ),
    decreases events.len(),
{
    if events.len() > 0 {
        let earlier = events.drop_last();
        let e = events.last();
        lemma_completions(d, earlier, task);
        let before = after_completions(d, earlier);
        assert(events[events.len() - 1] == e);
        if decided_in(earlier, task) {
            let k = choose|k: int|
                0 <= k < earlier.len() && (#[trigger] earlier[k]).0 == task && decides(
                    earlier[k].1.0,
                );
            assert(events[k] == earlier[k]);
            assert(decided_in(events, task));
            if completions_of(events, task) <= d.pending[task] {
                let i = choose|i: int| #[trigger]
                    first_decision(earlier, task, i) && before.results[task] == Some(earlier[i].1);
                assert(events[i] == earlier[i]);
                assert forall|j: int| 0 <= j < i implies !((#[trigger] events[j]).0 == task
                    && decides(events[j].1.0)) by {
                    assert(events[j] == earlier[j]);
                }
                assert(first_decision(events, task, i));
            }
        } else {
            assert forall|j: int| 0 <= j < earlier.len() implies !((#[trigger] events[j]).0 == task
                && decides(events[j].1.0)) by {
                assert(events[j] == earlier[j]);
            }
            if e.0 == task && decides(e.1.0) {
                assert(decided_in(events, task));
                if completions_of(events, task) <= d.pending[task] {
                    assert(before.results[task] is None);
                    assert(first_decision(events, task, events.len() - 1));
                }
            } else {
                assert(!decided_in(events, task));
            }
        }
    }
}

/// However the workers come back, and however many of them end a task, each
/// task is announced at most once: a run of completions brings no notice for
/// a task whose result was set before, and for a task without a result it
/// brings exactly one notice if it fills the result, and none otherwise. A
/// result that is set stays as it is.
pub proof fn lemma_one_notice_per_task(
    d: DispatcherView,
    events: Seq<(int, (OutcomeKind, Seq<char>))>,
    task: int,
)
    requires
        well_formed(d),
        0 <= task < d.tasks.len(),
    ensures
        well_formed(after_completions(d, events)),
        after_completions(d, events).tasks == d.tasks,
        notices_for(d, events, task) <= 1,
        d.results[task] is Some ==> notices_for(d, events, task) == 0 && after_completions(
            d,
            events,
        ).results[task] == d.results[task],
        d.results[task] is None ==> (notices_for(d, events, task) == 1 <==> after_completions(
            d,
            events,
        ).results[task] is Some),
{
    if d.results[task] is Some {
        lemma_result_stays(d, events, task);
    } else {
        lemma_completions(d, events, task);
    }
}

/// The first decision wins, in whatever order the workers come back: where
/// each worker of a task comes back at most once and one of them decides the
/// task, the task's result is the first deciding outcome of the run, not a
/// time-out, and the run brings exactly one notice for the task, the one of
/// that outcome.
pub proof fn lemma_first_decision_wins(
    d: DispatcherView,
    events: Seq<(int, (OutcomeKind, Seq<char>))>,
    task: int,
)
    requires
        well_formed(d),
        0 <= task < d.tasks.len(),
        d.results[task] is None,
        decided_in(events, task),
        completions_of(events, task) <= d.pending[task],
    ensures
        exists|i: int| #[trigger]
            first_decision(events, task, i) && after_completions(d, events).results[task] == Some(
                events[i].1,
            ),
        after_completions(d, events).results[task] matches Some(o) && decides(o.0),
        notices_for(d, events, task) == 1,
{
    lemma_completions(d, events, task);
}

/// A task that nobody decides times out when all its workers are back, and
/// not before: while a worker of it is pending the task has no result, and
/// once as many have come back as were pending its result is the time-out,
/// announced once.
pub proof fn lemma_undecided_task_times_out(
    d: DispatcherView,
    events: Seq<(int, (OutcomeKind, Seq<char>))>,
    task: int,
)
    requires
        well_formed(d),
        0 <= task < d.tasks.len(),
        d.results[task] is None,
        d.pending[task] >= 1,
        !decided_in(events, task),
    ensures
        completions_of(events, task) < d.pending[task] ==> after_completions(
            d,
            events,
        ).results[task] is None && notices_for(d, events, task) == 0,
        completions_of(events, task) >= d.pending[task] ==> after_completions(
            d,
            events,
        ).results[task] == Some(timed_out()) && notices_for(d, events, task) == 1,
{
    lemma_completions(d, events, task);
}

/// Counts the attempt-slots of all tasks, `None` where the count does not
/// fit.
pub fn count_slots(tasks: &Vec<ClaimTask>) -> (r: Option<usize>)
    ensures
        r matches Some(n) ==> n == total_slots(tasks_view(tasks@)),
        r is None ==> total_slots(tasks_view(tasks@)) > usize::MAX,
{
    let mut total: usize = 0;
    let mut i: usize = 0;
    while i < tasks.len()
        invariant
            i <= tasks.len(),
            total == total_slots(tasks_view(tasks@).subrange(0, i as int)),
        decreases tasks.len() - i,
    {
        assert(tasks_view(tasks@).subrange(0, i + 1).drop_last() =~= tasks_view(tasks@).subrange(
            0,
            i as int,
        ));
        match total.checked_add(tasks[i].fan_out) {
            Some(t) => {
                total = t;
            },
            None => {
                proof {
                    lemma_total_slots_grows(tasks_view(tasks@), i + 1);
                }
                return None;
            },
        }
        i = i + 1;
    }
    assert(tasks_view(tasks@).subrange(0, i as int) =~= tasks_view(tasks@));
    Some(total)
}

/// The slots of the first `n` tasks are no more than the slots of all.
pub proof fn lemma_total_slots_grows(tasks: Seq<ClaimTaskView>, n: int)
    requires
        0 <= n <= tasks.len(),
    ensures
        total_slots(tasks.subrange(0, n)) <= total_slots(tasks),
    decreases tasks.len() - n,
{
    if n < tasks.len() {
        lemma_total_slots_grows(tasks, n + 1);
        assert(tasks.subrange(0, n + 1).drop_last() =~= tasks.subrange(0, n));
    } else {
        assert(tasks.subrange(0, n) =~= tasks);
    }
}

/// The rendezvous is sized to the workers that are handed out: there are as
/// many workers as attempt-slots over all tasks.
pub proof fn lemma_one_worker_per_slot(tasks: Seq<ClaimTaskView>, backoff_ms: u64)
    ensures
        all_workers(tasks, backoff_ms).len() == total_slots(tasks),
    decreases tasks.len(),
{
    if tasks.len() > 0 {
        lemma_one_worker_per_slot(tasks.drop_last(), backoff_ms);
    }
}

/// Where every task has a slot, a dispatch with a task has a slot: its
/// rendezvous is never of size zero.
pub proof fn lemma_slots_positive(tasks: Seq<ClaimTaskView>)
    requires
        tasks.len() > 0,
        all_have_slots(tasks),
    ensures
        total_slots(tasks) >= 1,
{
    assert(tasks.last() == tasks[tasks.len() - 1]);
}

fn first_without_slot(tasks: &Vec<ClaimTask>) -> (r: bool)
    ensures
        r == !all_have_slots(tasks_view(tasks@)),
{
    let mut i: usize = 0;
    while i < tasks.len()
        invariant
            i <= tasks.len(),
            forall|j: int| 0 <= j < i ==> (#[trigger] tasks_view(tasks@)[j]).fan_out >= 1,
        decreases tasks.len() - i,
    {
        if tasks[i].fan_out == 0 {
            assert(tasks_view(tasks@)[i as int].fan_out == 0);
            return true;
        }
        i = i + 1;
    }
    false
}

impl Dispatcher {
    /// Starts a dispatch of `tasks`. It is refused with `NothingToDo` where
    /// there is no task, with `EmptyFanOut` where a task has no slot, and
    /// with `TooManySlots` where the slots cannot be counted. Otherwise the
    /// rendezvous is sized to all slots of all tasks (at least one), every
    /// result is empty, and all workers are outstanding, each task's as
    /// many as it has slots.
    pub fn start(tasks: Vec<ClaimTask>) -> (r: Result<Dispatcher, ErrorKind>)
        ensures
            r is Ok <==> tasks@.len() > 0 && all_have_slots(tasks_view(tasks@)) && total_slots(
                tasks_view(tasks@),
            ) <= usize::MAX,
            tasks@.len() == 0 ==> r == Err::<Dispatcher, ErrorKind>(ErrorKind::NothingToDo),
            tasks@.len() > 0 && !all_have_slots(tasks_view(tasks@)) ==> r == Err::<
                Dispatcher,
                ErrorKind,
            >(ErrorKind::EmptyFanOut),
            tasks@.len() > 0 && all_have_slots(tasks_view(tasks@)) && total_slots(
                tasks_view(tasks@),
            ) > usize::MAX ==> r == Err::<Dispatcher, ErrorKind>(ErrorKind::TooManySlots),
            r matches Ok(d) ==> d@.tasks == tasks_view(tasks@) && d@.results == Seq::new(
                tasks@.len(),
                |i: int| None::<(OutcomeKind, Seq<char>)>,
            ) && d@.slots == total_slots(tasks_view(tasks@)) && d@.slots >= 1 && d@.outstanding
                == d@.slots && d@.pending == Seq::new(
                tasks@.len(),
                |i: int| tasks@[i].fan_out as nat,
            ),
    {
        if tasks.len() == 0 {
            return Err(ErrorKind::NothingToDo);
        }
        if first_without_slot(&tasks) {
            return Err(ErrorKind::EmptyFanOut);
        }
        let slots = match count_slots(&tasks) {
            Some(n) => n,
            None => {
                return Err(ErrorKind::TooManySlots);
            },
        };
        proof {
            lemma_slots_positive(tasks_view(tasks@));
        }
        let ghost handed = tasks@;
        let mut entries: Vec<Racing> = Vec::new();
        for task in it: tasks
            invariant
                it.seq() == handed,
                entries@.len() == it.index(),
                forall|j: int|
                    0 <= j < it.index() ==> (#[trigger] entries@[j]).task@ == handed[j]@
                        && entries@[j].result@ is None && entries@[j].pending
                        == handed[j].fan_out,
        {
            let pending = task.fan_out;
            entries.push(Racing { task, result: AggregatedResult::new(), pending });
        }
        let d = Dispatcher { entries, slots, outstanding: slots };
        assert(d@.tasks =~= tasks_view(handed));
        assert(d@.results =~= Seq::new(handed.len(), |i: int| None::<(OutcomeKind, Seq<char>)>));
        assert(d@.pending =~= Seq::new(handed.len(), |i: int| handed[i].fan_out as nat));
        Ok(d)
    }

    /// Every dispatch has one result and one count of pending workers for
    /// each task.
    pub proof fn lemma_one_result_per_task(&self)
        ensures
            well_formed(self@),
    {
    }

    /// The size of the rendezvous: all attempt-slots of all tasks.
    pub fn rendezvous_size(&self) -> (n: usize)
        ensures
            n == self@.slots,
    {
        self.slots
    }

    /// The number of tasks.
    pub fn task_count(&self) -> (n: usize)
        ensures
            n == self@.tasks.len(),
            n == self@.results.len(),
    {
        self.entries.len()
    }

    /// The workers that have not come back yet.
    pub fn outstanding(&self) -> (n: usize)
        ensures
            n == self@.outstanding,
    {
        self.outstanding
    }

    /// Whether every worker has come back.
    pub fn is_finished(&self) -> (b: bool)
        ensures
            b == (self@.outstanding == 0),
    {
        self.outstanding == 0
    }

    /// The result of a task so far; `None` also where the dispatch has no
    /// such task.
    pub fn result(&self, task: usize) -> (o: Option<ClaimOutcome>)
        ensures
            task >= self@.results.len() ==> o is None,
            task < self@.results.len() ==> (o is Some <==> self@.results[task as int] is Some),
            task < self@.results.len() ==> (o matches Some(v) ==> self@.results[task as int]
                == Some(v@)),
    {
        if task < self.entries.len() {
            self.entries[task].result.get()
        } else {
            None
        }
    }

    /// One worker for each slot of each task, task by task, all waiting at
    /// the rendezvous: as many as the rendezvous of these tasks is sized
    /// for.
    pub fn workers(&self, backoff_ms: u64) -> (ws: Vec<Worker>)
        ensures
            ws@ == all_workers(self@.tasks, backoff_ms),
            ws@.len() == total_slots(self@.tasks),
    {
        proof {
            lemma_one_worker_per_slot(self@.tasks, backoff_ms);
        }
        let mut ws: Vec<Worker> = Vec::new();
        let mut i: usize = 0;
        while i < self.entries.len()
            invariant
                i <= self.entries.len(),
                ws@ == all_workers(self@.tasks.subrange(0, i as int), backoff_ms),
            decreases self.entries.len() - i,
        {
            let fan_out = self.entries[i].task.fan_out;
            let deadline_ms = self.entries[i].task.deadline_ms;
            let ghost before = ws@;
            let ghost t = self@.tasks[i as int];
            let mut s: usize = 0;
            while s < fan_out
                invariant
                    s <= fan_out,
                    t.fan_out == fan_out,
                    t.deadline_ms == deadline_ms,
                    ws@ == before + task_workers(i as int, t, backoff_ms).subrange(0, s as int),
                decreases fan_out - s,
            {
                ws.push(Worker::new(i, s, deadline_ms, backoff_ms));
                assert(ws@ =~= before + task_workers(i as int, t, backoff_ms).subrange(
                    0,
                    s + 1,
                ));
                s = s + 1;
            }
            assert(task_workers(i as int, t, backoff_ms).subrange(0, s as int) =~= task_workers(
                i as int,
                t,
                backoff_ms,
            ));
            assert(self@.tasks.subrange(0, i + 1).drop_last() =~= self@.tasks.subrange(
                0,
                i as int,
            ));
            i = i + 1;
        }
        assert(self@.tasks.subrange(0, i as int) =~= self@.tasks);
        ws
    }

    /// The workers of a task that have not come back yet; 0 also where the
    /// dispatch has no such task.
    pub fn pending(&self, task: usize) -> (n: usize)
        ensures
            task < self@.pending.len() ==> n == self@.pending[task as int],
            task >= self@.pending.len() ==> n == 0,
    {
        if task < self.entries.len() {
            self.entries[task].pending
        } else {
            0
        }
    }

    /// Takes the outcome that a worker of `task` ended with and returns the
    /// notice to emit. An outcome that decides the task fills the task's
    /// result if that is empty; a worker that comes back without a decision
    /// fills it with the time-out if it is the last of the task. There is a
    /// notice only for the completion that fills the result.
    pub fn complete(&mut self, task: usize, outcome: ClaimOutcome) -> (notice: Option<Notice>)
        ensures
            final(self)@ == after_completion(old(self)@, task as int, outcome@).0,
            match notice {
                Some(n) => Some(n@),
                None => None,
            } == after_completion(old(self)@, task as int, outcome@).1,
    {
        if task >= self.entries.len() {
            return None;
        }
        if self.outstanding > 0 {
            self.outstanding = self.outstanding - 1;
        }
        let left = if self.entries[task].pending > 0 {
            self.entries[task].pending - 1
        } else {
            0
        };
        let value = match outcome.kind() {
            OutcomeKind::Success | OutcomeKind::AlreadyClaimed => outcome,
            _ => ClaimOutcome::TimedOut,
        };
        assert(value@ == settled(outcome@));
        let fills = self.entries[task].result.is_empty() && (match value.kind() {
            OutcomeKind::TimedOut => left == 0,
            _ => true,
        });
        assert(fills == completion_fills(old(self)@, task as int, outcome@));
        let notice = if fills {
            Some(Notice::of_result(&self.entries[task].task, &value))
        } else {
            None
        };
        self.entries[task].pending = left;
        if fills {
            let won = self.entries[task].result.commit(value);
            assert(won);
        }
        assert(self@.tasks =~= old(self)@.tasks);
        assert(self@.pending =~= old(self)@.pending.update(task as int, left as nat));
        assert(self@.results =~= after_completion(old(self)@, task as int, outcome@).0.results);
        notice
    }
}

} // verus!
