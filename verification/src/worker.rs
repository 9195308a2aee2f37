//! One claim worker as a state machine: it waits at the rendezvous, then
//! attempts, backs off and attempts again until an attempt ends the task or
//! the deadline has passed. The caller performs the actions and hands back
//! the events.

use crate::outcome::{ClaimOutcome, OutcomeKind};
use crate::slot::is_terminal;
use vstd::prelude::*;

verus! {

/// Where a worker is in its loop.
#[derive(Clone, Copy, Debug, PartialEq, Eq, Structural)]
pub enum WorkerPhase {
    /// Waiting for every sibling slot of the dispatch to arrive.
    AtRendezvous,
    /// An attempt is on its way.
    InFlight,
    /// Sleeping between two attempts.
    BackingOff,
    /// Done: no event moves the worker any more.
    Stopped,
}

/// What happened to a worker since its last action.
#[derive(Debug, PartialEq, Eq)]
pub enum WorkerEvent {
    /// The rendezvous released all slots.
    Released,
    /// The attempt came back and was classified.
    Classified(ClaimOutcome),
    /// The backoff sleep is over.
    BackoffElapsed,
}

/// What a worker asks its caller to do next.
#[derive(Debug, PartialEq, Eq)]
pub enum WorkerAction {
    /// Send one claim attempt and classify what comes back.
    Attempt,
    /// Sleep for this many milliseconds.
    Sleep(u64),
    /// The worker is done: commit this outcome to the task's result.
    Stop(ClaimOutcome),
    /// The event does not concern the worker in its phase.
    Ignore,
}

/// The mathematical content of a [`WorkerEvent`].
pub ghost enum WorkerEventView {
    Released,
    Classified((OutcomeKind, Seq<char>)),
    BackoffElapsed,
}

/// The mathematical content of a [`WorkerAction`].
pub ghost enum WorkerActionView {
    Attempt,
    Sleep(u64),
    Stop((OutcomeKind, Seq<char>)),
    Ignore,
}

impl View for WorkerEvent {
    type V = WorkerEventView;

    open spec fn view(&self) -> WorkerEventView {
        match self {
            WorkerEvent::Released => WorkerEventView::Released,
            WorkerEvent::Classified(o) => WorkerEventView::Classified(o@),
            WorkerEvent::BackoffElapsed => WorkerEventView::BackoffElapsed,
        }
    }
}

impl View for WorkerAction {
    type V = WorkerActionView;

    open spec fn view(&self) -> WorkerActionView {
        match self {
            WorkerAction::Attempt => WorkerActionView::Attempt,
            WorkerAction::Sleep(ms) => WorkerActionView::Sleep(*ms),
            WorkerAction::Stop(o) => WorkerActionView::Stop(o@),
            WorkerAction::Ignore => WorkerActionView::Ignore,
        }
    }
}

/// One attempt-slot of one task.
#[derive(Clone, Copy, Debug, PartialEq, Eq, Structural)]
pub struct Worker {
    /// The task's index in the dispatch.
    pub task: usize,
    /// The slot's number within the task.
    pub slot: usize,
    /// The instant, in milliseconds, from which no further attempt starts.
    pub deadline_ms: i64,
    /// The sleep between two attempts, in milliseconds.
    pub backoff_ms: u64,
    pub phase: WorkerPhase,
    /// The attempts started so far; it stays at the largest number once
    /// reached.
    pub attempts: u64,
}

/// The attempt count after one more attempt.
pub open spec fn one_more(attempts: u64) -> u64 {
    if attempts < u64::MAX {
        (attempts + 1) as u64
    } else {
        attempts
    }
}

/// The outcome of a worker that ran into its deadline.
pub open spec fn timed_out() -> (OutcomeKind, Seq<char>) {
    (OutcomeKind::TimedOut, Seq::empty())
}

/// The worker after an event at the instant `now_ms`, and the action it asks
/// for.
pub open spec fn worker_step(w: Worker, event: WorkerEventView, now_ms: i64) -> (
    Worker,
    WorkerActionView,
) {
    match (w.phase, event) {
        (WorkerPhase::AtRendezvous, WorkerEventView::Released) => (
            Worker { phase: WorkerPhase::InFlight, attempts: one_more(w.attempts), ..w },
            WorkerActionView::Attempt,
        ),
        (WorkerPhase::InFlight, WorkerEventView::Classified(o)) => {
            if o.0 == OutcomeKind::Success || o.0 == OutcomeKind::AlreadyClaimed {
                (Worker { phase: WorkerPhase::Stopped, ..w }, WorkerActionView::Stop(o))
            } else if o.0 == OutcomeKind::TimedOut || now_ms >= w.deadline_ms {
                (Worker { phase: WorkerPhase::Stopped, ..w }, WorkerActionView::Stop(timed_out()))
            } else {
                (
                    Worker { phase: WorkerPhase::BackingOff, ..w },
                    WorkerActionView::Sleep(w.backoff_ms),
                )
            }
        },
        (WorkerPhase::BackingOff, WorkerEventView::BackoffElapsed) => {
            if now_ms >= w.deadline_ms {
                (Worker { phase: WorkerPhase::Stopped, ..w }, WorkerActionView::Stop(timed_out()))
            } else {
                (
                    Worker { phase: WorkerPhase::InFlight, attempts: one_more(w.attempts), ..w },
                    WorkerActionView::Attempt,
                )
            }
        },
        _ => (w, WorkerActionView::Ignore),
    }
}

/// The worker after a run of events, each with the instant at which it
/// came.
pub open spec fn worker_after(w: Worker, events: Seq<(WorkerEventView, i64)>) -> Worker
    decreases events.len(),
{
    if events.len() == 0 {
        w
    } else {
        worker_step(worker_after(w, events.drop_last()), events.last().0, events.last().1).0
    }
}

/// How many of the events of a run made the worker stop.
pub open spec fn stops_in(w: Worker, events: Seq<(WorkerEventView, i64)>) -> nat
    decreases events.len(),
{
    if events.len() == 0 {
        0
    } else {
        let earlier = events.drop_last();
        stops_in(w, earlier) + if worker_step(
            worker_after(w, earlier),
            events.last().0,
            events.last().1,
        ).1 is Stop {
            1nat
        } else {
            0nat
        }
    }
}

impl Worker {
    /// A worker for slot `slot` of task `task`, waiting at the rendezvous.
    pub fn new(task: usize, slot: usize, deadline_ms: i64, backoff_ms: u64) -> (w: Self)
        ensures
            w == (Worker {
                task,
                slot,
                deadline_ms,
                backoff_ms,
                phase: WorkerPhase::AtRendezvous,
                attempts: 0,
            }),
    {
        Worker { task, slot, deadline_ms, backoff_ms, phase: WorkerPhase::AtRendezvous, attempts: 0 }
    }

    /// Whether the worker is done.
    pub fn is_stopped(&self) -> (b: bool)
        ensures
            b == (self.phase == WorkerPhase::Stopped),
    {
        match self.phase {
            WorkerPhase::Stopped => true,
            _ => false,
        }
    }

    /// Takes one event at the instant `now_ms` and says what to do next. The
    /// worker stops exactly when the action is `Stop`, and the outcome it
    /// stops with is terminal. But for the first attempt, which follows the
    /// release whenever that comes, no attempt starts at or after the
    /// deadline.
    pub fn step(&mut self, event: WorkerEvent, now_ms: i64) -> (action: WorkerAction)
        ensures
            (*final(self), action@) == worker_step(*old(self), event@, now_ms),
            action@ is Stop <==> old(self).phase != WorkerPhase::Stopped && final(self).phase
                == WorkerPhase::Stopped,
            action@ matches WorkerActionView::Stop(o) ==> is_terminal(o.0),
            action@ is Attempt ==> final(self).phase == WorkerPhase::InFlight && (old(self).phase
                == WorkerPhase::AtRendezvous || now_ms < old(self).deadline_ms),
            final(self).task == old(self).task && final(self).slot == old(self).slot,
    {
        match (self.phase, event) {
            (WorkerPhase::AtRendezvous, WorkerEvent::Released) => {
                self.start_attempt();
                WorkerAction::Attempt
            },
            (WorkerPhase::InFlight, WorkerEvent::Classified(o)) => {
                match o.kind() {
                    OutcomeKind::Success | OutcomeKind::AlreadyClaimed => {
                        self.phase = WorkerPhase::Stopped;
                        WorkerAction::Stop(o)
                    },
                    OutcomeKind::TimedOut => {
                        self.phase = WorkerPhase::Stopped;
                        WorkerAction::Stop(ClaimOutcome::TimedOut)
                    },
                    OutcomeKind::Transient => {
                        if now_ms >= self.deadline_ms {
                            self.phase = WorkerPhase::Stopped;
                            WorkerAction::Stop(ClaimOutcome::TimedOut)
                        } else {
                            self.phase = WorkerPhase::BackingOff;
                            WorkerAction::Sleep(self.backoff_ms)
                        }
                    },
                }
            },
            (WorkerPhase::BackingOff, WorkerEvent::BackoffElapsed) => {
                if now_ms >= self.deadline_ms {
                    self.phase = WorkerPhase::Stopped;
                    WorkerAction::Stop(ClaimOutcome::TimedOut)
                } else {
                    self.start_attempt();
                    WorkerAction::Attempt
                }
            },
            _ => WorkerAction::Ignore,
        }
    }

    fn start_attempt(&mut self)
        ensures
            *final(self) == (Worker {
                phase: WorkerPhase::InFlight,
                attempts: one_more(old(self).attempts),
                ..*old(self)
            }),
    {
        self.phase = WorkerPhase::InFlight;
        if self.attempts < u64::MAX {
            self.attempts = self.attempts + 1;
        }
    }
}

/// The event of an attempt that comes back without a decision.
pub open spec fn busy() -> WorkerEventView {
    WorkerEventView::Classified((OutcomeKind::Transient, Seq::empty()))
}

/// Where a worker ends, and with which action, that has an attempt on its
/// way at `now_ms` when every attempt comes back at once and without a
/// decision, and every sleep lasts exactly as long as asked.
pub open spec fn busy_run(w: Worker, now_ms: int) -> (Worker, WorkerActionView)
    decreases w.deadline_ms - now_ms,
{
    let back = worker_step(w, busy(), now_ms as i64);
    if back.1 is Sleep && w.backoff_ms > 0 && i64::MIN <= now_ms && now_ms + w.backoff_ms
        <= i64::MAX {
        let woken = worker_step(back.0, WorkerEventView::BackoffElapsed, (now_ms + w.backoff_ms) as i64);
        if woken.1 is Attempt {
            busy_run(woken.0, now_ms + w.backoff_ms)
        } else {
            woken
        }
    } else {
        back
    }
}

/// How many backoffs fit between `now_ms` and the deadline, the last one
/// begun counting as whole.
pub open spec fn backoffs_until(deadline_ms: int, now_ms: int, backoff_ms: int) -> int {
    (deadline_ms - now_ms + backoff_ms - 1) / backoff_ms
}

/// A worker that never gets a decision times out, and it makes as many
/// attempts as backoffs fit between its first attempt and its deadline: with
/// a deadline of 200 ms after the first attempt and a backoff of 20 ms,
/// ten. (The clock must be able to show the moment one backoff after the
/// deadline, and the attempts must be countable.)
pub proof fn lemma_busy_worker_times_out(w: Worker, now_ms: int)
    requires
        w.phase == WorkerPhase::InFlight,
        w.backoff_ms > 0,
        i64::MIN <= now_ms < w.deadline_ms,
        w.deadline_ms + w.backoff_ms <= i64::MAX,
        w.attempts + backoffs_until(w.deadline_ms as int, now_ms, w.backoff_ms as int)
            <= u64::MAX,
    ensures
        busy_run(w, now_ms).0.phase == WorkerPhase::Stopped,
        busy_run(w, now_ms).1 == WorkerActionView::Stop(timed_out()),
        busy_run(w, now_ms).0.attempts == w.attempts + backoffs_until(
            w.deadline_ms as int,
            now_ms,
            w.backoff_ms as int,
        ) - 1,
    decreases w.deadline_ms - now_ms,
{
    let b = w.backoff_ms as int;
    let d = w.deadline_ms - now_ms;
    let back = worker_step(w, busy(), now_ms as i64);
    assert(back.1 is Sleep);
    let next = now_ms + b;
    if next < w.deadline_ms {
        let woken = worker_step(back.0, WorkerEventView::BackoffElapsed, next as i64);
        assert(woken.1 is Attempt);
        assert((d + b - 1) / b == (d - b + b - 1) / b + 1) by (nonlinear_arith)
            requires
                b > 0,
                d > b,
        ;
        assert((d - b + b - 1) / b >= 1) by (nonlinear_arith)
            requires
                b > 0,
                d > b,
        ;
        lemma_busy_worker_times_out(woken.0, next);
    } else {
        assert((d + b - 1) / b == 1) by (nonlinear_arith)
            requires
                b > 0,
                0 < d <= b,
        ;
    }
}

/// A worker that has stopped stays as it is, whatever events follow.
pub proof fn lemma_stopped_stays(w: Worker, events: Seq<(WorkerEventView, i64)>)
    requires
        w.phase == WorkerPhase::Stopped,
    ensures
        worker_after(w, events) == w,
        stops_in(w, events) == 0,
    decreases events.len(),
{
    if events.len() > 0 {
        lemma_stopped_stays(w, events.drop_last());
    }
}

/// In any run of events a worker stops at most once, and it has stopped at
/// the end exactly if it had stopped before the run or stopped in it.
pub proof fn lemma_stops_at_most_once(w: Worker, events: Seq<(WorkerEventView, i64)>)
    ensures
        stops_in(w, events) <= 1,
        w.phase != WorkerPhase::Stopped ==> (stops_in(w, events) == 1 <==> worker_after(
            w,
            events,
        ).phase == WorkerPhase::Stopped),
    decreases events.len(),
{
    if events.len() > 0 {
        lemma_stops_at_most_once(w, events.drop_last());
        if w.phase == WorkerPhase::Stopped {
            lemma_stopped_stays(w, events);
            lemma_stopped_stays(w, events.drop_last());
        }
    }
}

} // verus!
