//! A whole sweep: one sender, a bounded queue and a pool of workers.
//!
//! The parts of a sweep run side by side, and in which order their steps
//! fall is not in the library's hands. This module describes every order
//! that can occur: a state of the whole sweep, the steps that can be taken in
//! it, and what a step changes. The sender and the workers move by the very
//! rules that `Distributor::next` and `Worker::step` follow; the queue is
//! taken to deliver first what was sent first, to admit no more than its
//! capacity, and to report itself closed only to a receiver that finds it
//! empty. Every job and every pause is taken to end: nothing here can end a
//! job that hangs.
//!
//! Proved of every order of steps: each repository is handed to the job
//! runner exactly once, in the order of its dispatch; the queue is closed
//! once, after the last repository is in it; no step can be taken forever,
//! and as long as a worker is not done some step can be taken.

use crate::distributor::{distributor_start, distributor_step, DispatchView, DistributorView};
use crate::job::SecretsView;
use crate::worker::{worker_step, Phase, WorkerActionView, WorkerEventView};
use vstd::prelude::*;

verus! {

/// The queue between the sender and the workers.
pub struct QueueView {
    /// How many names the queue holds at most.
    pub capacity: nat,
    /// The names in the queue, the one sent first at the front.
    pub items: Seq<Seq<char>>,
    /// Whether the sender has closed the queue.
    pub closed: bool,
}

impl QueueView {
    /// Whether a send can go through without waiting.
    pub open spec fn has_room(self) -> bool {
        self.items.len() < self.capacity
    }

    /// What a receive comes to: the name at the front; the word that the
    /// queue is closed, where it is closed and empty; `None` where the
    /// receiver has to wait.
    pub open spec fn front(self) -> Option<WorkerEventView> {
        if self.items.len() > 0 {
            Some(WorkerEventView::Item(self.items[0]))
        } else if self.closed {
            Some(WorkerEventView::Closed)
        } else {
            None
        }
    }
}

/// One call of the job runner: the worker that made it and the repository
/// that it was made for.
pub struct Invocation {
    pub worker: nat,
    pub repo: Seq<char>,
}

/// The repositories of a log of invocations, in the order of the log.
pub open spec fn invoked(log: Seq<Invocation>) -> Seq<Seq<char>> {
    log.map_values(|invocation: Invocation| invocation.repo)
}

/// The state of a sweep.
pub struct SweepState {
    /// The secrets that every job carries.
    pub secrets: SecretsView,
    /// The length of a worker's pause, in seconds.
    pub cooldown: nat,
    pub distributor: DistributorView,
    pub queue: QueueView,
    /// The phase of every worker of the pool.
    pub workers: Seq<Phase>,
    /// Every call of the job runner so far, in the order in which they began.
    pub invocations: Seq<Invocation>,
}

/// A sweep before its first step: `order` is to be sent, `workers` idle
/// workers wait, and the queue, which holds as many names as there are
/// workers, is empty.
pub open spec fn sweep_start(
    order: Seq<Seq<char>>,
    workers: nat,
    secrets: SecretsView,
    cooldown: nat,
) -> SweepState {
    SweepState {
        secrets,
        cooldown,
        distributor: distributor_start(order),
        queue: QueueView { capacity: workers, items: Seq::empty(), closed: false },
        workers: Seq::new(workers, |w: int| Phase::Idle),
        invocations: Seq::empty(),
    }
}

/// A step of a sweep.
pub enum Step {
    /// The sender does what the distributor says next: it puts a name into
    /// the queue, or closes the queue.
    Dispatch,
    /// The receive of this worker returns.
    Receive(nat),
    /// The job of this worker ends.
    JobEnds(nat),
    /// The pause of this worker ends.
    PauseEnds(nat),
}

/// What happens to worker `worker` in a step of its own, if the step can be
/// taken: a receive returns what the queue has, and the job or the pause of
/// the worker ends.
pub open spec fn event_of(state: SweepState, step: Step) -> Option<(nat, WorkerEventView)> {
    match step {
        Step::Dispatch => None,
        Step::Receive(worker) => match state.queue.front() {
            Some(event) => Some((worker, event)),
            None => None,
        },
        Step::JobEnds(worker) => Some((worker, WorkerEventView::JobFinished)),
        Step::PauseEnds(worker) => Some((worker, WorkerEventView::CooledDown)),
    }
}

/// Whether `step` can be taken in `state`. The sender can send while the
/// queue has room and can always close; a worker can take the step that its
/// phase waits for, a receive only when the queue has something to say.
pub open spec fn enabled(state: SweepState, step: Step) -> bool {
    match step {
        Step::Dispatch => match distributor_step(state.distributor).1 {
            DispatchView::Send(_) => state.queue.has_room(),
            DispatchView::Close => true,
            DispatchView::Finished => false,
        },
        _ => match event_of(state, step) {
            Some((worker, event)) => worker < state.workers.len() && worker_step(
                state.workers[worker as int],
                event,
                state.secrets,
                state.cooldown,
            ) is Some,
            None => false,
        },
    }
}

/// The state after `step` is taken in `state`.
pub open spec fn next(state: SweepState, step: Step) -> SweepState {
    match step {
        Step::Dispatch => {
            let (distributor, dispatch) = distributor_step(state.distributor);
            let queue = match dispatch {
                DispatchView::Send(repo) => QueueView {
                    capacity: state.queue.capacity,
                    items: state.queue.items.push(repo),
                    closed: state.queue.closed,
                },
                DispatchView::Close => QueueView {
                    capacity: state.queue.capacity,
                    items: state.queue.items,
                    closed: true,
                },
                DispatchView::Finished => state.queue,
            };
            SweepState {
                secrets: state.secrets,
                cooldown: state.cooldown,
                distributor,
                queue,
                workers: state.workers,
                invocations: state.invocations,
            }
        },
        _ => match event_of(state, step) {
            Some((worker, event)) => match worker_step(
                state.workers[worker as int],
                event,
                state.secrets,
                state.cooldown,
            ) {
                Some((phase, action)) => SweepState {
                    secrets: state.secrets,
                    cooldown: state.cooldown,
                    distributor: state.distributor,
                    queue: match event {
                        WorkerEventView::Item(_) => QueueView {
                            capacity: state.queue.capacity,
                            items: state.queue.items.drop_first(),
                            closed: state.queue.closed,
                        },
                        _ => state.queue,
                    },
                    workers: state.workers.update(worker as int, phase),
                    invocations: match (event, action) {
                        (WorkerEventView::Item(repo), WorkerActionView::Run(_)) => {
                            state.invocations.push(Invocation { worker, repo })
                        },
                        _ => state.invocations,
                    },
                },
                None => state,
            },
            None => state,
        },
    }
}

/// The state that a sequence of steps leads to from `state`, or `None` where
/// one of the steps cannot be taken when its turn comes.
pub open spec fn run(state: SweepState, steps: Seq<Step>) -> Option<SweepState>
    decreases steps.len(),
{
    if steps.len() == 0 {
        Some(state)
    } else {
        match run(state, steps.drop_last()) {
            Some(reached) => if enabled(reached, steps.last()) {
                Some(next(reached, steps.last()))
            } else {
                None
            },
            None => None,
        }
    }
}

/// What holds in every state of a sweep.
pub open spec fn sweep_inv(state: SweepState) -> bool {
    // The pool is not empty, and the queue holds as many names as the pool
    // has workers.
    &&& state.workers.len() >= 1
    &&& state.queue.capacity == state.workers.len()
    &&& state.queue.items.len() <= state.queue.capacity
    // The queue is closed where the distributor said so, which is after the
    // last name was sent.
    &&& state.distributor.wf()
    &&& state.queue.closed == state.distributor.closed
    // What was sent has been handed to the job runner or is in the queue, in
    // the order of its dispatch, and nothing else is.
    &&& invoked(state.invocations) + state.queue.items == state.distributor.order.take(
        state.distributor.sent as int,
    )
    &&& forall|i: int|
        0 <= i < state.invocations.len() ==> (#[trigger] state.invocations[i]).worker
            < state.workers.len()
    // A worker is done only behind a closed and empty queue.
    &&& forall|w: int|
        0 <= w < state.workers.len() && (#[trigger] state.workers[w]) is Done
            ==> state.queue.closed && state.queue.items.len() == 0
}

/// Whether the sweep is over: the queue is closed and every worker is done.
pub open spec fn finished(state: SweepState) -> bool {
    &&& state.queue.closed
    &&& forall|w: int| 0 <= w < state.workers.len() ==> (#[trigger] state.workers[w]) is Done
}

/// The steps that a worker in `phase` still has to take before it is done,
/// if it receives no further repository.
pub open spec fn phase_steps(phase: Phase) -> nat {
    match phase {
        Phase::Idle => 1,
        Phase::Running(_) => 3,
        Phase::Cooling => 2,
        Phase::Done => 0,
    }
}

/// The sum of `phase_steps` over a pool.
pub open spec fn pool_steps(workers: Seq<Phase>) -> nat
    decreases workers.len(),
{
    if workers.len() == 0 {
        0
    } else {
        pool_steps(workers.drop_last()) + phase_steps(workers.last())
    }
}

/// The number of steps that are left of a sweep: four for every name still
/// to be sent (it is sent, received, run and paused after), three for every
/// name in the queue, what the workers have before them, and the closing of
/// the queue.
pub open spec fn steps_left(state: SweepState) -> nat {
    (4 * (state.distributor.order.len() - state.distributor.sent) + 3 * state.queue.items.len()
        + pool_steps(state.workers) + if state.queue.closed {
        0nat
    } else {
        1nat
    }) as nat
}

/// How many jobs a pool is running.
pub open spec fn running_jobs(workers: Seq<Phase>) -> nat
    decreases workers.len(),
{
    if workers.len() == 0 {
        0
    } else {
        running_jobs(workers.drop_last()) + if workers.last() is Running {
            1nat
        } else {
            0nat
        }
    }
}

/// How many of the invocations of `log` worker `worker` made.
pub open spec fn handled_by(log: Seq<Invocation>, worker: nat) -> nat
    decreases log.len(),
{
    if log.len() == 0 {
        0
    } else {
        handled_by(log.drop_last(), worker) + if log.last().worker == worker {
            1nat
        } else {
            0nat
        }
    }
}

/// How many of the invocations of `log` the first `workers` workers made
/// between them.
pub open spec fn handled_total(log: Seq<Invocation>, workers: nat) -> nat
    decreases workers,
{
    if workers == 0 {
        0
    } else {
        handled_total(log, (workers - 1) as nat) + handled_by(log, (workers - 1) as nat)
    }
}

} // verus!
