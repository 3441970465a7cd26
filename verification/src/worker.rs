//! One worker of the pool: what it does with each thing that happens to it.
//!
//! A worker is idle, running a job, cooling down after one, or done. It
//! receives from the queue only while idle, runs one job for every
//! repository it receives, pauses after every job however the job ended, and
//! is done when, idle, it finds the queue closed and empty.

use crate::job::{job_for, JobRequest, JobRequestView, JobStatus, Secrets, SecretsView};
use crate::repo::Repo;
use vstd::prelude::*;

verus! {

/// Where a worker stands, as the contracts see it.
pub enum Phase {
    /// Waiting to receive from the queue.
    Idle,
    /// Running the job for the repository of this name.
    Running(Seq<char>),
    /// Pausing after a job.
    Cooling,
    /// Finished for good.
    Done,
}

/// What happened to a worker, as the contracts see it.
pub enum WorkerEventView {
    /// The queue gave the repository of this name.
    Item(Seq<char>),
    /// The queue is closed and empty.
    Closed,
    /// The job that was running has ended, well or not.
    JobFinished,
    /// The pause is over.
    CooledDown,
}

/// What a worker is to do next, as the contracts see it.
pub enum WorkerActionView {
    Receive,
    Run(JobRequestView),
    Sleep(nat),
    Stop,
}

/// The rule of the worker: the phase it goes to and what it is to do, or
/// `None` where `event` is none that can happen in `phase`.
///
/// How a job ended plays no part: the worker pauses and goes on with the
/// next repository after a failed job as after any other.
pub open spec fn worker_step(
    phase: Phase,
    event: WorkerEventView,
    secrets: SecretsView,
    cooldown: nat,
) -> Option<(Phase, WorkerActionView)> {
    match (phase, event) {
        (Phase::Idle, WorkerEventView::Item(repo)) => Some(
            (Phase::Running(repo), WorkerActionView::Run(job_for(secrets, repo))),
        ),
        (Phase::Idle, WorkerEventView::Closed) => Some((Phase::Done, WorkerActionView::Stop)),
        (Phase::Running(_), WorkerEventView::JobFinished) => Some(
            (Phase::Cooling, WorkerActionView::Sleep(cooldown)),
        ),
        (Phase::Cooling, WorkerEventView::CooledDown) => Some(
            (Phase::Idle, WorkerActionView::Receive),
        ),
        _ => None,
    }
}

/// What a receive on the queue came to.
#[derive(Debug, PartialEq, Eq)]
pub enum Received {
    /// The next repository in the queue.
    Item(Repo),
    /// Nothing: the queue is closed and everything sent has been received.
    Closed,
}

impl Received {
    /// What a queue says that hands out `Some` repository while it has one
    /// and `None` once it is closed and empty.
    pub fn from_option(received: Option<Repo>) -> (event: Received)
        ensures
            match received {
                Some(repo) => event == Received::Item(repo),
                None => event == Received::Closed,
            },
    {
        match received {
            Some(repo) => Received::Item(repo),
            None => Received::Closed,
        }
    }
}

/// What happened to a worker.
#[derive(Debug)]
pub enum WorkerEvent {
    /// The receive that the worker asked for has returned.
    Received(Received),
    /// The job that the worker asked for has ended.
    JobFinished(JobStatus),
    /// The pause that the worker asked for is over.
    CooledDown,
}

impl View for WorkerEvent {
    type V = WorkerEventView;

    open spec fn view(&self) -> WorkerEventView {
        match self {
            WorkerEvent::Received(Received::Item(repo)) => WorkerEventView::Item(repo@),
            WorkerEvent::Received(Received::Closed) => WorkerEventView::Closed,
            WorkerEvent::JobFinished(_) => WorkerEventView::JobFinished,
            WorkerEvent::CooledDown => WorkerEventView::CooledDown,
        }
    }
}

/// What a worker is to do next.
#[derive(Debug, PartialEq, Eq)]
pub enum WorkerAction {
    /// Receive from the queue, waiting until it has an item or is closed.
    Receive,
    /// Hand this job to the job runner and wait for its end.
    Run(JobRequest),
    /// Pause for this many seconds.
    Sleep(u64),
    /// Return: the worker is done.
    Stop,
}

impl View for WorkerAction {
    type V = WorkerActionView;

    open spec fn view(&self) -> WorkerActionView {
        match self {
            WorkerAction::Receive => WorkerActionView::Receive,
            WorkerAction::Run(job) => WorkerActionView::Run(job@),
            WorkerAction::Sleep(seconds) => WorkerActionView::Sleep(*seconds as nat),
            WorkerAction::Stop => WorkerActionView::Stop,
        }
    }
}

/// Where a worker stands.
#[derive(Debug, PartialEq, Eq)]
pub enum WorkerState {
    Idle,
    Running(Repo),
    Cooling,
    Done,
}

impl View for WorkerState {
    type V = Phase;

    open spec fn view(&self) -> Phase {
        match self {
            WorkerState::Idle => Phase::Idle,
            WorkerState::Running(repo) => Phase::Running(repo@),
            WorkerState::Cooling => Phase::Cooling,
            WorkerState::Done => Phase::Done,
        }
    }
}

/// One worker of the pool.
#[derive(Debug)]
pub struct Worker {
    state: WorkerState,
    cooldown_secs: u64,
}

impl Worker {
    /// The phase of the worker.
    pub closed spec fn phase(&self) -> Phase {
        self.state@
    }

    /// The length of the pause after every job, in seconds.
    pub closed spec fn cooldown(&self) -> nat {
        self.cooldown_secs as nat
    }

    /// An idle worker that pauses for `cooldown_secs` seconds after every
    /// job. The first thing for it to do is `WorkerAction::Receive`.
    pub fn new(cooldown_secs: u64) -> (worker: Worker)
        ensures
            worker.phase() == Phase::Idle,
            worker.cooldown() == cooldown_secs,
    {
        Worker { state: WorkerState::Idle, cooldown_secs }
    }

    /// A pool of `workers` idle workers, each with a pause of
    /// `cooldown_secs` seconds.
    pub fn pool(workers: usize, cooldown_secs: u64) -> (pool: Vec<Worker>)
        ensures
            pool@.len() == workers,
            forall|w: int|
                0 <= w < workers ==> (#[trigger] pool@[w]).phase() == Phase::Idle
                    && pool@[w].cooldown() == cooldown_secs,
    {
        let mut pool: Vec<Worker> = Vec::new();
        let mut made: usize = 0;
        while made < workers
            invariant
                made <= workers,
                pool@.len() == made,
                forall|w: int|
                    0 <= w < made ==> (#[trigger] pool@[w]).phase() == Phase::Idle
                        && pool@[w].cooldown() == cooldown_secs,
            decreases workers - made,
        {
            pool.push(Worker::new(cooldown_secs));
            made += 1;
        }
        pool
    }

    /// Where the worker stands.
    pub fn state(&self) -> (state: &WorkerState)
        ensures
            state@ == self.phase(),
    {
        &self.state
    }

    /// Whether the worker has finished for good.
    pub fn is_done(&self) -> (done: bool)
        ensures
            done == (self.phase() is Done),
    {
        match self.state {
            WorkerState::Done => true,
            _ => false,
        }
    }

    /// Takes what happened and says what to do next, by the rule
    /// `worker_step`. An event that cannot happen in the worker's phase
    /// changes nothing and is answered with `None`.
    pub fn step(&mut self, event: WorkerEvent, secrets: &Secrets) -> (action: Option<WorkerAction>)
        ensures
            final(self).cooldown() == old(self).cooldown(),
            match worker_step(old(self).phase(), event@, secrets@, old(self).cooldown()) {
                Some((phase, todo)) => final(self).phase() == phase && action is Some
                    && action->Some_0@ == todo,
                None => final(self).phase() == old(self).phase() && action is None,
            },
    {
        match (&self.state, event) {
            (WorkerState::Idle, WorkerEvent::Received(Received::Item(repo))) => {
                let job = JobRequest::new(secrets, &repo);
                self.state = WorkerState::Running(repo);
                Some(WorkerAction::Run(job))
            },
            (WorkerState::Idle, WorkerEvent::Received(Received::Closed)) => {
                self.state = WorkerState::Done;
                Some(WorkerAction::Stop)
            },
            (WorkerState::Running(_), WorkerEvent::JobFinished(_)) => {
                self.state = WorkerState::Cooling;
                Some(WorkerAction::Sleep(self.cooldown_secs))
            },
            (WorkerState::Cooling, WorkerEvent::CooledDown) => {
                self.state = WorkerState::Idle;
                Some(WorkerAction::Receive)
            },
            _ => None,
        }
    }
}

} // verus!
