//! What holds of every sweep, whatever the order of its steps.

use crate::distributor::{distributor_step, DispatchView};
use crate::job::SecretsView;
use crate::sweep::{
    enabled, event_of, finished, handled_total, invoked, next, phase_steps,
    pool_steps, run, running_jobs, steps_left, sweep_inv, sweep_start, Invocation, Step,
    SweepState,
};
use crate::worker::{worker_step, Phase, WorkerEventView};
use vstd::prelude::*;

verus! {

proof fn lemma_pool_steps_update(workers: Seq<Phase>, worker: int, phase: Phase)
    requires
        0 <= worker < workers.len(),
    ensures
        pool_steps(workers.update(worker, phase)) + phase_steps(workers[worker]) == pool_steps(
            workers,
        ) + phase_steps(phase),
    decreases workers.len(),
{
    let updated = workers.update(worker, phase);
    if worker == workers.len() - 1 {
        assert(updated.drop_last() =~= workers.drop_last());
    } else {
        assert(updated.drop_last() =~= workers.drop_last().update(worker, phase));
        lemma_pool_steps_update(workers.drop_last(), worker, phase);
    }
}

proof fn lemma_pool_steps_idle(workers: nat)
    ensures
        pool_steps(Seq::new(workers, |w: int| Phase::Idle)) == workers,
    decreases workers,
{
    if workers > 0 {
        let pool = Seq::new(workers, |w: int| Phase::Idle);
        assert(pool.drop_last() =~= Seq::new((workers - 1) as nat, |w: int| Phase::Idle));
        lemma_pool_steps_idle((workers - 1) as nat);
    }
}

proof fn lemma_pool_steps_done(workers: Seq<Phase>)
    ensures
        pool_steps(workers) == 0 <==> forall|w: int|
            0 <= w < workers.len() ==> (#[trigger] workers[w]) is Done,
    decreases workers.len(),
{
    if workers.len() > 0 {
        let front = workers.drop_last();
        lemma_pool_steps_done(front);
        if pool_steps(workers) == 0 {
            assert forall|w: int| 0 <= w < workers.len() implies (#[trigger] workers[w]) is Done by {
                if w < front.len() {
                    assert(front[w] is Done);
                }
            }
        }
    }
}

proof fn lemma_handled_total_push(log: Seq<Invocation>, entry: Invocation, workers: nat)
    ensures
        handled_total(log.push(entry), workers) == handled_total(log, workers) + if entry.worker
            < workers {
            1nat
        } else {
            0nat
        },
    decreases workers,
{
    if workers > 0 {
        lemma_handled_total_push(log, entry, (workers - 1) as nat);
        assert(log.push(entry).drop_last() =~= log);
    }
}

proof fn lemma_handled_total_empty(workers: nat)
    ensures
        handled_total(Seq::<Invocation>::empty(), workers) == 0,
    decreases workers,
{
    if workers > 0 {
        lemma_handled_total_empty((workers - 1) as nat);
    }
}

/// Every call of the job runner is counted for exactly one worker: where
/// each invocation of a log names a worker of the pool, the counts of the
/// workers add up to the length of the log.
pub proof fn lemma_handled_total(log: Seq<Invocation>, workers: nat)
    requires
        forall|i: int| 0 <= i < log.len() ==> (#[trigger] log[i]).worker < workers,
    ensures
        handled_total(log, workers) == log.len(),
    decreases log.len(),
{
    if log.len() == 0 {
        assert(log =~= Seq::empty());
        lemma_handled_total_empty(workers);
    } else {
        let front = log.drop_last();
        lemma_handled_total(front, workers);
        lemma_handled_total_push(front, log.last(), workers);
        assert(front.push(log.last()) =~= log);
    }
}

/// A sweep of `order` with a pool of at least one worker starts in a state
/// in which `sweep_inv` holds, with four steps before it for every name, one
/// for every worker and one for the closing of the queue.
pub proof fn theorem_start(order: Seq<Seq<char>>, workers: nat, secrets: SecretsView, cooldown: nat)
    requires
        workers >= 1,
    ensures
        sweep_inv(sweep_start(order, workers, secrets, cooldown)),
        steps_left(sweep_start(order, workers, secrets, cooldown)) == 4 * order.len() + workers
            + 1,
{
    let state = sweep_start(order, workers, secrets, cooldown);
    lemma_pool_steps_idle(workers);
    assert(invoked(state.invocations) + state.queue.items =~= order.take(0));
}

/// A step that can be taken keeps `sweep_inv` and leaves exactly one step
/// less to take.
pub proof fn theorem_step(state: SweepState, step: Step)
    requires
        sweep_inv(state),
        enabled(state, step),
    ensures
        sweep_inv(next(state, step)),
        steps_left(next(state, step)) + 1 == steps_left(state),
{
    let after = next(state, step);
    match step {
        Step::Dispatch => {
            if let DispatchView::Send(repo) = distributor_step(state.distributor).1 {
                // What has been sent grows by the name that goes into the queue.
                let order = state.distributor.order;
                let sent = state.distributor.sent as int;
                assert(order.take(sent + 1) =~= order.take(sent).push(repo));
            }
        },
        _ => {
            let (worker, event) = event_of(state, step)->Some_0;
            let before = state.workers[worker as int];
            let phase = worker_step(before, event, state.secrets, state.cooldown)->Some_0.0;
            lemma_pool_steps_update(state.workers, worker as int, phase);
            if event is Item {
                // The name that leaves the queue is the next to be run.
                assert(invoked(after.invocations) + after.queue.items =~= invoked(
                    state.invocations,
                ) + state.queue.items);
            }
        },
    }
}

/// A sweep cannot get stuck: as long as the queue is open or a worker is not
/// done, some step can be taken.
pub proof fn theorem_progress(state: SweepState)
    requires
        sweep_inv(state),
        !finished(state),
    ensures
        exists|step: Step| enabled(state, step),
{
    let pool = state.workers;
    if exists|w: int| 0 <= w < pool.len() && (#[trigger] pool[w]) is Running {
        let w = choose|w: int| 0 <= w < pool.len() && (#[trigger] pool[w]) is Running;
        assert(enabled(state, Step::JobEnds(w as nat)));
    } else if exists|w: int| 0 <= w < pool.len() && (#[trigger] pool[w]) is Cooling {
        let w = choose|w: int| 0 <= w < pool.len() && (#[trigger] pool[w]) is Cooling;
        assert(enabled(state, Step::PauseEnds(w as nat)));
    } else if state.queue.items.len() > 0 {
        assert(enabled(state, Step::Receive(0)));
    } else if !state.queue.closed {
        assert(enabled(state, Step::Dispatch));
    } else {
        let w = choose|w: int| 0 <= w < pool.len() && !((#[trigger] pool[w]) is Done);
        assert(enabled(state, Step::Receive(w as nat)));
    }
}

/// At the end of a sweep every repository has been handed to the job runner
/// exactly once, in the order of its dispatch, and what the workers handled
/// between them is as many repositories as were to be sent. Nothing is left
/// in the queue, and no step is left to take.
pub proof fn theorem_finished(state: SweepState)
    requires
        sweep_inv(state),
        finished(state),
    ensures
        invoked(state.invocations) == state.distributor.order,
        handled_total(state.invocations, state.workers.len()) == state.distributor.order.len(),
        state.distributor.sent == state.distributor.order.len(),
        state.queue.items.len() == 0,
        steps_left(state) == 0,
        forall|step: Step| !enabled(state, step),
{
    assert(state.workers[0] is Done);
    lemma_handled_total(state.invocations, state.workers.len());
    lemma_pool_steps_done(state.workers);
}

/// A sweep is over as soon as no step is left to take, and not before.
pub proof fn theorem_steps_left(state: SweepState)
    requires
        sweep_inv(state),
    ensures
        steps_left(state) == 0 <==> finished(state),
{
    lemma_pool_steps_done(state.workers);
    if finished(state) {
        theorem_finished(state);
    }
}

/// Every order of steps is a short one: after `steps` of a sweep of `order`
/// with `workers` workers, `sweep_inv` holds and the steps taken and the
/// steps left add up to `4 * order.len() + workers + 1`.
pub proof fn theorem_run(
    order: Seq<Seq<char>>,
    workers: nat,
    secrets: SecretsView,
    cooldown: nat,
    steps: Seq<Step>,
)
    requires
        workers >= 1,
        run(sweep_start(order, workers, secrets, cooldown), steps) is Some,
    ensures
        sweep_inv(run(sweep_start(order, workers, secrets, cooldown), steps)->Some_0),
        steps.len() + steps_left(run(sweep_start(order, workers, secrets, cooldown), steps)->Some_0)
            == 4 * order.len() + workers + 1,
        run(sweep_start(order, workers, secrets, cooldown), steps)->Some_0.distributor.order
            == order,
        run(sweep_start(order, workers, secrets, cooldown), steps)->Some_0.workers.len()
            == workers,
    decreases steps.len(),
{
    let start = sweep_start(order, workers, secrets, cooldown);
    if steps.len() == 0 {
        theorem_start(order, workers, secrets, cooldown);
    } else {
        theorem_run(order, workers, secrets, cooldown, steps.drop_last());
        let reached = run(start, steps.drop_last())->Some_0;
        theorem_step(reached, steps.last());
    }
}

proof fn lemma_run_after_first(state: SweepState, first: Step, more: Seq<Step>)
    requires
        enabled(state, first),
    ensures
        run(state, seq![first] + more) == run(next(state, first), more),
    decreases more.len(),
{
    let all = seq![first] + more;
    if more.len() == 0 {
        assert(run(state, all.drop_last()) == Some(state));
    } else {
        lemma_run_after_first(state, first, more.drop_last());
        assert(all.drop_last() =~= seq![first] + more.drop_last());
    }
}

/// From every state of a sweep there is a way to its end, and it is as long
/// as `steps_left` says.
pub proof fn theorem_can_finish(state: SweepState) -> (more: Seq<Step>)
    requires
        sweep_inv(state),
    ensures
        more.len() == steps_left(state),
        run(state, more) is Some,
        finished(run(state, more)->Some_0),
    decreases steps_left(state),
{
    theorem_steps_left(state);
    if finished(state) {
        Seq::empty()
    } else {
        theorem_progress(state);
        let first = choose|step: Step| enabled(state, step);
        theorem_step(state, first);
        let rest = theorem_can_finish(next(state, first));
        lemma_run_after_first(state, first, rest);
        seq![first] + rest
    }
}

/// A worker is told that the queue is closed only when every repository has
/// been handed to the job runner: none is lost between the sender's last
/// send and a worker's finding the queue closed.
pub proof fn theorem_closed_after_last_delivery(state: SweepState, worker: nat)
    requires
        sweep_inv(state),
        enabled(state, Step::Receive(worker)),
        state.queue.front() == Some(WorkerEventView::Closed),
    ensures
        invoked(state.invocations) == state.distributor.order,
        next(state, Step::Receive(worker)).workers[worker as int] is Done,
{
}

/// The whole of a sweep. Take any order of steps from the start of a sweep
/// of `order` with `workers` workers, up to a state in which no step can be
/// taken. Then the sweep is over: `4 * order.len() + workers + 1` steps were
/// taken, every worker is done, the queue is closed and empty, and the job
/// runner was called once for each name of `order`, in that order. If
/// `order` is a rearrangement of `repos`, the job runner was called for each
/// repository of `repos` as often as `repos` holds it, and the workers
/// handled `repos.len()` repositories between them.
pub proof fn theorem_complete_sweep(
    repos: Seq<Seq<char>>,
    order: Seq<Seq<char>>,
    workers: nat,
    secrets: SecretsView,
    cooldown: nat,
    steps: Seq<Step>,
)
    requires
        workers >= 1,
        order.to_multiset() == repos.to_multiset(),
        run(sweep_start(order, workers, secrets, cooldown), steps) is Some,
        forall|step: Step|
            !enabled(run(sweep_start(order, workers, secrets, cooldown), steps)->Some_0, step),
    ensures
        ({
            let end = run(sweep_start(order, workers, secrets, cooldown), steps)->Some_0;
            &&& finished(end)
            &&& steps.len() == 4 * order.len() + workers + 1
            &&& end.queue.items.len() == 0
            &&& invoked(end.invocations) == order
            &&& invoked(end.invocations).to_multiset() == repos.to_multiset()
            &&& end.invocations.len() == repos.len()
            &&& handled_total(end.invocations, workers) == repos.len()
        }),
{
    let end = run(sweep_start(order, workers, secrets, cooldown), steps)->Some_0;
    theorem_run(order, workers, secrets, cooldown, steps);
    if !finished(end) {
        theorem_progress(end);
    }
    theorem_finished(end);
    order.to_multiset_ensures();
    repos.to_multiset_ensures();
}

proof fn lemma_pool_steps_bound(workers: Seq<Phase>)
    ensures
        pool_steps(workers) <= 3 * workers.len(),
    decreases workers.len(),
{
    if workers.len() > 0 {
        lemma_pool_steps_bound(workers.drop_last());
    }
}

/// Once the queue is closed and empty, the end is near: all that is left is
/// for every worker to end its job and its pause and to find the queue
/// closed, which is three steps of a worker at most.
pub proof fn theorem_shutdown_is_bounded(state: SweepState)
    requires
        sweep_inv(state),
        state.queue.closed,
        state.queue.items.len() == 0,
    ensures
        steps_left(state) == pool_steps(state.workers),
        steps_left(state) <= 3 * state.workers.len(),
        forall|w: int|
            0 <= w < state.workers.len() ==> phase_steps(#[trigger] state.workers[w]) <= 3,
{
    lemma_pool_steps_bound(state.workers);
}

/// The pool never runs more jobs at once than it has workers: a worker runs
/// one job at a time.
pub proof fn theorem_ceiling(workers: Seq<Phase>)
    ensures
        running_jobs(workers) <= workers.len(),
    decreases workers.len(),
{
    if workers.len() > 0 {
        theorem_ceiling(workers.drop_last());
    }
}

} // verus!
