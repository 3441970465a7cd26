use renovate_gitea_sharding::job::{Environment, JobRequest, JobStatus, Secrets};
use renovate_gitea_sharding::repo::Repo;
use renovate_gitea_sharding::worker::{Received, Worker, WorkerAction, WorkerEvent, WorkerState};

fn secrets() -> Secrets {
    Secrets::resolve(Environment {
        gitea_access_token: Some("access".to_string()),
        github_com_token: Some("github".to_string()),
        renovate_secrets: Some("secrets".to_string()),
        gitea_renovate_token: Some("renovate".to_string()),
    })
    .unwrap()
}

fn repo(name: &str) -> Repo {
    Repo::new(name.to_string())
}

fn item(name: &str) -> WorkerEvent {
    WorkerEvent::Received(Received::Item(repo(name)))
}

#[test]
fn queue_answers_become_events() {
    assert_eq!(Received::from_option(Some(repo("a/b"))), Received::Item(repo("a/b")));
    assert_eq!(Received::from_option(None), Received::Closed);
}

#[test]
fn new_worker_is_idle() {
    let worker = Worker::new(2);
    assert_eq!(*worker.state(), WorkerState::Idle);
    assert!(!worker.is_done());
}

#[test]
fn worker_runs_pauses_and_receives_again() {
    let secrets = secrets();
    let mut worker = Worker::new(2);
    let action = worker.step(item("a/b"), &secrets);
    assert_eq!(action, Some(WorkerAction::Run(JobRequest::new(&secrets, &repo("a/b")))));
    assert_eq!(*worker.state(), WorkerState::Running(repo("a/b")));

    let action = worker.step(WorkerEvent::JobFinished(JobStatus::Exited(0)), &secrets);
    assert_eq!(action, Some(WorkerAction::Sleep(2)));
    assert_eq!(*worker.state(), WorkerState::Cooling);

    let action = worker.step(WorkerEvent::CooledDown, &secrets);
    assert_eq!(action, Some(WorkerAction::Receive));
    assert_eq!(*worker.state(), WorkerState::Idle);
}

#[test]
fn idle_worker_stops_on_a_closed_queue() {
    let secrets = secrets();
    let mut worker = Worker::new(2);
    let action = worker.step(WorkerEvent::Received(Received::Closed), &secrets);
    assert_eq!(action, Some(WorkerAction::Stop));
    assert_eq!(*worker.state(), WorkerState::Done);
    assert!(worker.is_done());
}

#[test]
fn failed_job_does_not_stop_the_worker() {
    let secrets = secrets();
    for status in [
        JobStatus::Exited(1),
        JobStatus::Exited(-9),
        JobStatus::Exited(137),
        JobStatus::Failed("runner unreachable".to_string()),
    ] {
        let mut worker = Worker::new(2);
        worker.step(item("a/b"), &secrets).unwrap();
        let action = worker.step(WorkerEvent::JobFinished(status), &secrets);
        assert_eq!(action, Some(WorkerAction::Sleep(2)));
        assert_eq!(worker.step(WorkerEvent::CooledDown, &secrets), Some(WorkerAction::Receive));
        let action = worker.step(item("c/d"), &secrets);
        assert_eq!(action, Some(WorkerAction::Run(JobRequest::new(&secrets, &repo("c/d")))));
    }
}

#[test]
fn pause_is_as_long_as_the_worker_was_told() {
    let secrets = secrets();
    for seconds in [0u64, 2, 3600, u64::MAX] {
        let mut worker = Worker::new(seconds);
        worker.step(item("a/b"), &secrets).unwrap();
        let action = worker.step(WorkerEvent::JobFinished(JobStatus::Exited(0)), &secrets);
        assert_eq!(action, Some(WorkerAction::Sleep(seconds)));
    }
}

#[test]
fn idle_worker_ignores_what_it_did_not_ask_for() {
    let secrets = secrets();
    let mut worker = Worker::new(2);
    assert_eq!(worker.step(WorkerEvent::JobFinished(JobStatus::Exited(0)), &secrets), None);
    assert_eq!(worker.step(WorkerEvent::CooledDown, &secrets), None);
    assert_eq!(*worker.state(), WorkerState::Idle);
}

#[test]
fn running_worker_ignores_what_it_did_not_ask_for() {
    let secrets = secrets();
    let mut worker = Worker::new(2);
    worker.step(item("a/b"), &secrets).unwrap();
    assert_eq!(worker.step(item("c/d"), &secrets), None);
    assert_eq!(worker.step(WorkerEvent::Received(Received::Closed), &secrets), None);
    assert_eq!(worker.step(WorkerEvent::CooledDown, &secrets), None);
    assert_eq!(*worker.state(), WorkerState::Running(repo("a/b")));
}

#[test]
fn cooling_worker_ignores_what_it_did_not_ask_for() {
    let secrets = secrets();
    let mut worker = Worker::new(2);
    worker.step(item("a/b"), &secrets).unwrap();
    worker.step(WorkerEvent::JobFinished(JobStatus::Exited(0)), &secrets).unwrap();
    assert_eq!(worker.step(item("c/d"), &secrets), None);
    assert_eq!(worker.step(WorkerEvent::Received(Received::Closed), &secrets), None);
    assert_eq!(worker.step(WorkerEvent::JobFinished(JobStatus::Exited(0)), &secrets), None);
    assert_eq!(*worker.state(), WorkerState::Cooling);
}

#[test]
fn done_worker_stays_done() {
    let secrets = secrets();
    let mut worker = Worker::new(2);
    worker.step(WorkerEvent::Received(Received::Closed), &secrets).unwrap();
    assert_eq!(worker.step(item("a/b"), &secrets), None);
    assert_eq!(worker.step(WorkerEvent::Received(Received::Closed), &secrets), None);
    assert_eq!(worker.step(WorkerEvent::JobFinished(JobStatus::Exited(0)), &secrets), None);
    assert_eq!(worker.step(WorkerEvent::CooledDown, &secrets), None);
    assert!(worker.is_done());
}

#[test]
fn pool_has_as_many_idle_workers_as_asked() {
    let pool = Worker::pool(3, 2);
    assert_eq!(pool.len(), 3);
    for worker in &pool {
        assert_eq!(*worker.state(), WorkerState::Idle);
    }
    assert!(Worker::pool(0, 2).is_empty());
}

#[test]
fn pool_workers_pause_as_told() {
    let secrets = secrets();
    for mut worker in Worker::pool(2, 7) {
        worker.step(item("a/b"), &secrets).unwrap();
        let action = worker.step(WorkerEvent::JobFinished(JobStatus::Exited(0)), &secrets);
        assert_eq!(action, Some(WorkerAction::Sleep(7)));
    }
}
