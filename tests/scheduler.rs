use repo_sync::coordinator::Coordinator;
use repo_sync::scheduler::{Input, Scheduler};
use repo_sync::settings::SyncConfig;
use repo_sync::signal::{ExecutionOutcome, SyncAction};

fn config(tpush_ms: u64, tpull_ms: u64) -> SyncConfig {
    SyncConfig { repo_path: "/tmp/repo".to_string(), tpush_ms, tpull_ms }
}

fn modified(at: u64) -> Input {
    Input::Modified { at }
}

fn clock(at: u64) -> Input {
    Input::Clock { at }
}

fn done_ok() -> Input {
    Input::Done { outcome: ExecutionOutcome::Success }
}

#[test]
fn burst_of_modifications_gives_one_push() {
    let mut s = Scheduler::new(&config(2000, 10000), 0).unwrap();
    assert_eq!(s.handle(modified(0)), None);
    assert_eq!(s.handle(clock(400)), None);
    assert_eq!(s.handle(modified(500)), None);
    assert_eq!(s.handle(clock(900)), None);
    assert_eq!(s.handle(modified(1000)), None);
    assert_eq!(s.handle(clock(2999)), None);
    assert_eq!(s.handle(clock(3000)), Some(SyncAction::Push));
    assert!(!s.coordinator.pending_push);
    assert!(s.coordinator.executor_busy);
    assert_eq!(s.handle(done_ok()), None);
    assert!(!s.coordinator.executor_busy);
    assert_eq!(s.handle(clock(5000)), None);
    assert_eq!(s.handle(clock(9999)), None);
}

#[test]
fn pull_waits_for_running_push() {
    let mut s = Scheduler::new(&config(2000, 10000), 0).unwrap();
    s.handle(modified(7000));
    assert_eq!(s.handle(clock(9000)), Some(SyncAction::Push));
    assert_eq!(s.handle(clock(10000)), None);
    assert!(s.coordinator.queued_pull);
    assert_eq!(s.handle(clock(10200)), None);
    assert_eq!(s.handle(done_ok()), Some(SyncAction::Pull));
    assert!(!s.coordinator.queued_pull);
    assert_eq!(s.handle(done_ok()), None);
    assert!(!s.coordinator.executor_busy);
}

#[test]
fn failed_push_is_not_retried() {
    let mut s = Scheduler::new(&config(2000, 60000), 0).unwrap();
    s.handle(modified(1000));
    assert_eq!(s.handle(clock(3000)), Some(SyncAction::Push));
    let failure = ExecutionOutcome::Failure { reason: "network unreachable".to_string() };
    assert_eq!(s.handle(Input::Done { outcome: failure }), None);
    assert!(!s.coordinator.executor_busy);
    assert!(!s.coordinator.pending_push);
    assert_eq!(s.handle(clock(4000)), None);
    assert_eq!(s.handle(clock(7999)), None);
    assert_eq!(s.handle(modified(8000)), None);
    assert!(s.coordinator.pending_push);
    assert_eq!(s.handle(clock(9999)), None);
    assert_eq!(s.handle(clock(10000)), Some(SyncAction::Push));
}

#[test]
fn quiet_push_leaves_nothing_pending() {
    let mut s = Scheduler::new(&config(1000, 60000), 0).unwrap();
    s.handle(modified(100));
    assert_eq!(s.handle(clock(1500)), Some(SyncAction::Push));
    assert_eq!(s.handle(done_ok()), None);
    assert!(!s.coordinator.pending_push);
    assert_eq!(s.debounce.started, None);
    for t in [2000u64, 5000, 30000, 59999] {
        assert_eq!(s.handle(clock(t)), None);
    }
}

#[test]
fn push_and_pull_due_together_run_push_first() {
    let mut s = Scheduler::new(&config(1000, 5000), 0).unwrap();
    s.handle(modified(4000));
    assert_eq!(s.handle(clock(5000)), Some(SyncAction::Push));
    assert!(s.coordinator.queued_pull);
    assert_eq!(s.handle(done_ok()), Some(SyncAction::Pull));
    assert_eq!(s.handle(done_ok()), None);
}

#[test]
fn busy_executor_queues_push_before_pull() {
    let mut s = Scheduler::new(&config(1000, 5000), 0).unwrap();
    assert_eq!(s.handle(clock(5000)), Some(SyncAction::Pull));
    s.handle(modified(5100));
    assert_eq!(s.handle(clock(10000)), None);
    assert!(s.coordinator.queued_push);
    assert!(s.coordinator.queued_pull);
    assert_eq!(s.handle(done_ok()), Some(SyncAction::Push));
    assert_eq!(s.handle(done_ok()), Some(SyncAction::Pull));
    assert_eq!(s.handle(done_ok()), None);
}

#[test]
fn ticks_missed_while_asleep_coalesce() {
    let mut s = Scheduler::new(&config(1000, 1000), 0).unwrap();
    assert_eq!(s.handle(clock(3500)), Some(SyncAction::Pull));
    assert_eq!(s.ticker.last, 3000);
    assert_eq!(s.handle(done_ok()), None);
    assert_eq!(s.handle(clock(3999)), None);
    assert_eq!(s.handle(clock(4000)), Some(SyncAction::Pull));
}

#[test]
fn zero_pull_interval_is_refused() {
    assert!(Scheduler::new(&config(1000, 0), 0).is_none());
    let s = Scheduler::new(&config(1500, 3000), 42).unwrap();
    assert_eq!(s.coordinator, Coordinator::new());
    assert_eq!(s.debounce.duration, 1500);
    assert_eq!(s.ticker.period, 3000);
    assert_eq!(s.ticker.last, 42);
}

#[test]
fn wakeup_is_the_nearest_timer() {
    let mut s = Scheduler::new(&config(2000, 10000), 0).unwrap();
    assert_eq!(s.next_wakeup(0), 10000);
    assert_eq!(s.next_wakeup(2500), 7500);
    s.handle(modified(2500));
    assert_eq!(s.next_wakeup(3000), 1500);
    assert_eq!(s.next_wakeup(9000), 0);
}

#[test]
fn loop_goes_on_after_failure() {
    let mut s = Scheduler::new(&config(1000, 5000), 0).unwrap();
    s.handle(modified(100));
    assert_eq!(s.handle(clock(1100)), Some(SyncAction::Push));
    let failure = ExecutionOutcome::Failure { reason: "network unreachable".to_string() };
    assert_eq!(s.handle(Input::Done { outcome: failure }), None);
    assert!(!s.coordinator.executor_busy);
    assert_eq!(s.handle(clock(4999)), None);
    assert_eq!(s.handle(clock(5000)), Some(SyncAction::Pull));
    assert_eq!(s.handle(done_ok()), None);
}
