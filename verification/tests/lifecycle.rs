//! Tests of the per-handle lifecycle state machine and the supervisor's
//! poll/restart cycle and coordinated shutdown.

use spawner::config::{interval_to_millis, restart_enabled, DEFAULT_INTERVAL_MS};
use spawner::handle::{classify_exit, PollOutcome, ProcessHandle};
use spawner::launch::LaunchPlan;
use spawner::supervisor::Supervisor;

fn plan(path: &str) -> LaunchPlan {
    LaunchPlan {
        path: path.to_string(),
        args: Vec::new(),
        env: Vec::new(),
        arg0: None,
        stdout: None,
    }
}

#[test]
fn error_exit_respawns_when_restart_true() {
    let mut h = ProcessHandle::new(plan("/bin/a"), Some(true), 10);
    let respawn = h.apply_poll(PollOutcome::ExitedWithError { code: 1 });
    assert!(respawn);
    assert!(!h.is_live());
    h.record_spawn(11);
    assert_eq!(h.pid(), Some(11));
}

#[test]
fn error_exit_respawns_when_restart_unset() {
    let mut h = ProcessHandle::new(plan("/bin/a"), None, 10);
    let respawn = h.apply_poll(PollOutcome::ExitedWithError { code: 7 });
    assert!(respawn);
}

#[test]
fn signal_kill_respawns_when_restart_true() {
    let mut h = ProcessHandle::new(plan("/bin/a"), Some(true), 10);
    let respawn = h.apply_poll(PollOutcome::KilledBySignal { signal: Some(9) });
    assert!(respawn);
    assert!(!h.is_live());
}

#[test]
fn failure_stays_cleared_when_restart_false() {
    let mut h = ProcessHandle::new(plan("/bin/a"), Some(false), 10);
    let respawn = h.apply_poll(PollOutcome::ExitedWithError { code: 1 });
    assert!(!respawn);
    assert!(!h.is_live());
    let respawn = {
        let mut h2 = ProcessHandle::new(plan("/bin/a"), Some(false), 12);
        h2.apply_poll(PollOutcome::KilledBySignal { signal: None })
    };
    assert!(!respawn);
}

#[test]
fn clean_exit_never_respawns() {
    let mut h = ProcessHandle::new(plan("/bin/a"), Some(true), 10);
    let respawn = h.apply_poll(PollOutcome::ExitedClean);
    assert!(!respawn);
    assert!(!h.is_live());

    let mut h2 = ProcessHandle::new(plan("/bin/a"), None, 11);
    assert!(!h2.apply_poll(PollOutcome::ExitedClean));
}

#[test]
fn still_running_keeps_pid() {
    let mut h = ProcessHandle::new(plan("/bin/a"), Some(true), 10);
    let respawn = h.apply_poll(PollOutcome::Running);
    assert!(!respawn);
    assert_eq!(h.pid(), Some(10));
    assert!(h.is_live());
}

#[test]
fn terminate_is_idempotent() {
    let mut h = ProcessHandle::new(plan("/bin/a"), Some(true), 10);
    assert_eq!(h.take_for_terminate(), Some(10));
    assert!(!h.is_live());
    assert_eq!(h.take_for_terminate(), None);
    assert_eq!(h.take_for_terminate(), None);
    assert!(!h.is_live());
}

#[test]
fn one_cycle_respawns_failed_and_keeps_running() {
    let a = ProcessHandle::new(plan("/bin/a"), Some(true), 100);
    let b = ProcessHandle::new(plan("/bin/b"), Some(false), 200);
    let mut sup = Supervisor::new(vec![a, b], &Some(1));

    let respawn_a = sup.poll_handle(0, PollOutcome::ExitedWithError { code: 1 });
    assert!(respawn_a);
    assert_eq!(sup.handles[0].pid(), None);
    sup.record_spawn(0, 101);

    let respawn_b = sup.poll_handle(1, PollOutcome::Running);
    assert!(!respawn_b);

    assert_eq!(sup.handles[0].pid(), Some(101));
    assert_eq!(sup.handles[1].pid(), Some(200));
    assert!(!sup.is_stopped());

    // The re-spawn reuses the launch descriptor and policy of the first spawn.
    assert_eq!(sup.handles[0].plan.path, "/bin/a");
    assert_eq!(sup.handles[0].restart, Some(true));
}

#[test]
fn shutdown_kills_exactly_the_running_handles() {
    let a = ProcessHandle::new(plan("/bin/a"), Some(true), 100);
    let b = ProcessHandle::new(plan("/bin/b"), None, 200);
    let c = ProcessHandle::new(plan("/bin/c"), Some(false), 300);
    let mut sup = Supervisor::new(vec![a, b, c], &None);

    // b exits cleanly before shutdown and is already cleared.
    let respawn = sup.poll_handle(1, PollOutcome::ExitedClean);
    assert!(!respawn);

    let pids = sup.shutdown();
    assert_eq!(pids, vec![100, 300]);
    assert!(sup.is_stopped());
    assert_eq!(sup.num_handles(), 3);
    for h in sup.handles.iter() {
        assert!(!h.is_live());
    }
}

#[test]
fn shutdown_of_all_dead_handles_kills_nothing() {
    let a = ProcessHandle::new(plan("/bin/a"), Some(false), 100);
    let mut sup = Supervisor::new(vec![a], &None);
    let respawn = sup.poll_handle(0, PollOutcome::KilledBySignal { signal: Some(15) });
    assert!(!respawn);
    let pids = sup.shutdown();
    assert!(pids.is_empty());
    assert!(sup.is_stopped());
}

#[test]
fn exit_status_is_classified_by_os_conventions() {
    assert!(matches!(classify_exit(Some(0), None), PollOutcome::ExitedClean));
    assert!(matches!(
        classify_exit(Some(3), None),
        PollOutcome::ExitedWithError { code: 3 }
    ));
    assert!(matches!(
        classify_exit(None, Some(9)),
        PollOutcome::KilledBySignal { signal: Some(9) }
    ));
    assert!(matches!(
        classify_exit(None, None),
        PollOutcome::KilledBySignal { signal: None }
    ));
}

#[test]
fn interval_is_seconds_times_thousand_or_default() {
    assert_eq!(interval_to_millis(&Some(2)), 2000);
    assert_eq!(interval_to_millis(&Some(1)), 1000);
    assert_eq!(interval_to_millis(&None), 5000);
    assert_eq!(DEFAULT_INTERVAL_MS, 5000);
}

#[test]
fn restart_flag_defaults_to_true() {
    assert!(restart_enabled(&None));
    assert!(restart_enabled(&Some(true)));
    assert!(!restart_enabled(&Some(false)));
}
