use nofus::dispatch::{all_mounted, any_unmounted, command_outcome, CommandError, Dispatch, DispatchAction};
use nofus::monitor::{classify_notification_read, Config, Monitor, NotificationReadOutcome};
use nofus::probe::is_mount_point;
use nofus::state::{compute_aggregate, AggregateState};

fn config(paths: Vec<&str>) -> Config {
    Config {
        mount_points: paths.iter().map(|p| p.to_string()).collect(),
        delay_seconds: 5,
        all_mounted_cmd: "systemctl start backups".to_string(),
        any_unmounted_cmd: "systemctl stop backups".to_string(),
    }
}

fn action_command(d: &Dispatch) -> (&str, bool) {
    match &d.action {
        DispatchAction::Execute { command } => (command.as_str(), true),
        DispatchAction::WouldRun { command } => (command.as_str(), false),
    }
}

#[test]
fn aggregate_all_true_is_all_mounted() {
    assert_eq!(
        compute_aggregate(&vec![true, true, true]),
        AggregateState::AllMounted
    );
}

#[test]
fn aggregate_single_false_is_not_all_mounted() {
    assert_eq!(
        compute_aggregate(&vec![true, false, true]),
        AggregateState::NotAllMounted
    );
    assert_eq!(
        compute_aggregate(&vec![false]),
        AggregateState::NotAllMounted
    );
}

#[test]
fn aggregate_empty_is_all_mounted() {
    assert_eq!(compute_aggregate(&vec![]), AggregateState::AllMounted);
}

#[test]
fn probe_failed_canonicalization_is_unmounted() {
    let table = Some(vec!["/mnt/a".to_string(), "/mnt/b".to_string()]);
    assert!(!is_mount_point(&None, &table));
}

#[test]
fn probe_unreadable_table_is_unmounted() {
    let path = Some("/mnt/a".to_string());
    assert!(!is_mount_point(&path, &None));
}

#[test]
fn probe_matches_canonical_destination() {
    let path = Some("/mnt/a".to_string());
    let table = Some(vec!["/".to_string(), "/mnt/a".to_string()]);
    assert!(is_mount_point(&path, &table));
}

#[test]
fn probe_no_matching_destination_is_unmounted() {
    let path = Some("/mnt/c".to_string());
    let table = Some(vec!["/".to_string(), "/mnt/a".to_string()]);
    assert!(!is_mount_point(&path, &table));
}

#[test]
fn dispatch_executes_when_not_dry_run() {
    let d = all_mounted(&"cmd up".to_string(), false);
    assert_eq!(d.new_state, AggregateState::AllMounted);
    assert_eq!(action_command(&d), ("cmd up", true));
    assert!(d.is_execution());
    assert_eq!(d.command_text().as_str(), "cmd up");
}

#[test]
fn dispatch_dry_run_never_executes() {
    let d = all_mounted(&"cmd up".to_string(), true);
    assert_eq!(action_command(&d), ("cmd up", false));
    assert!(!d.is_execution());
    let d = any_unmounted(&"cmd down".to_string(), true);
    assert_eq!(d.new_state, AggregateState::NotAllMounted);
    assert_eq!(action_command(&d), ("cmd down", false));
    assert!(!d.is_execution());
}

#[test]
fn command_outcome_success_only_on_zero_exit() {
    assert_eq!(command_outcome(true, true), Ok(()));
    assert_eq!(command_outcome(false, false), Err(CommandError::SpawnFailure));
    assert_eq!(command_outcome(true, false), Err(CommandError::CommandFailed));
}

#[test]
fn scenario_a_both_mounted_initial_dispatch_all_mounted() {
    let statuses = vec![true, true];
    let (m, d) = Monitor::new(config(vec!["/mnt/a", "/mnt/b"]), false, &statuses);
    assert_eq!(m.current_state(), AggregateState::AllMounted);
    assert_eq!(d.new_state, AggregateState::AllMounted);
    assert_eq!(action_command(&d), ("systemctl start backups", true));
}

#[test]
fn scenario_b_one_unmounted_initial_dispatch_not_all_mounted() {
    let statuses = vec![true, false];
    let (m, d) = Monitor::new(config(vec!["/mnt/a", "/mnt/b"]), false, &statuses);
    assert_eq!(m.current_state(), AggregateState::NotAllMounted);
    assert_eq!(d.new_state, AggregateState::NotAllMounted);
    assert_eq!(action_command(&d), ("systemctl stop backups", true));
}

#[test]
fn scenario_c_unmount_dispatches_exactly_once() {
    let (mut m, _) = Monitor::new(config(vec!["/mnt/a", "/mnt/b"]), false, &vec![true, true]);
    assert_eq!(m.current_state(), AggregateState::AllMounted);

    // /mnt/b becomes unmounted: exactly one NotAllMounted dispatch.
    let d = m.reconcile(&vec![true, false]);
    let d = d.expect("transition must dispatch");
    assert_eq!(d.new_state, AggregateState::NotAllMounted);
    assert_eq!(action_command(&d), ("systemctl stop backups", true));

    // Status unchanged on the following cycles: no further dispatch.
    assert!(m.reconcile(&vec![true, false]).is_none());
    assert!(m.reconcile(&vec![true, false]).is_none());
}

#[test]
fn scenario_d_remount_restores_watch_and_dispatches_once() {
    let (mut m, d0) = Monitor::new(config(vec!["/mnt/a", "/mnt/b"]), false, &vec![true, false]);
    assert_eq!(d0.new_state, AggregateState::NotAllMounted);

    // /mnt/a was mounted at startup, so it gets a watch; /mnt/b does not.
    assert!(m.needs_watch(0, true));
    m.record_watch(0, 1);
    assert!(!m.needs_watch(1, false));

    // /mnt/b remounts: the watch is re-established for it.
    assert!(m.needs_watch(1, true));
    m.record_watch(1, 2);
    assert!(!m.needs_watch(1, true));

    // Exactly one AllMounted dispatch.
    let d = m.reconcile(&vec![true, true]).expect("transition must dispatch");
    assert_eq!(d.new_state, AggregateState::AllMounted);
    assert_eq!(action_command(&d), ("systemctl start backups", true));
    assert!(m.reconcile(&vec![true, true]).is_none());
}

#[test]
fn scenario_e_dry_run_transition_produces_notice_only() {
    let (mut m, d0) = Monitor::new(config(vec!["/mnt/a", "/mnt/b"]), true, &vec![true, true]);
    assert!(!d0.is_execution());

    let d = m.reconcile(&vec![true, false]).expect("transition must dispatch");
    assert_eq!(d.new_state, AggregateState::NotAllMounted);
    match &d.action {
        DispatchAction::WouldRun { command } => {
            assert_eq!(command.as_str(), "systemctl stop backups")
        }
        DispatchAction::Execute { .. } => panic!("dry run must not execute"),
    }
}

#[test]
fn no_dispatch_while_state_unchanged() {
    let (mut m, _) = Monitor::new(config(vec!["/mnt/a"]), false, &vec![true]);
    assert!(m.reconcile(&vec![true]).is_none());
    // A transition down and back up dispatches once each way.
    assert!(m.reconcile(&vec![false]).is_some());
    assert!(m.reconcile(&vec![false]).is_none());
    assert!(m.reconcile(&vec![true]).is_some());
    assert!(m.reconcile(&vec![true]).is_none());
}

#[test]
fn needs_watch_iff_mounted_and_no_active_watch() {
    let (mut m, _) = Monitor::new(config(vec!["/mnt/a"]), false, &vec![true]);
    assert!(m.needs_watch(0, true)); // mounted, no watch
    assert!(!m.needs_watch(0, false)); // unmounted, no watch
    m.record_watch(0, 7);
    assert!(!m.needs_watch(0, true)); // mounted, watch active
    assert!(!m.needs_watch(0, false)); // unmounted, watch active
}

#[test]
fn invalidation_removes_matching_watch_only() {
    let (mut m, _) = Monitor::new(config(vec!["/mnt/a", "/mnt/b"]), false, &vec![true, true]);
    m.record_watch(0, 10);
    m.record_watch(1, 11);

    // A notification for handle 11 invalidates only /mnt/b's watch.
    m.process_invalidations(&vec![11]);
    assert!(!m.needs_watch(0, true));
    assert!(m.needs_watch(1, true));

    // A notification naming no registered handle is a no-op.
    m.process_invalidations(&vec![99]);
    assert!(!m.needs_watch(0, true));
    assert!(m.needs_watch(1, true));
}

#[test]
fn record_watch_overwrites_stale_handle() {
    let (mut m, _) = Monitor::new(config(vec!["/mnt/a"]), false, &vec![true]);
    m.record_watch(0, 1);
    m.record_watch(0, 2);
    // The stale handle no longer matches; the fresh one does.
    m.process_invalidations(&vec![1]);
    assert!(!m.needs_watch(0, true));
    m.process_invalidations(&vec![2]);
    assert!(m.needs_watch(0, true));
}

#[test]
fn notification_read_failure_is_fatal_unless_none_available() {
    assert_eq!(
        classify_notification_read(true, false),
        NotificationReadOutcome::Proceed
    );
    assert_eq!(
        classify_notification_read(false, true),
        NotificationReadOutcome::ProceedEmpty
    );
    assert_eq!(
        classify_notification_read(false, false),
        NotificationReadOutcome::Fatal
    );
}

#[test]
fn monitor_reports_path_count() {
    let (m, _) = Monitor::new(config(vec!["/mnt/a", "/mnt/b"]), false, &vec![true, true]);
    assert_eq!(m.path_count(), 2);
}
