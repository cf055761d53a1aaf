use focu::service::{
    executable_mode, port_owners, stop_outcome, ServiceStart, SignalReport, SignalResult,
    SpawnError, StartProgress, StartStep, StepReport, StopError,
};

#[test]
fn empty_listing_names_nobody() {
    assert_eq!(port_owners(b""), Vec::<u32>::new());
    assert_eq!(port_owners(b"\n\n"), Vec::<u32>::new());
}

#[test]
fn listing_one_pid_per_line() {
    assert_eq!(port_owners(b"123\n4567\n"), vec![123, 4567]);
    assert_eq!(port_owners(b"123\n4567"), vec![123, 4567]);
    assert_eq!(port_owners(b"42"), vec![42]);
}

#[test]
fn listing_skips_bad_lines() {
    assert_eq!(port_owners(b"12a\n\n 7\n0\n00\n8\n"), vec![8]);
    assert_eq!(port_owners(b"4294967295\n4294967296\n99999999999999999999\n"), vec![u32::MAX]);
    assert_eq!(port_owners(b"007\n"), vec![7]);
}

#[test]
fn stop_with_nothing_bound_succeeds() {
    let pids = port_owners(b"");
    assert!(pids.is_empty());
    assert_eq!(stop_outcome(true, &Vec::new()), Ok(()));
}

#[test]
fn stop_treats_vanished_process_as_stopped() {
    let reports = vec![
        SignalReport { pid: 5, result: SignalResult::NoSuchProcess },
        SignalReport { pid: 6, result: SignalResult::Delivered },
    ];
    assert_eq!(stop_outcome(true, &reports), Ok(()));
}

#[test]
fn stop_reports_first_refusal() {
    let reports = vec![
        SignalReport { pid: 5, result: SignalResult::Delivered },
        SignalReport { pid: 6, result: SignalResult::Refused },
        SignalReport { pid: 7, result: SignalResult::Refused },
    ];
    assert_eq!(stop_outcome(true, &reports), Err(StopError::SignalFailed(6)));
}

#[test]
fn stop_fails_when_owners_cannot_be_listed() {
    assert_eq!(stop_outcome(false, &Vec::new()), Err(StopError::QueryFailed));
}

#[test]
fn execute_bits_are_added() {
    assert_eq!(executable_mode(0o644), 0o755);
    assert_eq!(executable_mode(0o755), 0o755);
    assert_eq!(executable_mode(0o600), 0o711);
    assert_eq!(executable_mode(0o100644), 0o100755);
}

fn drive(mut start: ServiceStart, reports: &[StepReport]) -> ServiceStart {
    for r in reports {
        assert!(start.next_step().is_some());
        start.advance(*r);
    }
    start
}

#[test]
fn start_runs_all_steps() {
    let mut s = ServiceStart::start(true);
    assert_eq!(s.next_step(), Some(StartStep::ClearPort));
    s.advance(StepReport::Succeeded);
    assert_eq!(s.next_step(), Some(StartStep::Locate));
    s.advance(StepReport::Succeeded);
    assert_eq!(s.next_step(), Some(StartStep::MakeExecutable));
    s.advance(StepReport::Succeeded);
    assert_eq!(s.next_step(), Some(StartStep::Spawn));
    s.advance(StepReport::Spawned(321));
    assert_eq!(s.next_step(), Some(StartStep::Watch(321)));
    assert_eq!(s.outcome(), None);
    s.advance(StepReport::Succeeded);
    assert_eq!(s.next_step(), None);
    assert_eq!(s.outcome(), Some(Ok(321)));
}

#[test]
fn start_without_port_cleanup_begins_at_locate() {
    let s = ServiceStart::start(false);
    assert_eq!(s.next_step(), Some(StartStep::Locate));
}

#[test]
fn start_failures_map_to_spawn_errors() {
    let s = drive(ServiceStart::start(false), &[StepReport::Failed]);
    assert_eq!(s.outcome(), Some(Err(SpawnError::NotFound)));
    let s = drive(ServiceStart::start(false), &[StepReport::Succeeded, StepReport::Failed]);
    assert_eq!(s.outcome(), Some(Err(SpawnError::PermissionDenied)));
    let s = drive(
        ServiceStart::start(false),
        &[StepReport::Succeeded, StepReport::Succeeded, StepReport::Failed],
    );
    assert_eq!(s.outcome(), Some(Err(SpawnError::SpawnFailed)));
    let s = drive(
        ServiceStart::start(false),
        &[
            StepReport::Succeeded,
            StepReport::Succeeded,
            StepReport::Spawned(9),
            StepReport::Failed,
        ],
    );
    assert_eq!(s.outcome(), Some(Err(SpawnError::WatchdogFailed(9))));
    let mut s = s;
    s.advance(StepReport::Succeeded);
    assert_eq!(s.progress, StartProgress::Failed(SpawnError::WatchdogFailed(9)));
}

#[test]
fn restart_ignores_failed_stop() {
    let s = drive(
        ServiceStart::restart(),
        &[
            StepReport::Failed,
            StepReport::Succeeded,
            StepReport::Succeeded,
            StepReport::Spawned(77),
            StepReport::Succeeded,
        ],
    );
    assert_eq!(s.outcome(), Some(Ok(77)));
}
