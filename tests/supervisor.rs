use backend_supervisor::{
    decimal_string, is_success, launch_args, CONFIG_PATH_VAR, kill_process_tree, HealthProbeResult, Phase, Platform,
    ProbeAction, ProbeEvent, ProbeStage, Prober, StartAction, StartCall, StartError, StartEvent,
    StartStage, Supervisor, HEALTH_INTERVAL_MS, HEALTH_MAX_ATTEMPTS,
};

fn port_of(a: &StartAction<u32>) -> Option<u16> {
    match a {
        StartAction::Finish(Ok(p)) => Some(*p),
        _ => None,
    }
}

/// Drives a launch that owns the record from `PickPort` to its end, with the
/// given answers of the health endpoint. Returns the final action and the
/// number of sleeps requested.
fn drive_launch(
    call: &mut StartCall,
    sup: &mut Supervisor<u32>,
    port: u16,
    handle: u32,
    answers: Vec<HealthProbeResult>,
) -> (StartAction<u32>, usize) {
    let a = call.step(sup, StartEvent::PortPicked(Some(port)));
    assert!(matches!(a, StartAction::Spawn(p) if p == port));
    let mut a = call.step(sup, StartEvent::Spawned(Ok(handle)));
    let mut sleeps = 0usize;
    let mut answers = answers.into_iter();
    loop {
        match a {
            StartAction::Sleep(ms) => {
                assert_eq!(ms, call.interval_ms);
                sleeps += 1;
                a = call.step(sup, StartEvent::Slept);
            }
            StartAction::Probe(p) => {
                assert_eq!(p, port);
                let res = answers.next().expect("more probes than answers");
                a = call.step(sup, StartEvent::Probed(res));
            }
            other => return (other, sleeps),
        }
    }
}

#[test]
fn start_fresh_ready_on_third_attempt() {
    let mut sup: Supervisor<u32> = Supervisor::new(8000);
    let mut call = StartCall::new(HEALTH_MAX_ATTEMPTS, HEALTH_INTERVAL_MS);
    let a = call.step(&mut sup, StartEvent::Begin);
    assert!(matches!(a, StartAction::PickPort));
    let answers = vec![
        HealthProbeResult::Unreachable("connection refused".to_string()),
        HealthProbeResult::NotReady(503),
        HealthProbeResult::Ready,
    ];
    let (a, sleeps) = drive_launch(&mut call, &mut sup, 54211, 1, answers);
    assert_eq!(port_of(&a), Some(54211));
    // one sleep before each of the three probes, and one to settle
    assert_eq!(sleeps, 4);
    assert_eq!(sup.get_port(), 54211);
    assert_eq!(sup.child, Some(1));
    assert!(sup.phase == Phase::Running);
    assert!(call.stage == StartStage::Finished);
}

#[test]
fn concurrent_starts_spawn_once() {
    let mut sup: Supervisor<u32> = Supervisor::new(8000);
    let mut first = StartCall::new(HEALTH_MAX_ATTEMPTS, HEALTH_INTERVAL_MS);
    let mut second = StartCall::new(HEALTH_MAX_ATTEMPTS, HEALTH_INTERVAL_MS);
    let mut spawns = 0;

    assert!(matches!(first.step(&mut sup, StartEvent::Begin), StartAction::PickPort));
    // the second call finds a launch under way and waits
    assert!(matches!(second.step(&mut sup, StartEvent::Begin), StartAction::Sleep(500)));
    let a = first.step(&mut sup, StartEvent::PortPicked(Some(54211)));
    if matches!(a, StartAction::Spawn(_)) {
        spawns += 1;
    }
    assert!(matches!(second.step(&mut sup, StartEvent::Slept), StartAction::Sleep(500)));
    assert!(matches!(first.step(&mut sup, StartEvent::Spawned(Ok(7))), StartAction::Sleep(500)));
    // still starting: the recorded backend is not probed by the second call
    assert!(matches!(second.step(&mut sup, StartEvent::Slept), StartAction::Sleep(500)));
    assert!(matches!(first.step(&mut sup, StartEvent::Slept), StartAction::Probe(54211)));
    let a = first.step(&mut sup, StartEvent::Probed(HealthProbeResult::Ready));
    assert!(matches!(a, StartAction::Sleep(500)));
    let a = first.step(&mut sup, StartEvent::Slept);
    assert_eq!(port_of(&a), Some(54211));

    // now running: the second call probes it once and returns the same port
    let a = second.step(&mut sup, StartEvent::Slept);
    assert!(matches!(a, StartAction::Probe(54211)));
    let a = second.step(&mut sup, StartEvent::Probed(HealthProbeResult::Ready));
    if matches!(a, StartAction::Spawn(_)) {
        spawns += 1;
    }
    assert_eq!(port_of(&a), Some(54211));
    assert_eq!(spawns, 1);
    assert_eq!(sup.child, Some(7));
}

fn running_on(port: u16, handle: u32) -> Supervisor<u32> {
    let mut sup: Supervisor<u32> = Supervisor::new(8000);
    let mut call = StartCall::new(HEALTH_MAX_ATTEMPTS, HEALTH_INTERVAL_MS);
    assert!(matches!(call.step(&mut sup, StartEvent::Begin), StartAction::PickPort));
    let (a, _) = drive_launch(&mut call, &mut sup, port, handle, vec![HealthProbeResult::Ready]);
    assert_eq!(port_of(&a), Some(port));
    sup
}

#[test]
fn unhealthy_recorded_backend_is_replaced() {
    let mut sup = running_on(54211, 1);
    let mut call = StartCall::new(HEALTH_MAX_ATTEMPTS, HEALTH_INTERVAL_MS);
    assert!(matches!(call.step(&mut sup, StartEvent::Begin), StartAction::Probe(54211)));
    let a = call.step(&mut sup, StartEvent::Probed(HealthProbeResult::NotReady(500)));
    assert!(matches!(a, StartAction::Kill(1)));
    // taken out of the record before any new port is asked for
    assert_eq!(sup.child, None);
    assert!(sup.phase == Phase::Starting);
    assert!(matches!(call.step(&mut sup, StartEvent::Killed), StartAction::PickPort));
    let (a, _) = drive_launch(&mut call, &mut sup, 54987, 2, vec![HealthProbeResult::Ready]);
    assert_eq!(port_of(&a), Some(54987));
    assert_eq!(sup.get_port(), 54987);
    assert_eq!(sup.child, Some(2));
}

#[test]
fn healthy_recorded_backend_is_kept() {
    let mut sup = running_on(54211, 1);
    let mut call = StartCall::new(HEALTH_MAX_ATTEMPTS, HEALTH_INTERVAL_MS);
    assert!(matches!(call.step(&mut sup, StartEvent::Begin), StartAction::Probe(54211)));
    let a = call.step(&mut sup, StartEvent::Probed(HealthProbeResult::Ready));
    assert_eq!(port_of(&a), Some(54211));
    assert_eq!(sup.child, Some(1));
    assert!(sup.phase == Phase::Running);
}

#[test]
fn stop_without_child_is_noop() {
    let mut sup: Supervisor<u32> = Supervisor::new(8000);
    assert_eq!(sup.stop(), None);
    assert_eq!(sup.stop(), None);
    assert_eq!(sup.get_port(), 8000);
    assert!(sup.phase == Phase::Idle);
    assert_eq!(sup.launch, 0);
}

#[test]
fn stop_hands_out_child_once() {
    let mut sup = running_on(54211, 9);
    assert_eq!(sup.stop(), Some(9));
    assert!(sup.phase == Phase::Idle);
    assert_eq!(sup.stop(), None);
    assert_eq!(sup.get_port(), 54211);
}

#[test]
fn cleanup_matches_stop() {
    let mut sup = running_on(54211, 3);
    assert_eq!(sup.cleanup(), Some(3));
    assert_eq!(sup.cleanup(), None);
    assert!(sup.phase == Phase::Idle);
}

#[test]
fn health_timeout_after_all_attempts() {
    let mut sup: Supervisor<u32> = Supervisor::new(8000);
    let mut call = StartCall::new(HEALTH_MAX_ATTEMPTS, HEALTH_INTERVAL_MS);
    assert!(matches!(call.step(&mut sup, StartEvent::Begin), StartAction::PickPort));
    let answers: Vec<HealthProbeResult> =
        (0..HEALTH_MAX_ATTEMPTS).map(|_| HealthProbeResult::NotReady(500)).collect();
    let (a, sleeps) = drive_launch(&mut call, &mut sup, 54211, 4, answers);
    assert!(matches!(a, StartAction::Finish(Err(StartError::HealthTimeout))));
    assert_eq!(sleeps, 120);
    assert_eq!(sleeps as u64 * HEALTH_INTERVAL_MS, 60_000);
    // the process stays recorded
    assert_eq!(sup.child, Some(4));
    assert!(sup.phase == Phase::Running);
}

#[test]
fn no_attempts_times_out_at_once() {
    let mut sup: Supervisor<u32> = Supervisor::new(8000);
    let mut call = StartCall::new(0, 500);
    assert!(matches!(call.step(&mut sup, StartEvent::Begin), StartAction::PickPort));
    assert!(matches!(
        call.step(&mut sup, StartEvent::PortPicked(Some(40000))),
        StartAction::Spawn(40000)
    ));
    let a = call.step(&mut sup, StartEvent::Spawned(Ok(5)));
    assert!(matches!(a, StartAction::Finish(Err(StartError::HealthTimeout))));
    assert_eq!(sup.child, Some(5));
}

#[test]
fn port_allocation_failure() {
    let mut sup: Supervisor<u32> = Supervisor::new(8000);
    let mut call = StartCall::new(HEALTH_MAX_ATTEMPTS, HEALTH_INTERVAL_MS);
    assert!(matches!(call.step(&mut sup, StartEvent::Begin), StartAction::PickPort));
    let a = call.step(&mut sup, StartEvent::PortPicked(None));
    assert!(matches!(a, StartAction::Finish(Err(StartError::PortAllocationFailed))));
    assert!(sup.phase == Phase::Idle);
    assert_eq!(
        StartError::PortAllocationFailed.message(),
        "Failed to find available port".to_string()
    );
}

#[test]
fn spawn_failure() {
    let mut sup: Supervisor<u32> = Supervisor::new(8000);
    let mut call = StartCall::new(HEALTH_MAX_ATTEMPTS, HEALTH_INTERVAL_MS);
    assert!(matches!(call.step(&mut sup, StartEvent::Begin), StartAction::PickPort));
    call.step(&mut sup, StartEvent::PortPicked(Some(41000)));
    let a = call.step(&mut sup, StartEvent::Spawned(Err("no such file".to_string())));
    match a {
        StartAction::Finish(Err(e)) => {
            assert!(matches!(&e, StartError::SpawnFailed(m) if m == "no such file"));
            assert_eq!(e.message(), "no such file".to_string());
        }
        _ => panic!("expected a spawn failure"),
    }
    assert!(sup.phase == Phase::Idle);
    assert_eq!(sup.child, None);
    // the record is free for the next start
    let mut next = StartCall::new(HEALTH_MAX_ATTEMPTS, HEALTH_INTERVAL_MS);
    assert!(matches!(next.step(&mut sup, StartEvent::Begin), StartAction::PickPort));
}

#[test]
fn superseded_launch_does_not_spawn() {
    let mut sup: Supervisor<u32> = Supervisor::new(8000);
    let mut call = StartCall::new(HEALTH_MAX_ATTEMPTS, HEALTH_INTERVAL_MS);
    assert!(matches!(call.step(&mut sup, StartEvent::Begin), StartAction::PickPort));
    sup.launch += 1;
    let a = call.step(&mut sup, StartEvent::PortPicked(Some(42000)));
    assert!(matches!(a, StartAction::Finish(Err(StartError::Superseded))));
}

#[test]
fn late_spawn_is_discarded() {
    let mut sup: Supervisor<u32> = Supervisor::new(8000);
    let mut call = StartCall::new(HEALTH_MAX_ATTEMPTS, HEALTH_INTERVAL_MS);
    assert!(matches!(call.step(&mut sup, StartEvent::Begin), StartAction::PickPort));
    assert!(matches!(
        call.step(&mut sup, StartEvent::PortPicked(Some(42000))),
        StartAction::Spawn(42000)
    ));
    sup.launch += 1;
    assert!(matches!(call.step(&mut sup, StartEvent::Spawned(Ok(8))), StartAction::Kill(8)));
    assert_eq!(sup.child, None);
    let a = call.step(&mut sup, StartEvent::Killed);
    assert!(matches!(a, StartAction::Finish(Err(StartError::Superseded))));
}

#[test]
fn waiting_call_outlasts_a_slow_launch() {
    let mut sup: Supervisor<u32> = Supervisor::new(8000);
    let mut first = StartCall::new(HEALTH_MAX_ATTEMPTS, HEALTH_INTERVAL_MS);
    let mut second = StartCall::new(HEALTH_MAX_ATTEMPTS, HEALTH_INTERVAL_MS);
    assert!(matches!(first.step(&mut sup, StartEvent::Begin), StartAction::PickPort));
    assert!(matches!(second.step(&mut sup, StartEvent::Begin), StartAction::Sleep(500)));
    // the second call keeps waiting for far longer than the owner's polling
    for _ in 0..500 {
        assert!(matches!(second.step(&mut sup, StartEvent::Slept), StartAction::Sleep(500)));
    }
    assert!(matches!(
        first.step(&mut sup, StartEvent::PortPicked(Some(54211))),
        StartAction::Spawn(54211)
    ));
    assert!(matches!(first.step(&mut sup, StartEvent::Spawned(Ok(3))), StartAction::Sleep(500)));
    let mut a = first.step(&mut sup, StartEvent::Slept);
    for _ in 0..119 {
        assert!(matches!(a, StartAction::Probe(54211)));
        let b = first.step(&mut sup, StartEvent::Probed(HealthProbeResult::NotReady(503)));
        assert!(matches!(b, StartAction::Sleep(500)));
        assert!(matches!(second.step(&mut sup, StartEvent::Slept), StartAction::Sleep(500)));
        a = first.step(&mut sup, StartEvent::Slept);
    }
    // healthy on the last attempt
    assert!(matches!(
        first.step(&mut sup, StartEvent::Probed(HealthProbeResult::Ready)),
        StartAction::Sleep(500)
    ));
    assert_eq!(port_of(&first.step(&mut sup, StartEvent::Slept)), Some(54211));
    assert!(matches!(second.step(&mut sup, StartEvent::Slept), StartAction::Probe(54211)));
    let a = second.step(&mut sup, StartEvent::Probed(HealthProbeResult::Ready));
    assert_eq!(port_of(&a), Some(54211));
    assert_eq!(sup.child, Some(3));
}

#[test]
fn waiting_call_launches_after_a_failed_launch() {
    let mut sup: Supervisor<u32> = Supervisor::new(8000);
    let mut first = StartCall::new(HEALTH_MAX_ATTEMPTS, HEALTH_INTERVAL_MS);
    let mut second = StartCall::new(HEALTH_MAX_ATTEMPTS, HEALTH_INTERVAL_MS);
    assert!(matches!(first.step(&mut sup, StartEvent::Begin), StartAction::PickPort));
    assert!(matches!(second.step(&mut sup, StartEvent::Begin), StartAction::Sleep(500)));
    let a = first.step(&mut sup, StartEvent::PortPicked(None));
    assert!(matches!(a, StartAction::Finish(Err(StartError::PortAllocationFailed))));
    assert!(matches!(second.step(&mut sup, StartEvent::Slept), StartAction::PickPort));
}

#[test]
fn failed_start_keeps_recorded_port() {
    let mut sup: Supervisor<u32> = Supervisor::new(8000);
    let mut call = StartCall::new(HEALTH_MAX_ATTEMPTS, HEALTH_INTERVAL_MS);
    assert!(matches!(call.step(&mut sup, StartEvent::Begin), StartAction::PickPort));
    assert_eq!(sup.get_port(), 8000);
    call.step(&mut sup, StartEvent::PortPicked(Some(45000)));
    call.step(&mut sup, StartEvent::Spawned(Err("missing".to_string())));
    assert_eq!(sup.get_port(), 8000);
    assert_eq!(sup.child, None);
}

#[test]
fn launcher_arguments() {
    assert_eq!(launch_args(54211), vec!["--host", "127.0.0.1", "--port", "54211"]);
    assert_eq!(launch_args(80), vec!["--host", "127.0.0.1", "--port", "80"]);
    assert_eq!(CONFIG_PATH_VAR, "ENV_FILE_PATH");
}

#[test]
fn unexpected_events_are_ignored() {
    let mut sup: Supervisor<u32> = Supervisor::new(8000);
    let mut call = StartCall::new(HEALTH_MAX_ATTEMPTS, HEALTH_INTERVAL_MS);
    assert!(matches!(call.step(&mut sup, StartEvent::Killed), StartAction::Ignored));
    assert!(matches!(call.step(&mut sup, StartEvent::Slept), StartAction::Ignored));
    // a handle that nobody awaits is handed back for termination
    assert!(matches!(call.step(&mut sup, StartEvent::Spawned(Ok(6))), StartAction::Kill(6)));
    assert!(call.stage == StartStage::Fresh);
    assert!(sup.phase == Phase::Idle);
    assert!(matches!(call.allocate_port(&mut sup), StartAction::Ignored));
}

#[test]
fn allocate_port_picks_a_port() {
    let mut sup: Supervisor<u32> = Supervisor::new(8000);
    let mut call = StartCall::new(HEALTH_MAX_ATTEMPTS, HEALTH_INTERVAL_MS);
    assert!(matches!(call.step(&mut sup, StartEvent::Begin), StartAction::PickPort));
    match call.allocate_port(&mut sup) {
        StartAction::Spawn(p) => {
            assert_ne!(p, 0);
            assert_eq!(call.port, p);
            assert!(call.stage == StartStage::Spawning);
        }
        StartAction::Finish(Err(StartError::PortAllocationFailed)) => {
            assert!(sup.phase == Phase::Idle);
        }
        _ => panic!("unexpected action"),
    }
}

#[test]
fn success_status_codes() {
    assert!(is_success(200));
    assert!(is_success(204));
    assert!(is_success(299));
    assert!(!is_success(199));
    assert!(!is_success(300));
    assert!(!is_success(500));
}

#[test]
fn classify_answers() {
    assert!(matches!(HealthProbeResult::classify(Ok(200)), HealthProbeResult::Ready));
    assert!(matches!(HealthProbeResult::classify(Ok(503)), HealthProbeResult::NotReady(503)));
    assert!(matches!(
        HealthProbeResult::classify(Err("refused".to_string())),
        HealthProbeResult::Unreachable(m) if m == "refused"
    ));
}

#[test]
fn prober_counts_attempts() {
    let (mut p, a) = Prober::start(9000, 2, 100);
    assert!(matches!(a, ProbeAction::Sleep(100)));
    assert!(matches!(p.step(ProbeEvent::Slept), ProbeAction::Probe(9000)));
    let a = p.step(ProbeEvent::Probed(HealthProbeResult::NotReady(404)));
    assert!(matches!(a, ProbeAction::Sleep(100)));
    assert!(matches!(p.step(ProbeEvent::Slept), ProbeAction::Probe(9000)));
    let a = p.step(ProbeEvent::Probed(HealthProbeResult::NotReady(404)));
    assert!(matches!(a, ProbeAction::TimedOut));
    assert_eq!(p.attempts, 2);
    assert_eq!(p.sleeps, 2);
    assert!(matches!(p.stage, ProbeStage::TimedOut));
    // a finished prober stays finished
    assert!(matches!(p.step(ProbeEvent::Slept), ProbeAction::TimedOut));
}

#[test]
fn kill_tree_command_on_windows() {
    let cmd = kill_process_tree(4321, Platform::Windows).expect("a command on Windows");
    assert_eq!(cmd, vec!["taskkill", "/F", "/T", "/PID", "4321"]);
    assert_eq!(kill_process_tree(4321, Platform::Posix), None);
}

#[test]
fn decimal_writing() {
    assert_eq!(decimal_string(0), "0");
    assert_eq!(decimal_string(7), "7");
    assert_eq!(decimal_string(10), "10");
    assert_eq!(decimal_string(4294967295), "4294967295");
}

#[test]
fn error_messages() {
    assert_eq!(
        StartError::HealthTimeout.message(),
        "Backend failed to start within timeout".to_string()
    );
    assert_eq!(
        StartError::Superseded.message(),
        "Backend launch was superseded".to_string()
    );
    assert_eq!(StartError::SpawnFailed("boom".to_string()).message(), "boom".to_string());
}

#[test]
fn stop_during_polling_is_not_undone() {
    let mut sup: Supervisor<u32> = Supervisor::new(8000);
    let mut call = StartCall::new(HEALTH_MAX_ATTEMPTS, HEALTH_INTERVAL_MS);
    assert!(matches!(call.step(&mut sup, StartEvent::Begin), StartAction::PickPort));
    call.step(&mut sup, StartEvent::PortPicked(Some(43000)));
    assert!(matches!(call.step(&mut sup, StartEvent::Spawned(Ok(11))), StartAction::Sleep(500)));
    // a stop while the new backend is polled takes it out at once
    assert_eq!(sup.stop(), Some(11));
    assert!(sup.phase == Phase::Idle);
    assert!(matches!(call.step(&mut sup, StartEvent::Slept), StartAction::Probe(43000)));
    let a = call.step(&mut sup, StartEvent::Probed(HealthProbeResult::Unreachable("gone".to_string())));
    assert!(matches!(a, StartAction::Sleep(500)));
    // the record stays idle; a new start claims a fresh launch
    assert!(sup.phase == Phase::Idle);
    let mut next = StartCall::new(HEALTH_MAX_ATTEMPTS, HEALTH_INTERVAL_MS);
    assert!(matches!(next.step(&mut sup, StartEvent::Begin), StartAction::PickPort));
    assert_eq!(sup.launch, 2);
}
