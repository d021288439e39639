use serial_echo::session::IterInput;
use serial_echo::session::IterPlan;
use serial_echo::session::ReadOutcome;
use serial_echo::session::begin_iteration;
use serial_echo::session::echo_response;
use serial_echo::session::run_session;
use serial_echo::provisioner::Provisioner;
use serial_echo::timer::InjectTimer;

fn step(cancel: bool, now_ms: u64, read: ReadOutcome) -> IterInput {
    IterInput { cancel, now_ms, read }
}

#[test]
fn timer_fires_only_past_interval() {
    let mut t = InjectTimer::new(0);
    assert!(!t.check(1000));
    assert!(!t.check(2000));
    assert!(t.check(2001));
    assert_eq!(t.last_ms, 2001);
    assert!(!t.check(4001));
    assert!(t.check(4002));
    assert_eq!(t.last_ms, 4002);
}

#[test]
fn cancellation_wins_over_injection() {
    let mut t = InjectTimer::new(0);
    let plan = begin_iteration(&mut t, true, 10_000);
    assert_eq!(plan, IterPlan::Stop);
    assert_eq!(t.last_ms, 0);
}

#[test]
fn iteration_plan_inject_then_proceed() {
    let mut t = InjectTimer::new(0);
    assert_eq!(begin_iteration(&mut t, false, 1500), IterPlan::Proceed);
    assert_eq!(t.last_ms, 0);
    assert_eq!(begin_iteration(&mut t, false, 2500), IterPlan::Inject);
    assert_eq!(t.last_ms, 2500);
    assert_eq!(begin_iteration(&mut t, false, 3000), IterPlan::Proceed);
}

#[test]
fn echo_response_is_identity() {
    assert_eq!(echo_response(0x00), vec![0x00]);
    assert_eq!(echo_response(b'z'), vec![b'z']);
    assert_eq!(echo_response(0xff), vec![0xff]);
}

#[test]
fn session_echoes_bytes_in_order() {
    let inputs = vec![
        step(false, 10, ReadOutcome::Byte(b'a')),
        step(false, 20, ReadOutcome::NoData),
        step(false, 30, ReadOutcome::Byte(b'b')),
        step(false, 40, ReadOutcome::Byte(b'c')),
    ];
    let log = run_session(0, &inputs);
    assert_eq!(log.echoed, vec![b'a', b'b', b'c']);
    assert_eq!(log.processed, 4);
    assert!(!log.cancelled);
    assert!(log.inject_times.is_empty());
    assert!(log.inject_bursts.is_empty());
}

#[test]
fn session_stops_at_first_cancel() {
    let inputs = vec![
        step(false, 10, ReadOutcome::Byte(b'x')),
        step(true, 20, ReadOutcome::Byte(b'y')),
        step(false, 30, ReadOutcome::Byte(b'z')),
    ];
    let log = run_session(0, &inputs);
    assert_eq!(log.processed, 1);
    assert!(log.cancelled);
    assert_eq!(log.echoed, vec![b'x']);
}

#[test]
fn session_cancel_seen_before_any_work() {
    let inputs = vec![step(true, 5000, ReadOutcome::Byte(b'q'))];
    let log = run_session(0, &inputs);
    assert_eq!(log.processed, 0);
    assert!(log.cancelled);
    assert!(log.echoed.is_empty());
    assert!(log.inject_times.is_empty());
}

#[test]
fn session_injection_cadence_on_simulated_clock() {
    let mut inputs = Vec::new();
    let mut now: u64 = 0;
    while now <= 5000 {
        inputs.push(step(false, now, ReadOutcome::NoData));
        now += 500;
    }
    let log = run_session(0, &inputs);
    assert_eq!(log.inject_times, vec![2500, 5000]);
    assert_eq!(log.inject_bursts.len(), 2);
    for b in &log.inject_bursts {
        assert_eq!(b[0], 0x1b);
        assert_eq!(&b[b.len() - 4..], &[0x1b, b'[', b'0', b'm']);
    }
    for pair in log.inject_times.windows(2) {
        assert!(pair[1] - pair[0] > 2000);
    }
    assert!(!log.cancelled);
}

#[test]
fn session_no_injection_within_interval() {
    let inputs = vec![
        step(false, 500, ReadOutcome::NoData),
        step(false, 1000, ReadOutcome::NoData),
        step(false, 2000, ReadOutcome::NoData),
    ];
    let log = run_session(0, &inputs);
    assert!(log.inject_times.is_empty());
    assert_eq!(log.processed, 3);
}

#[test]
fn session_interrupt_without_provisioner() {
    // A run against a plain device: interrupt arrives after 50 ms, no helper
    // was spawned, so shutdown asks for no process or file operations.
    let inputs = vec![
        step(false, 10, ReadOutcome::NoData),
        step(false, 30, ReadOutcome::Byte(b'h')),
        step(true, 50, ReadOutcome::NoData),
    ];
    let log = run_session(0, &inputs);
    assert!(log.cancelled);
    assert_eq!(log.processed, 2);
    assert_eq!(log.echoed, vec![b'h']);
    let mut prov = Provisioner::new(false);
    let ops = prov.teardown();
    assert!(ops.is_empty());
}
