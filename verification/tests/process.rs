//! Process identity, exit codes and shutdown.
use smolvm::process::{
    decode_exit_status, is_our_process, is_our_process_strict, process_start_time,
    start_time_matches, try_wait_step, wait_step, ChildProcess, ProcessProbe, StopAction,
    StopEvent, StopFlow, StopMode, WaitStep, UNKNOWN_EXIT_CODE,
};

/// The status line of a live process.
const STAT: &str = "4127 (smolvm) R 4098 4127 4098 34816 4127 4194304 112 0 0 0 0 0 0 0 20 0 1 0 \
    812345 3010560 331 18446744073709551615 1 1 0 0 0 0 0 0 0 0 0 0 17 3 0 0 0 0 0";

/// What the host says of that process.
fn own_probe() -> ProcessProbe {
    ProcessProbe {
        alive: true,
        start_time: process_start_time(STAT),
    }
}

#[test]
fn test_process_start_time_self() {
    let start_time = process_start_time(STAT);
    assert_eq!(start_time, Some(812345));
    assert!(
        start_time.is_some(),
        "should get start time on this platform"
    );
}

#[test]
fn test_is_our_process_self() {
    let probe = own_probe();
    let start_time = probe.start_time;
    assert!(is_our_process(&probe, start_time));
}

#[test]
fn test_is_our_process_wrong_start_time() {
    // A start time far in the future should not match
    assert!(!is_our_process(&own_probe(), Some(u64::MAX)));
}

#[test]
fn test_is_our_process_nonexistent() {
    let gone = ProcessProbe {
        alive: false,
        start_time: None,
    };
    assert!(!is_our_process(&gone, None));
    assert!(!is_our_process(&gone, Some(12345)));
}

#[test]
fn test_is_our_process_strict_requires_start_time() {
    let probe = own_probe();
    // Strict refuses to verify without start time
    assert!(!is_our_process_strict(&probe, None));
    // But works with valid start time
    let start_time = probe.start_time;
    if start_time.is_some() {
        assert!(is_our_process_strict(&probe, start_time));
    }
}

#[test]
fn test_start_time_matches_exact() {
    assert!(start_time_matches(12345, 12345));
    assert!(!start_time_matches(12345, 12346));
}

#[test]
fn test_start_time_matches_backward_compat() {
    // A record in seconds (1_700_000_000) against a time in microseconds
    let old_seconds = 1_700_000_000u64;
    let new_micros = old_seconds * 1_000_000 + 500_000; // same second, different usec
    assert!(start_time_matches(new_micros, old_seconds));

    // Different second should not match
    assert!(!start_time_matches(new_micros, old_seconds + 1));
}

#[test]
fn start_time_is_read_behind_the_command() {
    let stat = "42 (a ) b) S 1 2 3 4 5 6 7 8 9 10 11 12 13 14 15 16 17 18 987654 20";
    assert_eq!(process_start_time(stat), Some(987654));
    assert_eq!(process_start_time("42 (short) S 1 2"), None);
    assert_eq!(process_start_time("no command"), None);
}

#[test]
fn exit_statuses_are_decoded() {
    assert_eq!(decode_exit_status(0), 0);
    assert_eq!(decode_exit_status(3 << 8), 3);
    assert_eq!(decode_exit_status(255 << 8), 255);
    assert_eq!(decode_exit_status(9), 137);
    assert_eq!(decode_exit_status(15), 143);
    // Neither exited nor killed: stopped by a signal.
    assert_eq!(decode_exit_status(0x137f), UNKNOWN_EXIT_CODE);
}

#[test]
fn waiting_is_decided() {
    assert_eq!(try_wait_step(7, 7, 1 << 8, false), WaitStep::Exited(1));
    assert_eq!(try_wait_step(7, -1, 0, true), WaitStep::Retry);
    assert_eq!(wait_step(7, 2 << 8, false), WaitStep::Exited(2));
    assert_eq!(wait_step(-1, 0, true), WaitStep::Retry);
    assert_eq!(wait_step(-1, 0, false), WaitStep::Exited(UNKNOWN_EXIT_CODE));
}

#[test]
fn vm_shutdown_escalates_to_kill() {
    let (f, a) = StopFlow::begin(StopMode::Vm);
    assert_eq!(a, StopAction::CheckAlive);
    let (f, a) = f.step(StopEvent::Alive(true));
    assert_eq!(a, StopAction::SendTerm);
    let (f, a) = f.step(StopEvent::Signalled(true));
    assert_eq!(a, StopAction::CheckTime);
    let (f, a) = f.step(StopEvent::TimeLeft(true));
    assert_eq!(a, StopAction::TryWait);
    let (f, a) = f.step(StopEvent::Waited(None));
    assert_eq!(a, StopAction::CheckAlive);
    let (f, a) = f.step(StopEvent::Alive(true));
    assert_eq!(a, StopAction::Sleep(10));
    let (f, a) = f.step(StopEvent::Slept);
    assert_eq!(a, StopAction::CheckTime);
    let (f, a) = f.step(StopEvent::TimeLeft(false));
    assert_eq!(a, StopAction::SendKill);
    let (f, _) = f.step(StopEvent::Signalled(true));
    let (f, a) = f.step(StopEvent::TimeLeft(false));
    assert_eq!(a, StopAction::TimedOut);
    assert_eq!(
        f.timeout_reason(7),
        "process 7 still alive after SIGTERM+SIGKILL"
    );
}

#[test]
fn unforced_shutdown_times_out() {
    let (f, _) = StopFlow::begin(StopMode::Plain { force: false });
    let (f, _) = f.step(StopEvent::Alive(true));
    let (f, _) = f.step(StopEvent::Signalled(true));
    let (f, a) = f.step(StopEvent::TimeLeft(false));
    assert_eq!(a, StopAction::TimedOut);
    assert_eq!(f.timeout_reason(7), "timeout waiting for process 7 to stop");
}

#[test]
fn forced_shutdown_waits_after_kill() {
    let (f, _) = StopFlow::begin(StopMode::Fast { force: true });
    let (f, _) = f.step(StopEvent::Alive(true));
    let (f, _) = f.step(StopEvent::Signalled(true));
    let (f, a) = f.step(StopEvent::TimeLeft(false));
    assert_eq!(a, StopAction::SendKill);
    let (f, a) = f.step(StopEvent::Signalled(true));
    assert_eq!(a, StopAction::Sleep(50));
    let (f, a) = f.step(StopEvent::Slept);
    assert_eq!(a, StopAction::TryWait);
    let (f, a) = f.step(StopEvent::Waited(None));
    assert_eq!(a, StopAction::Wait);
    let (_, a) = f.step(StopEvent::Waited(Some(137)));
    assert_eq!(a, StopAction::Done(137));
}

#[test]
fn dead_process_is_only_reaped() {
    let (f, _) = StopFlow::begin(StopMode::Plain { force: true });
    let (f, a) = f.step(StopEvent::Alive(false));
    assert_eq!(a, StopAction::TryWait);
    let (_, a) = f.step(StopEvent::Waited(None));
    assert_eq!(a, StopAction::Done(0));
    let (f, _) = StopFlow::begin(StopMode::Vm);
    let (f, _) = f.step(StopEvent::Alive(false));
    let (_, a) = f.step(StopEvent::Waited(None));
    assert_eq!(a, StopAction::Done(UNKNOWN_EXIT_CODE));
}

#[test]
fn child_remembers_its_exit_code() {
    let mut child = ChildProcess::new(7, Some(1));
    assert_eq!(child.pid(), 7);
    assert_eq!(child.start_time(), Some(1));
    assert!(child.is_running(None, true));
    assert!(!child.is_running(Some(3), true));
    assert_eq!(child.exit_code(None), Some(3));
    assert_eq!(child.wait(9), 3);
}

#[test]
fn stopped_child_keeps_its_first_code() {
    let mut child = ChildProcess::new(7, None);
    assert!(child.stop(Err("timeout".to_string())).is_err());
    assert_eq!(child.stop(Ok(143)).unwrap(), 143);
    assert_eq!(child.stop(Err("timeout".to_string())).unwrap(), 143);
    assert_eq!(child.exit_code(Some(0)), Some(143));
}
