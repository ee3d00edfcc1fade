//! Lines, tables and the machine life cycle.
use smolvm::cli::lifecycle::{
    already_running_line, bare_command, confirm_delete, falls_back_to_default, launch_features,
    means_yes, missing_sidecar_error, prepare_delete, recovered_line, running_line,
    start_vm_default, starting_line, status_line, stop_line, stop_vm_named, DefaultEvent,
    DefaultPhase, DeletePreparation, DeleteVmOptions, StartAction, StartEvent, StartFlow,
    StopDecision,
};
use smolvm::cli::listing::{
    list_containers, list_images, list_vms, machine_detail_lines, machine_header,
    machine_table_row, ListedContainer, ListedImage,
};
use smolvm::cli::{
    format_bytes, format_pid_suffix, left_aligned, pulled_line, repeat, right_aligned, truncate,
    truncate_id, PullProgress,
};
use smolvm::config::{RecordState, VmRecord};
use smolvm::error::Error;

fn record(name: &str) -> VmRecord {
    VmRecord::new(name.to_string(), 2, 1024, vec![], vec![], false)
}

#[test]
fn long_texts_are_shortened() {
    assert_eq!(truncate("alpine", 10), "alpine");
    assert_eq!(truncate("abcdefghij", 10), "abcdefghij");
    assert_eq!(truncate("abcdefghijk", 10), "abcdefg...");
    assert_eq!(truncate("abcdef", 2), "...");
    assert_eq!(truncate("\u{e4}\u{f6}\u{fc}\u{df}x", 5), "\u{e4}\u{f6}\u{fc}\u{df}x");
    assert_eq!(truncate_id("0123456789abcdef"), "0123456789ab");
    assert_eq!(truncate_id("short"), "short");
}

#[test]
fn process_ids_are_shown() {
    assert_eq!(format_pid_suffix(Some(42)), " (PID: 42)");
    assert_eq!(format_pid_suffix(None), "");
}

#[test]
fn columns_are_filled() {
    assert_eq!(repeat('-', 3), "---");
    assert_eq!(left_aligned("ab", 4), format!("{:<4}", "ab"));
    assert_eq!(right_aligned("ab", 4), format!("{:>4}", "ab"));
    assert_eq!(left_aligned("abcde", 4), "abcde");
}

#[test]
fn sizes_are_shown_with_one_decimal() {
    assert_eq!(format_bytes(0), "0 B");
    assert_eq!(format_bytes(1023), "1023 B");
    assert_eq!(format_bytes(1024), "1.0 KB");
    assert_eq!(format_bytes(1536), "1.5 KB");
    assert_eq!(format_bytes(5 * 1024 * 1024), "5.0 MB");
    for bytes in [
        1100u64,
        1_048_575,
        1_048_576,
        1_234_567,
        1_073_741_823,
        1_073_741_824,
        9_007_199_254_740_993,
        12_345_678_901_234_567_890,
        u64::MAX,
        1075,
        1126,
        1331,
        3_422_552_064,
    ] {
        let f = bytes as f64;
        let expected = if bytes >= 1 << 30 {
            format!("{:.1} GB", f / (1u64 << 30) as f64)
        } else if bytes >= 1 << 20 {
            format!("{:.1} MB", f / (1u64 << 20) as f64)
        } else {
            format!("{:.1} KB", f / 1024.0)
        };
        assert_eq!(format_bytes(bytes), expected);
    }
}

#[test]
fn pull_progress_is_drawn_once_per_percentage() {
    let mut p = PullProgress::new();
    assert_eq!(p.report("alpine", 0), None);
    assert_eq!(
        p.report("alpine", 50).unwrap(),
        "\rPulling image alpine... [==========>         ] 50%"
    );
    assert_eq!(p.report("alpine", 50), None);
    assert_eq!(p.report("alpine", 101), None);
    assert_eq!(
        p.report("alpine", 100).unwrap(),
        "\rPulling image alpine... [====================] 100%"
    );
    assert!(pulled_line("alpine").starts_with("\rPulling image alpine... done."));
}

#[test]
fn machines_are_listed() {
    let r = record("web");
    let row = machine_table_row("web", &r, RecordState::Running);
    assert_eq!(
        row,
        format!(
            "{:<20} {:<12} {:>5} {:>10} {:>7} {:>7} {:>8} {:>8}",
            "web", "running", 2, "1024 MiB", 0, 0, "20 GiB", "10 GiB"
        )
    );
    let (head, rule) = machine_header();
    assert!(head.starts_with("NAME"));
    assert!(rule.chars().all(|c| c == '-'));
    let vms = vec![("web".to_string(), r)];
    let lines = list_vms(&vms, &vec![RecordState::Running], false);
    assert!(lines.contains(&row));
    let details = list_vms(&vms, &vec![RecordState::Running], true);
    assert!(details.len() > lines.len());
}

#[test]
fn machine_details_are_listed() {
    let mut r = VmRecord::new(
        "web".to_string(),
        2,
        1024,
        vec![("/a".to_string(), "/b".to_string(), true)],
        vec![(8080, 80)],
        true,
    );
    r.env = vec![("A".to_string(), "1".to_string())];
    r.init = vec!["true".to_string()];
    r.pid = Some(7);
    let lines = machine_detail_lines(&r);
    for expected in [
        "  PID: 7",
        "  Mount: /a -> /b (ro)",
        "  Port: 8080 -> 80",
        "  Network: enabled",
        "  Init: true",
        "  Env: A=1",
    ] {
        assert!(lines.contains(&expected.to_string()), "{}", expected);
    }
    assert_eq!(lines.last().unwrap(), "");
}

#[test]
fn images_and_containers_are_listed() {
    let images = vec![ListedImage {
        reference: "alpine:latest".to_string(),
        size: 1536,
        layer_count: 1,
    }];
    let lines = list_images(10 << 30, 1 << 20, 3, &images);
    assert!(lines.iter().any(|l| l.contains("alpine:latest")));
    assert!(lines.iter().any(|l| l.contains("1.5 KB")));
    let containers = vec![
        ListedContainer {
            id: "0123456789abcdef".to_string(),
            image: "alpine".to_string(),
            state: "running".to_string(),
            command: vec!["sleep".to_string(), "1".to_string()],
        },
        ListedContainer {
            id: "fedcba9876543210".to_string(),
            image: "alpine".to_string(),
            state: "stopped".to_string(),
            command: vec![],
        },
    ];
    let lines = list_containers(&containers, false, true);
    assert_eq!(lines, vec!["0123456789abcdef"]);
    let lines = list_containers(&containers, true, true);
    assert_eq!(lines.len(), 2);
    let lines = list_containers(&containers, false, false);
    assert!(lines.iter().any(|l| l.contains("0123456789ab") && l.contains("sleep 1")));
    assert!(!lines.iter().any(|l| l.contains("fedcba")));
}

#[test]
fn start_runs_to_the_end() {
    let mut r = record("web");
    r.image = Some("alpine".to_string());
    r.init = vec!["a".to_string(), "b".to_string()];
    let (f, a) = StartFlow::begin(&r);
    assert_eq!(a, StartAction::ProbeState);
    let (f, a) = f.step(StartEvent::State(RecordState::Stopped));
    assert_eq!(a, StartAction::Prepare);
    let (f, a) = f.step(StartEvent::Done);
    assert_eq!(a, StartAction::Launch);
    let (f, a) = f.step(StartEvent::Done);
    assert_eq!(a, StartAction::Connect);
    let (f, a) = f.step(StartEvent::Done);
    assert_eq!(a, StartAction::Pull);
    let (f, a) = f.step(StartEvent::Done);
    assert_eq!(a, StartAction::RunInit(0));
    let (f, a) = f.step(StartEvent::Exited(0));
    assert_eq!(a, StartAction::RunInit(1));
    let (ok, a) = f.step(StartEvent::Exited(0));
    assert_eq!(a, StartAction::Report);
    let (ok, a) = ok.step(StartEvent::Done);
    assert_eq!(a, StartAction::Record);
    let (_, a) = ok.step(StartEvent::Done);
    assert_eq!(a, StartAction::Detach);
    let (bad, a) = f.step(StartEvent::Exited(1));
    assert_eq!(a, StartAction::Stop);
    let (_, a) = bad.step(StartEvent::Done);
    assert_eq!(a, StartAction::Fail);
}

#[test]
fn running_machine_is_not_started_again() {
    let (f, _) = StartFlow::begin(&record("web"));
    let (_, a) = f.step(StartEvent::State(RecordState::Running));
    assert_eq!(a, StartAction::AlreadyRunning);
    let (_, a) = f.step(StartEvent::State(RecordState::Unreachable));
    assert_eq!(a, StartAction::Recover);
}

#[test]
fn default_machine_is_recorded_before_its_init() {
    let (p, a) = start_vm_default(DefaultPhase::Probing, DefaultEvent::Answers(false));
    assert_eq!(a, StartAction::Recover);
    let (p, a) = start_vm_default(p, DefaultEvent::Done);
    assert_eq!(a, StartAction::Launch);
    let (p, a) = start_vm_default(p, DefaultEvent::Done);
    assert_eq!(a, StartAction::Record);
    let (p, a) = start_vm_default(p, DefaultEvent::Recorded(true, 1));
    assert_eq!(a, StartAction::Connect);
    let (p, a) = start_vm_default(p, DefaultEvent::Done);
    assert_eq!(a, StartAction::Pull);
    let (p, a) = start_vm_default(p, DefaultEvent::Done);
    assert_eq!(a, StartAction::RunInit(0));
    let (_, a) = start_vm_default(p, DefaultEvent::Exited(1));
    assert_eq!(a, StartAction::Stop);
    let (p, a) = start_vm_default(p, DefaultEvent::Exited(0));
    assert_eq!(a, StartAction::Report);
    let (_, a) = start_vm_default(p, DefaultEvent::Done);
    assert_eq!(a, StartAction::Detach);
    let (_, a) = start_vm_default(DefaultPhase::Probing, DefaultEvent::Answers(true));
    assert_eq!(a, StartAction::AlreadyRunning);
    let (_, a) = start_vm_default(DefaultPhase::Recording, DefaultEvent::Recorded(false, 0));
    assert_eq!(a, StartAction::Report);
}

#[test]
fn start_lines() {
    let mut r = record("web");
    assert_eq!(starting_line("web", &r), "Starting machine 'web'...");
    r.mounts = vec![("/a".to_string(), "/b".to_string(), false)];
    r.ports = vec![(1, 2), (3, 4)];
    assert_eq!(
        starting_line("web", &r),
        "Starting machine 'web' with 1 mount(s) and 2 port mapping(s)..."
    );
    assert_eq!(
        already_running_line("web", Some(5)),
        "Machine 'web' already running (PID: 5)"
    );
    assert_eq!(running_line("web", None), "Machine 'web' running (PID: 0)");
    assert_eq!(
        recovered_line("web", Some(9)),
        "Machine 'web' is unreachable (PID 9 alive but agent unresponsive); cleaning up."
    );
    assert_eq!(status_line("web", false, None), "Machine 'web': not running");
    assert_eq!(
        status_line("web", true, Some(3)),
        "Machine 'web': running (PID: 3)"
    );
}

#[test]
fn launch_needs_the_ssh_agent_it_asks_for() {
    let mut r = record("web");
    r.ssh_agent = true;
    assert!(matches!(
        launch_features(&r, None, None),
        Err(Error::Config { .. })
    ));
    let f = launch_features(&r, Some("/s".to_string()), Some("/l".to_string())).unwrap();
    assert_eq!(f.ssh_agent_socket.as_deref(), Some("/s"));
    assert_eq!(f.packed_layers_dir.as_deref(), Some("/l"));
    r.ssh_agent = false;
    let f = launch_features(&r, Some("/s".to_string()), None).unwrap();
    assert_eq!(f.ssh_agent_socket, None);
    r.entrypoint = vec!["a".to_string()];
    r.cmd = vec!["b".to_string()];
    assert_eq!(bare_command(&r), vec!["a", "b"]);
    assert!(matches!(missing_sidecar_error("/x"), Error::Agent { .. }));
}

#[test]
fn only_an_implicit_name_falls_back() {
    let missing = Error::vm_not_found("default");
    assert!(falls_back_to_default(false, &missing));
    assert!(!falls_back_to_default(true, &missing));
    assert!(!falls_back_to_default(
        false,
        &Error::vm_creation("no room")
    ));
}

#[test]
fn stops_are_decided_by_state() {
    let cases = [
        (None, true, StopDecision::StopUnrecorded),
        (None, false, StopDecision::NotFound),
        (Some(RecordState::Running), false, StopDecision::StopRecorded),
        (Some(RecordState::Unreachable), true, StopDecision::Recover),
        (
            Some(RecordState::Stopped),
            true,
            StopDecision::NotRunning(RecordState::Stopped),
        ),
    ];
    for (recorded, answers, expected) in cases {
        assert_eq!(stop_vm_named(recorded, answers), expected);
    }
    assert_eq!(
        stop_line("web", StopDecision::NotRunning(RecordState::Created)),
        "Machine 'web' is not running (state: created)"
    );
    assert_eq!(
        stop_line("web", StopDecision::NotFound),
        "Machine 'web' not found or not running"
    );
    assert_eq!(
        stop_line("web", StopDecision::StopRecorded),
        "Stopped machine: web"
    );
}

#[test]
fn deletion_is_prepared_and_confirmed() {
    let stop = DeleteVmOptions {
        stop_if_running: true,
    };
    let keep = DeleteVmOptions {
        stop_if_running: false,
    };
    assert!(matches!(
        prepare_delete("web", None, stop),
        Err(Error::VmNotFound { .. })
    ));
    assert_eq!(
        prepare_delete("web", Some(RecordState::Running), stop).unwrap(),
        DeletePreparation::Stop
    );
    assert_eq!(
        prepare_delete("web", Some(RecordState::Unreachable), stop).unwrap(),
        DeletePreparation::Recover
    );
    assert_eq!(
        prepare_delete("web", Some(RecordState::Running), keep).unwrap(),
        DeletePreparation::Nothing
    );
    assert!(confirm_delete(true, None));
    assert!(confirm_delete(false, Some(" YES\n")));
    assert!(confirm_delete(false, Some("y\n")));
    assert!(!confirm_delete(false, Some("yess\n")));
    assert!(!confirm_delete(false, None));
    assert!(means_yes("y"));
    assert!(!means_yes("Y"));
}
