//! Packing, packed runs and the registry commands.
use smolvm::agent::ImageInfo;
use smolvm::cli::pack::{
    assembly_label, build_image_manifest, build_vm_manifest, check_packable, choose_path,
    export_timeout_error, fmt_bytes, inspect_lines, keeps_overlay, layer_env, layer_label,
    merge_outcome, merge_script, merged_digest, merges_layers, mount_outcome, next_export_step,
    overlay_digest, overlay_export_script, pack_from_vm_name, pack_vm_name, packed_summary,
    prune_cache_dir, prune_plan, prune_step, prune_totals, pulled_lines, pulling_line, pushed_text, pushing_line,
    registry_base_url, required_image, CacheEntry, ExportReply, ExportStep, PackPruneCmd,
    PackedInfo, PruneStep,
};
use smolvm::cli::pack_flow::{
    DaemonAction, DaemonEvent, DaemonPhase, PackAction, PackEvent, PackPhase, PackedAction,
    PackedEvent, PackedPhase,
};
use smolvm::cli::pack_run::{
    agent_not_ready_error, agent_wait_step, build_command, build_env, checksum_outcome,
    daemon_not_running_error, daemon_request, daemon_status, daemon_status_line, daemon_stop,
    identity_step, is_daemon_running, manifest_info,
    may_stop_daemon, mounts_to_packed, needs_extract, overlay_template_error, packed_bare_request,
    packed_exec, packed_request, read_daemon_pid, resolve_lib_dir, resolve_sidecar_path, resources_for_packed,
    setup_vm_overlay, storage_gib_for_manifest, unidentified_child_error, write_daemon_pid,
    AgentWait, DaemonStatus, DaemonStop, FoundPath, IdentityStep, OverlaySetup, PackedExec,
    PackedMachineArgs, PackedRunArgs,
};
use smolvm::cli::search::{
    init_krun_candidates, inject_init_krun, lib_dir_candidates, program_candidates,
    rootfs_candidates, template_candidates, InitInjection,
};
use smolvm::cli::smolfile::{resolve_pack_config, PackConfig};
use smolvm::cli::snapshot_flow::{
    AssemblyAction, AssemblyFacts, AssemblyPhase, SnapshotAction, SnapshotEvent, SnapshotPhase,
};
use smolvm::config::{RecordUpdate, VmRecord};
use smolvm::data::network::PortMapping;
use smolvm::data::storage::HostMount;
use smolvm::data::validate_vm_name;
use smolvm::duration::Duration;
use smolvm::error::Error;
use smolvm::pack::{PackManifest, PackMode};
use smolvm::process::ProcessProbe;
use smolvm::registry::Reference;

const ALIVE: ProcessProbe = ProcessProbe {
    alive: true,
    start_time: Some(50),
};
const GONE: ProcessProbe = ProcessProbe {
    alive: false,
    start_time: None,
};

fn strings(list: &[&str]) -> Vec<String> {
    list.iter().map(|s| s.to_string()).collect()
}

fn manifest() -> PackManifest {
    PackManifest::new(
        "alpine".to_string(),
        "sha256:1".to_string(),
        "linux/amd64".to_string(),
        "linux/amd64".to_string(),
    )
}

fn config(image: Option<&str>) -> PackConfig {
    resolve_pack_config(image.map(|i| i.to_string()), None, 3, 2048, None, None)
}

fn reason(e: &Error) -> String {
    match e {
        Error::Config { reason, .. }
        | Error::Agent { reason, .. }
        | Error::Storage { reason, .. }
        | Error::Mount { reason, .. } => reason.clone(),
        other => panic!("unexpected error {:?}", other),
    }
}

#[test]
fn temporary_machines_have_valid_names() {
    assert_eq!(pack_vm_name(7, 8), "pack-7-8");
    assert_eq!(pack_from_vm_name(7, 8), "pack-fromvm-7-8");
    for name in [
        pack_vm_name(u32::MAX, u128::MAX),
        pack_from_vm_name(u32::MAX, u128::MAX),
    ] {
        assert!(validate_vm_name(&name, "machine name").is_ok(), "{}", name);
    }
}

#[test]
fn layers_are_merged_bottom_first() {
    let script = merge_script(&strings(&["sha256:aa", "bb"]), 2);
    let first = script.find("cp -a /storage/layers/aa/.").unwrap();
    let second = script.find("cp -a /storage/layers/bb/.").unwrap();
    assert!(first < second);
    assert!(script.contains("Merging layer 2/2..."));
    assert!(script.ends_with("echo 'MERGE_OK'\n"));
    assert!(merge_outcome(0, "MERGE_OK\n", "").is_ok());
    assert!(merge_outcome(0, "", "").is_err());
    assert!(merge_outcome(1, "MERGE_OK\n", "").is_err());
    assert!(merges_layers(2));
    assert!(!merges_layers(1));
    assert_eq!(
        merged_digest("sha256:0123456789abcdef"),
        "sha256:merged-sha256:012345678"
    );
    assert_eq!(
        layer_label(0, 3, "sha256:0123456789abcdef"),
        "  Layer 1/3: sha256:0123456789ab"
    );
}

#[test]
fn layers_are_exported_in_chunks() {
    let now = Duration::from_secs(1);
    assert_eq!(
        next_export_step(10, &now, ExportReply::Chunk { len: 5, done: false }),
        ExportStep::Continue {
            write: true,
            total: 15
        }
    );
    assert_eq!(
        next_export_step(15, &now, ExportReply::Chunk { len: 0, done: true }),
        ExportStep::Finish {
            write: false,
            total: 15
        }
    );
    assert_eq!(
        next_export_step(0, &Duration::from_secs(601), ExportReply::Error),
        ExportStep::TimedOut
    );
    assert_eq!(
        next_export_step(0, &Duration::from_secs(600), ExportReply::Error),
        ExportStep::AgentError
    );
    assert!(reason(&export_timeout_error(9)).contains("9"));
    assert_eq!(fmt_bytes(2047), "1 KB");
    assert_eq!(fmt_bytes(3 * 1024 * 1024), "3 MB");
}

#[test]
fn later_variables_win() {
    let env = layer_env(strings(&["A=1", "B=2"]), &strings(&["A=3", "C=4"]));
    assert!(env.contains(&"A=3".to_string()));
    assert!(!env.contains(&"A=1".to_string()));
    assert!(env.contains(&"B=2".to_string()));
    assert!(env.contains(&"C=4".to_string()));
}

#[test]
fn image_manifests_take_the_image_defaults() {
    let info = ImageInfo {
        reference: "alpine".to_string(),
        digest: "sha256:1".to_string(),
        size: 77,
        layer_count: 1,
        layers: vec![],
        os: "linux".to_string(),
        architecture: "arm64".to_string(),
        entrypoint: strings(&["/entry"]),
        cmd: strings(&["arg"]),
        env: strings(&["A=1"]),
        workdir: Some("/w".to_string()),
    };
    let m = build_image_manifest(config(Some("alpine")), &info, "linux/arm64".to_string()).unwrap();
    assert_eq!(m.mode, PackMode::Container);
    assert_eq!(m.platform, "linux/arm64");
    assert_eq!(m.entrypoint, vec!["/entry"]);
    assert_eq!(m.cmd, vec!["arg"]);
    assert_eq!(m.image_size, 77);
    assert_eq!((m.cpus, m.mem), (3, 2048));
    assert!(required_image(&config(None)).is_err());
    assert_eq!(required_image(&config(Some("alpine"))).unwrap(), "alpine");
}

#[test]
fn machines_are_packed_when_stopped() {
    let mut vm = VmRecord::new("web".to_string(), 2, 1024, vec![], vec![], true);
    assert!(matches!(
        check_packable("web", &None, &GONE, "/o", true),
        Err(Error::Agent { .. } | Error::VmNotFound { .. } | Error::Config { .. })
    ));
    assert!(check_packable("web", &Some(vm.clone()), &GONE, "/o", true).is_ok());
    let err = check_packable("web", &Some(vm.clone()), &GONE, "/o", false).unwrap_err();
    assert!(reason(&err).contains("/o"));
    let m = build_vm_manifest(
        "web",
        &vm,
        config(None),
        "linux/amd64".to_string(),
        "linux/amd64".to_string(),
    );
    assert_eq!(m.mode, PackMode::Vm);
    assert!(!m.entrypoint.is_empty() || !m.cmd.is_empty());
    vm.apply(RecordUpdate::Running {
        pid: Some(1),
        pid_start_time: Some(50),
    });
    assert!(check_packable("web", &Some(vm), &ALIVE, "/o", true).is_err());
    assert!(overlay_export_script("web").contains("/overlays/persistent-web/upper"));
    assert_eq!(overlay_digest("web"), "sha256:overlay-web");
    assert!(mount_outcome(0, "").is_ok());
    assert_eq!(
        reason(&mount_outcome(32, "busy").unwrap_err()),
        "mount failed (exit 32): busy"
    );
    assert!(keeps_overlay(0, 1));
    assert!(!keeps_overlay(0, 0));
    assert!(!keeps_overlay(1, 1));
}

#[test]
fn files_are_searched_in_order() {
    let dir = Some("/opt/bin".to_string());
    let up = Some("/opt".to_string());
    let libs = lib_dir_candidates(&dir, &up, "x86_64");
    assert_eq!(
        libs,
        vec![
            "/opt/bin/lib",
            "/opt/lib",
            "/opt/lib/linux-x86_64",
            "lib",
            "./lib",
            "lib/linux-x86_64",
            "/opt/homebrew/lib",
            "/usr/local/lib"
        ]
    );
    assert_eq!(lib_dir_candidates(&None, &None, "x86_64").len(), 5);
    assert_eq!(
        rootfs_candidates(&Some("/r".to_string()), &Some("/d".to_string()), &dir),
        vec!["/r", "/d/smolvm/agent-rootfs", "/opt/bin/agent-rootfs"]
    );
    assert_eq!(
        program_candidates(&dir, &Some("/opt/bin/smolvm".to_string()), &None),
        vec![
            "target/release/smolvm",
            "target/debug/smolvm",
            "/opt/bin/smolvm-bin",
            "/opt/bin/smolvm"
        ]
    );
    assert_eq!(
        template_candidates(&Some("/home/u".to_string()), &None, "t.ext4"),
        vec!["/home/u/.smolvm/t.ext4"]
    );
    let found = vec![("/a".to_string(), false), ("/b".to_string(), true)];
    assert_eq!(choose_path(&None, &found, "find", "none").unwrap(), "/b");
    assert_eq!(
        choose_path(&Some("/c".to_string()), &found, "find", "none").unwrap(),
        "/c"
    );
    assert!(choose_path(&None, &vec![], "find", "none").is_err());
}

#[test]
fn packs_are_summed_up() {
    let mut info = PackedInfo {
        stub_size: 2048,
        total_size: 4096,
        assets_size: 1024,
        sidecar_path: Some("app.smolmachine".to_string()),
    };
    let (first, second) = packed_summary("app", &info);
    assert_eq!(first, "Packed: app (stub: 2KB, total: 4KB)");
    assert_eq!(second, "Assets: app.smolmachine (1KB compressed)");
    info.sidecar_path = None;
    assert_eq!(packed_summary("app", &info).1, "Mode: single-file (no sidecar)");
    assert_ne!(assembly_label(true), assembly_label(false));
}

#[test]
fn newest_cache_entries_are_kept() {
    let entry = |path: &str, modified: u128| CacheEntry {
        path: path.to_string(),
        modified,
        size: 1,
    };
    let gone = prune_cache_dir(vec![entry("a", 3), entry("b", 1), entry("c", 2)], 1);
    let paths: Vec<&str> = gone.iter().map(|e| e.path.as_str()).collect();
    assert_eq!(paths, vec!["c", "b"]);
    assert!(prune_cache_dir(vec![entry("a", 3)], 1).is_empty());
    assert_eq!(prune_step(true, false), PruneStep::Skip);
    assert_eq!(prune_step(false, true), PruneStep::Report);
    assert_eq!(prune_step(false, false), PruneStep::Remove);
    let cmd = PackPruneCmd {
        keep: 3,
        all: true,
        dry_run: false,
    };
    assert_eq!(cmd.kept(), 0);
    assert_eq!(cmd.summary(0, 0), "No cached entries to remove.");
    assert_eq!(
        cmd.summary(2, 1024),
        "Removed 2 cached entries, freed 1.0 KB"
    );
}

#[test]
fn registry_commands_speak() {
    assert_eq!(registry_base_url("localhost:5000"), "http://localhost:5000");
    assert_eq!(registry_base_url("127.0.0.1:5000"), "http://127.0.0.1:5000");
    assert_eq!(registry_base_url("ghcr.io"), "https://ghcr.io");
    let r = Reference::parse("ghcr.io/owner/tool:v2").unwrap();
    assert_eq!(
        pushing_line("a.smolmachine", &r),
        "Pushing a.smolmachine to ghcr.io/owner/tool:v2"
    );
    assert_eq!(pulling_line(&r), "Pulling ghcr.io/owner/tool:v2");
    assert_eq!(
        pushed_text("sha256:a", 5, "sha256:b"),
        "Pushed successfully\n  Layer:    sha256:a (5 bytes)\n  Manifest: sha256:b"
    );
    assert_eq!(
        pulled_lines(true, "sha256:a", &None, "/cache/a", 5),
        vec![
            "Using cached blob (sha256:a)",
            "Pulled successfully -> /cache/a (5 bytes)"
        ]
    );
    assert_eq!(
        pulled_lines(false, "sha256:a", &Some("out".to_string()), "/cache/a", 5),
        vec!["Pulled successfully -> out (5 bytes)"]
    );
    let lines = inspect_lines(&r, &manifest(), 5, "sha256:a");
    assert_eq!(lines[0], "Reference:  ghcr.io/owner/tool:v2");
}

#[test]
fn sidecars_are_located() {
    let found = |path: &str, exists: bool| {
        Some(FoundPath {
            path: path.to_string(),
            exists,
        })
    };
    assert_eq!(
        resolve_sidecar_path(found("/x", true), None, None).unwrap(),
        "/x"
    );
    assert!(resolve_sidecar_path(found("/x", false), found("/y", true), None).is_err());
    assert_eq!(
        resolve_sidecar_path(None, found("/y", true), None).unwrap(),
        "/y"
    );
    assert_eq!(
        resolve_sidecar_path(None, found("/y", false), Some(strings(&["z"]))).unwrap(),
        "z"
    );
    assert!(resolve_sidecar_path(None, None, Some(strings(&["a", "b"]))).is_err());
    assert!(resolve_sidecar_path(None, None, Some(vec![])).is_err());
    assert!(checksum_outcome("/x", Ok(true)).is_ok());
    assert!(checksum_outcome("/x", Ok(false)).is_err());
    assert!(checksum_outcome("/x", Err("io".to_string())).is_err());
    assert!(needs_extract(true, true));
    assert!(needs_extract(false, false));
    assert!(!needs_extract(false, true));
    assert_eq!(
        resolve_lib_dir(
            Some("/e".to_string()),
            FoundPath {
                path: "/c".to_string(),
                exists: true
            },
            None
        )
        .unwrap(),
        "/e"
    );
}

#[test]
fn packed_storage_is_sized_by_the_image() {
    let mut m = manifest();
    assert_eq!(storage_gib_for_manifest(Some(7), &m), Some(7));
    assert_eq!(storage_gib_for_manifest(None, &m), None);
    m.image_size = 1 << 30;
    assert_eq!(storage_gib_for_manifest(None, &m), Some(20));
    m.image_size = 10 << 30;
    assert_eq!(storage_gib_for_manifest(None, &m), Some(35));
}

fn machine_args() -> PackedMachineArgs {
    PackedMachineArgs {
        net: false,
        net_backend: None,
        cpus: Some(9),
        mem: None,
        storage: None,
        overlay: Some(4),
    }
}

#[test]
fn packed_requests_merge_manifest_and_flags() {
    let mut m = manifest();
    m.mem = 333;
    m.entrypoint = strings(&["/entry"]);
    m.cmd = strings(&["arg"]);
    m.env = strings(&["A=1", "B=2"]);
    let r = resources_for_packed(&machine_args(), &vec![PortMapping::new(1, 2)], &m);
    assert_eq!((r.cpus, r.memory_mib), (9, 333));
    assert!(r.network);
    assert_eq!(build_command(&m, &vec![]), vec!["/entry", "arg"]);
    assert_eq!(build_command(&m, &strings(&["x"])), vec!["x"]);
    assert_eq!(build_command(&manifest(), &vec![]), vec!["/bin/sh"]);
    let env = build_env(&m, &strings(&["A=3"]));
    assert_eq!(
        env,
        vec![
            ("B".to_string(), "2".to_string()),
            ("A".to_string(), "3".to_string())
        ]
    );
    let mounts = vec![HostMount {
        source: "/h".to_string(),
        target: "/g".to_string(),
        read_only: true,
    }];
    let packed = mounts_to_packed(&mounts);
    assert_eq!(packed[0].tag, "smolvm0");
    assert_eq!(packed[0].guest_path, "/g");
    let args = PackedRunArgs {
        command: vec![],
        interactive: false,
        tty: true,
        timeout: None,
        workdir: None,
        env: vec![],
        volume: vec![],
        port: vec![],
        machine: machine_args(),
    };
    let q = packed_request(&m, &args, &mounts, Some("o".to_string()));
    assert_eq!(q.command, vec!["/entry", "arg"]);
    assert_eq!(q.persistent_overlay_id.as_deref(), Some("o"));
    assert_eq!(q.mounts[0].0, "smolvm0");
    assert_eq!(packed_exec(PackMode::Vm, false, false), PackedExec::Vm);
    assert_eq!(
        packed_exec(PackMode::Container, true, false),
        PackedExec::ContainerInteractive
    );
    let info = manifest_info(&m, 0xab);
    assert!(info.contains(&"Image:      alpine".to_string()));
}

#[test]
fn children_are_identified() {
    assert_eq!(identity_step(Some(5), true, 0), IdentityStep::Proceed(Some(5)));
    assert_eq!(identity_step(None, true, 0), IdentityStep::Retry);
    assert_eq!(identity_step(None, true, 1000), IdentityStep::KillAndFail);
    assert_eq!(identity_step(None, false, 0), IdentityStep::Proceed(None));
    assert_eq!(
        agent_wait_step(&Duration::from_secs(1), true),
        AgentWait::Ready
    );
    assert_eq!(
        agent_wait_step(&Duration::from_secs(1), false),
        AgentWait::Retry
    );
    assert_eq!(
        agent_wait_step(&Duration::from_secs(100_000), true),
        AgentWait::TimedOut
    );
    assert!(matches!(unidentified_child_error(), Error::Agent { .. }));
    assert!(matches!(agent_not_ready_error(), Error::Agent { .. }));
    assert!(reason(&overlay_template_error("bad")).contains("bad"));
}

#[test]
fn overlays_are_set_up() {
    assert_eq!(
        setup_vm_overlay(PackMode::Vm, None),
        OverlaySetup::CopyTemplate(None)
    );
    assert_eq!(
        setup_vm_overlay(PackMode::Vm, Some(7)),
        OverlaySetup::CopyTemplate(Some(7))
    );
    assert_eq!(
        setup_vm_overlay(PackMode::Container, Some(7)),
        OverlaySetup::NoOverlay
    );
}

#[test]
fn process_files_are_read_back() {
    assert_eq!(write_daemon_pid(42, Some(7)), "42\n7");
    assert_eq!(write_daemon_pid(42, None), "42");
    assert_eq!(read_daemon_pid("42\n7"), Some((42, Some(7))));
    assert_eq!(read_daemon_pid("42\r\n7\n"), Some((42, Some(7))));
    assert_eq!(read_daemon_pid("42\njunk"), Some((42, None)));
    assert_eq!(read_daemon_pid("42"), Some((42, None)));
    assert_eq!(read_daemon_pid("junk"), None);
    assert_eq!(read_daemon_pid(""), None);
}

#[test]
fn daemons_are_known_by_identity_and_answer() {
    let ours = Some((42, Some(50)));
    assert!(is_daemon_running(ours, &ALIVE, true, true));
    assert!(!is_daemon_running(ours, &ALIVE, true, false));
    assert!(!is_daemon_running(Some((42, None)), &ALIVE, true, true));
    assert!(!is_daemon_running(None, &ALIVE, true, true));
    assert_eq!(
        daemon_status(ours, &ALIVE, true, true),
        DaemonStatus::Running(42)
    );
    assert_eq!(daemon_status(ours, &GONE, true, true), DaemonStatus::Stale);
    assert_eq!(
        daemon_status(None, &GONE, false, false),
        DaemonStatus::NotRunning
    );
    assert!(daemon_status_line(DaemonStatus::Running(42)).contains("42"));
    assert!(may_stop_daemon(false, &ALIVE, Some(50)));
    assert!(!may_stop_daemon(false, &GONE, Some(50)));
}

#[test]
fn packing_stops_its_machine_after_a_failure() {
    let (p, a) = PackPhase::Starting.step(PackEvent::Done);
    assert_eq!(a, PackAction::Connect);
    let (p, a) = p.step(PackEvent::Done);
    assert_eq!(a, PackAction::Pull);
    let (p, a) = p.step(PackEvent::Pulled { merge: true });
    assert_eq!(a, PackAction::Collect);
    let (p, a) = p.step(PackEvent::Done);
    assert_eq!(a, PackAction::Merge);
    let (_, a) = p.step(PackEvent::Failed);
    assert_eq!(a, PackAction::Stop);
    let (p, a) = p.step(PackEvent::Done);
    assert_eq!(a, PackAction::Fetch);
    let (p, a) = p.step(PackEvent::Done);
    assert_eq!(a, PackAction::Register);
    let (p, a) = p.step(PackEvent::Done);
    assert_eq!(a, PackAction::Stop);
    let (p, a) = p.step(PackEvent::Done);
    assert_eq!(a, PackAction::RemoveData);
    let (p, a) = p.step(PackEvent::Done);
    assert_eq!(a, PackAction::Finalize);
    let (_, a) = p.step(PackEvent::Done);
    assert_eq!(a, PackAction::Succeed);
}

#[test]
fn packed_runs_verify_first_and_clean_up_last() {
    let (p, a) = PackedPhase::of_sidecar();
    assert_eq!(a, PackedAction::Locate);
    let (p, _) = p.step(true, PackedEvent::Done);
    let (p, a) = p.step(true, PackedEvent::Done);
    assert_eq!(a, PackedAction::Verify);
    let (p, a) = p.step(true, PackedEvent::Done);
    assert_eq!(a, PackedAction::ReadManifest);
    let (_, a) = p.step(true, PackedEvent::Done);
    assert_eq!(a, PackedAction::ShowInfo);
    let (p, a) = PackedPhase::Identifying(0).step(
        false,
        PackedEvent::Identity(IdentityStep::Proceed(Some(1))),
    );
    assert_eq!(a, PackedAction::AwaitAgent);
    let (p, a) = p.step(false, PackedEvent::Done);
    assert_eq!(a, PackedAction::Execute);
    let (p, a) = p.step(false, PackedEvent::Exited(4));
    assert_eq!(a, PackedAction::CleanUp);
    let (_, a) = p.step(false, PackedEvent::Done);
    assert_eq!(a, PackedAction::Exit(4));
    let (_, a) =
        PackedPhase::Identifying(3).step(false, PackedEvent::Identity(IdentityStep::KillAndFail));
    assert_eq!(a, PackedAction::Discard);
}

#[test]
fn daemons_keep_their_disks() {
    let (p, a) = DaemonPhase::begin();
    assert_eq!(a, DaemonAction::ReadManifest);
    let (p, _) = p.step(DaemonEvent::Done);
    let (p, _) = p.step(DaemonEvent::Done);
    let (p, a) = p.step(DaemonEvent::Done);
    assert_eq!(a, DaemonAction::CheckRunning);
    let (_, a) = p.step(DaemonEvent::Running(true));
    assert_eq!(a, DaemonAction::AlreadyRunning);
    let (p, a) = p.step(DaemonEvent::Running(false));
    assert_eq!(a, DaemonAction::RemoveStale);
    let (p, a) = p.step(DaemonEvent::Done);
    assert_eq!(a, DaemonAction::CheckDisks);
    let (_, a) = p.step(DaemonEvent::Disks {
        storage: true,
        overlay: true,
    });
    assert_eq!(a, DaemonAction::ResolveMounts);
    let (_, a) = p.step(DaemonEvent::Disks {
        storage: false,
        overlay: true,
    });
    assert_eq!(a, DaemonAction::MakeStorage);
}

#[test]
fn snapshots_export_every_layer_and_stop() {
    let (p, a) = SnapshotPhase::begin();
    assert_eq!(a, SnapshotAction::Collect);
    let (p, a) = p.step(true, SnapshotEvent::Done);
    assert_eq!(a, SnapshotAction::Start);
    let (p, a) = p.step(true, SnapshotEvent::Done);
    assert_eq!(a, SnapshotAction::Connect);
    let (p, a) = p.step(true, SnapshotEvent::Done);
    assert_eq!(a, SnapshotAction::Mount);
    let (p, a) = p.step(true, SnapshotEvent::Exited(0));
    assert_eq!(a, SnapshotAction::Pull);
    let (p, a) = p.step(true, SnapshotEvent::Pulled(2));
    assert_eq!(a, SnapshotAction::Export(0));
    let (p, a) = p.step(true, SnapshotEvent::Done);
    assert_eq!(a, SnapshotAction::Register(0));
    let (p, a) = p.step(true, SnapshotEvent::Done);
    assert_eq!(a, SnapshotAction::Export(1));
    let (p, _) = p.step(true, SnapshotEvent::Done);
    let (p, a) = p.step(true, SnapshotEvent::Done);
    assert_eq!(a, SnapshotAction::ArchiveOverlay);
    let (_, a) = p.step(true, SnapshotEvent::Failed);
    assert_eq!(a, SnapshotAction::Stop);
    let (p, a) = p.step(true, SnapshotEvent::Exited(0));
    assert_eq!(a, SnapshotAction::FetchOverlay);
    let (p, a) = p.step(true, SnapshotEvent::Fetched(10));
    assert_eq!(a, SnapshotAction::KeepOverlay);
    let (p, a) = p.step(true, SnapshotEvent::Done);
    assert_eq!(a, SnapshotAction::Stop);
    let (p, a) = p.step(true, SnapshotEvent::Failed);
    assert_eq!(a, SnapshotAction::RemoveData);
    let (p, a) = p.step(true, SnapshotEvent::Done);
    assert_eq!(a, SnapshotAction::AddOverlay);
    let (p, a) = p.step(true, SnapshotEvent::Done);
    assert_eq!(a, SnapshotAction::Finalize);
    let (_, a) = p.step(true, SnapshotEvent::Done);
    assert_eq!(a, SnapshotAction::Succeed);
}

#[test]
fn bare_snapshots_need_no_machine() {
    let (p, _) = SnapshotPhase::begin();
    let (_, a) = p.step(false, SnapshotEvent::Done);
    assert_eq!(a, SnapshotAction::AddOverlay);
    let (_, a) = p.step(false, SnapshotEvent::Failed);
    assert_eq!(a, SnapshotAction::Fail);
}

#[test]
fn libraries_are_embedded_after_signing() {
    let facts = AssemblyFacts {
        single_file: false,
        macos: true,
        no_sign: false,
    };
    let (p, a) = AssemblyPhase::Locating.step(facts, true);
    assert_eq!(a, AssemblyAction::Assemble);
    let (p, a) = p.step(facts, true);
    assert_eq!(a, AssemblyAction::Sign);
    let (p, a) = p.step(facts, false);
    assert_eq!(a, AssemblyAction::EmbedLibs);
    let (_, a) = p.step(facts, true);
    assert_eq!(a, AssemblyAction::Succeed);
    let single = AssemblyFacts {
        single_file: true,
        macos: false,
        no_sign: false,
    };
    let (_, a) = AssemblyPhase::Assembling.step(single, true);
    assert_eq!(a, AssemblyAction::Succeed);
}

#[test]
fn daemons_are_stopped_when_known() {
    let ours = Some((42, Some(50)));
    assert_eq!(daemon_stop(None, true, &ALIVE), DaemonStop::NotRunning);
    assert_eq!(daemon_stop(ours, false, &ALIVE), DaemonStop::StopProcess(42));
    assert_eq!(
        daemon_stop(Some((42, None)), false, &ALIVE),
        DaemonStop::CleanUp
    );
    assert_eq!(
        daemon_stop(Some((42, None)), true, &ALIVE),
        DaemonStop::StopProcess(42)
    );
    assert_eq!(
        reason(&daemon_not_running_error()),
        "daemon is not running. Start it with: <binary> start"
    );
}

#[test]
fn daemon_commands_keep_their_changes() {
    let mut m = manifest();
    m.cmd = strings(&["serve"]);
    m.workdir = Some("/w".to_string());
    let args = PackedRunArgs {
        command: vec![],
        interactive: false,
        tty: true,
        timeout: None,
        workdir: None,
        env: strings(&["A=1"]),
        volume: vec![],
        port: vec![],
        machine: machine_args(),
    };
    let r = daemon_request(&m, &args);
    assert_eq!(r.persistent_overlay_id.as_deref(), Some("daemon"));
    assert!(r.mounts.is_empty());
    assert_eq!(r.command, vec!["serve"]);
    let b = packed_bare_request(&m, &args);
    assert_eq!(b.command, vec!["serve"]);
    assert_eq!(b.workdir.as_deref(), Some("/w"));
    assert_eq!(b.env, vec![("A".to_string(), "1".to_string())]);
    assert!(b.tty);
}

#[test]
fn dry_and_real_prunes_count_alike() {
    let entry = |path: &str, size: u64| CacheEntry {
        path: path.to_string(),
        modified: 1,
        size,
    };
    let entries = vec![entry("a", 10), entry("b", 20), entry("c", 40)];
    let leased = vec![false, true, false];
    let dry = prune_plan(&leased, true);
    let real = prune_plan(&leased, false);
    assert_eq!(
        dry,
        vec![PruneStep::Report, PruneStep::Skip, PruneStep::Report]
    );
    assert_eq!(
        real,
        vec![PruneStep::Remove, PruneStep::Skip, PruneStep::Remove]
    );
    assert_eq!(prune_totals(&entries, &dry), (50, 2));
    assert_eq!(prune_totals(&entries, &real), (50, 2));
}

#[test]
fn first_program_is_copied_from_the_first_place() {
    let places = init_krun_candidates(&Some("/d".to_string()), &Some("/h".to_string()));
    assert_eq!(
        places,
        vec![
            "/d/smolvm/init.krun",
            "/h/.local/share/smolvm/init.krun",
            "/usr/local/share/smolvm/init.krun",
            "/opt/homebrew/share/smolvm/init.krun"
        ]
    );
    let found = vec![("/a".to_string(), false), ("/b".to_string(), true)];
    assert!(matches!(
        inject_init_krun(true, &vec![]),
        Ok(InitInjection::Present)
    ));
    assert!(
        matches!(inject_init_krun(false, &found), Ok(InitInjection::CopyFrom(p)) if p == "/b")
    );
    assert!(matches!(
        inject_init_krun(false, &vec![]),
        Err(Error::VmCreation { .. })
    ));
}
