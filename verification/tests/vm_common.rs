//! Creating, resizing and cleaning up machines.
use smolvm::cli::smolfile::{
    build_create_params, fits_in_seconds, parse_cidrs, parse_duration_secs, parse_ports,
    resolve_pack_config, smolfile_durations_fit, CreateVmParams,
};
use smolvm::cli::vm_common::{
    build_init_run_config, check_port_conflicts, cleanup_orphaned_ephemeral_vms, create_vm,
    created_lines,
    format_init_failure, init_argv, init_outcome, is_orphaned, mark_unreachable_if_zombie,
    not_running_error, persist_default_running, register_ephemeral_vm, resize_command_error,
    resize_vm, resolve_state, resolve_vm_name, vm_label,
};
use smolvm::config::{RecordState, RecordUpdate, RestartPolicy, SmolvmConfig, VmRecord};
use smolvm::data::network::PortMapping;
use smolvm::error::Error;
use smolvm::process::ProcessProbe;
use smolvm::smolfile::{
    ArtifactConfig, DevConfig, HealthConfig, NetworkConfig, RestartSmolfileConfig, Smolfile,
};

const ALIVE: ProcessProbe = ProcessProbe {
    alive: true,
    start_time: None,
};
const GONE: ProcessProbe = ProcessProbe {
    alive: false,
    start_time: None,
};

fn strings(list: &[&str]) -> Vec<String> {
    list.iter().map(|s| s.to_string()).collect()
}

fn blank() -> Smolfile {
    Smolfile {
        image: None,
        entrypoint: vec![],
        cmd: vec![],
        env: vec![],
        workdir: None,
        cpus: None,
        memory: None,
        net: None,
        gpu: None,
        gpu_vram: None,
        storage: None,
        overlay: None,
        allowed_cidrs: vec![],
        ports: vec![],
        volumes: vec![],
        init: vec![],
        artifact: None,
        pack: None,
        dev: None,
        health: None,
        restart: None,
        network: None,
        ssh_agent: None,
    }
}

fn params(smolfile: Option<Smolfile>) -> Result<CreateVmParams, Error> {
    build_create_params(
        "web".to_string(),
        None,
        None,
        vec![],
        4,
        8192,
        vec![],
        vec![],
        false,
        vec![],
        vec![],
        None,
        smolfile,
        None,
        None,
        vec![],
    )
}

fn reason(e: &Error) -> String {
    match e {
        Error::Config { reason, .. }
        | Error::Agent { reason, .. }
        | Error::Storage { reason, .. }
        | Error::Mount { reason, .. } => reason.clone(),
        other => panic!("unexpected error {:?}", other),
    }
}

#[test]
fn format_init_failure_includes_stderr_only() {
    let msg = format_init_failure(0, 1, "", "command not found");
    assert_eq!(msg, "init[0] failed (exit 1): command not found");
}

#[test]
fn format_init_failure_includes_stdout_only() {
    let msg = format_init_failure(2, 127, "could not resolve mirror", "");
    assert_eq!(msg, "init[2] failed (exit 127): could not resolve mirror");
}

#[test]
fn format_init_failure_combines_both_streams() {
    let msg = format_init_failure(0, 2, "saw 3 errors", "fatal: aborting");
    assert_eq!(
        msg,
        "init[0] failed (exit 2): fatal: aborting; stdout: saw 3 errors"
    );
}

#[test]
fn format_init_failure_handles_empty_streams() {
    let msg = format_init_failure(5, 1, "", "");
    assert_eq!(msg, "init[5] failed (exit 1)");
}

#[test]
fn format_init_failure_trims_whitespace() {
    let msg = format_init_failure(0, 1, "  ", "  bad thing happened  \n");
    assert_eq!(msg, "init[0] failed (exit 1): bad thing happened");
}

#[test]
fn init_argv_routes_through_sh_dash_c() {
    assert_eq!(
        init_argv("pacman -Sy && pacman -S git"),
        vec![
            "sh".to_string(),
            "-c".to_string(),
            "pacman -Sy && pacman -S git".to_string(),
        ]
    );
}

#[test]
fn build_init_run_config_overlay_matches_machine_name() {
    let config = build_init_run_config("alpine", "true", &vec![], &None, &vec![], "my-vm");
    assert_eq!(config.persistent_overlay_id.as_deref(), Some("my-vm"));
}

#[test]
fn build_init_run_config_threads_env_workdir_image() {
    let env = vec![("HTTP_PROXY".to_string(), "http://proxy:3128".to_string())];
    let config =
        build_init_run_config("debian:slim", "apt update", &env, &Some("/work".to_string()), &vec![], "vm");
    assert_eq!(config.image, "debian:slim");
    assert_eq!(config.env, env);
    assert_eq!(config.workdir.as_deref(), Some("/work"));
    assert_eq!(
        config.command,
        vec!["sh".to_string(), "-c".to_string(), "apt update".to_string(),]
    );
}

#[test]
fn build_init_run_config_assigns_virtiofs_tags_to_mounts() {
    let mounts = vec![
        ("/host/src".to_string(), "/app".to_string(), false),
        ("/host/data".to_string(), "/data".to_string(), true),
    ];
    let config = build_init_run_config("alpine", "true", &vec![], &None, &mounts, "vm");
    assert_eq!(
        config.mounts,
        vec![
            ("smolvm0".to_string(), "/app".to_string(), false),
            ("smolvm1".to_string(), "/data".to_string(), true),
        ]
    );
}

#[test]
fn build_init_run_config_no_mounts_no_workdir() {
    let config = build_init_run_config("alpine", "echo hi", &vec![], &None, &vec![], "vm");
    assert!(config.mounts.is_empty());
    assert!(config.workdir.is_none());
    assert!(config.env.is_empty());
    assert_eq!(config.persistent_overlay_id.as_deref(), Some("vm"));
}

#[test]
fn init_outcome_follows_the_exit_code() {
    assert!(init_outcome(0, 0, "", "noise").is_ok());
    assert_eq!(
        reason(&init_outcome(1, 2, "", "bad").unwrap_err()),
        "init[1] failed (exit 2): bad"
    );
}

#[test]
fn durations_are_seconds() {
    assert_eq!(parse_duration_secs("10s"), Some(10));
    assert_eq!(parse_duration_secs("5m"), Some(300));
    assert_eq!(parse_duration_secs("2h"), Some(7200));
    assert_eq!(parse_duration_secs(" 7 "), Some(7));
    assert_eq!(parse_duration_secs("soon"), None);
    assert!(fits_in_seconds("10m"));
    assert!(!fits_in_seconds("18446744073709551615h"));
}

#[test]
fn smolfile_settings_are_taken() {
    let mut sf = blank();
    sf.image = Some("alpine".to_string());
    sf.entrypoint = strings(&["/bin/app"]);
    sf.cmd = strings(&["serve"]);
    sf.cpus = Some(2);
    sf.memory = Some(1024);
    sf.gpu = Some(true);
    sf.gpu_vram = Some(512);
    sf.storage = Some(30);
    sf.allowed_cidrs = strings(&["10.0.0.0/8"]);
    sf.ssh_agent = Some(true);
    sf.network = Some(NetworkConfig {
        allow_hosts: strings(&["example.com"]),
    });
    sf.dev = Some(DevConfig {
        volumes: strings(&["/a:/b"]),
        env: strings(&["A=1"]),
        init: strings(&["true"]),
        workdir: Some("/w".to_string()),
        ports: strings(&["8080:80"]),
    });
    sf.health = Some(HealthConfig {
        exec_argv: strings(&["check"]),
        interval: Some("10s".to_string()),
        timeout: Some("1m".to_string()),
        retries: Some(4),
        startup_grace: None,
    });
    sf.restart = Some(RestartSmolfileConfig {
        policy: Some("always".to_string()),
        max_retries: Some(5),
        max_backoff: Some("1h".to_string()),
    });
    assert!(smolfile_durations_fit(&sf));
    let p = params(Some(sf)).unwrap();
    assert_eq!(p.image.as_deref(), Some("alpine"));
    assert_eq!(p.entrypoint, vec!["/bin/app"]);
    assert_eq!(p.cmd, vec!["serve"]);
    assert_eq!((p.cpus, p.mem), (2, 1024));
    assert_eq!(p.gpu, Some(true));
    assert_eq!(p.gpu_vram_mib, Some(512));
    assert_eq!(p.storage_gb, Some(30));
    assert_eq!(p.overlay_gb, None);
    assert!(p.net);
    assert_eq!(p.volume, vec!["/a:/b"]);
    assert_eq!(p.env, vec!["A=1"]);
    assert_eq!(p.init, vec!["true"]);
    assert_eq!(p.workdir.as_deref(), Some("/w"));
    assert_eq!(p.port[0].to_tuple(), (8080, 80));
    assert_eq!(p.health_cmd.unwrap(), vec!["check"]);
    assert_eq!(p.health_interval_secs, Some(10));
    assert_eq!(p.health_timeout_secs, Some(60));
    assert_eq!(p.health_retries, Some(4));
    assert_eq!(p.restart_policy, Some(RestartPolicy::Always));
    assert_eq!(p.restart_max_backoff_secs, Some(3600));
    assert!(p.ssh_agent);
    assert!(p.allowed_cidrs.unwrap().contains(&"10.0.0.0/8".to_string()));
}

#[test]
fn flags_win_over_the_smolfile() {
    let mut sf = blank();
    sf.image = Some("alpine".to_string());
    sf.cpus = Some(2);
    sf.workdir = Some("/sf".to_string());
    sf.init = strings(&["first"]);
    let p = build_create_params(
        "web".to_string(),
        Some("debian".to_string()),
        None,
        vec![],
        8,
        8192,
        vec![],
        vec![],
        false,
        strings(&["second"]),
        vec![],
        Some("/cli".to_string()),
        Some(sf),
        Some(40),
        None,
        vec![],
    )
    .unwrap();
    assert_eq!(p.image.as_deref(), Some("debian"));
    assert_eq!(p.cpus, 8);
    assert_eq!(p.workdir.as_deref(), Some("/cli"));
    assert_eq!(p.init, vec!["first", "second"]);
    assert_eq!(p.storage_gb, Some(40));
}

#[test]
fn empty_smolfile_is_like_none() {
    let a = params(None).unwrap();
    let b = params(Some(blank())).unwrap();
    assert_eq!(a.cpus, b.cpus);
    assert_eq!(a.mem, b.mem);
    assert_eq!(a.net, b.net);
    assert_eq!(a.env, b.env);
    assert_eq!(a.allowed_cidrs, b.allowed_cidrs);
    assert!(a.allowed_cidrs.is_none());
}

#[test]
fn bad_smolfile_values_are_refused() {
    let mut sf = blank();
    sf.ports = strings(&["80"]);
    assert!(matches!(params(Some(sf)), Err(Error::Config { .. })));
    let mut sf = blank();
    sf.allowed_cidrs = strings(&["nowhere"]);
    assert!(matches!(params(Some(sf)), Err(Error::Config { .. })));
    assert!(parse_ports(&strings(&["1:2", "x"])).is_err());
    assert_eq!(
        parse_cidrs(&strings(&["1.1.1.1", "10.0.0.0/8"])).unwrap(),
        vec!["1.1.1.1/32", "10.0.0.0/8"]
    );
}

#[test]
fn artifact_section_comes_before_pack_and_top_level() {
    let section = |cpus: u8| ArtifactConfig {
        cpus: Some(cpus),
        memory: None,
        entrypoint: vec![],
        cmd: vec![],
        oci_platform: None,
    };
    let mut sf = blank();
    sf.cpus = Some(1);
    sf.pack = Some(section(2));
    sf.artifact = Some(section(3));
    let c = resolve_pack_config(None, None, 4, 8192, None, Some(sf));
    assert_eq!(c.cpus, 3);
    let mut sf = blank();
    sf.cpus = Some(1);
    sf.pack = Some(section(2));
    let c = resolve_pack_config(None, None, 4, 8192, None, Some(sf));
    assert_eq!(c.cpus, 2);
    let c = resolve_pack_config(Some("alpine".to_string()), None, 6, 8192, None, None);
    assert_eq!(c.cpus, 6);
    assert_eq!(c.image.as_deref(), Some("alpine"));
}

#[test]
fn machines_are_created_once() {
    let mut config = SmolvmConfig::try_default();
    let p = params(None).unwrap();
    let record = create_vm(&config, &p, Ok(vec![])).unwrap();
    assert_eq!(record.name, "web");
    assert_eq!(record.state, RecordState::Created);
    config
        .insert_vm("web".to_string(), record, Ok(()))
        .unwrap();
    let err = create_vm(&config, &p, Ok(vec![])).unwrap_err();
    assert_eq!(reason(&err), "machine 'web' already exists");
    let mut bad = params(None).unwrap();
    bad.name = "a b".to_string();
    assert!(create_vm(&config, &bad, Ok(vec![])).is_err());
    let mut other = params(None).unwrap();
    other.name = "db".to_string();
    let err = create_vm(
        &config,
        &other,
        Err(Error::mount("parse", "no such directory".to_string())),
    )
    .unwrap_err();
    assert!(matches!(err, Error::Mount { .. }));
}

#[test]
fn names_are_resolved() {
    assert_eq!(resolve_vm_name(None, true).as_deref(), Some("default"));
    assert_eq!(resolve_vm_name(None, false), None);
    assert_eq!(
        resolve_vm_name(Some("x".to_string()), true).as_deref(),
        Some("x")
    );
    assert_eq!(vm_label(&None), "default");
    assert_eq!(vm_label(&Some("x".to_string())), "x");
    assert_eq!(
        reason(&not_running_error(&Some("x".to_string()))),
        "machine 'x' is not running. Use 'smolvm machine start --name x' first."
    );
    assert_eq!(
        reason(&not_running_error(&None)),
        "machine 'default' is not running. Use 'smolvm machine start' first."
    );
}

#[test]
fn zombies_are_marked() {
    let mut record = register_ephemeral_vm("e", Some(3), 1, 512, false, None);
    assert_eq!(record.state, RecordState::Running);
    assert!(record.ephemeral);
    assert_eq!(
        mark_unreachable_if_zombie(&record, &ALIVE),
        Some(RecordUpdate::Unreachable)
    );
    assert_eq!(mark_unreachable_if_zombie(&record, &GONE), None);
    assert!(!is_orphaned(&record, true));
    assert!(is_orphaned(&record, false));
    let vms = vec![
        ("e".to_string(), record.clone()),
        ("f".to_string(), record.clone()),
    ];
    assert_eq!(
        cleanup_orphaned_ephemeral_vms(&vms, &vec![true, false]),
        vec!["f"]
    );
    record.ephemeral = false;
    assert!(!is_orphaned(&record, false));
}

#[test]
fn default_machine_is_recorded() {
    let config = SmolvmConfig::try_default();
    let record = persist_default_running(&config, Some(8), Some(80), &None);
    assert_eq!(record.name, "default");
    assert_eq!(record.pid, Some(8));
    assert_eq!(record.pid_start_time, Some(80));
    assert_eq!(record.state, RecordState::Running);
}

#[test]
fn ports_of_running_machines_are_taken() {
    let mut running = VmRecord::new("a".to_string(), 1, 512, vec![], vec![(80, 80)], false);
    running.apply(RecordUpdate::Running {
        pid: Some(1),
        pid_start_time: None,
    });
    let vms = vec![("a".to_string(), running)];
    let ours = vec![PortMapping::new(80, 8080)];
    assert!(check_port_conflicts("b", &ours, &vms, &vec![ALIVE]).is_err());
    assert!(check_port_conflicts("a", &ours, &vms, &vec![ALIVE]).is_ok());
    assert!(check_port_conflicts("b", &ours, &vms, &vec![GONE]).is_ok());
    let other = vec![PortMapping::new(81, 80)];
    assert!(check_port_conflicts("b", &other, &vms, &vec![ALIVE]).is_ok());
}

#[test]
fn disks_only_grow() {
    let mut record = VmRecord::new("a".to_string(), 1, 512, vec![], vec![], false);
    record.storage_gb = Some(20);
    let plan = resize_vm(&record, &GONE, Some(50), None).unwrap();
    assert_eq!(plan.expand_storage, Some(50));
    assert_eq!(plan.expand_overlay, None);
    assert_eq!(plan.current_overlay_gb, 10);
    record.apply(plan.update);
    assert_eq!(record.storage_gb, Some(50));
    assert!(resize_vm(&record, &GONE, Some(40), None).is_err());
    record.apply(RecordUpdate::Running {
        pid: Some(1),
        pid_start_time: None,
    });
    let err = resize_vm(&record, &ALIVE, Some(60), None).unwrap_err();
    assert!(matches!(err, Error::InvalidState { .. }));
    assert_eq!(
        reason(&resize_command_error("a", err)),
        "VM 'a' is running. Stop it first with: smolvm machine stop --name a"
    );
}

#[test]
fn creation_is_summed_up() {
    let mut p = params(None).unwrap();
    p.init = strings(&["a", "b"]);
    assert_eq!(
        created_lines(&p),
        vec![
            "Created machine: web",
            "  CPUs: 4, Memory: 8192 MiB",
            "  Init commands: 2",
            "\nUse 'smolvm machine start --name web' to start the machine",
            "Then use 'smolvm machine exec --name web -- <command>' to run commands"
        ]
    );
}

#[test]
fn silent_agents_make_a_machine_unreachable() {
    let record = register_ephemeral_vm("e", Some(3), 1, 512, false, None);
    assert_eq!(resolve_state(&record, &ALIVE, true), RecordState::Running);
    assert_eq!(
        resolve_state(&record, &ALIVE, false),
        RecordState::Unreachable
    );
    assert_eq!(resolve_state(&record, &GONE, false), RecordState::Stopped);
}
