//! Running, copying, pruning and monitoring machines.
use smolvm::agent::{exit_code_of_stream, ExecEvent, ImageInfo};
use smolvm::cli::container::{
    ContainerCreateCmd, ContainerExecCmd, ContainerListCmd, ContainerStopCmd,
};
use smolvm::cli::listing::ListedImage;
use smolvm::cli::machine::{
    bare_run_request, detached_lines, detached_overrides, egress_hosts, is_idle, persistent_overlay, plan_run, prune_line,
    pull_without_network_error, removable_images, resolve_command, resolve_egress_flags, run_features, run_mode,
    run_request, total_size, CpCmd, CreateCmd, EgressFlags, ExecCmd, ExecMode, LsCmd, MachineCmd,
    MonitorCmd,
    PruneCmd, PruneRequest,
};
use smolvm::cli::monitor::{
    exited_line, given_up_line, in_grace_period, monitor_banner, restarting_line, suspended_line,
    CheckReport, MonitorAction, MonitorEvent,
    MonitorFlow,
};
use smolvm::cli::run_flow::{RunAction, RunEvent, RunFacts, RunFlow};
use smolvm::cli::smolfile::{build_create_params, CreateVmParams};
use smolvm::config::{RestartConfig, RestartPolicy, VmRecord};
use smolvm::data::network::PortMapping;
use smolvm::duration::Duration;
use smolvm::error::Error;
use smolvm::pack::PackManifest;

fn strings(list: &[&str]) -> Vec<String> {
    list.iter().map(|s| s.to_string()).collect()
}

fn params(ports: Vec<PortMapping>) -> CreateVmParams {
    build_create_params(
        "web".to_string(),
        None,
        None,
        vec![],
        4,
        8192,
        vec![],
        ports,
        false,
        vec![],
        strings(&["A=1"]),
        Some("/w".to_string()),
        None,
        None,
        None,
        vec![],
    )
    .unwrap()
}

fn image(entrypoint: &[&str], cmd: &[&str]) -> ImageInfo {
    ImageInfo {
        reference: "alpine".to_string(),
        digest: "sha256:0".to_string(),
        size: 1,
        layer_count: 1,
        layers: vec![],
        os: "linux".to_string(),
        architecture: "amd64".to_string(),
        entrypoint: strings(entrypoint),
        cmd: strings(cmd),
        env: vec![],
        workdir: None,
    }
}

fn reason(e: &Error) -> String {
    match e {
        Error::Config { reason, .. }
        | Error::Agent { reason, .. }
        | Error::Storage { reason, .. }
        | Error::Mount { reason, .. } => reason.clone(),
        other => panic!("unexpected error {:?}", other),
    }
}

#[test]
fn egress_flags_imply_a_network() {
    let f = resolve_egress_flags(
        strings(&["10.0.0.0/8"]),
        strings(&["example.com"]),
        Ok(vec![strings(&["1.2.3.4/32"])]),
        false,
        false,
    )
    .unwrap();
    assert_eq!(f.cidrs, vec!["10.0.0.0/8", "1.2.3.4/32"]);
    assert!(f.net);
    assert_eq!(f.dns_filter_hosts.unwrap(), vec!["example.com"]);
    let f = resolve_egress_flags(vec![], vec![], Ok(vec![]), false, false).unwrap();
    assert!(f.cidrs.is_empty());
    assert!(!f.net);
    assert!(f.dns_filter_hosts.is_none());
    let f = resolve_egress_flags(vec![], vec![], Ok(vec![]), true, false).unwrap();
    assert!(f.net);
    assert!(f.cidrs.contains(&"127.0.0.0/8".to_string()));
    assert!(resolve_egress_flags(
        vec![],
        strings(&["x"]),
        Err("failed to resolve 'x'".to_string()),
        false,
        false
    )
    .is_err());
    assert_eq!(egress_hosts(&strings(&["a"]), &None), vec!["a"]);
}

#[test]
fn runs_need_something_to_run() {
    let p = params(vec![]);
    let err = plan_run(&vec![], false, false, false, &p, vec![], None).unwrap_err();
    assert!(reason(&err).starts_with("no command specified."));
    let plan = plan_run(&strings(&["true"]), false, false, false, &p, vec![], None).unwrap();
    assert!(!plan.ignores_interactive);
    assert_eq!(plan.resources.cpus, 4);
    let plan = plan_run(&vec![], true, false, true, &p, vec![], None).unwrap();
    assert!(plan.ignores_interactive);
    let twice = params(vec![PortMapping::new(80, 1), PortMapping::new(80, 2)]);
    assert!(plan_run(&strings(&["true"]), false, false, false, &twice, vec![], None).is_err());
    assert_ne!(run_mode(true), run_mode(false));
    assert!(run_features(true, None, None).is_err());
    assert!(run_features(false, None, None).is_ok());
}

#[test]
fn commands_are_resolved_in_order() {
    let none: Vec<String> = vec![];
    let img = Some(image(&["/entry"], &["arg"]));
    assert_eq!(
        resolve_command(&strings(&["cli"]), &strings(&["e"]), &none, &img, false),
        vec!["cli"]
    );
    assert_eq!(
        resolve_command(&none, &strings(&["e"]), &strings(&["c"]), &img, false),
        vec!["e", "c"]
    );
    assert_eq!(
        resolve_command(&none, &none, &none, &img, false),
        vec!["/entry", "arg"]
    );
    assert_eq!(
        resolve_command(&none, &none, &none, &None, false),
        vec!["/bin/sh"]
    );
    let idle = resolve_command(&none, &none, &none, &None, true);
    assert!(is_idle(&idle));
    assert!(!is_idle(&strings(&["true"])));
}

#[test]
fn requests_carry_the_parameters() {
    let p = params(vec![PortMapping::new(80, 8080)]);
    let r = run_request("alpine", strings(&["true"]), &p, &vec![], None, true);
    assert_eq!(r.image, "alpine");
    assert_eq!(r.env, vec![("A".to_string(), "1".to_string())]);
    assert_eq!(r.workdir.as_deref(), Some("/w"));
    assert!(r.tty);
    let o = detached_overrides(&p, &vec![], Some("alpine".to_string()), true, &None);
    assert_eq!(o.cpus, 4);
    assert_eq!(o.ports, vec![(80, 8080)]);
    assert!(reason(&pull_without_network_error("timeout", "alpine")).contains("timeout"));
}

#[test]
fn create_command_becomes_parameters() {
    let cmd = |name: Option<&str>| CreateCmd {
        name: name.map(|n| n.to_string()),
        image: Some("alpine".to_string()),
        cpus: 4,
        mem: 8192,
        storage: None,
        overlay: None,
        volume: vec![],
        port: vec![],
        net: false,
        allow_cidr: vec![],
        allow_host: vec![],
        outbound_localhost_only: false,
        init: strings(&["true"]),
        env: vec![],
        workdir: None,
        ssh_agent: true,
        smolfile: None,
        from_artifact: None,
        gpu: true,
        gpu_vram: Some(64),
    };
    let open = || EgressFlags {
        cidrs: vec![],
        net: true,
        dns_filter_hosts: None,
    };
    let p = cmd(None)
        .into_params("vm-1".to_string(), open(), None)
        .unwrap();
    assert_eq!(p.name, "vm-1");
    assert!(p.net);
    assert!(p.ssh_agent);
    assert_eq!(p.gpu, Some(true));
    assert_eq!(p.gpu_vram_mib, Some(64));
    let p = cmd(Some("web"))
        .into_params("vm-1".to_string(), open(), None)
        .unwrap();
    assert_eq!(p.name, "web");
    let mut m = PackManifest::new(
        "alpine".to_string(),
        "sha256:1".to_string(),
        "linux/amd64".to_string(),
        "linux/amd64".to_string(),
    );
    m.cpus = 7;
    m.entrypoint = strings(&["/bin/app"]);
    let p = cmd(Some("web")).params_from_artifact("vm-1".to_string(), m, "/a".to_string());
    assert_eq!(p.source_smolmachine.as_deref(), Some("/a"));
    assert_eq!(p.entrypoint, vec!["/bin/app"]);
}

#[test]
fn exec_modes() {
    let cmd = |interactive: bool, tty: bool, stream: bool| ExecCmd {
        command: strings(&["ls"]),
        name: None,
        workdir: None,
        env: strings(&["B=2"]),
        timeout: None,
        interactive,
        tty,
        stream,
    };
    assert_eq!(cmd(false, false, true).mode(true), ExecMode::Stream);
    assert_eq!(cmd(true, false, false).mode(true), ExecMode::ImageInteractive);
    assert_eq!(cmd(false, false, false).mode(true), ExecMode::Image);
    assert_eq!(cmd(false, true, false).mode(false), ExecMode::BareInteractive);
    assert_eq!(cmd(false, false, false).mode(false), ExecMode::Bare);
    let mut r = VmRecord::new("web".to_string(), 1, 512, vec![], vec![], false);
    r.workdir = Some("/rec".to_string());
    assert_eq!(
        cmd(false, false, false)
            .effective_workdir(&Some(r.clone()))
            .as_deref(),
        Some("/rec")
    );
    let q = cmd(false, false, false).image_request("alpine", &r);
    assert_eq!(q.image, "alpine");
    assert_eq!(q.command, vec!["ls"]);
}

#[test]
fn copies_tell_their_direction() {
    let plan = |src: &str, dst: &str| {
        CpCmd {
            src: src.to_string(),
            dst: dst.to_string(),
        }
        .plan()
    };
    let p = plan("./f", "web:/w/f").unwrap();
    assert!(p.upload);
    assert_eq!((p.machine.as_str(), p.guest_path.as_str()), ("web", "/w/f"));
    assert_eq!(p.local_path, "./f");
    let p = plan("web:/w/f", "./f").unwrap();
    assert!(!p.upload);
    assert!(plan("a", "b").is_err());
    assert_eq!(persistent_overlay("web"), "persistent-web");
}

#[test]
fn prune_requests() {
    let request = |dry_run: bool, all: bool| PruneCmd { dry_run, all }.request();
    assert_eq!(request(true, true), PruneRequest::ListImages);
    assert_eq!(request(false, true), PruneRequest::RemoveAll);
    assert_eq!(request(true, false), PruneRequest::Scan);
    assert_eq!(request(false, false), PruneRequest::Remove);
    assert_eq!(prune_line(PruneRequest::Remove, 1536), "Freed 1.5 KB");
    assert_eq!(
        prune_line(PruneRequest::Scan, 0),
        "No unreferenced layers to remove."
    );
    assert_eq!(total_size(&vec![1, 2, 3]), 6);
    assert!(matches!(PruneCmd::running_error(), Error::Agent { .. } | Error::Config { .. }));
}

#[test]
fn streams_end_with_their_exit_code() {
    let events = vec![
        ExecEvent::Stdout(vec![1]),
        ExecEvent::Exit(3),
        ExecEvent::Stderr(vec![2]),
    ];
    assert_eq!(exit_code_of_stream(&events), 3);
    assert_eq!(exit_code_of_stream(&vec![]), 0);
}

#[test]
fn ephemeral_run_cleans_up() {
    let facts = RunFacts {
        detach: false,
        attached: false,
        has_image: true,
        ssh_agent: false,
        init_len: 1,
    };
    let (f, a) = RunFlow::begin(facts);
    assert_eq!(a, RunAction::Prepare);
    let (f, a) = f.step(RunEvent::Done);
    assert_eq!(a, RunAction::Launch);
    let (f, a) = f.step(RunEvent::Launched { fresh: true });
    assert_eq!(a, RunAction::Register);
    let (f, a) = f.step(RunEvent::Done);
    assert_eq!(a, RunAction::Connect);
    let (f, a) = f.step(RunEvent::Done);
    assert_eq!(a, RunAction::Pull);
    let (f, a) = f.step(RunEvent::Done);
    assert_eq!(a, RunAction::RunInit(0));
    let (f, a) = f.step(RunEvent::Exited(0));
    assert_eq!(a, RunAction::Resolve);
    let (f, a) = f.step(RunEvent::Resolved { idle: false });
    assert_eq!(
        a,
        RunAction::Execute {
            in_image: true,
            attached: false
        }
    );
    let (f, a) = f.step(RunEvent::Exited(7));
    assert_eq!(a, RunAction::Deregister);
    let (f, a) = f.step(RunEvent::Done);
    assert_eq!(a, RunAction::Kill);
    let (_, a) = f.step(RunEvent::Done);
    assert_eq!(a, RunAction::Exit(7));
}

#[test]
fn detached_run_is_kept() {
    let facts = RunFacts {
        detach: true,
        attached: false,
        has_image: false,
        ssh_agent: false,
        init_len: 1,
    };
    let (f, _) = RunFlow::begin(facts);
    let (f, _) = f.step(RunEvent::Done);
    let (f, _) = f.step(RunEvent::Launched { fresh: false });
    let (f, _) = f.step(RunEvent::Done);
    let (f, a) = f.step(RunEvent::Done);
    // The machine ran already: its init commands are not run again.
    assert_eq!(a, RunAction::Resolve);
    let (f, a) = f.step(RunEvent::Resolved { idle: false });
    assert_eq!(a, RunAction::StartBackground);
    let (f, a) = f.step(RunEvent::Done);
    assert_eq!(a, RunAction::Persist);
    let (_, a) = f.step(RunEvent::Done);
    assert_eq!(a, RunAction::Detach);
}

fn monitored() -> (VmRecord, MonitorCmd) {
    let mut r = VmRecord::new("web".to_string(), 1, 512, vec![], vec![], false);
    r.restart = RestartConfig {
        policy: RestartPolicy::Always,
        ..Default::default()
    };
    let cmd = MonitorCmd {
        name: None,
        restart: None,
        health_cmd: Some("check".to_string()),
        health_timeout: 3,
        interval: 5,
        health_retries: 2,
    };
    (r, cmd)
}

#[test]
fn monitor_plans_prefer_flags_for_policies_and_records_for_numbers() {
    let (mut r, mut cmd) = monitored();
    let plan = cmd.plan(&r).unwrap();
    assert_eq!(plan.health_cmd.unwrap(), vec!["sh", "-c", "check"]);
    assert_eq!(plan.interval, Duration::from_secs(5));
    r.health_interval_secs = Some(9);
    cmd.restart = Some("never".to_string());
    let plan = cmd.plan(&r).unwrap();
    assert_eq!(plan.interval, Duration::from_secs(9));
    assert_eq!(plan.restart.policy, RestartPolicy::Never);
    cmd.restart = Some("often".to_string());
    assert!(matches!(cmd.plan(&r), Err(Error::Config { .. })));
}

#[test]
fn failed_checks_stop_the_machine() {
    let (r, cmd) = monitored();
    let (m, a) = MonitorFlow::begin(&cmd.plan(&r).unwrap());
    assert_eq!(a, MonitorAction::Sleep { suspended_secs: None });
    let woke = MonitorEvent::Woke {
        stop: false,
        elapsed: Duration::from_secs(5),
    };
    let (m, a) = m.step(woke);
    assert_eq!(a, MonitorAction::Refresh);
    let (m, a) = m.step(MonitorEvent::Alive { in_grace: false });
    assert_eq!(a, MonitorAction::Check);
    let (m, a) = m.step(MonitorEvent::Unhealthy);
    assert_eq!(a, MonitorAction::Sleep { suspended_secs: None });
    let (m, _) = m.step(woke);
    let (m, _) = m.step(MonitorEvent::Alive { in_grace: false });
    let (_, a) = m.step(MonitorEvent::Unhealthy);
    assert_eq!(a, MonitorAction::Stop);
    assert!(m.has_room(MonitorEvent::Unhealthy));
    let mut full = m;
    full.failures = u32::MAX;
    assert!(!full.has_room(MonitorEvent::Unhealthy));
    assert!(full.has_room(MonitorEvent::Passed));
}

#[test]
fn dead_machines_are_restarted_after_a_pause() {
    let (r, cmd) = monitored();
    let (m, _) = MonitorFlow::begin(&cmd.plan(&r).unwrap());
    let (m, _) = m.step(MonitorEvent::Woke {
        stop: false,
        elapsed: Duration::from_secs(5),
    });
    let (m, a) = m.step(MonitorEvent::Dead);
    assert_eq!(a, MonitorAction::Reap);
    let (m, a) = m.step(MonitorEvent::Reaped(Some(1)));
    assert_eq!(a, MonitorAction::RecordExit(Some(1)));
    let (m, a) = m.step(MonitorEvent::Done);
    assert_eq!(
        a,
        MonitorAction::BackOff {
            count: 1,
            pause: Duration::from_secs(1)
        }
    );
    let (m, a) = m.step(MonitorEvent::Rested { stop: false });
    assert_eq!(a, MonitorAction::Start);
    let (_, a) = m.step(MonitorEvent::Done);
    assert_eq!(a, MonitorAction::Sleep { suspended_secs: None });
}

#[test]
fn suspended_hosts_are_noticed() {
    let (r, cmd) = monitored();
    let (m, _) = MonitorFlow::begin(&cmd.plan(&r).unwrap());
    let (_, a) = m.step(MonitorEvent::Woke {
        stop: false,
        elapsed: Duration::from_secs(65),
    });
    assert_eq!(
        a,
        MonitorAction::Sleep {
            suspended_secs: Some(60)
        }
    );
    let (m, a) = m.step(MonitorEvent::Woke {
        stop: true,
        elapsed: Duration::from_secs(1),
    });
    assert_eq!(a, MonitorAction::Close);
    let (_, a) = m.step(MonitorEvent::Done);
    assert_eq!(a, MonitorAction::End);
}

#[test]
fn monitor_lines() {
    let (r, cmd) = monitored();
    let plan = cmd.plan(&r).unwrap();
    let (first, health) = monitor_banner("web", &plan);
    assert!(first.contains("web"));
    assert!(first.contains("always"));
    assert!(health.is_some());
    assert!(given_up_line(&plan.restart).contains("always"));
    assert!(exited_line(Some(3)).contains("3"));
    assert_ne!(exited_line(None), exited_line(Some(0)));
    assert!(in_grace_period(
        &Duration::from_secs(5),
        &Duration::from_secs(4)
    ));
    assert!(!in_grace_period(
        &Duration::from_secs(5),
        &Duration::from_secs(6)
    ));
}

#[test]
fn container_commands_have_defaults() {
    let mut create = ContainerCreateCmd {
        machine: "web".to_string(),
        image: "alpine".to_string(),
        command: vec![],
        workdir: None,
        env: vec![],
        volume: vec![],
    };
    assert!(is_idle(&create.effective_command()));
    create.command = strings(&["run"]);
    assert_eq!(create.effective_command(), vec!["run"]);
    let stop = ContainerStopCmd {
        machine: "web".to_string(),
        container_id: "c".to_string(),
        timeout: Some(Duration::from_secs(9)),
    };
    assert_eq!(stop.timeout_secs(), Some(9));
    let exec = ContainerExecCmd {
        machine: "web".to_string(),
        container_id: "c".to_string(),
        command: vec![],
        workdir: None,
        env: vec![],
        timeout: None,
    };
    assert_eq!(exec.effective_command(), vec!["/bin/sh"]);
}

#[test]
fn bare_requests_honour_the_timeout() {
    let limit = Some(Duration::from_secs(30));
    let r = bare_run_request(strings(&["ls"]), &params(vec![]), limit, false);
    assert_eq!(r.command, vec!["ls"]);
    assert_eq!(r.timeout, limit);
    assert_eq!(r.workdir.as_deref(), Some("/w"));
    let cmd = ExecCmd {
        command: strings(&["ls"]),
        name: None,
        workdir: Some("/x".to_string()),
        env: strings(&["A=1"]),
        timeout: limit,
        interactive: false,
        tty: true,
        stream: false,
    };
    let r = cmd.bare_request(&None);
    assert_eq!(r.env, vec![("A".to_string(), "1".to_string())]);
    assert_eq!(r.workdir.as_deref(), Some("/x"));
    assert!(r.tty);
}

#[test]
fn all_images_are_listed_before_removal() {
    assert_eq!(
        removable_images(&vec![]),
        vec!["No cached images to remove."]
    );
    let image = |reference: &str, size: u64| ListedImage {
        reference: reference.to_string(),
        size,
        layer_count: 2,
    };
    assert_eq!(
        removable_images(&vec![image("a", 512), image("b", 1024)]),
        vec![
            "Would remove 2 images (1.5 KB)",
            "  - a (512 B, 2 layers)",
            "  - b (1.0 KB, 2 layers)"
        ]
    );
}

#[test]
fn health_checks_are_reported() {
    assert_eq!(CheckReport::Passed.line(0, 3), None);
    assert_eq!(
        CheckReport::Passed.line(1, 3).unwrap(),
        "  health check passed (recovered)"
    );
    let failed = CheckReport::Exited {
        code: 7,
        stderr: " refused\n".to_string(),
    };
    assert_eq!(
        failed.line(1, 3).unwrap(),
        "  health check failed (exit 7, 2/3): refused"
    );
    assert_eq!(failed.event(), MonitorEvent::Unhealthy);
    assert_eq!(
        CheckReport::Error("timeout".to_string()).line(0, 3).unwrap(),
        "  health check error (1/3): timeout"
    );
    assert_eq!(
        CheckReport::Unconnected.line(2, 3).unwrap(),
        "  cannot connect to agent (3/3)"
    );
    assert_eq!(CheckReport::Unconnected.event(), MonitorEvent::Unconnected);
    assert_eq!(
        restarting_line(2, &Duration::from_secs(4)),
        "  restarting (attempt 2, backoff 4s)..."
    );
    assert!(suspended_line(60).starts_with("  detected suspend (~60s)"));
}

#[test]
fn only_runs_skip_the_cleanup() {
    let ls = MachineCmd::Ls(LsCmd {
        verbose: false,
        json: false,
    });
    assert!(ls.cleans_up_first());
    let mut list = ContainerListCmd {
        machine: "web".to_string(),
        all: false,
        quiet: false,
    };
    assert_eq!(
        list.not_running_line().unwrap(),
        "No containers (machine 'web' not running)"
    );
    list.quiet = true;
    assert_eq!(list.not_running_line(), None);
}

#[test]
fn detached_runs_say_how_to_go_on() {
    assert_eq!(detached_lines(true, Some(5))[0], "Machine running in background");
    let lines = detached_lines(false, Some(5));
    assert_eq!(lines[0], "Machine running (PID: 5)");
    assert_eq!(lines.len(), 5);
    assert_eq!(lines[4], "  smolvm machine stop");
}
