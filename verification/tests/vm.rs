//! Machine configuration and the launch of the hypervisor.
use smolvm::data::storage::HostMount;
use smolvm::duration::Duration;
use smolvm::error::Error;
use smolvm::vm::backend::{
    build_env_args, build_exec_args, exec_request, krun_outcome, mount_specs, path_to_cstring, plan_exec_vm, pointer_count,
    resolv_conf, resolve_rootfs, ExecArgs, ExitReason, KrunStep, LibkrunBackend, LibkrunVm, VmState,
};
use smolvm::vm::config::{
    DiskConfig, DiskFormat, NetworkPolicy, RootfsSource, VmConfig, VmId, VsockPort,
};

#[test]
fn test_vm_id_sanitization() {
    // Normal ID passes through
    let id = VmId::new("my-test_vm123");
    assert_eq!(id.as_str(), "my-test_vm123");

    // Invalid characters are stripped
    let id = VmId::new("../../../etc/passwd");
    assert_eq!(id.as_str(), "etcpasswd");

    // Slashes and dots removed
    let id = VmId::new("vm/name.with.dots");
    assert_eq!(id.as_str(), "vmnamewithdots");

    // Empty after sanitization uses generated ID
    let id = VmId::new("///");
    assert!(id.as_str().starts_with("vm-"));

    // Long IDs are truncated
    let long_id = "a".repeat(100);
    let id = VmId::new(&long_id);
    assert_eq!(id.as_str().len(), 64);
}

#[test]
fn test_vm_config_builder() {
    let config = VmConfig::builder(RootfsSource::path("/rootfs".to_string()))
        .id(VmId::new("my-vm"))
        .memory(1024)
        .cpus(2)
        .network(NetworkPolicy::Egress {
            dns: None,
            allowed_cidrs: None,
        })
        .mount(HostMount {
            source: "/host".into(),
            target: "/guest".into(),
            read_only: true,
        })
        .command(vec!["/bin/sh".to_string()])
        .workdir("/app".to_string())
        .env("FOO".to_string(), "bar".to_string())
        .build();

    assert_eq!(config.id.as_str(), "my-vm");
    assert_eq!(config.memory_mib, 1024);
    assert_eq!(config.cpus, 2);
    assert!(matches!(config.network, NetworkPolicy::Egress { .. }));
    assert_eq!(config.mounts.len(), 1);
    assert_eq!(config.command, Some(vec!["/bin/sh".to_string()]));
    assert_eq!(config.workdir, Some("/app".to_string()));
    assert_eq!(config.env, vec![("FOO".to_string(), "bar".to_string())]);
}

#[test]
fn test_build_exec_args_default() {
    let args = build_exec_args(&None).unwrap();
    assert_eq!(args.exec_path, "/bin/sh");
    // The arguments do not hold the program itself; the list ends with a null.
    assert_eq!(pointer_count(&args.args), 1);
}

#[test]
fn test_build_exec_args_custom() {
    let cmd = Some(vec![
        "/bin/echo".to_string(),
        "hello".to_string(),
        "world".to_string(),
    ]);
    let args = build_exec_args(&cmd).unwrap();
    assert_eq!(args.exec_path, "/bin/echo");
    assert_eq!(args.args, vec!["hello", "world"]);
    assert_eq!(pointer_count(&args.args), 3);
}

#[test]
fn test_build_exec_args_empty() {
    let cmd = Some(vec![]);
    let result = build_exec_args(&cmd);
    assert!(result.is_err());
}

#[test]
fn test_build_env_args() {
    let env = vec![
        ("FOO".to_string(), "bar".to_string()),
        ("BAZ".to_string(), "qux".to_string()),
    ];
    let vm_id = VmId::new("test-vm");
    let texts = build_env_args(&env, &vm_id).unwrap();
    // 4 defaults (HOSTNAME, HOME, PATH, TERM) + 2 user vars + null
    assert_eq!(texts.len(), 6);
    assert_eq!(pointer_count(&texts), 7);
    assert_eq!(texts[0], "HOSTNAME=test-vm");
    assert_eq!(texts[1], "HOME=/root");
    assert!(texts[2].starts_with("PATH="));
    assert!(texts[3].starts_with("TERM="));
    assert_eq!(texts[4], "FOO=bar");
    assert_eq!(texts[5], "BAZ=qux");
}

#[test]
fn test_build_env_args_empty() {
    let env: Vec<(String, String)> = vec![];
    let vm_id = VmId::new("test-vm");
    let texts = build_env_args(&env, &vm_id).unwrap();
    // 4 defaults (HOSTNAME, HOME, PATH, TERM) + null
    assert_eq!(texts.len(), 4);
    assert_eq!(pointer_count(&texts), 5);
}

#[test]
fn test_path_to_cstring() {
    let text = path_to_cstring("/some/path").unwrap();
    assert_eq!(text, "/some/path");
    assert!(path_to_cstring("/some\0path").is_err());
}

#[test]
fn texts_with_a_zero_byte_are_refused() {
    assert!(build_exec_args(&Some(vec!["a\0".to_string()])).is_err());
    assert!(build_exec_args(&Some(vec!["a".to_string(), "b\0".to_string()])).is_err());
    let env = vec![("A".to_string(), "\0".to_string())];
    assert!(build_env_args(&env, &VmId::new("x")).is_err());
}

#[test]
fn ids_are_sanitized_and_generated() {
    assert_eq!(VmId::new("caf\u{e9}-\u{1F600}1").as_str(), "caf\u{e9}-1");
    let id = VmId::generate();
    assert!(id.as_str().starts_with("vm-"));
    assert!(id.as_str().len() > 3);
}

#[test]
fn root_filesystems_must_exist() {
    let source = RootfsSource::path("/rootfs".to_string());
    assert_eq!(resolve_rootfs(&source, true).unwrap(), "/rootfs");
    assert!(matches!(
        resolve_rootfs(&source, false),
        Err(Error::RootfsNotFound { .. })
    ));
}

#[test]
fn name_server_is_written() {
    assert_eq!(resolv_conf(Some("9.9.9.9")), "nameserver 9.9.9.9\n");
    assert_eq!(resolv_conf(None), "nameserver 1.1.1.1\n");
}

#[test]
fn hypervisor_steps_come_in_order() {
    let config = VmConfig::builder(RootfsSource::path("/rootfs".to_string()))
        .id(VmId::new("v"))
        .memory(512)
        .cpus(3)
        .workdir("/w".to_string())
        .disk(
            DiskConfig::new("vda".to_string(), "/d.qcow2".to_string())
                .format(DiskFormat::Qcow2)
                .read_only(),
        )
        .vsock(VsockPort::host_listen(7, "/s".to_string()))
        .console_log("/log".to_string())
        .boot_timeout(Duration::from_secs(5))
        .build();
    assert_eq!(config.timeouts.boot, Duration::from_secs(5));
    let steps = plan_exec_vm("/rootfs", &config, build_exec_args(&None), None);
    assert!(matches!(
        &steps[0],
        KrunStep::SetVmConfig {
            cpus: 3,
            memory_mib: 512
        }
    ));
    assert!(matches!(&steps[1], KrunStep::SetRoot(p) if p == "/rootfs"));
    assert!(steps
        .iter()
        .any(|s| matches!(s, KrunStep::SetWorkdir(p) if p == "/w")));
    assert!(steps.iter().any(|s| matches!(
        s,
        KrunStep::AddDisk {
            read_only: true,
            format: 1,
            ..
        }
    )));
    assert!(steps
        .iter()
        .any(|s| matches!(s, KrunStep::AddVsock { port: 7, .. })));
    assert!(steps
        .iter()
        .any(|s| matches!(s, KrunStep::SetConsole(p) if p == "/log")));
    assert!(!steps.iter().any(|s| matches!(s, KrunStep::Refuse(_))));
}

#[test]
fn nothing_follows_a_refused_text() {
    let config = VmConfig::builder(RootfsSource::path("/rootfs".to_string()))
        .workdir("/w\0".to_string())
        .build();
    let steps = plan_exec_vm("/rootfs", &config, build_exec_args(&None), None);
    let at = steps
        .iter()
        .position(|s| matches!(s, KrunStep::Refuse(_)))
        .unwrap();
    assert_eq!(at + 1, steps.len());
}

#[test]
fn hypervisor_errors_are_named() {
    let step = KrunStep::SetRoot("/r".to_string());
    assert!(krun_outcome(&step, 0).is_ok());
    assert!(krun_outcome(&step, -22).is_err());
}

#[test]
fn machines_end_with_a_reason() {
    assert!(LibkrunBackend::new(true).is_available());
    assert!(!LibkrunBackend::new(false).is_available());
    assert_eq!(LibkrunBackend::new(true).name(), "libkrun");
    let mut vm = LibkrunVm::boot(VmId::new("v"));
    vm.finish(Ok(3));
    assert!(matches!(vm.wait(), Ok(ExitReason::Exited(3))));
    let mut vm = LibkrunVm::boot(VmId::new("v"));
    vm.finish(Err("boom".to_string()));
    assert!(matches!(&vm.state, VmState::Failed { reason } if reason.contains("boom")));
}

#[test]
fn machines_are_stopped_and_killed() {
    let mut vm = LibkrunVm::boot(VmId::new("v"));
    vm.stop(false);
    assert!(!matches!(vm.state, VmState::Stopped));
    vm.stop(true);
    assert!(matches!(vm.state, VmState::Stopped));
    let mut vm = LibkrunVm::boot(VmId::new("v"));
    vm.kill();
    assert!(matches!(vm.state, VmState::Stopped));
    assert!(vm.wait().is_err());
}

#[test]
fn builder_sets_the_remaining_fields() {
    let config = VmConfig::builder(RootfsSource::path("/r".to_string()))
        .shutdown_timeout(Duration::from_millis(1500))
        .exec_timeout(Duration::from_secs(9))
        .vsock(VsockPort::guest_listen(8, "/s".to_string()))
        .rosetta(true)
        .build();
    assert_eq!(config.timeouts.shutdown.secs, 1);
    assert_eq!(config.timeouts.shutdown.nanos, 500_000_000);
    assert_eq!(config.timeouts.execution, Some(Duration::from_secs(9)));
    assert!(!config.vsock_ports[0].listen);
    assert!(config.rosetta);
}

#[test]
fn executor_is_told_of_the_mounts() {
    let config = VmConfig::builder(RootfsSource::path("/r".to_string()))
        .mount(HostMount {
            source: "/h".to_string(),
            target: "/g".to_string(),
            read_only: false,
        })
        .command(vec!["run".to_string()])
        .rosetta(true)
        .build();
    assert_eq!(
        mount_specs(&config.mounts),
        vec![("smolvm0".to_string(), "/g".to_string())]
    );
    let request = exec_request(&config, true);
    assert_eq!(request.mounts, mount_specs(&config.mounts));
    assert_eq!(request.command, Some(vec!["run".to_string()]));
    assert!(request.rosetta);
    assert!(!exec_request(&config, false).rosetta);
    let wrapped = ExecArgs {
        exec_path: "/bin/sh".to_string(),
        args: vec!["-c".to_string(), "mount && run".to_string()],
    };
    let steps = plan_exec_vm("/r", &config, Ok(wrapped), None);
    assert!(steps.iter().any(|s| matches!(
        s,
        KrunStep::SetExec { exec_path, args, .. } if exec_path == "/bin/sh" && args.len() == 2
    )));
    let refused = plan_exec_vm("/r", &config, Err(Error::vm_creation("no shell")), None);
    assert!(matches!(refused.last(), Some(KrunStep::Refuse(_))));
}

#[test]
fn ids_follow_the_clock() {
    assert_eq!(VmId::id_at(1, 500_000_000).as_str(), "vm-5dc");
    assert_eq!(VmId::id_at(0, 999_999).as_str(), "vm-0");
    assert_ne!(
        VmId::id_at(7, 1_000_000).as_str(),
        VmId::id_at(7, 2_000_000).as_str()
    );
    let id = VmId::new("..//\\");
    assert!(!id.as_str().contains(|c| c == '/' || c == '.' || c == '\\'));
}
