//! Machine records, restart policies and settings.
use smolvm::config::{
    RecordState, RecordUpdate, RestartConfig, RestartPolicy, SmolvmConfig, VmRecord,
};
use smolvm::data::resources::DEFAULT_GPU_VRAM_MIB;
use smolvm::duration::Duration;
use smolvm::process::ProcessProbe;
use smolvm::table::Table;

fn record(name: &str) -> VmRecord {
    VmRecord::new(name.to_string(), 1, 512, vec![], vec![], false)
}

#[test]
fn test_record_state_display() {
    assert_eq!(RecordState::Created.to_string(), "created");
    assert_eq!(RecordState::Running.to_string(), "running");
    assert_eq!(RecordState::Stopped.to_string(), "stopped");
    assert_eq!(RecordState::Failed.to_string(), "failed");
}

#[test]
fn test_restart_policy_display_and_parse() {
    assert_eq!(RestartPolicy::Never.to_string(), "never");
    assert_eq!(RestartPolicy::Always.to_string(), "always");
    assert_eq!(RestartPolicy::OnFailure.to_string(), "on-failure");
    assert_eq!(RestartPolicy::UnlessStopped.to_string(), "unless-stopped");

    assert_eq!(
        "never".parse::<RestartPolicy>().unwrap(),
        RestartPolicy::Never
    );
    assert_eq!(
        "always".parse::<RestartPolicy>().unwrap(),
        RestartPolicy::Always
    );
    assert_eq!(
        "on-failure".parse::<RestartPolicy>().unwrap(),
        RestartPolicy::OnFailure
    );
    assert_eq!(
        "unless-stopped".parse::<RestartPolicy>().unwrap(),
        RestartPolicy::UnlessStopped
    );
}

#[test]
fn test_restart_config_default() {
    let config = RestartConfig::default();
    assert_eq!(config.policy, RestartPolicy::Never);
    assert_eq!(config.max_retries, 0);
    assert_eq!(config.restart_count, 0);
    assert!(!config.user_stopped);
}

#[test]
fn test_should_restart() {
    // (policy, max_retries, restart_count, user_stopped, last_exit_code, expected, desc)
    let cases = [
        (
            RestartPolicy::Never,
            0,
            0,
            false,
            None,
            false,
            "never policy",
        ),
        (
            RestartPolicy::Always,
            0,
            5,
            false,
            None,
            true,
            "always policy",
        ),
        (
            RestartPolicy::Always,
            3,
            3,
            false,
            None,
            false,
            "max retries reached",
        ),
        (
            RestartPolicy::Always,
            3,
            2,
            false,
            None,
            true,
            "under max retries",
        ),
        (
            RestartPolicy::OnFailure,
            0,
            0,
            false,
            Some(1),
            true,
            "on-failure non-zero exit",
        ),
        (
            RestartPolicy::OnFailure,
            0,
            0,
            false,
            Some(0),
            false,
            "on-failure clean exit",
        ),
        (
            RestartPolicy::OnFailure,
            0,
            0,
            false,
            None,
            true,
            "on-failure unknown exit",
        ),
        (
            RestartPolicy::UnlessStopped,
            0,
            0,
            false,
            None,
            true,
            "unless-stopped running",
        ),
        (
            RestartPolicy::UnlessStopped,
            0,
            0,
            true,
            None,
            false,
            "unless-stopped user stopped",
        ),
    ];

    for (policy, max_retries, restart_count, user_stopped, last_exit_code, expected, desc) in
        cases
    {
        let config = RestartConfig {
            policy,
            max_retries,
            restart_count,
            user_stopped,
            ..Default::default()
        };
        assert_eq!(config.should_restart(last_exit_code), expected, "{}", desc);
    }
}

#[test]
fn test_backoff_duration() {
    let make = |count| RestartConfig {
        restart_count: count,
        ..Default::default()
    };
    assert_eq!(make(0).backoff_duration(), Duration::from_secs(1));
    assert_eq!(make(1).backoff_duration(), Duration::from_secs(2));
    assert_eq!(make(2).backoff_duration(), Duration::from_secs(4));
    assert_eq!(make(3).backoff_duration(), Duration::from_secs(8));
    assert_eq!(make(8).backoff_duration(), Duration::from_secs(256));
    // Exponent capped at 8 → 256s for any count >= 8
    assert_eq!(make(9).backoff_duration(), Duration::from_secs(256));
    assert_eq!(make(100).backoff_duration(), Duration::from_secs(256));
}

#[test]
fn test_backoff_duration_respects_max_backoff() {
    let config = RestartConfig {
        restart_count: 8,
        max_backoff_secs: 30,
        ..Default::default()
    };
    // 2^8 = 256, but capped at 30s
    assert_eq!(config.backoff_duration(), Duration::from_secs(30));
}

#[test]
fn test_vm_record_storage_overlay_fields() {
    // Test that storage_gb and overlay_gb fields work correctly
    let mut record = VmRecord::new("test-vm".to_string(), 1, 512, vec![], vec![], false);

    // Initially None (uses defaults)
    assert!(record.storage_gb.is_none());
    assert!(record.overlay_gb.is_none());

    // Set storage_gb
    record.storage_gb = Some(50);
    assert_eq!(record.storage_gb, Some(50));

    // Set overlay_gb
    record.overlay_gb = Some(20);
    assert_eq!(record.overlay_gb, Some(20));
}

#[test]
fn test_vm_record_partial_update() {
    // Test that we can update only some fields (partial update pattern)
    let mut record = VmRecord::new("test-vm".to_string(), 1, 512, vec![], vec![], false);
    record.storage_gb = Some(20);
    record.overlay_gb = Some(10);

    // Simulate partial update - only storage changes
    let new_storage_gb: Option<u64> = Some(50);
    let new_overlay_gb: Option<u64> = None;

    if let Some(s) = new_storage_gb {
        record.storage_gb = Some(s);
    }
    if let Some(o) = new_overlay_gb {
        record.overlay_gb = Some(o);
    }

    assert_eq!(record.storage_gb, Some(50));
    assert_eq!(record.overlay_gb, Some(10)); // Unchanged
}

#[test]
fn test_vm_record_vm_resources_includes_storage() {
    // Test that vm_resources() includes storage_gb and overlay_gb
    let mut record = VmRecord::new("test-vm".to_string(), 2, 1024, vec![], vec![], false);
    record.storage_gb = Some(50);
    record.overlay_gb = Some(20);

    let resources = record.vm_resources();
    assert_eq!(resources.cpus, 2);
    assert_eq!(resources.memory_mib, 1024);
    assert_eq!(resources.storage_gib, Some(50));
    assert_eq!(resources.overlay_gib, Some(20));
}

#[test]
fn record_with_restart_keeps_its_policy() {
    let restart = RestartConfig {
        policy: RestartPolicy::Always,
        max_retries: 5,
        ..Default::default()
    };
    let r = VmRecord::new_with_restart("test".to_string(), 2, 512, vec![], vec![], false, restart);
    assert_eq!(r.restart.policy, RestartPolicy::Always);
    assert_eq!(r.restart.max_retries, 5);
    assert_eq!(r.state, RecordState::Created);
    assert_eq!(r.pid, None);
    assert!(!r.created_at.is_empty());
    assert!(r.created_at.chars().all(|c| c.is_ascii_digit()));
    assert!(r.created_at.parse::<u64>().unwrap() > 1_600_000_000);
}

#[test]
fn gpu_settings_reach_the_resources() {
    let mut r = record("test");
    assert_eq!(r.gpu, None);
    assert!(!r.vm_resources().gpu);
    r.gpu = Some(true);
    assert!(r.vm_resources().gpu);
    assert_eq!(
        r.vm_resources().effective_gpu_vram_mib(),
        DEFAULT_GPU_VRAM_MIB
    );
    r.gpu_vram_mib = Some(1024);
    assert_eq!(r.vm_resources().effective_gpu_vram_mib(), 1024);
}

#[test]
fn policies_are_parsed_whatever_their_case() {
    assert_eq!(
        "ON-FAILURE".parse::<RestartPolicy>().unwrap(),
        RestartPolicy::OnFailure
    );
    assert_eq!(
        RestartPolicy::parse("UnlessStopped").unwrap(),
        RestartPolicy::UnlessStopped
    );
    for word in ["NEVER", "Always", "oN-fAiLuRe", "Unless-STOPPED"] {
        let policy = RestartPolicy::parse(word).unwrap();
        assert_eq!(policy.to_string(), word.to_ascii_lowercase());
    }
    assert_eq!(
        RestartPolicy::parse("Sometimes").unwrap_err(),
        "invalid restart policy: Sometimes"
    );
}

#[test]
fn restarts_stop_at_the_limit() {
    let mut c = RestartConfig {
        policy: RestartPolicy::Always,
        max_retries: 2,
        ..Default::default()
    };
    assert!(c.should_restart(Some(1)));
    c.restart_count = 2;
    assert!(!c.should_restart(Some(1)));
    assert!(!c.should_restart(None));
}

#[test]
fn dead_process_is_seen_as_stopped() {
    let mut r = record("test");
    r.apply(RecordUpdate::Running {
        pid: Some(42),
        pid_start_time: Some(1000),
    });
    let ours = ProcessProbe {
        alive: true,
        start_time: Some(1000),
    };
    let reused = ProcessProbe {
        alive: true,
        start_time: Some(2000),
    };
    let dead = ProcessProbe {
        alive: false,
        start_time: None,
    };
    assert_eq!(r.actual_state(&ours), RecordState::Running);
    assert_eq!(r.actual_state(&reused), RecordState::Stopped);
    assert_eq!(r.actual_state(&dead), RecordState::Stopped);
    assert!(r.is_process_alive(&ours));
    r.apply(RecordUpdate::Unreachable);
    assert_eq!(r.actual_state(&dead), RecordState::Unreachable);
    assert_eq!(r.state.to_string(), "unreachable");
}

#[test]
fn stop_undoes_start() {
    let mut r = record("test");
    r.apply(RecordUpdate::Running {
        pid: Some(42),
        pid_start_time: Some(1000),
    });
    assert_eq!(r.pid, Some(42));
    r.apply(RecordUpdate::Stopped);
    assert_eq!(r.state, RecordState::Stopped);
    assert_eq!(r.pid, None);
    assert_eq!(r.pid_start_time, None);
    assert_eq!(r.name, "test");
}

#[test]
fn updates_change_only_what_they_name() {
    let mut r = record("test");
    r.storage_gb = Some(20);
    r.overlay_gb = Some(10);
    r.apply(RecordUpdate::DiskSizes {
        storage_gb: Some(50),
        overlay_gb: None,
    });
    assert_eq!((r.storage_gb, r.overlay_gb), (Some(50), Some(10)));
    r.apply(RecordUpdate::RestartCount { count: 3 });
    assert_eq!(r.restart.restart_count, 3);
    r.apply(RecordUpdate::UserStopped);
    assert!(r.restart.user_stopped);
    r.apply(RecordUpdate::Exited { exit_code: Some(7) });
    assert_eq!(r.last_exit_code, Some(7));
    assert_eq!(r.state, RecordState::Stopped);
}

#[test]
fn stored_mounts_and_ports_are_read_back() {
    let r = VmRecord::new(
        "test".to_string(),
        2,
        512,
        vec![("/host".to_string(), "/guest".to_string(), true)],
        vec![(8080, 80), (9090, 90)],
        true,
    );
    let mounts = r.host_mounts();
    assert_eq!(mounts.len(), 1);
    assert_eq!(mounts[0].source, "/host");
    assert_eq!(mounts[0].target, "/guest");
    assert!(mounts[0].read_only);
    let ports = r.port_mappings();
    assert_eq!((ports[1].host, ports[1].guest), (9090, 90));
    assert!(r.vm_resources().network);
}

#[test]
fn settings_survive_saving_and_loading() {
    let mut c = SmolvmConfig::try_default();
    c.default_cpus = 3;
    c.default_mem = 777;
    c.default_dns = "9.9.9.9".to_string();
    let mut stored: Table<String> = Table::new();
    for (k, v) in c.save() {
        stored.insert(k, v);
    }
    let back = SmolvmConfig::load(&stored, Table::new(), false);
    assert_eq!(back.default_cpus, 3);
    assert_eq!(back.default_mem, 777);
    assert_eq!(back.default_dns, "9.9.9.9");
    assert_eq!(back.version, c.version);
}

#[test]
fn unreadable_settings_fall_back_to_defaults() {
    let mut stored: Table<String> = Table::new();
    stored.insert("default_cpus".to_string(), "many".to_string());
    let fresh = SmolvmConfig::try_default();
    let back = SmolvmConfig::load(&stored, Table::new(), false);
    assert_eq!(back.default_cpus, fresh.default_cpus);
    assert_eq!(back.default_mem, fresh.default_mem);
}

#[test]
fn config_machines_are_inserted_updated_and_removed() {
    let mut c = SmolvmConfig::try_default();
    assert!(c.insert_vm("a".to_string(), record("a"), Ok(())).is_ok());
    assert!(c.get_vm("a").is_some());
    assert!(c.update_vm("a", RecordUpdate::Unreachable).is_some());
    assert_eq!(c.get_vm("a").unwrap().state, RecordState::Unreachable);
    assert!(c.update_vm("b", RecordUpdate::Stopped).is_none());
    assert_eq!(c.remove_vm("a").unwrap().name, "a");
    assert!(c.remove_vm("a").is_none());
    assert!(c.get_vm("a").is_none());
}

#[test]
fn storage_volumes_are_settings_of_one_platform() {
    let mut c = SmolvmConfig::try_default();
    assert_eq!(c.storage_volume, "");
    assert_eq!(c.save().len(), 4);
    c.storage_volume = "/Volumes/smolvm".to_string();
    let saved = c.save();
    assert_eq!(
        saved[4],
        ("storage_volume".to_string(), "/Volumes/smolvm".to_string())
    );
    let mut stored: Table<String> = Table::new();
    for (k, v) in saved {
        stored.insert(k, v);
    }
    let back = SmolvmConfig::load(&stored, Table::new(), true);
    assert_eq!(back.storage_volume, "/Volumes/smolvm");
    let back = SmolvmConfig::load(&stored, Table::new(), false);
    assert_eq!(back.storage_volume, "");
    let back = SmolvmConfig::load(&Table::new(), Table::new(), true);
    assert_eq!(back.storage_volume, "");
}

#[test]
fn policies_are_parsed_in_any_case() {
    for (word, policy) in [
        ("never", RestartPolicy::Never),
        ("ALWAYS", RestartPolicy::Always),
        ("On-Failure", RestartPolicy::OnFailure),
        ("onFailure", RestartPolicy::OnFailure),
        ("UNLESS-stopped", RestartPolicy::UnlessStopped),
        ("unlessStopped", RestartPolicy::UnlessStopped),
    ] {
        assert_eq!(word.parse::<RestartPolicy>(), Ok(policy));
    }
    for word in ["", "sometimes", "never ", "on_failure"] {
        assert_eq!(
            word.parse::<RestartPolicy>(),
            Err(format!("invalid restart policy: {}", word))
        );
    }
}
