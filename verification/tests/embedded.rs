//! Machines embedded in a host program.
use smolvm::config::RecordState;
use smolvm::data::resources::VmResources;
use smolvm::db::SmolvmDb;
use smolvm::embedded::control::{
    create_vm, data_removal_error, delete_vm, get_record, mark_running, mark_stopped,
    not_running_error, MachineSpec,
};
use smolvm::embedded::handle::VmHandle;
use smolvm::embedded::runtime::{EmbeddedRuntime, StartChoice};
use smolvm::error::{AgentErrorKind, Error};
use smolvm::process::ProcessProbe;

fn test_spec(name: &str, persistent: bool) -> MachineSpec {
    MachineSpec {
        name: name.to_string(),
        mounts: Vec::new(),
        ports: Vec::new(),
        resources: VmResources::default(),
        persistent,
    }
}

fn gone() -> ProcessProbe {
    ProcessProbe {
        alive: false,
        start_time: None,
    }
}

#[test]
fn record_ephemeral_follows_persistent_flag() {
    assert!(test_spec("ephemeral", false).to_record().ephemeral);
    assert!(!test_spec("persistent", true).to_record().ephemeral);
}

#[test]
fn create_vm_rejects_duplicates() {
    let mut db = SmolvmDb::new();
    let spec = test_spec("duplicate", false);
    create_vm(&mut db, &spec).unwrap();

    let err = create_vm(&mut db, &spec).unwrap_err();
    assert!(matches!(
        err,
        Error::Agent {
            kind: AgentErrorKind::Conflict,
            ..
        }
    ));
}

#[test]
fn remove_name_lock_removes_entry() {
    let mut runtime = EmbeddedRuntime::with_db(SmolvmDb::new());
    runtime.lock_for_name("runtime-remove-lock");
    assert!(runtime.name_locks.contains_key("runtime-remove-lock"));

    runtime.remove_name_lock("runtime-remove-lock");

    assert!(runtime.name_locks.is_empty());
}

#[test]
fn remove_name_lock_ignores_missing_entry() {
    let mut runtime = EmbeddedRuntime::with_db(SmolvmDb::new());
    runtime.remove_name_lock("runtime-missing-lock");

    assert!(runtime.name_locks.is_empty());
}

#[test]
fn runtime_rejects_duplicate_create() {
    let mut runtime = EmbeddedRuntime::with_db(SmolvmDb::new());
    runtime
        .create_machine(&test_spec("runtime-duplicate", false))
        .unwrap();

    let err = runtime
        .create_machine(&test_spec("runtime-duplicate", false))
        .unwrap_err();
    assert!(matches!(
        err,
        Error::Agent {
            kind: AgentErrorKind::Conflict,
            ..
        }
    ));
}

#[test]
fn runtime_state_defaults_to_stopped_for_created_record() {
    let mut runtime = EmbeddedRuntime::with_db(SmolvmDb::new());
    runtime
        .create_machine(&test_spec("runtime-state", true))
        .unwrap();

    assert_eq!(runtime.state("runtime-state", "", &gone()), "stopped");
    assert!(!runtime.is_running("runtime-state", false, &gone()));
    assert_eq!(runtime.pid("runtime-state"), None);
}

#[test]
fn delete_machine_removes_name_lock_entry() {
    let mut runtime = EmbeddedRuntime::with_db(SmolvmDb::new());
    runtime
        .create_machine(&test_spec("runtime-delete-lock", true))
        .unwrap();

    assert!(runtime.name_locks.contains_key("runtime-delete-lock"));

    runtime.delete_machine("runtime-delete-lock").unwrap();
    runtime
        .machine_deleted("runtime-delete-lock", "/data", None)
        .unwrap();

    assert!(!runtime.name_locks.contains_key("runtime-delete-lock"));
}

#[test]
fn bad_names_are_refused() {
    let mut db = SmolvmDb::new();
    let err = create_vm(&mut db, &test_spec("a/b", true)).unwrap_err();
    match err {
        Error::Config { operation, reason } => {
            assert_eq!(operation, "validate machine name");
            assert_eq!(reason, "name cannot contain path separators");
        }
        other => panic!("unexpected error {:?}", other),
    }
    assert!(db.list_vms().is_empty());
}

#[test]
fn records_follow_the_machine() {
    let mut db = SmolvmDb::new();
    create_vm(&mut db, &test_spec("m", true)).unwrap();
    mark_running(&mut db, "m", Some(9), Some(100)).unwrap();
    assert_eq!(get_record(&db, "m").unwrap().pid, Some(9));
    mark_stopped(&mut db, "m").unwrap();
    assert_eq!(get_record(&db, "m").unwrap().state, RecordState::Stopped);
    delete_vm(&mut db, "m").unwrap();
    assert!(matches!(
        get_record(&db, "m"),
        Err(Error::VmNotFound { .. })
    ));
    assert!(matches!(
        delete_vm(&mut db, "m"),
        Err(Error::VmNotFound { .. })
    ));
    assert!(matches!(
        mark_stopped(&mut db, "m"),
        Err(Error::VmNotFound { .. })
    ));
}

#[test]
fn runtime_caches_started_machines() {
    let mut runtime = EmbeddedRuntime::with_db(SmolvmDb::new());
    runtime.create_machine(&test_spec("m", true)).unwrap();
    assert!(runtime.started_handle("m").is_err());
    assert_eq!(runtime.start_machine("m", false), StartChoice::Proceed);
    runtime
        .machine_started("m", VmHandle::new(Some(5), false), Some(1))
        .unwrap();
    assert_eq!(runtime.pid("m"), Some(5));
    assert!(runtime.is_running("m", true, &gone()));
    assert_eq!(runtime.state("m", "ready", &gone()), "ready");
    assert_eq!(runtime.start_machine("m", true), StartChoice::AlreadyRunning);
    assert_eq!(
        runtime.stop_machine("m").unwrap().child_pid(),
        Some(5)
    );
    runtime.machine_stopped("m").unwrap();
    assert!(runtime.stop_machine("m").is_none());
    assert_eq!(runtime.state("m", "", &gone()), "stopped");
}

#[test]
fn failed_data_removal_keeps_the_lock() {
    let mut runtime = EmbeddedRuntime::with_db(SmolvmDb::new());
    runtime.create_machine(&test_spec("m", true)).unwrap();
    runtime.delete_machine("m").unwrap();
    let err = runtime
        .machine_deleted("m", "/data", Some("busy".to_string()))
        .unwrap_err();
    assert!(matches!(&err, Error::Storage { reason, .. } if reason == "/data: busy"));
    assert!(runtime.name_locks.contains_key("m"));
    assert!(matches!(
        data_removal_error("/x", "y"),
        Error::Storage { .. }
    ));
    assert!(matches!(
        not_running_error("m"),
        Error::Agent {
            kind: AgentErrorKind::NotFound,
            ..
        }
    ));
}

#[test]
fn handles_connect_until_it_succeeds() {
    let mut handle = VmHandle::new(None, false);
    assert!(handle.needs_connection());
    assert!(handle
        .client_mut(Err(Error::vm_not_found("m")))
        .is_err());
    assert!(handle.needs_connection());
    let (connect, config) = handle.run("alpine", vec!["true".to_string()], vec![], None, None);
    assert!(connect);
    assert_eq!(config.image, "alpine");
    assert!(handle.client_mut(Ok(())).is_ok());
    assert!(!handle.needs_connection());
    let (connect, _) = handle.run("alpine", vec!["true".to_string()], vec![], None, None);
    assert!(!connect);
    handle.stop();
    assert!(handle.needs_connection());
}

#[test]
fn connected_machines_are_cached() {
    let mut runtime = EmbeddedRuntime::with_db(SmolvmDb::new());
    runtime.machine_connected("m", VmHandle::new(Some(3), true));
    assert_eq!(runtime.started_handle("m").unwrap().child_pid(), Some(3));
    assert_eq!(runtime.pid("m"), Some(3));
}
