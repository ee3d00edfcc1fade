//! The state database.
use smolvm::config::{RecordState, RecordUpdate, VmRecord};
use smolvm::db::SmolvmDb;

#[test]
fn test_db_crud_operations() {
    let mut db = SmolvmDb::new();

    let record = VmRecord::new(
        "test-vm".to_string(),
        2,
        1024,
        vec![("/host".to_string(), "/guest".to_string(), false)],
        vec![(8080, 80)],
        false,
    );

    db.insert_vm("test-vm", &record);

    let retrieved = db.get_vm("test-vm").unwrap();
    assert_eq!(retrieved.name, "test-vm");
    assert_eq!(retrieved.cpus, 2);
    assert_eq!(retrieved.mem, 1024);

    let updated = db
        .update_vm(
            "test-vm",
            RecordUpdate::Running {
                pid: Some(12345),
                pid_start_time: None,
            },
        )
        .unwrap();
    assert_eq!(updated.state, RecordState::Running);
    assert_eq!(updated.pid, Some(12345));

    let vms = db.list_vms();
    assert_eq!(vms.len(), 1);
    assert_eq!(vms[0].0, "test-vm");

    let removed = db.remove_vm("test-vm").unwrap();
    assert_eq!(removed.name, "test-vm");

    assert!(db.get_vm("test-vm").is_none());
}

#[test]
fn test_config_settings() {
    let mut db = SmolvmDb::new();

    db.set_config("test_key", "test_value");

    let value = db.get_config("test_key").unwrap();
    assert_eq!(value, "test_value");

    assert!(db.get_config("nonexistent").is_none());
}

#[test]
fn test_update_nonexistent_vm() {
    let mut db = SmolvmDb::new();

    let result = db.update_vm("nonexistent", RecordUpdate::Stopped);
    assert!(result.is_none());
}

#[test]
fn test_remove_nonexistent_vm() {
    let mut db = SmolvmDb::new();

    let result = db.remove_vm("nonexistent");
    assert!(result.is_none());
}

#[test]
fn test_insert_vm_if_not_exists() {
    let mut db = SmolvmDb::new();

    let record = VmRecord::new("test-vm".to_string(), 1, 512, vec![], vec![], false);

    let inserted = db.insert_vm_if_not_exists("test-vm", &record);
    assert!(inserted, "first insert should succeed");

    let inserted = db.insert_vm_if_not_exists("test-vm", &record);
    assert!(!inserted, "second insert should fail (already exists)");

    let vms = db.list_vms();
    assert_eq!(vms.len(), 1);

    let record2 = VmRecord::new("test-vm2".to_string(), 2, 1024, vec![], vec![], false);
    let inserted = db.insert_vm_if_not_exists("test-vm2", &record2);
    assert!(inserted, "different name should succeed");

    let vms = db.list_vms();
    assert_eq!(vms.len(), 2);
}

#[test]
fn removal_undoes_insertion() {
    let mut db = SmolvmDb::new();
    let record = VmRecord::new("a".to_string(), 1, 512, vec![], vec![], false);
    db.insert_vm("a", &record);
    db.insert_vm("b", &record);
    assert!(db.remove_vm("b").is_some());
    let names: Vec<String> = db.list_vms().into_iter().map(|(n, _)| n).collect();
    assert_eq!(names, vec!["a"]);
}

#[test]
fn settings_are_replaced_one_by_one() {
    let mut db = SmolvmDb::new();
    db.set_config("a", "1");
    db.set_config("b", "2");
    db.save_config(&vec![
        ("b".to_string(), "3".to_string()),
        ("c".to_string(), "4".to_string()),
    ]);
    assert_eq!(db.get_config("a").unwrap(), "1");
    assert_eq!(db.get_config("b").unwrap(), "3");
    assert_eq!(db.get_config("c").unwrap(), "4");
}

#[test]
fn database_lies_below_the_data_directory() {
    assert_eq!(
        SmolvmDb::default_path(Some("/home/u/.local/share".to_string())).unwrap(),
        "/home/u/.local/share/smolvm/server/smolvm.db"
    );
    assert!(SmolvmDb::default_path(None).is_err());
}

#[test]
fn everything_is_loaded() {
    let mut db = SmolvmDb::new();
    let record = VmRecord::new("a".to_string(), 1, 512, vec![], vec![], false);
    db.insert_vm("a", &record);
    db.insert_vm("b", &record);
    db.set_config("k", "v");
    let (settings, vms) = db.load_all();
    assert_eq!(settings.get("k").unwrap(), "v");
    assert_eq!(vms.len(), 2);
    assert!(vms.contains_key("b"));
    assert_eq!(db.load_all_vms().len(), 2);
    let config = smolvm::config::SmolvmConfig::load(&settings, vms, false);
    assert_eq!(config.list_vms().len(), 2);
}
