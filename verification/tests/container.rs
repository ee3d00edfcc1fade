//! Mounts of containers.
use smolvm::cli::container::resolve_container_mounts;
use smolvm::data::storage::HostMount;
use smolvm::error::Error;

fn vm_mount(host: &str, guest: &str, ro: bool) -> (String, String, bool) {
    (host.to_string(), guest.to_string(), ro)
}

fn host_mount(source: &str, target: &str, read_only: bool) -> HostMount {
    HostMount {
        source: source.to_string(),
        target: target.to_string(),
        read_only,
    }
}

fn reason(e: &Error) -> String {
    match e {
        Error::Config { reason, .. }
        | Error::Agent { reason, .. }
        | Error::Storage { reason, .. }
        | Error::Mount { reason, .. } => reason.clone(),
        other => panic!("unexpected error {:?}", other),
    }
}

#[test]
fn test_no_vm_mounts_no_explicit() {
    let result = resolve_container_mounts("test", &vec![], &vec![]).unwrap();
    assert!(result.is_empty());
}

#[test]
fn test_vm_mounts_auto_propagated() {
    let vm = vec![
        vm_mount("/host/data", "/data", false),
        vm_mount("/host/config", "/config", true),
    ];
    let result = resolve_container_mounts("test", &vm, &vec![]).unwrap();
    assert_eq!(result.len(), 2);
    assert_eq!(
        result[0],
        ("smolvm0".to_string(), "/data".to_string(), false)
    );
    assert_eq!(
        result[1],
        ("smolvm1".to_string(), "/config".to_string(), true)
    );
}

#[test]
fn test_explicit_remaps_guest_path() {
    let vm = vec![vm_mount("/host/data", "/data", false)];
    let explicit = vec![host_mount("/host/data", "/app/data", false)];
    let result = resolve_container_mounts("test", &vm, &explicit).unwrap();
    assert_eq!(result.len(), 1);
    assert_eq!(
        result[0],
        ("smolvm0".to_string(), "/app/data".to_string(), false)
    );
}

#[test]
fn test_explicit_overrides_read_only() {
    let vm = vec![vm_mount("/host/data", "/data", false)];
    let explicit = vec![host_mount("/host/data", "/data", true)];
    let result = resolve_container_mounts("test", &vm, &explicit).unwrap();
    assert_eq!(result.len(), 1);
    assert!(result[0].2);
}

#[test]
fn test_explicit_unknown_host_path_errors() {
    let vm = vec![vm_mount("/host/data", "/data", false)];
    let explicit = vec![host_mount("/other/path", "/other", false)];
    let result = resolve_container_mounts("myvm", &vm, &explicit);
    assert!(result.is_err());
    let err = reason(&result.unwrap_err());
    assert!(
        err.contains("/other/path"),
        "error should mention the path: {err}"
    );
    assert!(
        err.contains("myvm"),
        "error should mention the vm name: {err}"
    );
}

#[test]
fn test_explicit_on_empty_vm_errors() {
    let explicit = vec![host_mount("/host/data", "/data", false)];
    let result = resolve_container_mounts("myvm", &vec![], &explicit);
    assert!(result.is_err());
}

#[test]
fn test_partial_override_preserves_other_mounts() {
    let vm = vec![
        vm_mount("/host/a", "/a", false),
        vm_mount("/host/b", "/b", false),
        vm_mount("/host/c", "/c", true),
    ];
    // Only override the second mount
    let explicit = vec![host_mount("/host/b", "/remapped-b", true)];
    let result = resolve_container_mounts("test", &vm, &explicit).unwrap();
    assert_eq!(result.len(), 3);
    assert_eq!(result[0], ("smolvm0".to_string(), "/a".to_string(), false));
    assert_eq!(
        result[1],
        ("smolvm1".to_string(), "/remapped-b".to_string(), true)
    );
    assert_eq!(result[2], ("smolvm2".to_string(), "/c".to_string(), true));
}

#[test]
fn test_multiple_explicit_overrides() {
    let vm = vec![
        vm_mount("/host/a", "/a", false),
        vm_mount("/host/b", "/b", false),
    ];
    let explicit = vec![
        host_mount("/host/a", "/x", true),
        host_mount("/host/b", "/y", true),
    ];
    let result = resolve_container_mounts("test", &vm, &explicit).unwrap();
    assert_eq!(result[0], ("smolvm0".to_string(), "/x".to_string(), true));
    assert_eq!(result[1], ("smolvm1".to_string(), "/y".to_string(), true));
}
