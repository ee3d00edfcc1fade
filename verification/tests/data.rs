//! Names, resources, ports and mounts.
use smolvm::data::consts::{ENV_SMOLVM_GPU, ENV_VALUE_ON};
use smolvm::data::network::PortMapping;
use smolvm::data::resources::{
    validate_gpu_vram_mib, VmResources, DEFAULT_GPU_VRAM_MIB, GPU_VRAM_ZERO,
};
use smolvm::data::storage::{from_storage_tuples, to_storage_tuples, HostMount};
use smolvm::data::{validate_vm_name, VmTarget, MAX_VM_NAME_LENGTH};
use smolvm::error::Error;

#[test]
fn validate_vm_name_accepts_valid_names() {
    let valid = [
        "test",
        "my-resource",
        "my_resource",
        "test123",
        "123test",
        "a",
        "test-resource-123",
        "TEST_RESOURCE",
    ];

    for name in valid {
        assert!(
            validate_vm_name(name, "machine name").is_ok(),
            "expected '{name}' to be valid"
        );
    }
}

#[test]
fn validate_vm_name_enforces_max_length() {
    assert!(validate_vm_name(&"a".repeat(MAX_VM_NAME_LENGTH), "machine name").is_ok());
    assert!(validate_vm_name(&"a".repeat(MAX_VM_NAME_LENGTH + 1), "machine name").is_err());
}

#[test]
fn validate_vm_name_rejects_invalid_names() {
    let invalid = [
        ("", "empty"),
        ("-test", "starts with hyphen"),
        ("_test", "starts with underscore"),
        (".test", "starts with dot"),
        ("test-", "ends with hyphen"),
        ("test--name", "consecutive hyphens"),
        ("test/name", "forward slash"),
        ("test\\name", "backslash"),
        ("test name", "space"),
        ("test@name", "at sign"),
        ("../test", "path traversal"),
        ("test.name", "dot"),
        ("test:name", "colon"),
        ("test#name", "hash"),
    ];

    for (name, desc) in invalid {
        assert!(
            validate_vm_name(name, "machine name").is_err(),
            "expected '{name}' ({desc}) to be invalid"
        );
    }
}

#[test]
fn validate_vm_name_formats_with_label() {
    assert_eq!(
        validate_vm_name("test/name", "machine name").unwrap_err(),
        "machine name cannot contain path separators"
    );
}


#[test]
fn effective_gpu_vram_defaults_when_unset() {
    let r = VmResources::default();
    assert_eq!(r.effective_gpu_vram_mib(), DEFAULT_GPU_VRAM_MIB);
}

#[test]
fn effective_gpu_vram_honors_override() {
    let r = VmResources {
        gpu_vram_mib: Some(8192),
        ..Default::default()
    };
    assert_eq!(r.effective_gpu_vram_mib(), 8192);
}

#[test]
fn validate_gpu_vram_mib_rejects_zero() {
    assert!(validate_gpu_vram_mib(Some(0)).is_err());
}

#[test]
fn validate_gpu_vram_mib_accepts_positive() {
    assert_eq!(validate_gpu_vram_mib(Some(1)).unwrap(), Some(1));
    assert_eq!(validate_gpu_vram_mib(Some(4096)).unwrap(), Some(4096));
    // There is no upper bound.
    assert_eq!(
        validate_gpu_vram_mib(Some(u32::MAX)).unwrap(),
        Some(u32::MAX)
    );
}

#[test]
fn validate_gpu_vram_mib_accepts_none() {
    assert_eq!(validate_gpu_vram_mib(None).unwrap(), None);
}

/// Host and guest agree on these words; a change of one needs a change of the other.
#[test]
fn host_guest_env_literals_are_stable() {
    assert_eq!(ENV_SMOLVM_GPU, "SMOLVM_GPU");
    assert_eq!(ENV_VALUE_ON, "1");
}

#[test]
fn every_name_error_has_its_message() {
    let cases = [
        ("", "machine name cannot be empty"),
        ("-a", "machine name must start with a letter or digit (got: \"-a\")"),
        ("a-", "machine name cannot end with a hyphen (got: \"a-\")"),
        ("a--b", "machine name cannot contain consecutive hyphens"),
        ("a/b", "machine name cannot contain path separators"),
    ];
    for (name, message) in cases {
        assert_eq!(validate_vm_name(name, "machine name").unwrap_err(), message);
    }
    assert_eq!(
        validate_vm_name("a b", "name").unwrap_err(),
        "name contains invalid character: ' '"
    );
    assert_eq!(
        validate_vm_name(&"a".repeat(129), "name").unwrap_err(),
        "name too long: 129 characters (max 128)"
    );
}

#[test]
fn targets_are_named() {
    assert_eq!(VmTarget::from_name("default").name(), "default");
    assert_eq!(VmTarget::from_name("web").name(), "web");
    assert!(matches!(VmTarget::from_name("default"), VmTarget::Default));
    assert!(matches!(VmTarget::from_name("web"), VmTarget::Named(_)));
}

#[test]
fn zero_gpu_memory_names_the_flag() {
    assert_eq!(validate_gpu_vram_mib(Some(0)).unwrap_err(), GPU_VRAM_ZERO);
}

#[test]
fn resources_are_validated() {
    assert!(VmResources::default().validate().is_ok());
    let no_cpus = VmResources {
        cpus: 0,
        ..Default::default()
    };
    assert!(matches!(no_cpus.validate(), Err(Error::Config { .. })));
    let small = VmResources {
        memory_mib: 63,
        ..Default::default()
    };
    assert!(matches!(small.validate(), Err(Error::Config { .. })));
    let enough = VmResources {
        memory_mib: 64,
        ..Default::default()
    };
    assert!(enough.validate().is_ok());
    assert!(enough.cpu_warning().is_none());
    let many = VmResources {
        cpus: 17,
        ..Default::default()
    };
    assert!(many
        .cpu_warning()
        .unwrap()
        .starts_with("warning: requested 17 vCPUs but the hypervisor supports at most 16"));
}

#[test]
fn ports_are_parsed() {
    let p = PortMapping::parse("8080:80").unwrap();
    assert_eq!((p.host, p.guest), (8080, 80));
    assert_eq!(p.to_tuple(), (8080, 80));
    for bad in ["8080", "a:80", "8080:", ":80", "65536:80", "1:2:3", "-1:2"] {
        assert!(PortMapping::parse(bad).is_err(), "{}", bad);
    }
    assert_eq!(PortMapping::parse("65535:0").unwrap().host, 65535);
}

#[test]
fn repeated_host_ports_are_refused() {
    let twice = vec![
        PortMapping::new(80, 1),
        PortMapping::new(81, 1),
        PortMapping::new(80, 2),
    ];
    assert!(PortMapping::check_duplicates(&twice)
        .unwrap_err()
        .contains("80"));
    let once = vec![PortMapping::new(80, 1), PortMapping::new(81, 1)];
    assert!(PortMapping::check_duplicates(&once).is_ok());
    let stored = PortMapping::to_tuples(&once);
    assert_eq!(stored, vec![(80, 1), (81, 1)]);
    let back = PortMapping::from_tuples(&stored);
    assert_eq!(back[1].to_tuple(), (81, 1));
}

#[test]
fn mounts_survive_being_stored() {
    let mounts = vec![
        HostMount {
            source: "/a".to_string(),
            target: "/b".to_string(),
            read_only: true,
        },
        HostMount {
            source: "/c".to_string(),
            target: "/d".to_string(),
            read_only: false,
        },
    ];
    let stored = to_storage_tuples(&mounts);
    assert_eq!(stored[0], ("/a".to_string(), "/b".to_string(), true));
    let back = from_storage_tuples(&stored);
    assert_eq!(back[1].target, "/d");
    assert!(!back[1].read_only);
    assert_eq!(HostMount::mount_tag(0), "smolvm0");
    assert_eq!(HostMount::mount_tag(12), "smolvm12");
}

#[test]
fn mounts_are_read_from_text() {
    let m = HostMount::parse_spec("./src:/app").unwrap();
    assert_eq!((m.source.as_str(), m.target.as_str()), ("./src", "/app"));
    assert!(!m.read_only);
    assert!(HostMount::parse_spec("/a:/b:ro").unwrap().read_only);
    for bad in ["/a", ":/b", "/a:", "/a:/b:rx", "/a:/b:ro:ro", ""] {
        assert!(
            matches!(HostMount::parse_spec(bad), Err(Error::Mount { .. })),
            "{}",
            bad
        );
    }
}

#[test]
fn only_directories_are_mounted() {
    let mount = || HostMount::parse_spec("./src:/app:ro").unwrap();
    let m = mount().resolved(Ok("/home/u/src".to_string()), true).unwrap();
    assert_eq!(m.source, "/home/u/src");
    assert!(m.read_only);
    assert!(matches!(
        mount().resolved(Ok("/home/u/src".to_string()), false),
        Err(Error::Mount { .. })
    ));
    assert!(matches!(
        mount().resolved(Err("no such file".to_string()), false),
        Err(Error::Mount { .. })
    ));
}
