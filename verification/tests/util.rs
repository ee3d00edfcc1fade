//! Identifiers, library names and the network rules.
use std::collections::HashSet;

use smolvm::data::network::DEFAULT_DNS;
use smolvm::data::validate_vm_name;
use smolvm::network::backend::NetworkBackend;
use smolvm::network::policy::get_dns_server;
use smolvm::util::{
    current_timestamp, generate_machine_name, generate_short_id, libkrun_filename,
    libkrunfw_filename,
};
use smolvm::vm::config::NetworkPolicy;

#[test]
fn test_generate_ids() {
    // Generate 100 IDs and validate all of them
    let ids: Vec<String> = (0..100)
        .map(|i: u32| generate_short_id(Some((i * 40_503).to_le_bytes()), 0, 0))
        .collect();

    for id in &ids {
        assert_eq!(id.len(), 8, "should be 8 hex chars: {id}");
        assert!(id.chars().all(|c| c.is_ascii_hexdigit()), "not hex: {id}");
    }

    // All unique
    let unique: HashSet<&String> = ids.iter().collect();
    assert_eq!(unique.len(), 100, "100 IDs should all be unique");

    // Machine name wraps the ID correctly
    let name = generate_machine_name(Some([1, 2, 3, 4]), 0, 0);
    assert!(name.starts_with("vm-"), "prefix: {name}");
    assert_eq!(name.len(), 11, "length: {name}");
    assert!(name.chars().all(|c| c.is_ascii_alphanumeric() || c == '-'));

    // Two names differ
    assert_ne!(
        generate_machine_name(Some([1, 2, 3, 4]), 0, 0),
        generate_machine_name(Some([1, 2, 3, 5]), 0, 0)
    );
}

#[test]
fn ids_have_exact_digits() {
    let a = generate_short_id(Some([0xa1, 0xb2, 0xc3, 0xd4]), 9, 9);
    assert_eq!(
        a,
        format!("{:08x}", u32::from_ne_bytes([0xa1, 0xb2, 0xc3, 0xd4]))
    );
    let nanos: u128 = 1_700_000_000_123_456_789;
    let pid: u32 = 4242;
    let b = generate_short_id(None, nanos, pid);
    assert_eq!(b, format!("{:08x}", (nanos as u32) ^ pid));
}

#[test]
fn generated_names_are_valid() {
    for seed in [0u32, 1, 0xffff_ffff, 0x1234_5678] {
        let name = generate_machine_name(Some(seed.to_le_bytes()), 0, 0);
        assert!(validate_vm_name(&name, "machine name").is_ok(), "{}", name);
    }
}

#[test]
fn timestamps_are_seconds() {
    let t: u64 = current_timestamp().parse().unwrap();
    assert!(t > 1_600_000_000);
    assert!(t < 100_000_000_000);
}

#[test]
fn library_names() {
    assert_eq!(libkrun_filename(false), "libkrun.so");
    assert_eq!(libkrunfw_filename(false), "libkrunfw.so.5");
    assert_eq!(libkrun_filename(true), "libkrun.dylib");
    assert_eq!(libkrunfw_filename(true), "libkrunfw.5.dylib");
}

#[test]
fn test_get_dns_server() {
    assert!(get_dns_server(&NetworkPolicy::Disabled).is_none());

    let dns = get_dns_server(&NetworkPolicy::Egress {
        dns: None,
        allowed_cidrs: None,
    })
    .unwrap()
    .to_string();
    assert_eq!(dns.to_string(), DEFAULT_DNS);

    let custom = "8.8.8.8".to_string();
    let policy = NetworkPolicy::Egress {
        dns: Some(custom),
        allowed_cidrs: None,
    };
    let dns = get_dns_server(&policy).unwrap();
    assert_eq!(dns.to_string(), "8.8.8.8");
}

#[test]
fn virtio_net_serializes_to_canonical_name() {
    let value = format!("\"{}\"", NetworkBackend::VirtioNet.as_str());
    assert_eq!(value, "\"virtio-net\"");
    assert!(matches!(
        NetworkBackend::from_label("virtio-net"),
        Some(NetworkBackend::VirtioNet)
    ));
}

#[test]
fn legacy_virtio_name_is_rejected() {
    let value = NetworkBackend::from_label("virtio");
    assert!(value.is_none());
}
