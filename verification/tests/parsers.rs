//! Values on the command line.
use smolvm::cli::parsers::{
    assign_virtiofs_tags, mounts_to_virtiofs_bindings, nonzero_timeout, parse_duration,
    parse_env_list, parse_env_spec, parse_gpu_vram_mib, record_mounts_to_runconfig_bindings,
};
use smolvm::cli::spans::bounded_span;
use smolvm::data::storage::HostMount;
use smolvm::duration::Duration;
use smolvm::smolfile::{
    choose_cidr, lookup_to_cidrs, parse_cidr, resolve_host_to_cidrs, HostResolution,
};

fn resolved(host: &str) -> Result<Vec<String>, String> {
    match resolve_host_to_cidrs(host)? {
        HostResolution::Resolved(cidrs) => Ok(cidrs),
        HostResolution::NeedsLookup => Err("needs a lookup".to_string()),
    }
}

#[test]
fn parse_gpu_vram_mib_rejects_zero() {
    let err = parse_gpu_vram_mib("0").unwrap_err();
    assert!(
        err.contains("positive") || err.contains("> 0") || err.contains("omit"),
        "expected actionable message, got: {}",
        err
    );
}

#[test]
fn parse_gpu_vram_mib_rejects_nonnumeric() {
    assert!(parse_gpu_vram_mib("abc").is_err());
    assert!(parse_gpu_vram_mib("").is_err());
    assert!(parse_gpu_vram_mib("-1").is_err());
    assert!(parse_gpu_vram_mib("2.5").is_err());
}

#[test]
fn parse_gpu_vram_mib_accepts_positive() {
    assert_eq!(parse_gpu_vram_mib("1").unwrap(), 1);
    assert_eq!(parse_gpu_vram_mib("4096").unwrap(), 4096);
}

#[test]
fn record_mounts_to_runconfig_bindings_assigns_positional_tags() {
    // Tags are positional: they follow the devices that the machine exposes.
    let mounts = vec![
        ("/host/src".to_string(), "/app".to_string(), false),
        ("/host/data".to_string(), "/data".to_string(), true),
    ];
    let bindings = record_mounts_to_runconfig_bindings(&mounts);
    assert_eq!(
        bindings,
        vec![
            ("smolvm0".to_string(), "/app".to_string(), false),
            ("smolvm1".to_string(), "/data".to_string(), true),
        ]
    );
}

#[test]
fn record_mounts_to_runconfig_bindings_empty_input() {
    assert!(record_mounts_to_runconfig_bindings(&vec![]).is_empty());
}

#[test]
fn assign_virtiofs_tags_keeps_order_and_assigns_zero_based_index() {
    let out = assign_virtiofs_tags(vec![
        ("/a".to_string(), false),
        ("/b".to_string(), true),
        ("/c".to_string(), false),
    ]);
    assert_eq!(
        out,
        vec![
            ("smolvm0".to_string(), "/a".to_string(), false),
            ("smolvm1".to_string(), "/b".to_string(), true),
            ("smolvm2".to_string(), "/c".to_string(), false),
        ]
    );
}

#[test]
fn mounts_to_virtiofs_bindings_matches_record_form_for_same_inputs() {
    let host_mount = HostMount {
        source: "/tmp".to_string(),
        target: "/app".to_string(),
        read_only: true,
    };
    let from_parsed = mounts_to_virtiofs_bindings(&vec![host_mount]);
    let from_record =
        record_mounts_to_runconfig_bindings(&vec![(
            "/tmp".to_string(),
            "/app".to_string(),
            true,
        )]);
    assert_eq!(from_parsed, from_record);
}

#[test]
fn parsers_resolve_host_bare_ip() {
    let cidrs = resolved("1.2.3.4").unwrap();
    assert_eq!(cidrs, vec!["1.2.3.4/32"]);
}

#[test]
fn parsers_resolve_host_rejects_port_suffix() {
    let err = resolved("example.com:443").unwrap_err();
    assert!(err.contains("port suffixes are not supported"), "{}", err);
}

#[test]
fn resolve_host_rejects_ipv6_with_port() {
    let err = resolved("[::1]:80").unwrap_err();
    assert!(err.contains("port suffixes are not supported"), "{}", err);
}

#[test]
fn resolve_host_real_hostname() {
    // A hostname is looked up — the answer gives at least one IP
    assert!(matches!(
        resolve_host_to_cidrs("one.one.one.one"),
        Ok(HostResolution::NeedsLookup)
    ));
    let answer = vec!["1.1.1.1".to_string(), "1.0.0.1".to_string()];
    let cidrs = lookup_to_cidrs("one.one.one.one", Ok(answer)).unwrap();
    assert!(!cidrs.is_empty());
    // All results should be /32 CIDRs
    for cidr in &cidrs {
        assert!(cidr.ends_with("/32"), "expected /32 CIDR, got {}", cidr);
    }
    assert_eq!(cidrs, vec!["1.1.1.1/32", "1.0.0.1/32"]);
}

#[test]
fn resolve_host_nonexistent_domain() {
    let host = "this-domain-does-not-exist-smolvm-test.invalid";
    assert!(matches!(
        resolve_host_to_cidrs(host),
        Ok(HostResolution::NeedsLookup)
    ));
    let err = lookup_to_cidrs(host, Err("no such host".to_string())).unwrap_err();
    assert!(err.contains("failed to resolve"), "{}", err);
    let err = lookup_to_cidrs(host, Ok(vec![])).unwrap_err();
    assert!(err.contains("resolved to no addresses"), "{}", err);
}

#[test]
fn parsers_parse_cidr_valid() {
    assert_eq!(parse_cidr("10.0.0.0/8").unwrap(), "10.0.0.0/8");
    assert_eq!(parse_cidr("1.1.1.1").unwrap(), "1.1.1.1/32");
}

#[test]
fn parsers_parse_cidr_invalid() {
    assert!(parse_cidr("not-a-cidr").is_err());
}

#[test]
fn smolfile_resolve_host_bare_ip() {
    let cidrs = resolved("1.2.3.4").unwrap();
    assert_eq!(cidrs, vec!["1.2.3.4/32"]);
}

#[test]
fn smolfile_resolve_host_rejects_port_suffix() {
    let err = resolved("example.com:443").unwrap_err();
    assert!(err.contains("port suffixes are not supported"), "{}", err);
}

#[test]
fn smolfile_parse_cidr_valid() {
    assert_eq!(parse_cidr("10.0.0.0/8").unwrap(), "10.0.0.0/8");
    assert_eq!(parse_cidr("1.1.1.1").unwrap(), "1.1.1.1/32");
}

#[test]
fn smolfile_parse_cidr_invalid() {
    assert!(parse_cidr("not-a-cidr").is_err());
}

#[test]
fn networks_are_shown_as_they_are_read() {
    assert_eq!(parse_cidr("10.1.2.3/08").unwrap(), "10.1.2.3/8");
    assert_eq!(parse_cidr("2001:DB8::1").unwrap(), "2001:db8::1/128");
    assert_eq!(parse_cidr("2001:DB8::/32").unwrap(), "2001:db8::/32");
    assert!(parse_cidr("10.0.0.0/33").is_err());
}

#[test]
fn cidr_choice_prefers_the_network() {
    let net = Some("10.0.0.0/8".to_string());
    let address = Some(("1.1.1.1".to_string(), 32u8));
    assert_eq!(choose_cidr("x", net, address).unwrap(), "10.0.0.0/8");
    let address = Some(("::1".to_string(), 128u8));
    assert_eq!(choose_cidr("x", None, address).unwrap(), "::1/128");
    assert!(choose_cidr("x", None, None).unwrap_err().contains("x"));
}

#[test]
fn timeouts_are_read() {
    assert_eq!(parse_duration("30s").unwrap(), Duration::from_secs(30));
    assert_eq!(parse_duration("2min 5ms").unwrap().secs, 120);
    assert_eq!(parse_duration("2min 5ms").unwrap().nanos, 5_000_000);
    assert_eq!(
        parse_duration("0s").unwrap_err(),
        "timeout must be greater than 0 (e.g., 5sec, 30s)"
    );
    assert!(parse_duration("soon").is_err());
    assert_eq!(
        nonzero_timeout(Err("bad".to_string())).unwrap_err(),
        "bad"
    );
}

#[test]
fn environment_settings_are_split_at_the_first_sign() {
    assert_eq!(
        parse_env_spec("A=b=c"),
        Some(("A".to_string(), "b=c".to_string()))
    );
    assert_eq!(
        parse_env_spec("A="),
        Some(("A".to_string(), String::new()))
    );
    assert_eq!(parse_env_spec("=b"), None);
    assert_eq!(parse_env_spec("A"), None);
    let list = vec!["A=1".to_string(), "junk".to_string(), "B=2".to_string()];
    assert_eq!(
        parse_env_list(&list),
        vec![
            ("A".to_string(), "1".to_string()),
            ("B".to_string(), "2".to_string())
        ]
    );
}

#[test]
fn only_a_last_second_of_nanoseconds_cannot_be_read() {
    for (text, secs, nanos) in [
        ("30s", 30, 0),
        ("2min 5ms", 120, 5_000_000),
        ("1.5h 3us", 5400, 3_000),
        ("1.5h3\u{b5}s", 5400, 3_000),
        ("1000ms", 1, 0),
        ("18446744073709551615ns", 18_446_744_073, 709_551_615),
        ("18446744073709551615s", u64::MAX, 0),
        ("18446744073709551615s 1ns", u64::MAX, 1),
        ("18446744073709551615s 999ms", u64::MAX, 999_000_000),
        ("18446744073709551614s 1000ms", u64::MAX, 0),
        ("307445734561825860m 15.5s", u64::MAX, 500_000_000),
    ] {
        assert!(bounded_span(text), "{}", text);
        let d = parse_duration(text).unwrap();
        assert_eq!((d.secs, d.nanos), (secs, nanos), "{}", text);
    }
    for text in [
        "",
        "soon",
        "5",
        "1.s",
        "1.5ns",
        "1.3333333333h",
        "1s,",
        "5lightyears",
        "18446744073709551615s 5s",
        "18446744073709551615s 2000ms",
        "18446744073709551615s 1s 1000ms",
        "1000000us 18446744073709551615s",
        "18446744073709551615millis 18446744073709551615s 1000ms",
        "99999999999999999999999s 1ms",
        "1000000000000000 years 1ms",
        "584942417356y",
        "s 18446744073709551615s 1000ms",
    ] {
        assert!(bounded_span(text), "{}", text);
        assert!(parse_duration(text).is_err(), "{}", text);
    }
    for text in [
        "18446744073709551615s 1000000000ns",
        "18446744073709551615s 1000000usec",
        "18446744073709551615s1000ms",
        "18446744073709551615s 1 000 millis 5min",
        "18446744073709551615s 400ms 600ms",
        "18446744073709551615.4s 0.6s",
        "307445734561825860m 15.5s 500millis",
        "584542046090y 19767615s 1000ms",
    ] {
        assert!(!bounded_span(text), "{}", text);
    }
}
