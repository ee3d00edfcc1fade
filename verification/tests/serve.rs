//! Where the API server listens.
use smolvm::cli::serve::{
    default_listen_value, open_listener_warning, reconnected_line, ListenTarget,
};

/// Read a listen target, with the host's own reading of socket addresses.
fn parse(value: &str) -> ListenTarget {
    let is_address = value.rsplit_once(':').map_or(false, |(ip, port)| {
        ip.split('.').count() == 4
            && ip.split('.').all(|n| n.parse::<u8>().is_ok())
            && port.parse::<u16>().is_ok()
    });
    let addr = if is_address {
        Some(value.to_string())
    } else {
        None
    };
    ListenTarget::parse(value, addr)
}

#[test]
fn parse_tcp_listen_target() {
    let target = parse("127.0.0.1:8080");
    match target {
        ListenTarget::Tcp(addr) => assert_eq!(addr.to_string(), "127.0.0.1:8080"),
        ListenTarget::Unix(path) => panic!("expected tcp, got unix path {}", path),
    }
}

#[test]
fn parse_unix_listen_target() {
    let target = parse("/tmp/smol.sock");
    match target {
        ListenTarget::Unix(path) => {
            assert_eq!(path, "/tmp/smol.sock")
        }
        ListenTarget::Tcp(addr) => panic!("expected unix, got tcp address {addr}"),
    }
}

#[test]
fn parse_unix_listen_target_with_prefix() {
    let target = parse("unix:///tmp/smol.sock");
    match target {
        ListenTarget::Unix(path) => {
            assert_eq!(path, "/tmp/smol.sock")
        }
        ListenTarget::Tcp(addr) => panic!("expected unix, got tcp address {addr}"),
    }
}

#[test]
fn default_socket_lies_in_the_runtime_directory() {
    assert_eq!(
        default_listen_value(Some("/run/user/7".to_string())),
        "unix:///run/user/7/smolvm.sock"
    );
    assert_eq!(default_listen_value(None), "unix:///tmp/smolvm.sock");
}

#[test]
fn server_notices() {
    assert_eq!(open_listener_warning("127.0.0.1:80", false), None);
    assert_eq!(
        open_listener_warning("0.0.0.0:80", true).unwrap(),
        "WARNING: Server is listening on all interfaces (0.0.0.0:80)."
    );
    assert_eq!(reconnected_line(&vec![]), None);
    assert_eq!(
        reconnected_line(&vec!["a".to_string(), "b".to_string()]).unwrap(),
        "Reconnected to 2 existing machine(es): a, b"
    );
}
