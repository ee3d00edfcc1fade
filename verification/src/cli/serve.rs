//! The API server command.
use vstd::prelude::*;
use vstd::string::*;

use crate::lists::{join, join_text};
use crate::path::{join_path, joined_path};
use crate::scan::{has_prefix, strip_prefix};
use crate::text::{decimal, decimal_text};

verus! {

/// Start the HTTP API server for programmatic control.
#[derive(Debug)]
pub enum ServeCmd {
    /// Start the HTTP API server
    Start(ServeStartCmd),
}

/// Start the HTTP API server.
#[derive(Debug)]
pub struct ServeStartCmd {
    /// Address and port or Unix socket path to listen on.
    pub listen: String,
    /// Enable debug logging.
    pub verbose: bool,
    /// CORS allowed origins.
    pub cors_origins: Vec<String>,
    /// Output logs as structured JSON.
    pub json_logs: bool,
}

/// Where the server listens.
#[derive(Debug)]
pub enum ListenTarget {
    /// A TCP address.
    Tcp(String),
    /// The path of a Unix socket.
    Unix(String),
}

/// The path of a socket, with or without the `unix://` scheme before it.
pub open spec fn socket_path(value: Seq<char>) -> Seq<char> {
    if has_prefix(value, "unix://"@) {
        value.skip("unix://"@.len() as int)
    } else {
        value
    }
}

/// The scheme is no part of the path, and a text without it is the path as it is.
pub proof fn schemes_are_no_part_of_the_path(path: Seq<char>)
    ensures
        socket_path("unix://"@ + path) == path,
        !has_prefix(path, "unix://"@) ==> socket_path(path) == path,
{
    let value = "unix://"@ + path;
    let n = "unix://"@.len() as int;
    assert(value.take(n) == "unix://"@);
    assert(value.skip(n) == path);
}

impl ListenTarget {
    /// Parse where the server listens, given the socket address that the text
    /// denotes, if it denotes one: every other text is a path, with or without the
    /// `unix://` scheme.
    pub fn parse(value: &str, socket_addr: Option<String>) -> (r: ListenTarget)
        ensures
            match socket_addr {
                Some(a) => r matches ListenTarget::Tcp(t) && t@ == a@,
                None => r matches ListenTarget::Unix(p) && p@ == socket_path(value@),
            },
    {
        match socket_addr {
            Some(a) => ListenTarget::Tcp(a),
            None => match strip_prefix(value, "unix://") {
                Some(p) => ListenTarget::Unix(p),
                None => ListenTarget::Unix(value.to_owned()),
            },
        }
    }
}

/// Where the server listens by default: a socket in the user's runtime directory, or
/// in the temporary one.
pub fn default_listen_value(runtime_dir: Option<String>) -> (r: String)
    ensures
        r@ == "unix://"@ + joined_path(
            match runtime_dir {
                Some(d) => d@,
                None => "/tmp"@,
            },
            "smolvm.sock"@,
        ),
{
    let dir = match runtime_dir {
        Some(d) => d,
        None => "/tmp".to_owned(),
    };
    String::from_str("unix://").concat(join_path(dir.as_str(), "smolvm.sock").as_str())
}

/// The warning owed to a server that listens on all interfaces.
pub fn open_listener_warning(address: &str, all_interfaces: bool) -> (r: Option<String>)
    ensures
        r is Some <==> all_interfaces,
        r matches Some(w) ==> w@ == "WARNING: Server is listening on all interfaces ("@ + address@
            + ")."@,
{
    if all_interfaces {
        Some(
            String::from_str("WARNING: Server is listening on all interfaces (").concat(
                address,
            ).concat(")."),
        )
    } else {
        None
    }
}

/// The line for machines that the server found running, where there are any.
pub fn reconnected_line(machines: &Vec<String>) -> (r: Option<String>)
    ensures
        r is Some <==> machines@.len() > 0,
        r matches Some(l) ==> l@ == "Reconnected to "@ + decimal(machines@.len())
            + " existing machine(es): "@ + join_text(machines.deep_view(), ", "@),
{
    if machines.len() == 0 {
        return None;
    }
    Some(
        String::from_str("Reconnected to ").concat(
            decimal_text(machines.len() as u64).as_str(),
        ).concat(" existing machine(es): ").concat(join(machines, ", ").as_str()),
    )
}

} // verus!
