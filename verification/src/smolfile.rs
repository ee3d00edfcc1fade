//! Smolfile sections and the network helpers behind egress policies.
use vstd::prelude::*;
use vstd::string::*;

use crate::scan::contains_char;
use crate::text::{decimal, decimal_text};

verus! {

/// An optional value by its view.
pub open spec fn opt_view<T: View>(v: Option<T>) -> Option<T::V> {
    match v {
        Some(x) => Some(x@),
        None => None,
    }
}

/// Distribution-specific overrides for packed artifacts.
#[derive(Debug)]
pub struct ArtifactConfig {
    /// Number of vCPUs.
    pub cpus: Option<u8>,
    /// Memory in MiB.
    pub memory: Option<u32>,
    /// Executable and fixed leading arguments.
    pub entrypoint: Vec<String>,
    /// Default arguments.
    pub cmd: Vec<String>,
    /// Target OCI platform.
    pub oci_platform: Option<String>,
}

/// The mathematical value of a [`ArtifactConfig`].
pub struct ArtifactConfigView {
    /// See [`ArtifactConfig::cpus`].
    pub cpus: Option<u8>,
    /// See [`ArtifactConfig::memory`].
    pub memory: Option<u32>,
    /// See [`ArtifactConfig::entrypoint`].
    pub entrypoint: Seq<Seq<char>>,
    /// See [`ArtifactConfig::cmd`].
    pub cmd: Seq<Seq<char>>,
    /// See [`ArtifactConfig::oci_platform`].
    pub oci_platform: Option<Seq<char>>,
}

impl View for ArtifactConfig {
    type V = ArtifactConfigView;

    open spec fn view(&self) -> ArtifactConfigView {
        ArtifactConfigView {
            cpus: self.cpus,
            memory: self.memory,
            entrypoint: self.entrypoint.deep_view(),
            cmd: self.cmd.deep_view(),
            oci_platform: self.oci_platform.deep_view(),
        }
    }
}

/// Local development profile.
#[derive(Debug)]
pub struct DevConfig {
    /// Volume mounts.
    pub volumes: Vec<String>,
    /// Environment variables.
    pub env: Vec<String>,
    /// Commands run on every VM start.
    pub init: Vec<String>,
    /// Working directory.
    pub workdir: Option<String>,
    /// Port mappings.
    pub ports: Vec<String>,
}

/// The mathematical value of a [`DevConfig`].
pub struct DevConfigView {
    /// See [`DevConfig::volumes`].
    pub volumes: Seq<Seq<char>>,
    /// See [`DevConfig::env`].
    pub env: Seq<Seq<char>>,
    /// See [`DevConfig::init`].
    pub init: Seq<Seq<char>>,
    /// See [`DevConfig::workdir`].
    pub workdir: Option<Seq<char>>,
    /// See [`DevConfig::ports`].
    pub ports: Seq<Seq<char>>,
}

impl View for DevConfig {
    type V = DevConfigView;

    open spec fn view(&self) -> DevConfigView {
        DevConfigView {
            volumes: self.volumes.deep_view(),
            env: self.env.deep_view(),
            init: self.init.deep_view(),
            workdir: self.workdir.deep_view(),
            ports: self.ports.deep_view(),
        }
    }
}

/// Health check configuration for the monitor command.
#[derive(Debug)]
pub struct HealthConfig {
    /// Command of the check.
    pub exec_argv: Vec<String>,
    /// Time between two checks.
    pub interval: Option<String>,
    /// Time limit of one check.
    pub timeout: Option<String>,
    /// Failures before the machine counts as unhealthy.
    pub retries: Option<u32>,
    /// Time after boot without checks.
    pub startup_grace: Option<String>,
}

/// The mathematical value of a [`HealthConfig`].
pub struct HealthConfigView {
    /// See [`HealthConfig::exec_argv`].
    pub exec_argv: Seq<Seq<char>>,
    /// See [`HealthConfig::interval`].
    pub interval: Option<Seq<char>>,
    /// See [`HealthConfig::timeout`].
    pub timeout: Option<Seq<char>>,
    /// See [`HealthConfig::retries`].
    pub retries: Option<u32>,
    /// See [`HealthConfig::startup_grace`].
    pub startup_grace: Option<Seq<char>>,
}

impl View for HealthConfig {
    type V = HealthConfigView;

    open spec fn view(&self) -> HealthConfigView {
        HealthConfigView {
            exec_argv: self.exec_argv.deep_view(),
            interval: self.interval.deep_view(),
            timeout: self.timeout.deep_view(),
            retries: self.retries,
            startup_grace: self.startup_grace.deep_view(),
        }
    }
}

/// Restart policy of a Smolfile's `[restart]` section.
#[derive(Debug)]
pub struct RestartSmolfileConfig {
    /// Name of the policy.
    pub policy: Option<String>,
    /// Maximum number of restarts.
    pub max_retries: Option<u32>,
    /// Maximum backoff duration between restarts (e.g., "60s", "5m").
    pub max_backoff: Option<String>,
}

/// The mathematical value of a [`RestartSmolfileConfig`].
pub struct RestartSmolfileConfigView {
    /// See [`RestartSmolfileConfig::policy`].
    pub policy: Option<Seq<char>>,
    /// See [`RestartSmolfileConfig::max_retries`].
    pub max_retries: Option<u32>,
    /// See [`RestartSmolfileConfig::max_backoff`].
    pub max_backoff: Option<Seq<char>>,
}

impl View for RestartSmolfileConfig {
    type V = RestartSmolfileConfigView;

    open spec fn view(&self) -> RestartSmolfileConfigView {
        RestartSmolfileConfigView {
            policy: self.policy.deep_view(),
            max_retries: self.max_retries,
            max_backoff: self.max_backoff.deep_view(),
        }
    }
}

/// Egress policy of a Smolfile's `[network]` section.
#[derive(Debug)]
pub struct NetworkConfig {
    /// Hostnames that may be reached.
    pub allow_hosts: Vec<String>,
}

/// The mathematical value of a [`NetworkConfig`].
pub struct NetworkConfigView {
    /// See [`NetworkConfig::allow_hosts`].
    pub allow_hosts: Seq<Seq<char>>,
}

impl View for NetworkConfig {
    type V = NetworkConfigView;

    open spec fn view(&self) -> NetworkConfigView {
        NetworkConfigView {
            allow_hosts: self.allow_hosts.deep_view(),
        }
    }
}

/// Parsed Smolfile configuration.
///
/// The workload command model follows Docker/OCI semantics:
///
/// - `entrypoint`: the executable and its fixed leading arguments
/// - `cmd`: default arguments appended to entrypoint
/// - `init`: dev bootstrap commands run on every VM start
///
/// When set, `entrypoint` and `cmd` override the base image's OCI config values.
/// If neither is set, the image's built-in entrypoint and cmd are used.
#[derive(Debug)]
pub struct Smolfile {
    /// OCI image (optional: omit for a bare VM).
    pub image: Option<String>,
    /// Executable and fixed leading arguments (overrides image ENTRYPOINT).
    pub entrypoint: Vec<String>,
    /// Default arguments appended to entrypoint (overrides image CMD).
    pub cmd: Vec<String>,
    /// Environment variables.
    pub env: Vec<String>,
    /// Working directory.
    pub workdir: Option<String>,
    /// Number of vCPUs.
    pub cpus: Option<u8>,
    /// Memory in MiB.
    pub memory: Option<u32>,
    /// Whether outbound network access is enabled.
    pub net: Option<bool>,
    /// Whether GPU acceleration is enabled.
    pub gpu: Option<bool>,
    /// GPU shared-memory region size in MiB.
    pub gpu_vram: Option<u32>,
    /// Storage disk size in GiB.
    pub storage: Option<u64>,
    /// Overlay disk size in GiB.
    pub overlay: Option<u64>,
    /// Allowed egress CIDR ranges (e.g., ["10.0.0.0/8", "1.1.1.1"]).
    pub allowed_cidrs: Vec<String>,
    /// Port mappings, where `[dev]` has none.
    pub ports: Vec<String>,
    /// Volume mounts, where `[dev]` has none.
    pub volumes: Vec<String>,
    /// Init commands, where `[dev]` has none.
    pub init: Vec<String>,
    /// The `[artifact]` section.
    pub artifact: Option<ArtifactConfig>,
    /// The `[pack]` section, another name for `[artifact]`.
    pub pack: Option<ArtifactConfig>,
    /// The `[dev]` section.
    pub dev: Option<DevConfig>,
    /// The `[health]` section.
    pub health: Option<HealthConfig>,
    /// The `[restart]` section.
    pub restart: Option<RestartSmolfileConfig>,
    /// The `[network]` section.
    pub network: Option<NetworkConfig>,
    /// The `ssh_agent` switch of the `[auth]` section.
    pub ssh_agent: Option<bool>,
}

/// The mathematical value of a [`Smolfile`].
pub struct SmolfileView {
    /// See [`Smolfile::image`].
    pub image: Option<Seq<char>>,
    /// See [`Smolfile::entrypoint`].
    pub entrypoint: Seq<Seq<char>>,
    /// See [`Smolfile::cmd`].
    pub cmd: Seq<Seq<char>>,
    /// See [`Smolfile::env`].
    pub env: Seq<Seq<char>>,
    /// See [`Smolfile::workdir`].
    pub workdir: Option<Seq<char>>,
    /// See [`Smolfile::cpus`].
    pub cpus: Option<u8>,
    /// See [`Smolfile::memory`].
    pub memory: Option<u32>,
    /// See [`Smolfile::net`].
    pub net: Option<bool>,
    /// See [`Smolfile::gpu`].
    pub gpu: Option<bool>,
    /// See [`Smolfile::gpu_vram`].
    pub gpu_vram: Option<u32>,
    /// See [`Smolfile::storage`].
    pub storage: Option<u64>,
    /// See [`Smolfile::overlay`].
    pub overlay: Option<u64>,
    /// See [`Smolfile::allowed_cidrs`].
    pub allowed_cidrs: Seq<Seq<char>>,
    /// See [`Smolfile::ports`].
    pub ports: Seq<Seq<char>>,
    /// See [`Smolfile::volumes`].
    pub volumes: Seq<Seq<char>>,
    /// See [`Smolfile::init`].
    pub init: Seq<Seq<char>>,
    /// See [`Smolfile::artifact`].
    pub artifact: Option<ArtifactConfigView>,
    /// See [`Smolfile::pack`].
    pub pack: Option<ArtifactConfigView>,
    /// See [`Smolfile::dev`].
    pub dev: Option<DevConfigView>,
    /// See [`Smolfile::health`].
    pub health: Option<HealthConfigView>,
    /// See [`Smolfile::restart`].
    pub restart: Option<RestartSmolfileConfigView>,
    /// See [`Smolfile::network`].
    pub network: Option<NetworkConfigView>,
    /// See [`Smolfile::ssh_agent`].
    pub ssh_agent: Option<bool>,
}

impl View for Smolfile {
    type V = SmolfileView;

    open spec fn view(&self) -> SmolfileView {
        SmolfileView {
            image: self.image.deep_view(),
            entrypoint: self.entrypoint.deep_view(),
            cmd: self.cmd.deep_view(),
            env: self.env.deep_view(),
            workdir: self.workdir.deep_view(),
            cpus: self.cpus,
            memory: self.memory,
            net: self.net,
            gpu: self.gpu,
            gpu_vram: self.gpu_vram,
            storage: self.storage,
            overlay: self.overlay,
            allowed_cidrs: self.allowed_cidrs.deep_view(),
            ports: self.ports.deep_view(),
            volumes: self.volumes.deep_view(),
            init: self.init.deep_view(),
            artifact: opt_view(self.artifact),
            pack: opt_view(self.pack),
            dev: opt_view(self.dev),
            health: opt_view(self.health),
            restart: opt_view(self.restart),
            network: opt_view(self.network),
            ssh_agent: self.ssh_agent,
        }
    }
}

// ---------------------------------------------------------------------------
// CIDR ranges
// ---------------------------------------------------------------------------

/// The normalised text of an IP network in `address/prefix` notation.
pub uninterp spec fn ip_net_text(s: Seq<char>) -> Option<Seq<char>>;

/// `ipnet::IpNet::from_str` and its `Display`: the network that a text denotes,
/// shown as text again, or nothing where the text denotes none. Which texts denote
/// a network is named rather than stated.
#[verifier::external_body]
fn parse_ip_net(s: &str) -> (r: Option<String>)
    ensures
        r.deep_view() == ip_net_text(s@),
{
    match s.parse::<ipnet::IpNet>() {
        Ok(net) => Some(net.to_string()),
        Err(_) => None,
    }
}

/// The normalised text of an IP address, with the width of its family in bits.
pub uninterp spec fn ip_address(s: Seq<char>) -> Option<(Seq<char>, u8)>;

/// `IpAddr::from_str` of the standard library, then `ipnet::IpNet::new` on the address:
/// the address that a text denotes, shown as text again, and the length of the longest
/// prefix that it can have, which is 32 for IPv4 and 128 for IPv6. Which texts denote an
/// address is named rather than stated.
#[verifier::external_body]
fn parse_ip_address(s: &str) -> (r: Option<(String, u8)>)
    ensures
        r.deep_view() == ip_address(s@),
        r matches Some(a) ==> a.1 == 32 || a.1 == 128,
{
    match s.parse() {
        Ok(ip) => match ipnet::IpNet::new(ip, 0) {
            Ok(net) => Some((net.addr().to_string(), net.max_prefix_len())),
            Err(_) => None,
        },
        Err(_) => None,
    }
}

/// The CIDR range that a text stands for, given what it denotes as a network and
/// as an address: a bare address is a range of its own.
pub open spec fn chosen_cidr(
    s: Seq<char>,
    net: Option<Seq<char>>,
    address: Option<(Seq<char>, u8)>,
) -> Result<Seq<char>, Seq<char>> {
    match (net, address) {
        (Some(n), _) => Ok(n),
        (None, Some((a, width))) => Ok(a + "/"@ + decimal(width as nat)),
        (None, None) => Err(
            "invalid CIDR '"@ + s + "': expected format like 10.0.0.0/8 or 1.1.1.1"@,
        ),
    }
}

/// The CIDR range that a text stands for.
pub open spec fn parsed_cidr(s: Seq<char>) -> Result<Seq<char>, Seq<char>> {
    chosen_cidr(s, ip_net_text(s), ip_address(s))
}

/// Choose the CIDR range of a text from what it denotes as a network and as an
/// address.
pub fn choose_cidr(s: &str, net: Option<String>, address: Option<(String, u8)>) -> (r: Result<
    String,
    String,
>)
    ensures
        match chosen_cidr(s@, net.deep_view(), address.deep_view()) {
            Ok(c) => r matches Ok(x) && x@ == c,
            Err(e) => r matches Err(x) && x@ == e,
        },
{
    match net {
        Some(n) => Ok(n),
        None => match address {
            Some((a, width)) => Ok(a.concat("/").concat(decimal_text(width as u64).as_str())),
            None => Err(
                String::from_str("invalid CIDR '").concat(s).concat(
                    "': expected format like 10.0.0.0/8 or 1.1.1.1",
                ),
            ),
        },
    }
}

/// Parse and validate a CIDR specification (e.g., `"10.0.0.0/8"`, `"1.1.1.1"`).
///
/// Accepts `IP/prefix` or bare `IP` (auto-appends /32 for IPv4, /128 for IPv6).
/// Returns the normalized CIDR string.
pub fn parse_cidr(s: &str) -> (r: Result<String, String>)
    ensures
        match parsed_cidr(s@) {
            Ok(c) => r matches Ok(x) && x@ == c,
            Err(e) => r matches Err(x) && x@ == e,
        },
{
    let net = parse_ip_net(s);
    let address = parse_ip_address(s);
    choose_cidr(s, net, address)
}

// ---------------------------------------------------------------------------
// Hostnames
// ---------------------------------------------------------------------------

/// How a hostname leads to addresses.
#[derive(Debug)]
pub enum HostResolution {
    /// It is an address itself: these are its CIDR ranges.
    Resolved(Vec<String>),
    /// It has to be looked up.
    NeedsLookup,
}

/// Resolve a hostname as far as that takes no lookup: an address is its own /32
/// range, and a `:port` suffix is refused, because port filtering is not supported
/// by the egress policy.
pub fn resolve_host_to_cidrs(host: &str) -> (r: Result<HostResolution, String>)
    ensures
        host@.contains(':') <==> r is Err,
        r matches Err(e) ==> e@ == "invalid hostname '"@ + host@
            + "': port suffixes are not supported. Use the hostname only (all ports are allowed to resolved IPs)."@,
        r matches Ok(h) ==> host_resolution(h) == known_resolution(ip_address(host@)),
{
    if contains_char(host, ':') {
        return Err(
            String::from_str("invalid hostname '").concat(host).concat(
                "': port suffixes are not supported. Use the hostname only (all ports are allowed to resolved IPs).",
            ),
        );
    }
    Ok(literal_address(parse_ip_address(host)))
}

/// What a resolution says: the ranges, where no lookup is needed.
pub open spec fn host_resolution(h: HostResolution) -> Option<Seq<Seq<char>>> {
    match h {
        HostResolution::Resolved(cidrs) => Some(cidrs.deep_view()),
        HostResolution::NeedsLookup => None,
    }
}

/// The ranges of a host that is an address itself.
pub open spec fn known_resolution(address: Option<(Seq<char>, u8)>) -> Option<Seq<Seq<char>>> {
    match address {
        Some((a, _)) => Some(seq![a + "/32"@]),
        None => None,
    }
}

/// The resolution of a host, given what it denotes as an address.
pub fn literal_address(address: Option<(String, u8)>) -> (r: HostResolution)
    ensures
        host_resolution(r) == known_resolution(address.deep_view()),
{
    match address {
        Some((a, _width)) => {
            let mut cidrs: Vec<String> = Vec::new();
            cidrs.push(a.concat("/32"));
            proof {
                assert(cidrs.deep_view() =~= seq![a@ + "/32"@]);
            }
            HostResolution::Resolved(cidrs)
        },
        None => HostResolution::NeedsLookup,
    }
}

/// The ranges of the addresses that a lookup gave.
pub open spec fn host_ranges(addresses: Seq<Seq<char>>) -> Seq<Seq<char>> {
    Seq::new(addresses.len(), |i: int| addresses[i] + "/32"@)
}

/// Turn the answer of a lookup into CIDR ranges: a failed lookup and one without
/// addresses are errors.
pub fn lookup_to_cidrs(host: &str, answer: Result<Vec<String>, String>) -> (r: Result<
    Vec<String>,
    String,
>)
    ensures
        match answer {
            Err(e) => r matches Err(x) && x@ == "failed to resolve '"@ + host@ + "': "@ + e@,
            Ok(addresses) => if addresses@.len() == 0 {
                r matches Err(x) && x@ == "'"@ + host@ + "' resolved to no addresses"@
            } else {
                r matches Ok(c) && c.deep_view() == host_ranges(addresses.deep_view())
            },
        },
{
    match answer {
        Err(e) => Err(
            String::from_str("failed to resolve '").concat(host).concat("': ").concat(e.as_str()),
        ),
        Ok(addresses) => {
            if addresses.len() == 0 {
                return Err(
                    String::from_str("'").concat(host).concat("' resolved to no addresses"),
                );
            }
            let mut cidrs: Vec<String> = Vec::new();
            for i in 0..addresses.len()
                invariant
                    cidrs@.len() == i,
                    forall|j: int| 0 <= j < i ==> (#[trigger] cidrs@[j])@ == addresses@[j]@ + "/32"@,
            {
                cidrs.push(addresses[i].clone().concat("/32"));
            }
            proof {
                assert(cidrs.deep_view() =~= host_ranges(addresses.deep_view()));
            }
            Ok(cidrs)
        },
    }
}

/// A network stands as it is, a bare address becomes the range of that address alone, and
/// a text is refused only where it is neither.
pub proof fn ranges_are_networks_or_single_addresses(
    s: Seq<char>,
    net: Option<Seq<char>>,
    address: Option<(Seq<char>, u8)>,
)
    ensures
        net matches Some(n) ==> chosen_cidr(s, net, address) == Ok::<Seq<char>, Seq<char>>(n),
        net is None ==> (address matches Some((a, width)) ==> chosen_cidr(s, net, address) == Ok::<
            Seq<char>,
            Seq<char>,
        >(a + "/"@ + decimal(width as nat))),
        chosen_cidr(s, net, address) is Err <==> net is None && address is None,
{
}

/// Every address that a hostname leads to may be reached, alone, and nothing else: there is
/// one range for each of them, in order. A host that is an address is not looked up.
pub proof fn hosts_stand_for_their_addresses(addresses: Seq<Seq<char>>, i: int, width: u8)
    requires
        0 <= i < addresses.len(),
    ensures
        host_ranges(addresses).len() == addresses.len(),
        host_ranges(addresses)[i] == addresses[i] + "/32"@,
        known_resolution(Some((addresses[i], width))) == Some(seq![addresses[i] + "/32"@]),
        known_resolution(None) is None,
{
}

} // verus!
