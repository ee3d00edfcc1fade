//! Parameters of new machines, and the rules that merge flags with a Smolfile.
use vstd::prelude::*;
use vstd::string::*;

use crate::config::{parsed_policy, RestartPolicy};
use crate::data::network::{parsed_port, PortMapping};
use crate::data::resources::{
    validate_gpu_vram_mib, DEFAULT_MICROVM_CPU_COUNT, DEFAULT_MICROVM_MEMORY_MIB, GPU_VRAM_ZERO,
};
use crate::error::{config_error, outcome, Error, ErrorView};
use crate::lists::{first_some, joined, or_else};
use crate::network::backend::NetworkBackend;
use crate::scan::{
    decimal_parses_back, is_digit, lemma_decimal_value, lemma_trimmed_id, parse_unsigned, parsed_nat,
    trim, trimmed,
};
use crate::smolfile::{
    opt_view, parse_cidr, parsed_cidr, ArtifactConfig, ArtifactConfigView, DevConfig,
    DevConfigView, Smolfile, SmolfileView,
};
use crate::text::{char_vec, decimal};

verus! {

/// Parameters of a new machine.
#[derive(Debug)]
pub struct CreateVmParams {
    /// Machine name.
    pub name: String,
    /// OCI image.
    pub image: Option<String>,
    /// Entrypoint.
    pub entrypoint: Vec<String>,
    /// Command.
    pub cmd: Vec<String>,
    /// Number of vCPUs.
    pub cpus: u8,
    /// Memory in MiB.
    pub mem: u32,
    /// Volume mounts as given.
    pub volume: Vec<String>,
    /// Port mappings.
    pub port: Vec<PortMapping>,
    /// Whether outbound network access is enabled.
    pub net: bool,
    /// Network backend override.
    pub network_backend: Option<NetworkBackend>,
    /// Whether GPU acceleration is enabled.
    pub gpu: Option<bool>,
    /// GPU shared-memory region size in MiB.
    pub gpu_vram_mib: Option<u32>,
    /// Init commands.
    pub init: Vec<String>,
    /// Environment variables as given.
    pub env: Vec<String>,
    /// Working directory.
    pub workdir: Option<String>,
    /// Storage disk size in GiB.
    pub storage_gb: Option<u64>,
    /// Overlay disk size in GiB.
    pub overlay_gb: Option<u64>,
    /// Allowed egress CIDR ranges.
    pub allowed_cidrs: Option<Vec<String>>,
    /// Restart policy.
    pub restart_policy: Option<RestartPolicy>,
    /// Maximum number of restarts.
    pub restart_max_retries: Option<u32>,
    /// Maximum backoff in seconds.
    pub restart_max_backoff_secs: Option<u64>,
    /// Health check command.
    pub health_cmd: Option<Vec<String>>,
    /// Health check interval in seconds.
    pub health_interval_secs: Option<u64>,
    /// Health check timeout in seconds.
    pub health_timeout_secs: Option<u64>,
    /// Health check failure threshold.
    pub health_retries: Option<u32>,
    /// Grace period after boot in seconds.
    pub health_startup_grace_secs: Option<u64>,
    /// Whether the SSH agent is forwarded.
    pub ssh_agent: bool,
    /// Hostnames for DNS filtering (from --allow-host / [network].allow_hosts).
    pub dns_filter_hosts: Option<Vec<String>>,
    /// Absolute path to .smolmachine sidecar (for machines created with --from).
    pub source_smolmachine: Option<String>,
}

/// The mathematical value of a [`CreateVmParams`].
pub struct CreateVmParamsView {
    /// See [`CreateVmParams::name`].
    pub name: Seq<char>,
    /// See [`CreateVmParams::image`].
    pub image: Option<Seq<char>>,
    /// See [`CreateVmParams::entrypoint`].
    pub entrypoint: Seq<Seq<char>>,
    /// See [`CreateVmParams::cmd`].
    pub cmd: Seq<Seq<char>>,
    /// See [`CreateVmParams::cpus`].
    pub cpus: u8,
    /// See [`CreateVmParams::mem`].
    pub mem: u32,
    /// See [`CreateVmParams::volume`].
    pub volume: Seq<Seq<char>>,
    /// See [`CreateVmParams::port`].
    pub port: Seq<PortMapping>,
    /// See [`CreateVmParams::net`].
    pub net: bool,
    /// See [`CreateVmParams::network_backend`].
    pub network_backend: Option<NetworkBackend>,
    /// See [`CreateVmParams::gpu`].
    pub gpu: Option<bool>,
    /// See [`CreateVmParams::gpu_vram_mib`].
    pub gpu_vram_mib: Option<u32>,
    /// See [`CreateVmParams::init`].
    pub init: Seq<Seq<char>>,
    /// See [`CreateVmParams::env`].
    pub env: Seq<Seq<char>>,
    /// See [`CreateVmParams::workdir`].
    pub workdir: Option<Seq<char>>,
    /// See [`CreateVmParams::storage_gb`].
    pub storage_gb: Option<u64>,
    /// See [`CreateVmParams::overlay_gb`].
    pub overlay_gb: Option<u64>,
    /// See [`CreateVmParams::allowed_cidrs`].
    pub allowed_cidrs: Option<Seq<Seq<char>>>,
    /// See [`CreateVmParams::restart_policy`].
    pub restart_policy: Option<RestartPolicy>,
    /// See [`CreateVmParams::restart_max_retries`].
    pub restart_max_retries: Option<u32>,
    /// See [`CreateVmParams::restart_max_backoff_secs`].
    pub restart_max_backoff_secs: Option<u64>,
    /// See [`CreateVmParams::health_cmd`].
    pub health_cmd: Option<Seq<Seq<char>>>,
    /// See [`CreateVmParams::health_interval_secs`].
    pub health_interval_secs: Option<u64>,
    /// See [`CreateVmParams::health_timeout_secs`].
    pub health_timeout_secs: Option<u64>,
    /// See [`CreateVmParams::health_retries`].
    pub health_retries: Option<u32>,
    /// See [`CreateVmParams::health_startup_grace_secs`].
    pub health_startup_grace_secs: Option<u64>,
    /// See [`CreateVmParams::ssh_agent`].
    pub ssh_agent: bool,
    /// See [`CreateVmParams::dns_filter_hosts`].
    pub dns_filter_hosts: Option<Seq<Seq<char>>>,
    /// See [`CreateVmParams::source_smolmachine`].
    pub source_smolmachine: Option<Seq<char>>,
}

impl View for CreateVmParams {
    type V = CreateVmParamsView;

    open spec fn view(&self) -> CreateVmParamsView {
        CreateVmParamsView {
            name: self.name@,
            image: self.image.deep_view(),
            entrypoint: self.entrypoint.deep_view(),
            cmd: self.cmd.deep_view(),
            cpus: self.cpus,
            mem: self.mem,
            volume: self.volume.deep_view(),
            port: self.port@,
            net: self.net,
            network_backend: self.network_backend,
            gpu: self.gpu,
            gpu_vram_mib: self.gpu_vram_mib,
            init: self.init.deep_view(),
            env: self.env.deep_view(),
            workdir: self.workdir.deep_view(),
            storage_gb: self.storage_gb,
            overlay_gb: self.overlay_gb,
            allowed_cidrs: self.allowed_cidrs.deep_view(),
            restart_policy: self.restart_policy,
            restart_max_retries: self.restart_max_retries,
            restart_max_backoff_secs: self.restart_max_backoff_secs,
            health_cmd: self.health_cmd.deep_view(),
            health_interval_secs: self.health_interval_secs,
            health_timeout_secs: self.health_timeout_secs,
            health_retries: self.health_retries,
            health_startup_grace_secs: self.health_startup_grace_secs,
            ssh_agent: self.ssh_agent,
            dns_filter_hosts: self.dns_filter_hosts.deep_view(),
            source_smolmachine: self.source_smolmachine.deep_view(),
        }
    }
}

// ---------------------------------------------------------------------------
// Durations in a Smolfile
// ---------------------------------------------------------------------------

/// The seconds that a text like "10s", "5m" or "2h" stands for; a bare number is
/// seconds.
pub open spec fn duration_secs(s: Seq<char>) -> Option<nat> {
    let t = trimmed(s);
    let max = u64::MAX as nat;
    if t.len() > 0 && t.last() == 's' {
        parsed_nat(t.drop_last(), max)
    } else if t.len() > 0 && t.last() == 'm' {
        match parsed_nat(t.drop_last(), max) {
            Some(n) => Some(n * 60),
            None => None,
        }
    } else if t.len() > 0 && t.last() == 'h' {
        match parsed_nat(t.drop_last(), max) {
            Some(n) => Some(n * 3600),
            None => None,
        }
    } else {
        parsed_nat(t, max)
    }
}

/// Whether a duration fits a 64-bit number of seconds.
pub open spec fn duration_fits(s: Seq<char>) -> bool {
    duration_secs(s) matches Some(n) ==> n <= u64::MAX
}

/// The number before the unit of a trimmed duration, and the seconds in that unit.
fn duration_parts(t: &str) -> (r: (Option<u64>, u64))
    ensures
        ({
            let max = u64::MAX as nat;
            let (body, unit) = if t@.len() > 0 && t@.last() == 's' {
                (t@.drop_last(), 1)
            } else if t@.len() > 0 && t@.last() == 'm' {
                (t@.drop_last(), 60)
            } else if t@.len() > 0 && t@.last() == 'h' {
                (t@.drop_last(), 3600)
            } else {
                (t@, 1int)
            };
            &&& r.1 == unit
            &&& match parsed_nat(body, max) {
                Some(n) => r.0 == Some(n as u64),
                None => r.0 is None,
            }
        }),
        r.1 == 1 || r.1 == 60 || r.1 == 3600,
{
    let chars = char_vec(t);
    let n: usize = chars.len();
    if n > 0 {
        let last = chars[n - 1];
        if last == 's' || last == 'm' || last == 'h' {
            let body = t.substring_char(0, n - 1);
            proof {
                assert(body@ =~= t@.drop_last());
            }
            let unit: u64 = if last == 's' {
                1
            } else if last == 'm' {
                60
            } else {
                3600
            };
            return (parse_unsigned(body, u64::MAX), unit);
        }
    }
    (parse_unsigned(t, u64::MAX), 1)
}

/// Whether a duration fits a 64-bit number of seconds.
pub fn fits_in_seconds(s: &str) -> (r: bool)
    ensures
        r == duration_fits(s@),
{
    let (number, unit) = duration_parts(trim(s));
    match number {
        Some(n) => n <= u64::MAX / unit,
        None => true,
    }
}

/// Parse a duration string like "10s", "5m", "2h" to seconds.
pub fn parse_duration_secs(s: &str) -> (r: Option<u64>)
    requires
        duration_fits(s@),
    ensures
        match duration_secs(s@) {
            Some(n) => r == Some(n as u64),
            None => r is None,
        },
{
    let (number, unit) = duration_parts(trim(s));
    match number {
        Some(n) => Some(n * unit),
        None => None,
    }
}

/// The seconds of an optional duration.
pub open spec fn opt_secs(s: Option<Seq<char>>) -> Option<u64> {
    match s {
        Some(t) => match duration_secs(t) {
            Some(n) => Some(n as u64),
            None => None,
        },
        None => None,
    }
}

/// Whether an optional duration fits a 64-bit number of seconds.
pub open spec fn opt_fits(s: Option<Seq<char>>) -> bool {
    s matches Some(t) ==> duration_fits(t)
}

fn parse_opt_secs(s: &Option<String>) -> (r: Option<u64>)
    requires
        opt_fits(s.deep_view()),
    ensures
        r == opt_secs(s.deep_view()),
{
    match s {
        Some(t) => parse_duration_secs(t.as_str()),
        None => None,
    }
}

fn opt_fits_in_seconds(s: &Option<String>) -> (r: bool)
    ensures
        r == opt_fits(s.deep_view()),
{
    match s {
        Some(t) => fits_in_seconds(t.as_str()),
        None => true,
    }
}

/// Whether every duration of a Smolfile fits a 64-bit number of seconds.
pub open spec fn durations_fit(sf: SmolfileView) -> bool {
    &&& sf.restart matches Some(r) ==> opt_fits(r.max_backoff)
    &&& sf.health matches Some(h) ==> opt_fits(h.interval) && opt_fits(h.timeout) && opt_fits(
        h.startup_grace,
    )
}

/// Whether every duration of a Smolfile fits a 64-bit number of seconds.
pub fn smolfile_durations_fit(sf: &Smolfile) -> (r: bool)
    ensures
        r == durations_fit(sf@),
{
    let restart = match &sf.restart {
        Some(r) => opt_fits_in_seconds(&r.max_backoff),
        None => true,
    };
    let health = match &sf.health {
        Some(h) => opt_fits_in_seconds(&h.interval) && opt_fits_in_seconds(&h.timeout)
            && opt_fits_in_seconds(&h.startup_grace),
        None => true,
    };
    restart && health
}

// ---------------------------------------------------------------------------
// Lists in a Smolfile
// ---------------------------------------------------------------------------

/// The mappings that a list of texts denotes, or what is wrong with the first bad one.
pub open spec fn parsed_ports(specs: Seq<Seq<char>>) -> Result<Seq<PortMapping>, Seq<char>>
    decreases specs.len(),
{
    if specs.len() == 0 {
        Ok(Seq::empty())
    } else {
        match parsed_ports(specs.drop_last()) {
            Err(e) => Err(e),
            Ok(ps) => match parsed_port(specs.last()) {
                Err(e) => Err(e),
                Ok(p) => Ok(ps.push(p)),
            },
        }
    }
}

proof fn lemma_ports_error_stays(specs: Seq<Seq<char>>, k: int)
    requires
        0 <= k <= specs.len(),
        parsed_ports(specs.take(k)) is Err,
    ensures
        parsed_ports(specs) == parsed_ports(specs.take(k)),
    decreases specs.len(),
{
    if k < specs.len() {
        assert(specs.drop_last().take(k) =~= specs.take(k));
        lemma_ports_error_stays(specs.drop_last(), k);
    } else {
        assert(specs.take(k) =~= specs);
    }
}

/// Parse a list of port mappings; the first bad one is reported.
pub fn parse_ports(specs: &Vec<String>) -> (r: Result<Vec<PortMapping>, String>)
    ensures
        match parsed_ports(specs.deep_view()) {
            Ok(ps) => r matches Ok(v) && v@ == ps,
            Err(e) => r matches Err(x) && x@ == e,
        },
{
    let ghost all = specs.deep_view();
    let mut r: Vec<PortMapping> = Vec::new();
    proof {
        assert(all.take(0) =~= Seq::empty());
    }
    for i in 0..specs.len()
        invariant
            all == specs.deep_view(),
            parsed_ports(all.take(i as int)) == Ok::<Seq<PortMapping>, Seq<char>>(r@),
    {
        proof {
            assert(all.take(i + 1).drop_last() =~= all.take(i as int));
            assert(all.take(i + 1).last() == specs@[i as int]@);
        }
        match PortMapping::parse(specs[i].as_str()) {
            Ok(p) => {
                r.push(p);
            },
            Err(e) => {
                proof {
                    lemma_ports_error_stays(all, i + 1);
                }
                return Err(e);
            },
        }
    }
    proof {
        assert(all.take(all.len() as int) =~= all);
    }
    Ok(r)
}

/// The normalised ranges that a list of texts denotes, or what is wrong with the
/// first bad one.
pub open spec fn parsed_cidrs(specs: Seq<Seq<char>>) -> Result<Seq<Seq<char>>, Seq<char>>
    decreases specs.len(),
{
    if specs.len() == 0 {
        Ok(Seq::empty())
    } else {
        match parsed_cidrs(specs.drop_last()) {
            Err(e) => Err(e),
            Ok(cs) => match parsed_cidr(specs.last()) {
                Err(e) => Err(e),
                Ok(c) => Ok(cs.push(c)),
            },
        }
    }
}

proof fn lemma_cidrs_error_stays(specs: Seq<Seq<char>>, k: int)
    requires
        0 <= k <= specs.len(),
        parsed_cidrs(specs.take(k)) is Err,
    ensures
        parsed_cidrs(specs) == parsed_cidrs(specs.take(k)),
    decreases specs.len(),
{
    if k < specs.len() {
        assert(specs.drop_last().take(k) =~= specs.take(k));
        lemma_cidrs_error_stays(specs.drop_last(), k);
    } else {
        assert(specs.take(k) =~= specs);
    }
}

/// Parse a list of CIDR ranges; the first bad one is reported.
pub fn parse_cidrs(specs: &Vec<String>) -> (r: Result<Vec<String>, String>)
    ensures
        match parsed_cidrs(specs.deep_view()) {
            Ok(cs) => r matches Ok(v) && v.deep_view() == cs,
            Err(e) => r matches Err(x) && x@ == e,
        },
{
    let ghost all = specs.deep_view();
    let mut r: Vec<String> = Vec::new();
    proof {
        assert(all.take(0) =~= Seq::empty());
        assert(r.deep_view() =~= Seq::empty());
    }
    for i in 0..specs.len()
        invariant
            all == specs.deep_view(),
            parsed_cidrs(all.take(i as int)) == Ok::<Seq<Seq<char>>, Seq<char>>(r.deep_view()),
    {
        let ghost before = r.deep_view();
        proof {
            assert(all.take(i + 1).drop_last() =~= all.take(i as int));
            assert(all.take(i + 1).last() == specs@[i as int]@);
        }
        match parse_cidr(specs[i].as_str()) {
            Ok(c) => {
                r.push(c);
                proof {
                    assert(r.deep_view() =~= before.push(c@));
                }
            },
            Err(e) => {
                proof {
                    lemma_cidrs_error_stays(all, i + 1);
                }
                return Err(e);
            },
        }
    }
    proof {
        assert(all.take(all.len() as int) =~= all);
    }
    Ok(r)
}

/// Every text of a list without surrounding white space.
pub open spec fn all_trimmed(v: Seq<Seq<char>>) -> Seq<Seq<char>> {
    Seq::new(v.len(), |i: int| trimmed(v[i]))
}

fn trim_all(v: &Vec<String>) -> (r: Vec<String>)
    ensures
        r.deep_view() == all_trimmed(v.deep_view()),
{
    let mut r: Vec<String> = Vec::new();
    for i in 0..v.len()
        invariant
            r@.len() == i,
            forall|j: int| 0 <= j < i ==> (#[trigger] r@[j])@ == trimmed(v@[j]@),
    {
        r.push(trim(v[i].as_str()).to_owned());
    }
    proof {
        assert(r.deep_view() =~= all_trimmed(v.deep_view()));
    }
    r
}

/// The first list if it holds anything, else the second.
pub open spec fn prefer<T>(a: Seq<T>, b: Seq<T>) -> Seq<T> {
    if a.len() > 0 {
        a
    } else {
        b
    }
}

fn preferred(a: Vec<String>, b: Vec<String>) -> (r: Vec<String>)
    ensures
        r.deep_view() == prefer(a.deep_view(), b.deep_view()),
{
    if a.len() > 0 {
        a
    } else {
        b
    }
}

/// A list of one, where there is a value.
pub open spec fn list_of(v: Option<Seq<char>>) -> Seq<Seq<char>> {
    match v {
        Some(x) => seq![x],
        None => Seq::empty(),
    }
}

fn to_list(v: Option<String>) -> (r: Vec<String>)
    ensures
        r.deep_view() == list_of(v.deep_view()),
{
    let mut r: Vec<String> = Vec::new();
    proof {
        assert(r.deep_view() =~= Seq::empty());
    }
    match v {
        Some(x) => {
            r.push(x);
            proof {
                assert(r.deep_view() =~= seq![x@]);
            }
        },
        None => {},
    }
    r
}

/// A list, or nothing where it is empty.
pub open spec fn nonempty<T>(v: Seq<T>) -> Option<Seq<T>> {
    if v.len() > 0 {
        Some(v)
    } else {
        None
    }
}

fn to_nonempty(v: Vec<String>) -> (r: Option<Vec<String>>)
    ensures
        r.deep_view() == nonempty(v.deep_view()),
{
    if v.len() > 0 {
        Some(v)
    } else {
        None
    }
}

// ---------------------------------------------------------------------------
// Merging
// ---------------------------------------------------------------------------

/// The flags of a new machine.
pub struct CreateFlags {
    /// Machine name.
    pub name: Seq<char>,
    /// `--image`.
    pub image: Option<Seq<char>>,
    /// `--entrypoint`.
    pub entrypoint: Option<Seq<char>>,
    /// Trailing arguments.
    pub cmd: Seq<Seq<char>>,
    /// `--cpus`.
    pub cpus: u8,
    /// `--mem`.
    pub mem: u32,
    /// `--volume`.
    pub volume: Seq<Seq<char>>,
    /// `--port`.
    pub port: Seq<PortMapping>,
    /// `--net`.
    pub net: bool,
    /// `--init`.
    pub init: Seq<Seq<char>>,
    /// `--env`.
    pub env: Seq<Seq<char>>,
    /// `--workdir`.
    pub workdir: Option<Seq<char>>,
    /// `--storage`.
    pub storage_gb: Option<u64>,
    /// `--overlay`.
    pub overlay_gb: Option<u64>,
    /// `--allow-cidr`.
    pub allow_cidr: Seq<Seq<char>>,
}

/// The parameters that flags alone lead to.
pub open spec fn params_from_flags(f: CreateFlags) -> CreateVmParamsView {
    CreateVmParamsView {
        name: f.name,
        image: f.image,
        entrypoint: list_of(f.entrypoint),
        cmd: f.cmd,
        cpus: f.cpus,
        mem: f.mem,
        volume: f.volume,
        port: f.port,
        net: f.net || f.allow_cidr.len() > 0,
        network_backend: None,
        gpu: None,
        gpu_vram_mib: None,
        init: f.init,
        env: f.env,
        workdir: f.workdir,
        storage_gb: f.storage_gb,
        overlay_gb: f.overlay_gb,
        allowed_cidrs: nonempty(f.allow_cidr),
        restart_policy: None,
        restart_max_retries: None,
        restart_max_backoff_secs: None,
        health_cmd: None,
        health_interval_secs: None,
        health_timeout_secs: None,
        health_retries: None,
        health_startup_grace_secs: None,
        ssh_agent: false,
        dns_filter_hosts: None,
        source_smolmachine: None,
    }
}

/// A `[dev]` section that says nothing.
pub open spec fn empty_dev() -> DevConfigView {
    DevConfigView {
        volumes: Seq::empty(),
        env: Seq::empty(),
        init: Seq::empty(),
        workdir: None,
        ports: Seq::empty(),
    }
}

/// The `[dev]` section of a Smolfile, empty where there is none.
pub open spec fn dev_of(sf: SmolfileView) -> DevConfigView {
    match sf.dev {
        Some(d) => d,
        None => empty_dev(),
    }
}

/// The number that a flag has, unless it has the default and the Smolfile says
/// otherwise.
pub open spec fn flag_or<T>(flag: T, default: T, other: Option<T>) -> T {
    if flag != default {
        flag
    } else {
        match other {
            Some(v) => v,
            None => flag,
        }
    }
}

/// The restart policy that a Smolfile names, or what is wrong with it.
pub open spec fn smolfile_policy(sf: SmolfileView) -> Result<Option<RestartPolicy>, Seq<char>> {
    match sf.restart {
        Some(r) => match r.policy {
            Some(p) => match parsed_policy(p) {
                Ok(x) => Ok(Some(x)),
                Err(e) => Err(e),
            },
            None => Ok(None),
        },
        None => Ok(None),
    }
}

/// The parameters that flags and a Smolfile lead to, given the port mappings, CIDR
/// ranges and restart policy of the Smolfile.
pub open spec fn params_from_both(
    f: CreateFlags,
    sf: SmolfileView,
    ports: Seq<PortMapping>,
    cidrs: Seq<Seq<char>>,
    policy: Option<RestartPolicy>,
) -> CreateVmParamsView {
    let dev = dev_of(sf);
    let ranges = cidrs + f.allow_cidr;
    CreateVmParamsView {
        name: f.name,
        image: or_else(f.image, sf.image),
        entrypoint: prefer(list_of(f.entrypoint), sf.entrypoint),
        cmd: prefer(f.cmd, sf.cmd),
        cpus: flag_or(f.cpus, DEFAULT_MICROVM_CPU_COUNT, sf.cpus),
        mem: flag_or(f.mem, DEFAULT_MICROVM_MEMORY_MIB, sf.memory),
        volume: prefer(dev.volumes, sf.volumes) + f.volume,
        port: ports + f.port,
        net: f.net || sf.net == Some(true) || ranges.len() > 0,
        network_backend: None,
        gpu: sf.gpu,
        gpu_vram_mib: sf.gpu_vram,
        init: prefer(dev.init, sf.init) + f.init,
        env: all_trimmed(sf.env) + all_trimmed(dev.env) + all_trimmed(f.env),
        workdir: or_else(or_else(f.workdir, dev.workdir), sf.workdir),
        storage_gb: or_else(f.storage_gb, sf.storage),
        overlay_gb: or_else(f.overlay_gb, sf.overlay),
        allowed_cidrs: nonempty(ranges),
        restart_policy: policy,
        restart_max_retries: match sf.restart {
            Some(r) => r.max_retries,
            None => None,
        },
        restart_max_backoff_secs: match sf.restart {
            Some(r) => opt_secs(r.max_backoff),
            None => None,
        },
        health_cmd: match sf.health {
            Some(h) => nonempty(h.exec_argv),
            None => None,
        },
        health_interval_secs: match sf.health {
            Some(h) => opt_secs(h.interval),
            None => None,
        },
        health_timeout_secs: match sf.health {
            Some(h) => opt_secs(h.timeout),
            None => None,
        },
        health_retries: match sf.health {
            Some(h) => h.retries,
            None => None,
        },
        health_startup_grace_secs: match sf.health {
            Some(h) => opt_secs(h.startup_grace),
            None => None,
        },
        ssh_agent: sf.ssh_agent == Some(true),
        dns_filter_hosts: match sf.network {
            Some(n) => nonempty(n.allow_hosts),
            None => None,
        },
        source_smolmachine: None,
    }
}

/// The parameters that flags and an optional Smolfile lead to, or what is wrong
/// with the Smolfile: its ports, its CIDR ranges, its restart policy and its GPU
/// memory are checked in this order.
pub open spec fn merged_params(f: CreateFlags, sf: Option<SmolfileView>) -> Result<
    CreateVmParamsView,
    ErrorView,
> {
    match sf {
        None => Ok(params_from_flags(f)),
        Some(s) => match parsed_ports(prefer(dev_of(s).ports, s.ports)) {
            Err(e) => Err(config_error("smolfile ports"@, e)),
            Ok(ports) => match parsed_cidrs(s.allowed_cidrs) {
                Err(e) => Err(config_error("smolfile allowed_cidrs"@, e)),
                Ok(cidrs) => match smolfile_policy(s) {
                    Err(e) => Err(config_error("smolfile [restart] policy"@, e)),
                    Ok(policy) => if s.gpu_vram == Some(0u32) {
                        Err(config_error("smolfile gpu_vram"@, GPU_VRAM_ZERO@))
                    } else {
                        Ok(params_from_both(f, s, ports, cidrs, policy))
                    },
                },
            },
        },
    }
}

fn empty_list() -> (r: Vec<String>)
    ensures
        r.deep_view() == Seq::<Seq<char>>::empty(),
{
    let r: Vec<String> = Vec::new();
    proof {
        assert(r.deep_view() =~= Seq::empty());
    }
    r
}

/// The `[dev]` section of a Smolfile, empty where there is none.
fn take_dev(dev: Option<DevConfig>) -> (r: DevConfig)
    ensures
        r@ == (match opt_view(dev) {
            Some(d) => d,
            None => empty_dev(),
        }),
{
    match dev {
        Some(d) => d,
        None => DevConfig {
            volumes: empty_list(),
            env: empty_list(),
            init: empty_list(),
            workdir: None,
            ports: empty_list(),
        },
    }
}

/// Build the parameters of a new machine by merging flags with an optional
/// Smolfile.
///
/// Flags override Smolfile values. List flags are appended to Smolfile values. For
/// numbers, non-default flags take priority.
///
/// Merge precedence:
///   image:      flag > Smolfile > none (bare VM)
///   entrypoint: flag > Smolfile > image metadata
///   cmd:        trailing args > Smolfile cmd (full replacement)
///   env:        Smolfile, extended by flags
///   init:       Smolfile, extended by flags
pub fn build_create_params(
    name: String,
    cli_image: Option<String>,
    cli_entrypoint: Option<String>,
    cli_cmd: Vec<String>,
    cli_cpus: u8,
    cli_mem: u32,
    cli_volume: Vec<String>,
    cli_port: Vec<PortMapping>,
    cli_net: bool,
    cli_init: Vec<String>,
    cli_env: Vec<String>,
    cli_workdir: Option<String>,
    smolfile: Option<Smolfile>,
    cli_storage_gb: Option<u64>,
    cli_overlay_gb: Option<u64>,
    cli_allow_cidr: Vec<String>,
) -> (r: Result<CreateVmParams, Error>)
    requires
        smolfile matches Some(sf) ==> durations_fit(sf@),
    ensures
        outcome(r) == merged_params(
            (CreateFlags {
                name: name@,
                image: cli_image.deep_view(),
                entrypoint: cli_entrypoint.deep_view(),
                cmd: cli_cmd.deep_view(),
                cpus: cli_cpus,
                mem: cli_mem,
                volume: cli_volume.deep_view(),
                port: cli_port@,
                net: cli_net,
                init: cli_init.deep_view(),
                env: cli_env.deep_view(),
                workdir: cli_workdir.deep_view(),
                storage_gb: cli_storage_gb,
                overlay_gb: cli_overlay_gb,
                allow_cidr: cli_allow_cidr.deep_view(),
            }),
            opt_view(smolfile),
        ),
{
    let sf = match smolfile {
        Some(sf) => sf,
        None => {
            let net = cli_net || cli_allow_cidr.len() > 0;
            return Ok(
                CreateVmParams {
                    name,
                    image: cli_image,
                    entrypoint: to_list(cli_entrypoint),
                    cmd: cli_cmd,
                    cpus: cli_cpus,
                    mem: cli_mem,
                    volume: cli_volume,
                    port: cli_port,
                    net,
                    network_backend: None,
                    gpu: None,
                    gpu_vram_mib: None,
                    init: cli_init,
                    env: cli_env,
                    workdir: cli_workdir,
                    storage_gb: cli_storage_gb,
                    overlay_gb: cli_overlay_gb,
                    allowed_cidrs: to_nonempty(cli_allow_cidr),
                    restart_policy: None,
                    restart_max_retries: None,
                    restart_max_backoff_secs: None,
                    health_cmd: None,
                    health_interval_secs: None,
                    health_timeout_secs: None,
                    health_retries: None,
                    health_startup_grace_secs: None,
                    ssh_agent: false,
                    dns_filter_hosts: None,
                    source_smolmachine: None,
                },
            );
        },
    };
    let ghost sv = sf@;
    let dev = take_dev(sf.dev);
    let sf_ports = preferred(dev.ports, sf.ports);
    let mut ports = match parse_ports(&sf_ports) {
        Ok(p) => p,
        Err(e) => {
            return Err(Error::config("smolfile ports", e));
        },
    };
    let mut more_ports = cli_port;
    ports.append(&mut more_ports);
    let volume = joined(preferred(dev.volumes, sf.volumes), cli_volume);
    let env = joined(joined(trim_all(&sf.env), trim_all(&dev.env)), trim_all(&cli_env));
    let init = joined(preferred(dev.init, sf.init), cli_init);
    let workdir = first_some(first_some(cli_workdir, dev.workdir), sf.workdir);
    let cpus: u8 = if cli_cpus != DEFAULT_MICROVM_CPU_COUNT {
        cli_cpus
    } else {
        sf.cpus.unwrap_or(cli_cpus)
    };
    let mem: u32 = if cli_mem != DEFAULT_MICROVM_MEMORY_MIB {
        cli_mem
    } else {
        sf.memory.unwrap_or(cli_mem)
    };
    let asked_net = if cli_net {
        true
    } else {
        sf.net.unwrap_or(false)
    };
    let ranges = match parse_cidrs(&sf.allowed_cidrs) {
        Ok(c) => joined(c, cli_allow_cidr),
        Err(e) => {
            return Err(Error::config("smolfile allowed_cidrs", e));
        },
    };
    let net = asked_net || ranges.len() > 0;
    let (policy, max_retries, max_backoff) = match &sf.restart {
        Some(r) => {
            let policy = match &r.policy {
                Some(p) => match RestartPolicy::parse(p.as_str()) {
                    Ok(x) => Some(x),
                    Err(e) => {
                        return Err(Error::config("smolfile [restart] policy", e));
                    },
                },
                None => None,
            };
            (policy, r.max_retries, parse_opt_secs(&r.max_backoff))
        },
        None => (None, None, None),
    };
    let gpu_vram_mib = match validate_gpu_vram_mib(sf.gpu_vram) {
        Ok(v) => v,
        Err(e) => {
            return Err(Error::config("smolfile gpu_vram", e.to_owned()));
        },
    };
    let (health_cmd, interval, timeout, retries, grace) = match sf.health {
        Some(h) => {
            let interval = parse_opt_secs(&h.interval);
            let timeout = parse_opt_secs(&h.timeout);
            let grace = parse_opt_secs(&h.startup_grace);
            (to_nonempty(h.exec_argv), interval, timeout, h.retries, grace)
        },
        None => (None, None, None, None, None),
    };
    let hosts = match sf.network {
        Some(n) => to_nonempty(n.allow_hosts),
        None => None,
    };
    let entrypoint = preferred(to_list(cli_entrypoint), sf.entrypoint);
    let cmd = preferred(cli_cmd, sf.cmd);
    Ok(
        CreateVmParams {
            name,
            image: first_some(cli_image, sf.image),
            entrypoint,
            cmd,
            cpus,
            mem,
            volume,
            port: ports,
            net,
            network_backend: None,
            gpu: sf.gpu,
            gpu_vram_mib,
            init,
            env,
            workdir,
            storage_gb: first_some(cli_storage_gb, sf.storage),
            overlay_gb: first_some(cli_overlay_gb, sf.overlay),
            allowed_cidrs: to_nonempty(ranges),
            restart_policy: policy,
            restart_max_retries: max_retries,
            restart_max_backoff_secs: max_backoff,
            health_cmd,
            health_interval_secs: interval,
            health_timeout_secs: timeout,
            health_retries: retries,
            health_startup_grace_secs: grace,
            ssh_agent: sf.ssh_agent.unwrap_or(false),
            dns_filter_hosts: hosts,
            source_smolmachine: None,
        },
    )
}

/// Whether `b` is the end of `a`.
pub open spec fn ends_with_list<T>(a: Seq<T>, b: Seq<T>) -> bool {
    b.len() <= a.len() && a.skip(a.len() - b.len()) == b
}

/// Flags win over the Smolfile: an image, an entrypoint, a command, a working
/// directory, disk sizes and non-default numbers given as flags are what the
/// machine gets.
pub proof fn flags_override_smolfile(f: CreateFlags, sf: Option<SmolfileView>, p: CreateVmParamsView)
    requires
        merged_params(f, sf) == Ok::<CreateVmParamsView, ErrorView>(p),
    ensures
        p.name == f.name,
        f.image is Some ==> p.image == f.image,
        f.entrypoint is Some ==> p.entrypoint == seq![f.entrypoint->0],
        f.cmd.len() > 0 ==> p.cmd == f.cmd,
        f.workdir is Some ==> p.workdir == f.workdir,
        f.storage_gb is Some ==> p.storage_gb == f.storage_gb,
        f.overlay_gb is Some ==> p.overlay_gb == f.overlay_gb,
        f.cpus != DEFAULT_MICROVM_CPU_COUNT ==> p.cpus == f.cpus,
        f.mem != DEFAULT_MICROVM_MEMORY_MIB ==> p.mem == f.mem,
        f.net ==> p.net,
{
}

/// List flags are appended to what the Smolfile lists.
pub proof fn list_flags_are_appended(f: CreateFlags, sf: Option<SmolfileView>, p: CreateVmParamsView)
    requires
        merged_params(f, sf) == Ok::<CreateVmParamsView, ErrorView>(p),
    ensures
        ends_with_list(p.volume, f.volume),
        ends_with_list(p.port, f.port),
        ends_with_list(p.init, f.init),
        sf is Some ==> ends_with_list(p.env, all_trimmed(f.env)),
        f.allow_cidr.len() > 0 ==> p.allowed_cidrs is Some && ends_with_list(
            p.allowed_cidrs->0,
            f.allow_cidr,
        ),
{
    assert(p.volume.skip(p.volume.len() - f.volume.len()) =~= f.volume);
    assert(p.port.skip(p.port.len() - f.port.len()) =~= f.port);
    assert(p.init.skip(p.init.len() - f.init.len()) =~= f.init);
    if sf is Some {
        let e = all_trimmed(f.env);
        assert(p.env.skip(p.env.len() - e.len()) =~= e);
    }
    if f.allow_cidr.len() > 0 {
        let c = p.allowed_cidrs->0;
        assert(c.skip(c.len() - f.allow_cidr.len()) =~= f.allow_cidr);
    }
}

/// Any restriction of egress to CIDR ranges turns the network on, and a machine
/// is never given an empty list of ranges.
pub proof fn cidr_ranges_imply_network(f: CreateFlags, sf: Option<SmolfileView>, p: CreateVmParamsView)
    requires
        merged_params(f, sf) == Ok::<CreateVmParamsView, ErrorView>(p),
    ensures
        p.allowed_cidrs is Some ==> p.net && p.allowed_cidrs->0.len() > 0,
        f.allow_cidr.len() > 0 ==> p.allowed_cidrs is Some,
        sf is Some && sf->0.allowed_cidrs.len() > 0 ==> p.allowed_cidrs is Some,
{
    if sf is Some {
        lemma_parsed_cidrs_len(sf->0.allowed_cidrs);
    }
}

proof fn lemma_parsed_cidrs_len(specs: Seq<Seq<char>>)
    ensures
        parsed_cidrs(specs) matches Ok(c) ==> c.len() == specs.len(),
    decreases specs.len(),
{
    if specs.len() > 0 {
        lemma_parsed_cidrs_len(specs.drop_last());
    }
}

proof fn lemma_parsed_ports_items(specs: Seq<Seq<char>>, i: int)
    ensures
        match parsed_ports(specs) {
            Ok(ps) => {
                &&& ps.len() == specs.len()
                &&& 0 <= i < specs.len() ==> parsed_port(specs[i]) == Ok::<PortMapping, Seq<char>>(
                    ps[i],
                )
            },
            Err(e) => exists|j: int|
                0 <= j < specs.len() && #[trigger] parsed_port(specs[j]) == Err::<
                    PortMapping,
                    Seq<char>,
                >(e),
        },
    decreases specs.len(),
{
    if specs.len() > 0 {
        let init = specs.drop_last();
        lemma_parsed_ports_items(init, i);
        match parsed_ports(init) {
            Err(e) => {
                let j = choose|j: int|
                    0 <= j < init.len() && #[trigger] parsed_port(init[j]) == Err::<
                        PortMapping,
                        Seq<char>,
                    >(e);
                assert(parsed_port(specs[j]) == Err::<PortMapping, Seq<char>>(e));
            },
            Ok(ps) => {
                assert(parsed_port(specs[specs.len() - 1]) == parsed_port(specs.last()));
                if 0 <= i < init.len() {
                    assert(specs[i] == init[i]);
                }
            },
        }
    }
}

/// A list of port mappings is read mapping by mapping, in order; it is refused exactly
/// where one of them is, with the reason of one that is.
pub proof fn port_lists_are_read_one_by_one(specs: Seq<Seq<char>>)
    ensures
        parsed_ports(specs) is Ok <==> (forall|i: int|
            0 <= i < specs.len() ==> #[trigger] parsed_port(specs[i]) is Ok),
        parsed_ports(specs) matches Ok(ps) ==> ps.len() == specs.len() && forall|i: int|
            0 <= i < specs.len() ==> parsed_port(specs[i]) == Ok::<PortMapping, Seq<char>>(
                #[trigger] ps[i],
            ),
{
    lemma_parsed_ports_items(specs, 0);
    if let Ok(ps) = parsed_ports(specs) {
        assert forall|i: int| 0 <= i < specs.len() implies parsed_port(specs[i]) == Ok::<
            PortMapping,
            Seq<char>,
        >(#[trigger] ps[i]) by {
            lemma_parsed_ports_items(specs, i);
        }
        assert forall|i: int| 0 <= i < specs.len() implies #[trigger] parsed_port(
            specs[i],
        ) is Ok by {
            lemma_parsed_ports_items(specs, i);
        }
    }
}

proof fn lemma_parsed_cidrs_items(specs: Seq<Seq<char>>, i: int)
    ensures
        match parsed_cidrs(specs) {
            Ok(cs) => {
                &&& cs.len() == specs.len()
                &&& 0 <= i < specs.len() ==> parsed_cidr(specs[i]) == Ok::<Seq<char>, Seq<char>>(
                    cs[i],
                )
            },
            Err(e) => exists|j: int|
                0 <= j < specs.len() && #[trigger] parsed_cidr(specs[j]) == Err::<
                    Seq<char>,
                    Seq<char>,
                >(e),
        },
    decreases specs.len(),
{
    if specs.len() > 0 {
        let init = specs.drop_last();
        lemma_parsed_cidrs_items(init, i);
        match parsed_cidrs(init) {
            Err(e) => {
                let j = choose|j: int|
                    0 <= j < init.len() && #[trigger] parsed_cidr(init[j]) == Err::<
                        Seq<char>,
                        Seq<char>,
                    >(e);
                assert(parsed_cidr(specs[j]) == Err::<Seq<char>, Seq<char>>(e));
            },
            Ok(cs) => {
                assert(parsed_cidr(specs[specs.len() - 1]) == parsed_cidr(specs.last()));
                if 0 <= i < init.len() {
                    assert(specs[i] == init[i]);
                }
            },
        }
    }
}

/// A list of ranges is read range by range, in order; it is refused exactly where one of
/// them is.
pub proof fn range_lists_are_read_one_by_one(specs: Seq<Seq<char>>)
    ensures
        parsed_cidrs(specs) is Ok <==> (forall|i: int|
            0 <= i < specs.len() ==> #[trigger] parsed_cidr(specs[i]) is Ok),
        parsed_cidrs(specs) matches Ok(cs) ==> cs.len() == specs.len() && forall|i: int|
            0 <= i < specs.len() ==> parsed_cidr(specs[i]) == Ok::<Seq<char>, Seq<char>>(
                #[trigger] cs[i],
            ),
{
    lemma_parsed_cidrs_items(specs, 0);
    if let Ok(cs) = parsed_cidrs(specs) {
        assert forall|i: int| 0 <= i < specs.len() implies parsed_cidr(specs[i]) == Ok::<
            Seq<char>,
            Seq<char>,
        >(#[trigger] cs[i]) by {
            lemma_parsed_cidrs_items(specs, i);
        }
        assert forall|i: int| 0 <= i < specs.len() implies #[trigger] parsed_cidr(
            specs[i],
        ) is Ok by {
            lemma_parsed_cidrs_items(specs, i);
        }
    }
}

/// The network of a machine is on exactly where a flag or the Smolfile turns it on, or
/// where a flag or the Smolfile allows a range.
pub proof fn network_is_on_exactly_where_asked(
    f: CreateFlags,
    sf: Option<SmolfileView>,
    p: CreateVmParamsView,
)
    requires
        merged_params(f, sf) == Ok::<CreateVmParamsView, ErrorView>(p),
    ensures
        p.net <==> {
            ||| f.net
            ||| f.allow_cidr.len() != 0
            ||| sf matches Some(s) && (s.net == Some(true) || s.allowed_cidrs.len() != 0)
        },
{
    if let Some(s) = sf {
        lemma_parsed_cidrs_len(s.allowed_cidrs);
    }
}

/// A setting that the Smolfile gives and no flag overrides is what the machine gets; one
/// that neither gives is left open, or has the value of the flag.
pub proof fn smolfile_settings_take_effect(f: CreateFlags, s: SmolfileView, p: CreateVmParamsView)
    requires
        merged_params(f, Some(s)) == Ok::<CreateVmParamsView, ErrorView>(p),
    ensures
        f.image is None ==> p.image == s.image,
        f.entrypoint is None ==> p.entrypoint == s.entrypoint,
        f.cmd.len() == 0 ==> p.cmd == s.cmd,
        f.storage_gb is None ==> p.storage_gb == s.storage,
        f.overlay_gb is None ==> p.overlay_gb == s.overlay,
        f.cpus == DEFAULT_MICROVM_CPU_COUNT ==> p.cpus == (if s.cpus is Some {
            s.cpus->0
        } else {
            f.cpus
        }),
        f.mem == DEFAULT_MICROVM_MEMORY_MIB ==> p.mem == (if s.memory is Some {
            s.memory->0
        } else {
            f.mem
        }),
        f.workdir is None ==> (match s.dev {
            Some(d) => if d.workdir is Some {
                p.workdir == d.workdir
            } else {
                p.workdir == s.workdir
            },
            None => p.workdir == s.workdir,
        }),
        p.gpu == s.gpu,
        p.gpu_vram_mib == s.gpu_vram,
        p.ssh_agent <==> s.ssh_agent == Some(true),
        p.network_backend is None,
        p.source_smolmachine is None,
{
}

/// The port mappings that a Smolfile lists: those of `[dev]`, where it lists any.
pub open spec fn listed_ports(s: SmolfileView) -> Seq<Seq<char>> {
    if s.dev is Some && (s.dev->0).ports.len() != 0 {
        (s.dev->0).ports
    } else {
        s.ports
    }
}

/// The lists of a Smolfile come first, then those of the flags. What `[dev]` lists stands
/// in place of what the top level lists, but variables of `[dev]` follow those of the top
/// level.
pub proof fn smolfile_lists_come_first(f: CreateFlags, s: SmolfileView, p: CreateVmParamsView)
    requires
        merged_params(f, Some(s)) == Ok::<CreateVmParamsView, ErrorView>(p),
    ensures
        ({
            let volumes = if s.dev is Some && (s.dev->0).volumes.len() != 0 {
                (s.dev->0).volumes
            } else {
                s.volumes
            };
            let init = if s.dev is Some && (s.dev->0).init.len() != 0 {
                (s.dev->0).init
            } else {
                s.init
            };
            let ports = listed_ports(s);
            &&& p.volume == volumes + f.volume
            &&& p.init == init + f.init
            &&& p.port.len() == ports.len() + f.port.len()
            &&& forall|i: int|
                0 <= i < ports.len() ==> parsed_port(ports[i]) == Ok::<PortMapping, Seq<char>>(
                    #[trigger] p.port[i],
                )
            &&& forall|i: int|
                ports.len() <= i < p.port.len() ==> #[trigger] p.port[i] == f.port[i - ports.len()]
        }),
{
    port_lists_are_read_one_by_one(prefer(dev_of(s).ports, s.ports));
}

/// The variables of a machine are those of the Smolfile, of its `[dev]` section and of the
/// flags, in this order, each without surrounding white space.
pub proof fn variables_are_those_of_all_sources(
    f: CreateFlags,
    s: SmolfileView,
    p: CreateVmParamsView,
    i: int,
)
    requires
        merged_params(f, Some(s)) == Ok::<CreateVmParamsView, ErrorView>(p),
        0 <= i < p.env.len(),
    ensures
        ({
            let dev = if s.dev is Some {
                (s.dev->0).env
            } else {
                Seq::empty()
            };
            let all = s.env + dev + f.env;
            p.env.len() == all.len() && p.env[i] == trimmed(all[i])
        }),
{
}

/// Egress is limited to the ranges of the Smolfile, then those of the flags, and not at all
/// where there are none.
pub proof fn ranges_are_those_of_both(f: CreateFlags, s: SmolfileView, p: CreateVmParamsView)
    requires
        merged_params(f, Some(s)) == Ok::<CreateVmParamsView, ErrorView>(p),
    ensures
        p.allowed_cidrs is None <==> s.allowed_cidrs.len() + f.allow_cidr.len() == 0,
        p.allowed_cidrs matches Some(r) ==> {
            &&& r.len() == s.allowed_cidrs.len() + f.allow_cidr.len()
            &&& forall|i: int|
                0 <= i < s.allowed_cidrs.len() ==> parsed_cidr(s.allowed_cidrs[i]) == Ok::<
                    Seq<char>,
                    Seq<char>,
                >(#[trigger] r[i])
            &&& forall|i: int|
                s.allowed_cidrs.len() <= i < r.len() ==> #[trigger] r[i] == f.allow_cidr[i
                    - s.allowed_cidrs.len()]
        },
{
    range_lists_are_read_one_by_one(s.allowed_cidrs);
}

/// What a Smolfile says of restarts, health checks and hosts is what the machine gets.
/// Durations become seconds, and an empty check or list of hosts is none.
pub proof fn smolfile_sections_take_effect(f: CreateFlags, s: SmolfileView, p: CreateVmParamsView)
    requires
        merged_params(f, Some(s)) == Ok::<CreateVmParamsView, ErrorView>(p),
        durations_fit(s),
    ensures
        match s.restart {
            Some(r) => {
                &&& p.restart_max_retries == r.max_retries
                &&& r.policy is None ==> p.restart_policy is None
                &&& r.policy matches Some(word) ==> p.restart_policy is Some && parsed_policy(word)
                    == Ok::<RestartPolicy, Seq<char>>(p.restart_policy->0)
                &&& same_span(p.restart_max_backoff_secs, r.max_backoff)
            },
            None => p.restart_policy is None && p.restart_max_retries is None
                && p.restart_max_backoff_secs is None,
        },
        match s.health {
            Some(h) => {
                &&& p.health_retries == h.retries
                &&& p.health_cmd is Some <==> h.exec_argv.len() != 0
                &&& p.health_cmd is Some ==> p.health_cmd->0 == h.exec_argv
                &&& same_span(p.health_interval_secs, h.interval)
                &&& same_span(p.health_timeout_secs, h.timeout)
                &&& same_span(p.health_startup_grace_secs, h.startup_grace)
            },
            None => p.health_cmd is None && p.health_retries is None && p.health_interval_secs
                is None && p.health_timeout_secs is None && p.health_startup_grace_secs is None,
        },
        match s.network {
            Some(n) => {
                &&& p.dns_filter_hosts is Some <==> n.allow_hosts.len() != 0
                &&& p.dns_filter_hosts is Some ==> p.dns_filter_hosts->0 == n.allow_hosts
            },
            None => p.dns_filter_hosts is None,
        },
{
}

/// Whether a number of seconds is what a text says, where there is one and it says
/// anything.
pub open spec fn same_span(secs: Option<u64>, text: Option<Seq<char>>) -> bool {
    match (text, secs) {
        (Some(t), Some(n)) => duration_secs(t) == Some(n as nat),
        (Some(t), None) => duration_secs(t) is None,
        (None, n) => n is None,
    }
}

/// A number is read as seconds, with `s` behind it too; with `m` behind it as minutes and
/// with `h` as hours.
pub proof fn durations_are_read_by_their_unit(n: nat)
    requires
        n <= u64::MAX,
    ensures
        duration_secs(decimal(n)) == Some(n),
        duration_secs(decimal(n).push('s')) == Some(n),
        duration_secs(decimal(n).push('m')) == Some(60 * n),
        duration_secs(decimal(n).push('h')) == Some(3600 * n),
{
    decimal_parses_back(n, u64::MAX as nat);
    lemma_decimal_value(n);
    let d = decimal(n);
    assert(is_digit(d[0]) && is_digit(d.last()));
    lemma_trimmed_id(d);
    lemma_trimmed_id(d.push('s'));
    lemma_trimmed_id(d.push('m'));
    lemma_trimmed_id(d.push('h'));
    assert(d.push('s').drop_last() =~= d);
    assert(d.push('m').drop_last() =~= d);
    assert(d.push('h').drop_last() =~= d);
}

/// A merge fails exactly where the Smolfile holds something that cannot be read: a port, a
/// range or a restart policy, or no memory at all for the GPU.
pub proof fn only_bad_smolfiles_are_refused(f: CreateFlags, sf: Option<SmolfileView>)
    ensures
        merged_params(f, sf) is Err <==> {
            &&& sf is Some
            &&& ({
                let s = sf->0;
                ||| exists|i: int|
                    0 <= i < listed_ports(s).len() && #[trigger] parsed_port(listed_ports(s)[i])
                        is Err
                ||| exists|i: int|
                    0 <= i < s.allowed_cidrs.len() && #[trigger] parsed_cidr(s.allowed_cidrs[i])
                        is Err
                ||| s.restart is Some && (s.restart->0).policy is Some && parsed_policy(
                    (s.restart->0).policy->0,
                ) is Err
                ||| s.gpu_vram == Some(0u32)
            })
        },
{
    if let Some(s) = sf {
        assert(listed_ports(s) == prefer(dev_of(s).ports, s.ports));
        port_lists_are_read_one_by_one(listed_ports(s));
        range_lists_are_read_one_by_one(s.allowed_cidrs);
    }
}

/// Without a Smolfile the flags are what the machine gets, and what no flag gives is left
/// open.
pub proof fn flags_alone_are_taken_as_they_are(f: CreateFlags)
    ensures
        merged_params(f, None) matches Ok(p) && {
            &&& p.name == f.name
            &&& p.image == f.image
            &&& p.entrypoint.len() == (if f.entrypoint is Some {
                1nat
            } else {
                0
            })
            &&& f.entrypoint is Some ==> p.entrypoint[0] == f.entrypoint->0
            &&& p.cmd == f.cmd
            &&& p.cpus == f.cpus
            &&& p.mem == f.mem
            &&& p.volume == f.volume
            &&& p.port == f.port
            &&& p.init == f.init
            &&& p.env == f.env
            &&& p.workdir == f.workdir
            &&& p.storage_gb == f.storage_gb
            &&& p.overlay_gb == f.overlay_gb
            &&& p.allowed_cidrs is Some <==> f.allow_cidr.len() != 0
            &&& p.allowed_cidrs is Some ==> p.allowed_cidrs->0 == f.allow_cidr
            &&& p.gpu is None && p.gpu_vram_mib is None && p.network_backend is None
            &&& p.restart_policy is None && p.restart_max_retries is None
                && p.restart_max_backoff_secs is None
            &&& p.health_cmd is None && p.health_interval_secs is None && p.health_timeout_secs
                is None && p.health_retries is None && p.health_startup_grace_secs is None
            &&& !p.ssh_agent && p.dns_filter_hosts is None && p.source_smolmachine is None
        },
{
}

/// A Smolfile that says nothing.
pub open spec fn empty_smolfile() -> SmolfileView {
    SmolfileView {
        image: None,
        entrypoint: Seq::empty(),
        cmd: Seq::empty(),
        env: Seq::empty(),
        workdir: None,
        cpus: None,
        memory: None,
        net: None,
        gpu: None,
        gpu_vram: None,
        storage: None,
        overlay: None,
        allowed_cidrs: Seq::empty(),
        ports: Seq::empty(),
        volumes: Seq::empty(),
        init: Seq::empty(),
        artifact: None,
        pack: None,
        dev: None,
        health: None,
        restart: None,
        network: None,
        ssh_agent: None,
    }
}

/// A Smolfile that says nothing changes nothing, but that variables given as flags
/// lose their surrounding white space.
pub proof fn empty_smolfile_changes_nothing(f: CreateFlags)
    ensures
        merged_params(f, Some(empty_smolfile())) == Ok::<CreateVmParamsView, ErrorView>(
            CreateVmParamsView { env: all_trimmed(f.env), ..params_from_flags(f) },
        ),
{
    let sf = empty_smolfile();
    let none = Seq::<Seq<char>>::empty();
    assert(none + f.allow_cidr =~= f.allow_cidr);
    assert(none + f.volume =~= f.volume);
    assert(none + f.init =~= f.init);
    assert(Seq::<PortMapping>::empty() + f.port =~= f.port);
    assert(all_trimmed(none) =~= none);
    assert(all_trimmed(sf.env) + all_trimmed(dev_of(sf).env) + all_trimmed(f.env) =~= all_trimmed(
        f.env,
    ));
    assert(prefer(list_of(f.entrypoint), none) =~= list_of(f.entrypoint));
    assert(prefer(f.cmd, none) =~= f.cmd);
}

// ---------------------------------------------------------------------------
// Packing
// ---------------------------------------------------------------------------

/// Default memory for packed VMs. Same as for new machines: memory is elastic, so
/// the host only commits what the guest actually uses.
pub const PACK_DEFAULT_MEMORY_MIB: u32 = 8192;

/// Resolved pack configuration from Smolfile and flags.
#[derive(Debug)]
pub struct PackConfig {
    /// OCI image.
    pub image: Option<String>,
    /// Entrypoint.
    pub entrypoint: Vec<String>,
    /// Command.
    pub cmd: Vec<String>,
    /// Number of vCPUs.
    pub cpus: u8,
    /// Memory in MiB.
    pub mem: u32,
    /// Target OCI platform.
    pub oci_platform: Option<String>,
    /// Whether outbound network access is enabled, where that is said.
    pub net: Option<bool>,
    /// Environment variables.
    pub env: Vec<String>,
    /// Working directory.
    pub workdir: Option<String>,
}

/// The mathematical value of a [`PackConfig`].
pub struct PackConfigView {
    /// See [`PackConfig::image`].
    pub image: Option<Seq<char>>,
    /// See [`PackConfig::entrypoint`].
    pub entrypoint: Seq<Seq<char>>,
    /// See [`PackConfig::cmd`].
    pub cmd: Seq<Seq<char>>,
    /// See [`PackConfig::cpus`].
    pub cpus: u8,
    /// See [`PackConfig::mem`].
    pub mem: u32,
    /// See [`PackConfig::oci_platform`].
    pub oci_platform: Option<Seq<char>>,
    /// See [`PackConfig::net`].
    pub net: Option<bool>,
    /// See [`PackConfig::env`].
    pub env: Seq<Seq<char>>,
    /// See [`PackConfig::workdir`].
    pub workdir: Option<Seq<char>>,
}

impl View for PackConfig {
    type V = PackConfigView;

    open spec fn view(&self) -> PackConfigView {
        PackConfigView {
            image: self.image.deep_view(),
            entrypoint: self.entrypoint.deep_view(),
            cmd: self.cmd.deep_view(),
            cpus: self.cpus,
            mem: self.mem,
            oci_platform: self.oci_platform.deep_view(),
            net: self.net,
            env: self.env.deep_view(),
            workdir: self.workdir.deep_view(),
        }
    }
}

/// An `[artifact]` section that says nothing.
pub open spec fn empty_artifact() -> ArtifactConfigView {
    ArtifactConfigView {
        cpus: None,
        memory: None,
        entrypoint: Seq::empty(),
        cmd: Seq::empty(),
        oci_platform: None,
    }
}

/// The `[artifact]` section of a Smolfile, else its `[pack]` section, else an empty one.
pub open spec fn artifact_of(sf: SmolfileView) -> ArtifactConfigView {
    match or_else(sf.artifact, sf.pack) {
        Some(a) => a,
        None => empty_artifact(),
    }
}

/// The pack configuration that flags and an optional Smolfile lead to.
pub open spec fn merged_pack(
    image: Option<Seq<char>>,
    entrypoint: Option<Seq<char>>,
    cpus: u8,
    mem: u32,
    oci_platform: Option<Seq<char>>,
    sf: Option<SmolfileView>,
) -> PackConfigView {
    match sf {
        None => PackConfigView {
            image,
            entrypoint: list_of(entrypoint),
            cmd: Seq::empty(),
            cpus,
            mem,
            oci_platform,
            net: None,
            env: Seq::empty(),
            workdir: None,
        },
        Some(s) => {
            let a = artifact_of(s);
            PackConfigView {
                image: or_else(image, s.image),
                entrypoint: prefer(list_of(entrypoint), prefer(a.entrypoint, s.entrypoint)),
                cmd: prefer(a.cmd, s.cmd),
                cpus: flag_or(cpus, DEFAULT_MICROVM_CPU_COUNT, or_else(a.cpus, s.cpus)),
                mem: flag_or(mem, PACK_DEFAULT_MEMORY_MIB, or_else(a.memory, s.memory)),
                oci_platform: or_else(oci_platform, a.oci_platform),
                net: s.net,
                env: all_trimmed(s.env),
                workdir: s.workdir,
            }
        },
    }
}

fn take_artifact(artifact: Option<ArtifactConfig>) -> (r: ArtifactConfig)
    ensures
        r@ == (match opt_view(artifact) {
            Some(a) => a,
            None => empty_artifact(),
        }),
{
    match artifact {
        Some(a) => a,
        None => ArtifactConfig {
            cpus: None,
            memory: None,
            entrypoint: empty_list(),
            cmd: empty_list(),
            oci_platform: None,
        },
    }
}

/// Resolve pack configuration by merging flags with an optional Smolfile.
///
/// Merge precedence:
///   image:        --image > Smolfile image > none
///   entrypoint:   --entrypoint > [artifact].entrypoint > Smolfile entrypoint > image metadata
///   cmd:          [artifact].cmd > Smolfile cmd > image metadata
///   cpus:         --cpus (non-default) > [artifact].cpus > Smolfile cpus > default
///   memory:       --mem (non-default) > [artifact].memory > Smolfile memory > default
///   oci_platform: --oci-platform > [artifact].oci_platform > none
///   env:          Smolfile top-level env (trimmed)
///   workdir:      Smolfile top-level workdir
pub fn resolve_pack_config(
    cli_image: Option<String>,
    cli_entrypoint: Option<String>,
    cli_cpus: u8,
    cli_mem: u32,
    cli_oci_platform: Option<String>,
    smolfile: Option<Smolfile>,
) -> (r: PackConfig)
    ensures
        r@ == merged_pack(
            cli_image.deep_view(),
            cli_entrypoint.deep_view(),
            cli_cpus,
            cli_mem,
            cli_oci_platform.deep_view(),
            opt_view(smolfile),
        ),
{
    let sf = match smolfile {
        Some(sf) => sf,
        None => {
            return PackConfig {
                image: cli_image,
                entrypoint: to_list(cli_entrypoint),
                cmd: empty_list(),
                cpus: cli_cpus,
                mem: cli_mem,
                oci_platform: cli_oci_platform,
                net: None,
                env: empty_list(),
                workdir: None,
            };
        },
    };
    let artifact = take_artifact(first_some(sf.artifact, sf.pack));
    let cpus: u8 = if cli_cpus != DEFAULT_MICROVM_CPU_COUNT {
        cli_cpus
    } else {
        first_some(artifact.cpus, sf.cpus).unwrap_or(cli_cpus)
    };
    let mem: u32 = if cli_mem != PACK_DEFAULT_MEMORY_MIB {
        cli_mem
    } else {
        first_some(artifact.memory, sf.memory).unwrap_or(cli_mem)
    };
    PackConfig {
        image: first_some(cli_image, sf.image),
        entrypoint: preferred(
            to_list(cli_entrypoint),
            preferred(artifact.entrypoint, sf.entrypoint),
        ),
        cmd: preferred(artifact.cmd, sf.cmd),
        cpus,
        mem,
        oci_platform: first_some(cli_oci_platform, artifact.oci_platform),
        net: sf.net,
        env: trim_all(&sf.env),
        workdir: sf.workdir,
    }
}

/// For a packed artifact a flag wins over the `[artifact]` section, which wins over
/// the top level of the Smolfile; `[artifact]` wins over `[pack]`.
pub proof fn artifact_precedence(
    image: Option<Seq<char>>,
    entrypoint: Option<Seq<char>>,
    cpus: u8,
    mem: u32,
    platform: Option<Seq<char>>,
    sf: SmolfileView,
)
    ensures
        ({
            let p = merged_pack(image, entrypoint, cpus, mem, platform, Some(sf));
            let a = artifact_of(sf);
            &&& image is Some ==> p.image == image
            &&& entrypoint is Some ==> p.entrypoint == seq![entrypoint->0]
            &&& entrypoint is None && a.entrypoint.len() > 0 ==> p.entrypoint == a.entrypoint
            &&& a.cmd.len() > 0 ==> p.cmd == a.cmd
            &&& cpus != DEFAULT_MICROVM_CPU_COUNT ==> p.cpus == cpus
            &&& cpus == DEFAULT_MICROVM_CPU_COUNT && a.cpus is Some ==> p.cpus == a.cpus->0
            &&& mem != PACK_DEFAULT_MEMORY_MIB ==> p.mem == mem
            &&& mem == PACK_DEFAULT_MEMORY_MIB && a.memory is Some ==> p.mem == a.memory->0
            &&& platform is Some ==> p.oci_platform == platform
            &&& sf.artifact is Some ==> a == sf.artifact->0
        }),
{
}

/// What neither a flag nor `[artifact]` gives, the top level of the Smolfile gives: image,
/// entrypoint, arguments and numbers. Variables, working directory and network of a packed
/// workload are always those of the top level.
pub proof fn packs_fall_back_to_the_top_level(
    image: Option<Seq<char>>,
    entrypoint: Option<Seq<char>>,
    cpus: u8,
    mem: u32,
    platform: Option<Seq<char>>,
    s: SmolfileView,
)
    ensures
        ({
            let p = merged_pack(image, entrypoint, cpus, mem, platform, Some(s));
            let section = if s.artifact is Some {
                s.artifact
            } else {
                s.pack
            };
            &&& image is None ==> p.image == s.image
            &&& entrypoint is None && (section is None || (section->0).entrypoint.len() == 0)
                ==> p.entrypoint == s.entrypoint
            &&& entrypoint is None && section is Some && (section->0).entrypoint.len() != 0
                ==> p.entrypoint == (section->0).entrypoint
            &&& section is None || (section->0).cmd.len() == 0 ==> p.cmd == s.cmd
            &&& section is Some && (section->0).cmd.len() != 0 ==> p.cmd == (section->0).cmd
            &&& cpus == DEFAULT_MICROVM_CPU_COUNT && (section is None || (section->0).cpus is None)
                ==> p.cpus == (if s.cpus is Some {
                s.cpus->0
            } else {
                cpus
            })
            &&& cpus == DEFAULT_MICROVM_CPU_COUNT && section is Some && (section->0).cpus is Some
                ==> p.cpus == (section->0).cpus->0
            &&& mem == PACK_DEFAULT_MEMORY_MIB && (section is None || (section->0).memory is None)
                ==> p.mem == (if s.memory is Some {
                s.memory->0
            } else {
                mem
            })
            &&& mem == PACK_DEFAULT_MEMORY_MIB && section is Some && (section->0).memory is Some
                ==> p.mem == (section->0).memory->0
            &&& platform is None ==> p.oci_platform == (if section is Some {
                (section->0).oci_platform
            } else {
                None
            })
            &&& p.workdir == s.workdir
            &&& p.net == s.net
            &&& p.env.len() == s.env.len()
            &&& forall|i: int| 0 <= i < s.env.len() ==> #[trigger] p.env[i] == trimmed(s.env[i])
        }),
{
}

/// Without a Smolfile a pack has what its flags give, and nothing else.
pub proof fn packs_without_smolfile_follow_their_flags(
    image: Option<Seq<char>>,
    entrypoint: Option<Seq<char>>,
    cpus: u8,
    mem: u32,
    platform: Option<Seq<char>>,
)
    ensures
        ({
            let p = merged_pack(image, entrypoint, cpus, mem, platform, None);
            &&& p.image == image
            &&& p.entrypoint.len() == (if entrypoint is Some {
                1nat
            } else {
                0
            })
            &&& entrypoint is Some ==> p.entrypoint[0] == entrypoint->0
            &&& p.cmd.len() == 0 && p.env.len() == 0
            &&& p.cpus == cpus && p.mem == mem
            &&& p.oci_platform == platform
            &&& p.net is None && p.workdir is None
        }),
{
}

} // verus!
