//! Machine commands.
use vstd::prelude::*;
use vstd::string::*;

use crate::agent::{
    default_idle_cmd, default_shell_cmd, idle_command, ImageInfo, LaunchFeatures,
    LaunchFeaturesView, RunConfig, RunConfigView,
};
use crate::cli::listing::{add_line, each_line, no_lines, ListedImage};
use crate::cli::lifecycle::NO_SSH_AGENT;
use crate::cli::parsers::{
    env_pairs, mounts_to_virtiofs_bindings, parse_env_list, record_mounts_to_runconfig_bindings,
};
use crate::cli::smolfile::{
    build_create_params, durations_fit, ends_with_list, flag_or, flags_override_smolfile,
    list_flags_are_appended, merged_params, nonempty, prefer, CreateFlags, CreateVmParams,
    CreateVmParamsView,
};
use crate::cli::vm_common::{label_of, overridden, DefaultVmOverrides, DefaultVmOverridesView};
use crate::cli::{format_bytes, size_text};
use crate::config::{record_resources, VmRecord, VmRecordView};
use crate::data::network::{duplicate_text, first_repeat, port_pairs, PortMapping};
use crate::data::resources::{
    VmResources, VmResourcesView, DEFAULT_MICROVM_CPU_COUNT, DEFAULT_MICROVM_MEMORY_MIB,
};
use crate::data::storage::{guest_sides, tagged, to_storage_tuples, HostMount, MountView};
use crate::duration::Duration;
use crate::error::{agent_error, config_error, outcome, Error, ErrorView};
use crate::lists::{clone_opt, clone_opt_strings, clone_strings, joined, or_else};
use crate::pack::{PackManifest, PackManifestView};
use crate::scan::{first_of, lemma_first_of_facts, split_first, split_once};
use crate::smolfile::{opt_view, Smolfile, SmolfileView};
use crate::text::{decimal, decimal_text, int_text, same, signed_text};

verus! {

// ---------------------------------------------------------------------------
// Commands
// ---------------------------------------------------------------------------

/// Manage machines
#[derive(Debug)]
pub enum MachineCmd {
    /// Run a container image in an ephemeral machine
    Run(RunCmd),
    /// Run a command directly in the VM (not in a container)
    Exec(ExecCmd),
    /// Create a new named machine configuration
    Create(CreateCmd),
    /// Start a machine
    Start(StartCmd),
    /// Stop a running machine
    Stop(StopCmd),
    /// Delete a machine configuration
    Delete(DeleteCmd),
    /// Show machine status
    Status(StatusCmd),
    /// List all machines
    Ls(LsCmd),
    /// Resize a machine's disk resources
    Resize(ResizeCmd),
    /// List cached images and storage usage
    Images(ImagesCmd),
    /// Remove unused images and layers to free disk space
    Prune(PruneCmd),
    /// Copy files between host and machine
    Cp(CpCmd),
    /// Monitor a machine with health checks and restart policy
    Monitor(MonitorCmd),
    /// Test network connectivity from inside the VM
    NetworkTest(NetworkTestCmd),
}

impl MachineCmd {
    /// Whether orphaned ephemeral machines are cleaned up before the command: not
    /// before a run, which makes and destroys its own machine.
    pub fn cleans_up_first(&self) -> (r: bool)
        ensures
            r == !(self is Run),
    {
        match self {
            MachineCmd::Run(_) => false,
            _ => true,
        }
    }
}

/// Run a container image in an ephemeral machine.
///
/// By default the machine is cleaned up after exit; with `detach` it is kept running.
#[derive(Debug)]
pub struct RunCmd {
    /// Container image. Optional when a Smolfile provides the image, or for bare VM mode.
    pub image: Option<String>,
    /// Command and arguments to run (default: image entrypoint or /bin/sh).
    pub command: Vec<String>,
    /// Run in background and keep machine alive after command exits.
    pub detach: bool,
    /// Keep stdin open for interactive input.
    pub interactive: bool,
    /// Allocate a pseudo-TTY.
    pub tty: bool,
    /// Kill command after duration.
    pub timeout: Option<Duration>,
    /// Working directory inside container.
    pub workdir: Option<String>,
    /// Environment variables.
    pub env: Vec<String>,
    /// Target OCI platform for multi-arch images.
    pub oci_platform: Option<String>,
    /// Host directories to mount.
    pub volume: Vec<String>,
    /// Ports to expose.
    pub port: Vec<PortMapping>,
    /// Enable outbound network access.
    pub net: bool,
    /// CIDR ranges that may be reached (implies net).
    pub allow_cidr: Vec<String>,
    /// Hostnames that may be reached (implies net).
    pub allow_host: Vec<String>,
    /// Restrict outbound to localhost only (implies net).
    pub outbound_localhost_only: bool,
    /// Number of virtual CPUs.
    pub cpus: u8,
    /// Memory allocation in MiB.
    pub mem: u32,
    /// Storage disk size in GiB.
    pub storage: Option<u64>,
    /// Overlay disk size in GiB.
    pub overlay: Option<u64>,
    /// Path of a Smolfile.
    pub smolfile: Option<String>,
    /// Forward host SSH agent into the VM.
    pub ssh_agent: bool,
    /// Mount the docker configuration into the VM for registry authentication.
    pub docker_config: bool,
    /// Enable GPU acceleration.
    pub gpu: bool,
    /// GPU shared-memory region size in MiB.
    pub gpu_vram: Option<u32>,
}

/// Execute a command in a running machine.
#[derive(Debug)]
pub struct ExecCmd {
    /// Command and arguments to execute.
    pub command: Vec<String>,
    /// Target machine (default: "default").
    pub name: Option<String>,
    /// Working directory in the VM.
    pub workdir: Option<String>,
    /// Environment variables.
    pub env: Vec<String>,
    /// Kill command after duration.
    pub timeout: Option<Duration>,
    /// Keep stdin open for interactive input.
    pub interactive: bool,
    /// Allocate a pseudo-TTY.
    pub tty: bool,
    /// Stream output in real-time.
    pub stream: bool,
}

/// Create a named machine configuration.
#[derive(Debug)]
pub struct CreateCmd {
    /// Name for the machine (auto-generated if omitted).
    pub name: Option<String>,
    /// Container image.
    pub image: Option<String>,
    /// Number of virtual CPUs.
    pub cpus: u8,
    /// Memory allocation in MiB.
    pub mem: u32,
    /// Storage disk size in GiB.
    pub storage: Option<u64>,
    /// Overlay disk size in GiB.
    pub overlay: Option<u64>,
    /// Host directories to mount.
    pub volume: Vec<String>,
    /// Ports to expose.
    pub port: Vec<PortMapping>,
    /// Enable outbound network access.
    pub net: bool,
    /// CIDR ranges that may be reached (implies net).
    pub allow_cidr: Vec<String>,
    /// Hostnames that may be reached (implies net).
    pub allow_host: Vec<String>,
    /// Restrict outbound to localhost only (implies net).
    pub outbound_localhost_only: bool,
    /// Commands run on every VM start.
    pub init: Vec<String>,
    /// Environment variables.
    pub env: Vec<String>,
    /// Working directory inside the machine.
    pub workdir: Option<String>,
    /// Forward host SSH agent into the VM.
    pub ssh_agent: bool,
    /// Path of a Smolfile.
    pub smolfile: Option<String>,
    /// Path of a packed .smolmachine artifact to create the machine from.
    pub from_artifact: Option<String>,
    /// Enable GPU acceleration.
    pub gpu: bool,
    /// GPU shared-memory region size in MiB.
    pub gpu_vram: Option<u32>,
}

/// Start a machine.
#[derive(Debug)]
pub struct StartCmd {
    /// Target machine (default: "default").
    pub name: Option<String>,
}

/// Stop a running machine.
#[derive(Debug)]
pub struct StopCmd {
    /// Target machine (default: "default").
    pub name: Option<String>,
}

/// Delete a machine configuration.
#[derive(Debug)]
pub struct DeleteCmd {
    /// Machine to delete.
    pub name: String,
    /// Skip confirmation prompt.
    pub force: bool,
}

/// Show machine status.
#[derive(Debug)]
pub struct StatusCmd {
    /// Target machine (default: "default").
    pub name: Option<String>,
}

/// List all machines.
#[derive(Debug)]
pub struct LsCmd {
    /// Show detailed configuration.
    pub verbose: bool,
    /// Output in JSON format.
    pub json: bool,
}

/// Resize a machine's disk resources.
#[derive(Debug)]
pub struct ResizeCmd {
    /// Target machine (default: "default").
    pub name: Option<String>,
    /// Storage disk size in GiB (expand only).
    pub storage: Option<u64>,
    /// Overlay disk size in GiB (expand only).
    pub overlay: Option<u64>,
}

/// Test network connectivity directly from a machine.
#[derive(Debug)]
pub struct NetworkTestCmd {
    /// Target machine (default: "default").
    pub name: Option<String>,
    /// URL to test.
    pub url: String,
}

/// List cached images and storage usage.
#[derive(Debug)]
pub struct ImagesCmd {
    /// Output in JSON format.
    pub json: bool,
}

/// Remove unused images and layers to free disk space.
#[derive(Debug)]
pub struct PruneCmd {
    /// Show what would be removed without actually removing.
    pub dry_run: bool,
    /// Remove all cached images (not just unreferenced layers).
    pub all: bool,
}

/// Copy files between host and a running machine.
#[derive(Debug)]
pub struct CpCmd {
    /// Source path (local file or machine:path).
    pub src: String,
    /// Destination path (local file or machine:path).
    pub dst: String,
}

/// Monitor a running machine with health checks and restart policy.
#[derive(Debug)]
pub struct MonitorCmd {
    /// Target machine (default: "default").
    pub name: Option<String>,
    /// Override restart policy.
    pub restart: Option<String>,
    /// Health check command (run inside the VM via sh -c).
    pub health_cmd: Option<String>,
    /// Health check timeout in seconds.
    pub health_timeout: u64,
    /// Check interval in seconds.
    pub interval: u64,
    /// Health check failures before triggering restart.
    pub health_retries: u32,
}

// ---------------------------------------------------------------------------
// Egress
// ---------------------------------------------------------------------------

/// All lists of a list, one behind the other.
pub open spec fn concatenated(v: Seq<Seq<Seq<char>>>) -> Seq<Seq<char>>
    decreases v.len(),
{
    if v.len() == 0 {
        Seq::empty()
    } else {
        concatenated(v.drop_last()) + v.last()
    }
}

/// The ranges that stand for the host itself.
pub open spec fn localhost_ranges() -> Seq<Seq<char>> {
    seq!["127.0.0.0/8"@, "::1/128"@]
}

/// The ranges that egress flags lead to.
pub open spec fn egress_ranges(
    allow_cidr: Seq<Seq<char>>,
    resolved: Seq<Seq<Seq<char>>>,
    localhost_only: bool,
) -> Seq<Seq<char>> {
    allow_cidr + concatenated(resolved) + (if localhost_only {
        localhost_ranges()
    } else {
        Seq::empty()
    })
}

/// Whether egress flags turn the network on.
pub open spec fn egress_net(net: bool, ranges: Seq<Seq<char>>) -> bool {
    net || ranges.len() > 0
}

/// The hostnames that may be resolved, where any were given.
pub open spec fn egress_filter(hosts: Seq<Seq<char>>) -> Option<Seq<Seq<char>>> {
    nonempty(hosts)
}

/// What egress flags come to.
#[derive(Debug)]
pub struct EgressFlags {
    /// Allowed CIDR ranges.
    pub cidrs: Vec<String>,
    /// Whether the network is on.
    pub net: bool,
    /// Hostnames for DNS filtering, where any were given.
    pub dns_filter_hosts: Option<Vec<String>>,
}

fn add_all(ranges: Vec<String>, resolved: &Vec<Vec<String>>) -> (r: Vec<String>)
    ensures
        r.deep_view() == ranges.deep_view() + concatenated(resolved.deep_view()),
{
    let ghost all = resolved.deep_view();
    let ghost start = ranges.deep_view();
    let mut r = ranges;
    proof {
        assert(all.take(0) =~= Seq::empty());
        assert(start + concatenated(all.take(0)) =~= start);
    }
    for i in 0..resolved.len()
        invariant
            all == resolved.deep_view(),
            r.deep_view() == start + concatenated(all.take(i as int)),
    {
        proof {
            assert(all.take(i + 1).drop_last() =~= all.take(i as int));
            assert(all.take(i + 1).last() == resolved@[i as int].deep_view());
            assert(start + concatenated(all.take(i + 1)) =~= start + concatenated(all.take(i as int))
                + resolved@[i as int].deep_view());
        }
        r = joined(r, clone_strings(&resolved[i]));
    }
    proof {
        assert(all.take(all.len() as int) =~= all);
    }
    r
}

/// Resolve `--allow-cidr`, `--allow-host`, and `--outbound-localhost-only` into a
/// CIDR list, net flag, and the original hostname list (for DNS filtering), given
/// the ranges of each host or the failure to resolve one.
///
/// Resolution failure for `--allow-host` is a hard error: a typo or DNS outage
/// should not silently weaken the security policy.
pub fn resolve_egress_flags(
    allow_cidr: Vec<String>,
    allow_host: Vec<String>,
    resolved: Result<Vec<Vec<String>>, String>,
    outbound_localhost_only: bool,
    net: bool,
) -> (r: Result<EgressFlags, Error>)
    requires
        resolved matches Ok(v) ==> v@.len() == allow_host@.len(),
    ensures
        match resolved {
            Err(e) => r matches Err(x) && x@ == config_error("--allow-host"@, e@),
            Ok(v) => {
                let ranges = egress_ranges(
                    allow_cidr.deep_view(),
                    v.deep_view(),
                    outbound_localhost_only,
                );
                r matches Ok(x) && x.cidrs.deep_view() == ranges && x.net == egress_net(net, ranges)
                    && x.dns_filter_hosts.deep_view() == egress_filter(allow_host.deep_view())
            },
        },
{
    let resolved = match resolved {
        Ok(v) => v,
        Err(e) => {
            return Err(Error::config("--allow-host", e));
        },
    };
    let mut cidrs = add_all(allow_cidr, &resolved);
    let ghost before = cidrs.deep_view();
    if outbound_localhost_only {
        cidrs.push("127.0.0.0/8".to_owned());
        cidrs.push("::1/128".to_owned());
    }
    proof {
        assert(cidrs.deep_view() =~= egress_ranges(
            allow_cidr.deep_view(),
            resolved.deep_view(),
            outbound_localhost_only,
        ));
    }
    let net = net || cidrs.len() > 0;
    let dns_filter_hosts = if allow_host.len() == 0 {
        None
    } else {
        Some(allow_host)
    };
    Ok(EgressFlags { cidrs, net, dns_filter_hosts })
}

/// Every way to restrict egress turns the network on and leaves a list of ranges
/// that is not empty; a list that is empty means no restriction was asked for.
pub proof fn restrictions_are_never_dropped(
    allow_cidr: Seq<Seq<char>>,
    resolved: Seq<Seq<Seq<char>>>,
    localhost_only: bool,
)
    requires
        forall|i: int| 0 <= i < resolved.len() ==> (#[trigger] resolved[i]).len() > 0,
    ensures
        egress_ranges(allow_cidr, resolved, localhost_only).len() == 0 <==> allow_cidr.len() == 0
            && resolved.len() == 0 && !localhost_only,
    decreases resolved.len(),
{
    if resolved.len() > 0 {
        assert(resolved.last().len() > 0);
    }
}

proof fn lemma_concatenated_holds(v: Seq<Seq<Seq<char>>>, range: Seq<char>)
    ensures
        concatenated(v).contains(range) <==> exists|i: int|
            0 <= i < v.len() && (#[trigger] v[i]).contains(range),
    decreases v.len(),
{
    if v.len() > 0 {
        let init = v.drop_last();
        lemma_concatenated_holds(init, range);
        let all = concatenated(v);
        if all.contains(range) {
            let k = choose|k: int| 0 <= k < all.len() && all[k] == range;
            if k < concatenated(init).len() {
                assert(concatenated(init)[k] == range);
                let i = choose|i: int| 0 <= i < init.len() && (#[trigger] init[i]).contains(range);
                assert(v[i].contains(range));
            } else {
                assert(v.last()[k - concatenated(init).len()] == range);
                assert(v[v.len() - 1].contains(range));
            }
        }
        if exists|i: int| 0 <= i < v.len() && (#[trigger] v[i]).contains(range) {
            let i = choose|i: int| 0 <= i < v.len() && (#[trigger] v[i]).contains(range);
            if i < init.len() {
                assert(init[i].contains(range));
                let k = choose|k: int|
                    0 <= k < concatenated(init).len() && concatenated(init)[k] == range;
                assert(all[k] == range);
            } else {
                let k = choose|k: int| 0 <= k < v.last().len() && v.last()[k] == range;
                assert(all[concatenated(init).len() + k] == range);
            }
        }
    }
}

/// Egress is allowed to a range exactly where a flag names it, where an allowed host was
/// resolved to it, or where it is one of the host's own and only that may be reached.
pub proof fn allowed_ranges_are_those_asked_for(
    allow_cidr: Seq<Seq<char>>,
    resolved: Seq<Seq<Seq<char>>>,
    localhost_only: bool,
    range: Seq<char>,
)
    ensures
        egress_ranges(allow_cidr, resolved, localhost_only).contains(range) <==> {
            ||| allow_cidr.contains(range)
            ||| exists|i: int| 0 <= i < resolved.len() && (#[trigger] resolved[i]).contains(range)
            ||| localhost_only && (range == "127.0.0.0/8"@ || range == "::1/128"@)
        },
{
    lemma_concatenated_holds(resolved, range);
    let named = concatenated(resolved);
    let own = if localhost_only {
        localhost_ranges()
    } else {
        Seq::empty()
    };
    let all = egress_ranges(allow_cidr, resolved, localhost_only);
    if all.contains(range) {
        let k = choose|k: int| 0 <= k < all.len() && all[k] == range;
        if k < allow_cidr.len() {
            assert(allow_cidr[k] == range);
        } else if k < allow_cidr.len() + named.len() {
            assert(named[k - allow_cidr.len()] == range);
        } else {
            assert(own[k - allow_cidr.len() - named.len()] == range);
        }
    }
    if allow_cidr.contains(range) {
        let k = choose|k: int| 0 <= k < allow_cidr.len() && allow_cidr[k] == range;
        assert(all[k] == range);
    }
    if named.contains(range) {
        let k = choose|k: int| 0 <= k < named.len() && named[k] == range;
        assert(all[allow_cidr.len() + k] == range);
    }
    if localhost_only {
        let n: int = (allow_cidr.len() + named.len()) as int;
        assert(all[n] == own[0] && all[n + 1] == own[1]);
    }
}

/// The network is on where it was asked for or egress was limited to a range, and off else;
/// names are filtered exactly where hosts were allowed, and to all of them.
pub proof fn limited_egress_turns_the_network_on(
    net: bool,
    ranges: Seq<Seq<char>>,
    hosts: Seq<Seq<char>>,
)
    ensures
        !egress_net(net, ranges) <==> !net && ranges.len() == 0,
        egress_filter(hosts) is None <==> hosts.len() == 0,
        egress_filter(hosts) matches Some(h) ==> h == hosts,
{
}

// ---------------------------------------------------------------------------
// Run
// ---------------------------------------------------------------------------

/// The message for a run without anything to run.
pub const NO_COMMAND: &'static str = "no command specified.\nUse: smolvm machine run -- <command>\nOr:  smolvm machine run -it";

/// What a run has been planned to do.
#[derive(Debug)]
pub struct RunPlan {
    /// Resources of the machine.
    pub resources: VmResources,
    /// Mounts of the machine.
    pub mounts: Vec<HostMount>,
    /// Whether a warning is owed that interactive flags are ignored.
    pub ignores_interactive: bool,
}

/// The resources of a new machine.
pub open spec fn params_resources(p: CreateVmParamsView) -> VmResourcesView {
    VmResourcesView {
        cpus: p.cpus,
        memory_mib: p.mem,
        network: p.net,
        network_backend: p.network_backend,
        gpu: p.gpu == Some(true),
        gpu_vram_mib: p.gpu_vram_mib,
        storage_gib: p.storage_gb,
        overlay_gib: p.overlay_gb,
        allowed_cidrs: p.allowed_cidrs,
    }
}

/// Whether a run has nothing to run: no command, no interactive session, no
/// detached machine, and nothing in the Smolfile.
pub open spec fn lacks_command(
    command: Seq<Seq<char>>,
    interactive: bool,
    tty: bool,
    detach: bool,
    p: CreateVmParamsView,
) -> bool {
    !interactive && !tty && !detach && command.len() == 0 && p.entrypoint.len() == 0 && p.cmd.len()
        == 0
}

/// The mounts of a run, given that of the docker configuration, where it is wanted and
/// there.
pub open spec fn run_mounts(mounts: Seq<MountView>, docker: Option<MountView>) -> Seq<MountView> {
    match docker {
        Some(d) => mounts.push(d),
        None => mounts,
    }
}

/// A run keeps every mount that was asked for, at its position; the docker configuration
/// comes on top of them.
pub proof fn runs_keep_their_mounts(mounts: Seq<MountView>, docker: Option<MountView>)
    ensures
        run_mounts(mounts, docker).len() == mounts.len() + (if docker is Some {
            1int
        } else {
            0
        }),
        forall|i: int|
            0 <= i < mounts.len() ==> #[trigger] run_mounts(mounts, docker)[i] == mounts[i],
        docker matches Some(d) ==> run_mounts(mounts, docker).last() == d,
{
}

/// The machine of a run has the resources that its parameters name; the GPU is on only where
/// that was said.
pub proof fn runs_get_their_resources(p: CreateVmParamsView)
    ensures
        ({
            let r = params_resources(p);
            &&& r.cpus == p.cpus && r.memory_mib == p.mem
            &&& r.network == p.net && r.network_backend == p.network_backend
            &&& r.gpu <==> p.gpu == Some(true)
            &&& r.gpu_vram_mib == p.gpu_vram_mib
            &&& r.storage_gib == p.storage_gb && r.overlay_gib == p.overlay_gb
            &&& r.allowed_cidrs == p.allowed_cidrs
        }),
{
}

/// Plan a run: ports must not be mapped twice, and there must be something to run.
/// The docker configuration is mounted last, where it is wanted and there.
pub fn plan_run(
    command: &Vec<String>,
    interactive: bool,
    tty: bool,
    detach: bool,
    params: &CreateVmParams,
    mounts: Vec<HostMount>,
    docker_mount: Option<HostMount>,
) -> (r: Result<RunPlan, Error>)
    ensures
        match (first_repeat(params@.port, 0), r) {
            (Some(i), Err(e)) => e@ == config_error(
                "validate ports"@,
                duplicate_text(params@.port[i].host),
            ),
            (Some(_), Ok(_)) => false,
            (None, Err(e)) => lacks_command(
                command.deep_view(),
                interactive,
                tty,
                detach,
                params@,
            ) && e@ == config_error("machine run"@, NO_COMMAND@),
            (None, Ok(p)) => {
                &&& !lacks_command(command.deep_view(), interactive, tty, detach, params@)
                &&& p.resources@ == params_resources(params@)
                &&& p.mounts.deep_view() == run_mounts(
                    mounts.deep_view(),
                    match docker_mount {
                        Some(d) => Some(d@),
                        None => None,
                    },
                )
                &&& p.ignores_interactive == (detach && (interactive || tty))
            },
        },
{
    match PortMapping::check_duplicates(&params.port) {
        Ok(()) => {},
        Err(e) => {
            return Err(Error::config("validate ports", e));
        },
    }
    let ghost given = mounts.deep_view();
    let mut mounts = mounts;
    match docker_mount {
        Some(d) => {
            mounts.push(d);
            proof {
                assert(mounts.deep_view() =~= given.push(d@));
            }
        },
        None => {},
    }
    if !interactive && !tty && !detach && command.len() == 0 && params.entrypoint.len() == 0
        && params.cmd.len() == 0 {
        return Err(Error::config("machine run", NO_COMMAND.to_owned()));
    }
    Ok(
        RunPlan {
            resources: VmResources {
                cpus: params.cpus,
                memory_mib: params.mem,
                network: params.net,
                network_backend: params.network_backend,
                gpu: params.gpu.unwrap_or(false),
                gpu_vram_mib: params.gpu_vram_mib,
                storage_gib: params.storage_gb,
                overlay_gib: params.overlay_gb,
                allowed_cidrs: clone_opt_strings(&params.allowed_cidrs),
            },
            mounts,
            ignores_interactive: detach && (interactive || tty),
        },
    )
}

/// The word for the kind of machine that a run starts.
pub fn run_mode(detach: bool) -> (r: &'static str)
    ensures
        r@ == (if detach {
            "persistent"@
        } else {
            "ephemeral"@
        }),
{
    if detach {
        "persistent"
    } else {
        "ephemeral"
    }
}

/// The launch features of a run, or the error for a missing SSH agent.
pub fn run_features(
    wants_ssh_agent: bool,
    ssh_auth_sock: Option<String>,
    dns_filter_hosts: Option<Vec<String>>,
) -> (r: Result<LaunchFeatures, Error>)
    ensures
        outcome(r) == (if wants_ssh_agent && ssh_auth_sock is None {
            Err(config_error("--ssh-agent"@, NO_SSH_AGENT@))
        } else {
            Ok(
                LaunchFeaturesView {
                    ssh_agent_socket: if wants_ssh_agent {
                        ssh_auth_sock.deep_view()
                    } else {
                        None
                    },
                    dns_filter_hosts: dns_filter_hosts.deep_view(),
                    packed_layers_dir: None,
                    extra_disks: Seq::empty(),
                },
            )
        }),
{
    let ssh_agent_socket = if wants_ssh_agent {
        match ssh_auth_sock {
            Some(path) => Some(path),
            None => {
                return Err(Error::config("--ssh-agent", NO_SSH_AGENT.to_owned()));
            },
        }
    } else {
        None
    };
    let extra_disks: Vec<(String, bool)> = Vec::new();
    proof {
        assert(extra_disks.deep_view() =~= Seq::empty());
    }
    Ok(LaunchFeatures { ssh_agent_socket, dns_filter_hosts, packed_layers_dir: None, extra_disks })
}

/// The command that a machine runs: trailing arguments, else the Smolfile's
/// entrypoint and command, else the image's, else a default.
pub open spec fn resolved_command(
    cli: Seq<Seq<char>>,
    entrypoint: Seq<Seq<char>>,
    cmd: Seq<Seq<char>>,
    image: Option<(Seq<Seq<char>>, Seq<Seq<char>>)>,
    detach: bool,
) -> Seq<Seq<char>> {
    let fallback = if detach {
        idle_command()
    } else {
        seq![crate::DEFAULT_SHELL_CMD@]
    };
    prefer(
        cli,
        prefer(
            entrypoint + cmd,
            prefer(
                match image {
                    Some((e, c)) => e + c,
                    None => Seq::empty(),
                },
                fallback,
            ),
        ),
    )
}

/// The command of a packed or pulled image, by its views.
pub open spec fn image_command(info: Option<ImageInfo>) -> Option<(Seq<Seq<char>>, Seq<Seq<char>>)> {
    match info {
        Some(i) => Some((i@.entrypoint, i@.cmd)),
        None => None,
    }
}

/// Resolve the command to run: trailing args > Smolfile entrypoint+cmd > image
/// metadata > defaults.
pub fn resolve_command(
    cli: &Vec<String>,
    entrypoint: &Vec<String>,
    cmd: &Vec<String>,
    image: &Option<ImageInfo>,
    detach: bool,
) -> (r: Vec<String>)
    ensures
        r.deep_view() == resolved_command(
            cli.deep_view(),
            entrypoint.deep_view(),
            cmd.deep_view(),
            image_command(*image),
            detach,
        ),
{
    if cli.len() > 0 {
        return clone_strings(cli);
    }
    if entrypoint.len() > 0 || cmd.len() > 0 {
        return joined(clone_strings(entrypoint), clone_strings(cmd));
    }
    match image {
        Some(info) => {
            if info.entrypoint.len() > 0 || info.cmd.len() > 0 {
                return joined(clone_strings(&info.entrypoint), clone_strings(&info.cmd));
            }
        },
        None => {},
    }
    if detach {
        default_idle_cmd()
    } else {
        default_shell_cmd()
    }
}

/// A command is always resolved to at least one word.
pub proof fn a_command_is_always_found(
    cli: Seq<Seq<char>>,
    entrypoint: Seq<Seq<char>>,
    cmd: Seq<Seq<char>>,
    image: Option<(Seq<Seq<char>>, Seq<Seq<char>>)>,
    detach: bool,
)
    ensures
        resolved_command(cli, entrypoint, cmd, image, detach).len() > 0,
        cli.len() > 0 ==> resolved_command(cli, entrypoint, cmd, image, detach) == cli,
{
}

/// A command comes from the first source that has one: the trailing arguments, then the
/// entrypoint and the arguments of the Smolfile, then those of the image, each as a whole.
/// A default is used only where all of them are empty: a shell, or an idle program in the
/// background.
pub proof fn commands_come_from_the_first_source(
    cli: Seq<Seq<char>>,
    entrypoint: Seq<Seq<char>>,
    cmd: Seq<Seq<char>>,
    image: Option<ImageInfo>,
    detach: bool,
)
    ensures
        ({
            let r = resolved_command(cli, entrypoint, cmd, image_command(image), detach);
            let named = entrypoint.len() != 0 || cmd.len() != 0;
            let built_in = image is Some && ((image->0)@.entrypoint.len() != 0 || (image->0)@.cmd.len()
                != 0);
            &&& cli.len() != 0 ==> r == cli
            &&& cli.len() == 0 && named ==> r == entrypoint + cmd
            &&& cli.len() == 0 && !named && built_in ==> r == (image->0)@.entrypoint + (
            image->0)@.cmd
            &&& cli.len() == 0 && !named && !built_in && detach ==> r == seq![
                "sleep"@,
                "infinity"@,
            ]
            &&& cli.len() == 0 && !named && !built_in && !detach ==> r == seq![
                crate::DEFAULT_SHELL_CMD@,
            ]
        }),
{
}

/// A run that is neither attached to a terminal nor kept in the background runs something
/// that was named: where there is nothing of the kind it is refused, so that it never ends
/// in a default.
pub proof fn unattended_runs_run_what_was_named(
    command: Seq<Seq<char>>,
    interactive: bool,
    tty: bool,
    p: CreateVmParamsView,
    image: Option<ImageInfo>,
)
    requires
        !interactive,
        !tty,
    ensures
        lacks_command(command, interactive, tty, false, p) <==> command.len() == 0
            && p.entrypoint.len() == 0 && p.cmd.len() == 0,
        !lacks_command(command, interactive, tty, false, p) ==> ({
            let r = resolved_command(command, p.entrypoint, p.cmd, image_command(image), false);
            r == command || r == p.entrypoint + p.cmd
        }),
{
}

/// A run that is attached to a terminal, or kept in the background, is never refused for
/// want of a command.
pub proof fn attached_runs_need_no_command(
    command: Seq<Seq<char>>,
    interactive: bool,
    tty: bool,
    detach: bool,
    p: CreateVmParamsView,
)
    requires
        interactive || tty || detach,
    ensures
        !lacks_command(command, interactive, tty, detach, p),
{
}

/// Whether a command does nothing but keep the machine idle.
pub fn is_idle(command: &Vec<String>) -> (r: bool)
    ensures
        r == (command@.len() == 0 || command.deep_view() == idle_command()),
{
    if command.len() == 0 {
        return true;
    }
    if command.len() != 2 {
        proof {
            assert(command.deep_view().len() != idle_command().len());
        }
        return false;
    }
    let idle = same(command[0].as_str(), "sleep") && same(command[1].as_str(), "infinity");
    proof {
        assert(command.deep_view()[0] == command@[0]@);
        assert(command.deep_view()[1] == command@[1]@);
        if idle {
            assert(command.deep_view() =~= idle_command());
        }
    }
    idle
}

/// The error for a pull that failed without network, with the hint that it needs one.
pub fn pull_without_network_error(reason: &str, image: &str) -> (r: Error)
    ensures
        r@ == agent_error(
            "pull image"@,
            reason@
                + "\n\nHint: networking is disabled. Add --net to enable image pulls:\n  smolvm machine run --net --image "@
                + image@ + " ..."@,
        ),
{
    Error::agent(
        "pull image",
        reason.to_owned().concat(
            "\n\nHint: networking is disabled. Add --net to enable image pulls:\n  smolvm machine run --net --image ",
        ).concat(image).concat(" ..."),
    )
}

/// What a detached run records of the default machine.
pub open spec fn overrides_of(
    p: CreateVmParamsView,
    mounts: Seq<MountView>,
    image: Option<Seq<char>>,
    ssh_agent: bool,
    hosts: Option<Seq<Seq<char>>>,
) -> DefaultVmOverridesView {
    DefaultVmOverridesView {
        cpus: p.cpus,
        mem: p.mem,
        mounts,
        ports: port_pairs(p.port),
        network: p.net,
        network_backend: p.network_backend,
        storage_gb: p.storage_gb,
        overlay_gb: p.overlay_gb,
        allowed_cidrs: p.allowed_cidrs,
        init: p.init,
        env: env_pairs(p.env),
        workdir: p.workdir,
        image,
        entrypoint: p.entrypoint,
        cmd: p.cmd,
        ssh_agent: ssh_agent || p.ssh_agent,
        dns_filter_hosts: hosts,
    }
}

/// A machine that a run leaves behind is recorded as it runs: started again from its record
/// it has the same mounts, ports and workload, and the same resources but for the GPU, which
/// its record has from before.
pub proof fn detached_machines_are_recorded_as_they_run(
    r: VmRecordView,
    p: CreateVmParamsView,
    mounts: Seq<MountView>,
    image: Option<Seq<char>>,
    ssh_agent: bool,
    hosts: Option<Seq<Seq<char>>>,
)
    ensures
        ({
            let v = overridden(r, overrides_of(p, mounts, image, ssh_agent, hosts));
            &&& record_resources(v) == (VmResourcesView {
                gpu: record_resources(r).gpu,
                gpu_vram_mib: record_resources(r).gpu_vram_mib,
                ..params_resources(p)
            })
            &&& v.mounts == mounts && v.image == image
            &&& v.ports.len() == p.port.len()
            &&& forall|i: int|
                0 <= i < p.port.len() ==> (#[trigger] v.ports[i]).0 == p.port[i].host
                    && v.ports[i].1 == p.port[i].guest
            &&& v.entrypoint == p.entrypoint && v.cmd == p.cmd && v.init == p.init
            &&& v.env == env_pairs(p.env) && v.workdir == p.workdir
            &&& v.ssh_agent <==> ssh_agent || p.ssh_agent
            &&& v.dns_filter_hosts == hosts
        }),
{
}

/// What a detached run records of the default machine.
pub fn detached_overrides(
    params: &CreateVmParams,
    mounts: &Vec<HostMount>,
    image: Option<String>,
    ssh_agent: bool,
    dns_filter_hosts: &Option<Vec<String>>,
) -> (r: DefaultVmOverrides)
    ensures
        r@ == overrides_of(
            params@,
            mounts.deep_view(),
            image.deep_view(),
            ssh_agent,
            dns_filter_hosts.deep_view(),
        ),
{
    DefaultVmOverrides {
        cpus: params.cpus,
        mem: params.mem,
        mounts: to_storage_tuples(mounts),
        ports: PortMapping::to_tuples(&params.port),
        network: params.net,
        network_backend: params.network_backend,
        storage_gb: params.storage_gb,
        overlay_gb: params.overlay_gb,
        allowed_cidrs: clone_opt_strings(&params.allowed_cidrs),
        init: clone_strings(&params.init),
        env: parse_env_list(&params.env),
        workdir: clone_opt(&params.workdir),
        image,
        entrypoint: clone_strings(&params.entrypoint),
        cmd: clone_strings(&params.cmd),
        ssh_agent: ssh_agent || params.ssh_agent,
        dns_filter_hosts: clone_opt_strings(dns_filter_hosts),
    }
}

/// The lines that end a detached run: with an image the machine waits in the background,
/// a bare one is shown with its process.
pub fn detached_lines(has_image: bool, pid: Option<i32>) -> (r: Vec<String>)
    ensures
        r.deep_view() == seq![
            if has_image {
                "Machine running in background"@
            } else {
                "Machine running (PID: "@ + int_text(match pid {
                    Some(p) => p as int,
                    None => 0,
                }) + ")"@
            },
            "\nTo interact:"@,
            "  smolvm machine exec -- <command>"@,
            "\nTo stop:"@,
            "  smolvm machine stop"@,
        ],
{
    let shown: i32 = match pid {
        Some(p) => p,
        None => 0,
    };
    let first = if has_image {
        String::from_str("Machine running in background")
    } else {
        String::from_str("Machine running (PID: ").concat(signed_text(shown as i64).as_str()).concat(
            ")",
        )
    };
    let ghost head = first@;
    let mut r = no_lines();
    add_line(&mut r, first);
    add_line(&mut r, String::from_str("\nTo interact:"));
    add_line(&mut r, String::from_str("  smolvm machine exec -- <command>"));
    add_line(&mut r, String::from_str("\nTo stop:"));
    add_line(&mut r, String::from_str("  smolvm machine stop"));
    proof {
        assert(r.deep_view() =~= seq![
            head,
            "\nTo interact:"@,
            "  smolvm machine exec -- <command>"@,
            "\nTo stop:"@,
            "  smolvm machine stop"@,
        ]);
    }
    r
}

/// The request that a run makes in an image.
pub open spec fn run_request_of(
    image: Seq<char>,
    command: Seq<Seq<char>>,
    p: CreateVmParamsView,
    mounts: Seq<MountView>,
    timeout: Option<Duration>,
    tty: bool,
) -> RunConfigView {
    RunConfigView {
        image,
        command,
        env: env_pairs(p.env),
        workdir: p.workdir,
        mounts: tagged(guest_sides(mounts)),
        timeout,
        tty,
        persistent_overlay_id: None,
    }
}

/// What a run asks of an image is what was asked of the run. Each mount appears at its
/// target, writable or not as it was given, and nothing of the filesystem is kept.
pub proof fn runs_ask_for_what_they_were_asked(
    image: Seq<char>,
    command: Seq<Seq<char>>,
    p: CreateVmParamsView,
    mounts: Seq<MountView>,
    timeout: Option<Duration>,
    tty: bool,
)
    ensures
        ({
            let r = run_request_of(image, command, p, mounts, timeout, tty);
            &&& r.image == image && r.command == command
            &&& r.workdir == p.workdir && r.timeout == timeout && r.tty == tty
            &&& r.env == env_pairs(p.env)
            &&& r.persistent_overlay_id is None
            &&& r.mounts.len() == mounts.len()
            &&& forall|i: int|
                0 <= i < mounts.len() ==> (#[trigger] r.mounts[i]).1 == mounts[i].1
                    && r.mounts[i].2 == mounts[i].2
        }),
{
}

/// The request that a run makes in an image.
pub fn run_request(
    image: &str,
    command: Vec<String>,
    params: &CreateVmParams,
    mounts: &Vec<HostMount>,
    timeout: Option<Duration>,
    tty: bool,
) -> (r: RunConfig)
    ensures
        r@ == run_request_of(
            image@,
            command.deep_view(),
            params@,
            mounts.deep_view(),
            timeout,
            tty,
        ),
{
    RunConfig::new(image, command).with_env(parse_env_list(&params.env)).with_workdir(
        clone_opt(&params.workdir),
    ).with_mounts(mounts_to_virtiofs_bindings(mounts)).with_timeout(timeout).with_tty(tty)
}

/// A command that runs in the machine itself, outside any image.
#[derive(Debug)]
pub struct BareRequest {
    /// Command and arguments.
    pub command: Vec<String>,
    /// Environment variables.
    pub env: Vec<(String, String)>,
    /// Working directory.
    pub workdir: Option<String>,
    /// Time limit.
    pub timeout: Option<Duration>,
    /// Whether a pseudo-TTY is allocated.
    pub tty: bool,
}

/// The request that a run makes in a bare machine.
pub fn bare_run_request(
    command: Vec<String>,
    params: &CreateVmParams,
    timeout: Option<Duration>,
    tty: bool,
) -> (r: BareRequest)
    ensures
        r.command == command,
        r.env.deep_view() == env_pairs(params@.env),
        r.workdir.deep_view() == params@.workdir,
        r.timeout == timeout,
        r.tty == tty,
{
    BareRequest {
        command,
        env: parse_env_list(&params.env),
        workdir: clone_opt(&params.workdir),
        timeout,
        tty,
    }
}

/// Parameters with the values of flags that no Smolfile merge knows.
pub open spec fn with_switches(
    p: CreateVmParamsView,
    ssh_agent: bool,
    gpu: bool,
    gpu_vram: Option<u32>,
    hosts: Option<Seq<Seq<char>>>,
) -> CreateVmParamsView {
    CreateVmParamsView {
        ssh_agent: ssh_agent || p.ssh_agent,
        gpu: if gpu {
            Some(true)
        } else {
            p.gpu
        },
        gpu_vram_mib: or_else(gpu_vram, p.gpu_vram_mib),
        dns_filter_hosts: or_else(hosts, p.dns_filter_hosts),
        ..p
    }
}

/// The same parameters, or the same error, with switches applied.
pub open spec fn merged_with_switches(
    merged: Result<CreateVmParamsView, ErrorView>,
    ssh_agent: bool,
    gpu: bool,
    gpu_vram: Option<u32>,
    hosts: Option<Seq<Seq<char>>>,
) -> Result<CreateVmParamsView, ErrorView> {
    match merged {
        Ok(p) => Ok(with_switches(p, ssh_agent, gpu, gpu_vram, hosts)),
        Err(e) => Err(e),
    }
}

fn apply_switches(
    p: CreateVmParams,
    ssh_agent: bool,
    gpu: bool,
    gpu_vram: Option<u32>,
    hosts: Option<Vec<String>>,
) -> (r: CreateVmParams)
    ensures
        r@ == with_switches(p@, ssh_agent, gpu, gpu_vram, hosts.deep_view()),
{
    let mut r = p;
    if ssh_agent {
        r.ssh_agent = true;
    }
    if gpu {
        r.gpu = Some(true);
    }
    if gpu_vram.is_some() {
        r.gpu_vram_mib = gpu_vram;
    }
    if hosts.is_some() {
        r.dns_filter_hosts = hosts;
    }
    r
}

/// A switch that is given turns on what it stands for, a value that is given is what the
/// machine gets; what is not given is left as the merge has it, and so is all else.
pub proof fn switches_add_to_the_merge(
    p: CreateVmParamsView,
    ssh_agent: bool,
    gpu: bool,
    gpu_vram: Option<u32>,
    hosts: Option<Seq<Seq<char>>>,
)
    ensures
        ({
            let q = with_switches(p, ssh_agent, gpu, gpu_vram, hosts);
            &&& q.ssh_agent <==> ssh_agent || p.ssh_agent
            &&& gpu ==> q.gpu == Some(true)
            &&& !gpu ==> q.gpu == p.gpu
            &&& gpu_vram is Some ==> q.gpu_vram_mib == gpu_vram
            &&& gpu_vram is None ==> q.gpu_vram_mib == p.gpu_vram_mib
            &&& hosts is Some ==> q.dns_filter_hosts == hosts
            &&& hosts is None ==> q.dns_filter_hosts == p.dns_filter_hosts
            &&& q == (CreateVmParamsView {
                ssh_agent: q.ssh_agent,
                gpu: q.gpu,
                gpu_vram_mib: q.gpu_vram_mib,
                dns_filter_hosts: q.dns_filter_hosts,
                ..p
            })
        }),
{
}

/// The hostnames whose addresses may be reached: those given as flags, then those
/// of the Smolfile.
pub fn egress_hosts(allow_host: &Vec<String>, smolfile: &Option<Smolfile>) -> (r: Vec<String>)
    ensures
        r.deep_view() == allow_host.deep_view() + (match opt_view(*smolfile) {
            Some(sf) => match sf.network {
                Some(n) => n.allow_hosts,
                None => Seq::empty(),
            },
            None => Seq::empty(),
        }),
{
    let own = clone_strings(allow_host);
    match smolfile {
        Some(sf) => match &sf.network {
            Some(n) => {
                return joined(own, clone_strings(&n.allow_hosts));
            },
            None => {},
        },
        None => {},
    }
    proof {
        assert(own.deep_view() + Seq::<Seq<char>>::empty() =~= own.deep_view());
    }
    own
}

impl RunCmd {
    /// The flags of a run as the merge with a Smolfile takes them.
    pub open spec fn create_flags(&self, egress: EgressFlags) -> CreateFlags {
        CreateFlags {
            name: "default"@,
            image: self.image.deep_view(),
            entrypoint: None,
            cmd: self.command.deep_view(),
            cpus: self.cpus,
            mem: self.mem,
            volume: self.volume.deep_view(),
            port: self.port@,
            net: egress.net,
            init: Seq::empty(),
            env: self.env.deep_view(),
            workdir: self.workdir.deep_view(),
            storage_gb: self.storage,
            overlay_gb: self.overlay,
            allow_cidr: egress.cidrs.deep_view(),
        }
    }

    /// The parameters of the machine that a run uses.
    pub fn into_params(self, egress: EgressFlags, smolfile: Option<Smolfile>) -> (r: Result<
        CreateVmParams,
        Error,
    >)
        requires
            smolfile matches Some(sf) ==> durations_fit(sf@),
        ensures
            outcome(r) == merged_with_switches(
                merged_params(self.create_flags(egress), opt_view(smolfile)),
                self.ssh_agent,
                self.gpu,
                self.gpu_vram,
                egress.dns_filter_hosts.deep_view(),
            ),
    {
        let init: Vec<String> = Vec::new();
        proof {
            assert(init.deep_view() =~= Seq::empty());
        }
        let merged = build_create_params(
            "default".to_owned(),
            self.image,
            None,
            self.command,
            self.cpus,
            self.mem,
            self.volume,
            self.port,
            egress.net,
            init,
            self.env,
            self.workdir,
            smolfile,
            self.storage,
            self.overlay,
            egress.cidrs,
        );
        match merged {
            Ok(p) => Ok(
                apply_switches(p, self.ssh_agent, self.gpu, self.gpu_vram, egress.dns_filter_hosts),
            ),
            Err(e) => Err(e),
        }
    }
}

impl CreateCmd {
    /// The flags of a creation as the merge with a Smolfile takes them; entrypoint
    /// and command come from the Smolfile only.
    pub open spec fn create_flags(&self, name: Seq<char>, egress: EgressFlags) -> CreateFlags {
        CreateFlags {
            name,
            image: self.image.deep_view(),
            entrypoint: None,
            cmd: Seq::empty(),
            cpus: self.cpus,
            mem: self.mem,
            volume: self.volume.deep_view(),
            port: self.port@,
            net: egress.net,
            init: self.init.deep_view(),
            env: self.env.deep_view(),
            workdir: self.workdir.deep_view(),
            storage_gb: self.storage,
            overlay_gb: self.overlay,
            allow_cidr: egress.cidrs.deep_view(),
        }
    }

    /// The parameters of the machine that a creation makes: an unnamed machine gets
    /// the generated name, and no host port may be mapped twice.
    pub fn into_params(
        self,
        generated_name: String,
        egress: EgressFlags,
        smolfile: Option<Smolfile>,
    ) -> (r: Result<CreateVmParams, Error>)
        requires
            smolfile matches Some(sf) ==> durations_fit(sf@),
        ensures
            ({
                let name = match self.name {
                    Some(n) => n@,
                    None => generated_name@,
                };
                match merged_with_switches(
                    merged_params(self.create_flags(name, egress), opt_view(smolfile)),
                    self.ssh_agent,
                    self.gpu,
                    self.gpu_vram,
                    egress.dns_filter_hosts.deep_view(),
                ) {
                    Err(e) => r matches Err(x) && x@ == e,
                    Ok(p) => match first_repeat(p.port, 0) {
                        Some(i) => r matches Err(x) && x@ == config_error(
                            "validate ports"@,
                            duplicate_text(p.port[i].host),
                        ),
                        None => r matches Ok(x) && x@ == p,
                    },
                }
            }),
    {
        let cmd: Vec<String> = Vec::new();
        proof {
            assert(cmd.deep_view() =~= Seq::empty());
        }
        let name = match self.name {
            Some(n) => n,
            None => generated_name,
        };
        let merged = build_create_params(
            name,
            self.image,
            None,
            cmd,
            self.cpus,
            self.mem,
            self.volume,
            self.port,
            egress.net,
            self.init,
            self.env,
            self.workdir,
            smolfile,
            self.storage,
            self.overlay,
            egress.cidrs,
        );
        let params = match merged {
            Ok(p) => apply_switches(
                p,
                self.ssh_agent,
                self.gpu,
                self.gpu_vram,
                egress.dns_filter_hosts,
            ),
            Err(e) => {
                return Err(e);
            },
        };
        match PortMapping::check_duplicates(&params.port) {
            Ok(()) => Ok(params),
            Err(e) => Err(Error::config("validate ports", e)),
        }
    }

    /// The parameters of a machine created from a packed artifact: non-default flags
    /// override the artifact's numbers, and variables given as flags are added.
    pub fn params_from_artifact(self, generated_name: String, manifest: PackManifest, path: String) -> (r:
        CreateVmParams)
        ensures
            r@ == artifact_params(
                match self.name {
                    Some(n) => n@,
                    None => generated_name@,
                },
                self,
                manifest@,
                path@,
            ),
    {
        let name = match self.name {
            Some(n) => n,
            None => generated_name,
        };
        CreateVmParams {
            name,
            image: Some(manifest.image),
            entrypoint: manifest.entrypoint,
            cmd: manifest.cmd,
            cpus: if self.cpus != DEFAULT_MICROVM_CPU_COUNT {
                self.cpus
            } else {
                manifest.cpus
            },
            mem: if self.mem != DEFAULT_MICROVM_MEMORY_MIB {
                self.mem
            } else {
                manifest.mem
            },
            volume: self.volume,
            port: self.port,
            net: self.net || manifest.network,
            network_backend: None,
            gpu: if self.gpu {
                Some(true)
            } else {
                None
            },
            gpu_vram_mib: self.gpu_vram,
            init: self.init,
            env: joined(manifest.env, self.env),
            workdir: manifest.workdir,
            storage_gb: self.storage,
            overlay_gb: self.overlay,
            allowed_cidrs: None,
            restart_policy: None,
            restart_max_retries: None,
            restart_max_backoff_secs: None,
            health_cmd: None,
            health_interval_secs: None,
            health_timeout_secs: None,
            health_retries: None,
            health_startup_grace_secs: None,
            ssh_agent: self.ssh_agent,
            dns_filter_hosts: None,
            source_smolmachine: Some(path),
        }
    }
}

/// The flags of a run reach the machine that it uses: with no Smolfile they are all that
/// it gets, and with one they win, or are added where they are lists.
pub proof fn flags_of_a_run_reach_its_machine(
    c: RunCmd,
    egress: EgressFlags,
    sf: Option<SmolfileView>,
    p: CreateVmParamsView,
)
    requires
        merged_with_switches(
            merged_params(c.create_flags(egress), sf),
            c.ssh_agent,
            c.gpu,
            c.gpu_vram,
            egress.dns_filter_hosts.deep_view(),
        ) == Ok::<CreateVmParamsView, ErrorView>(p),
    ensures
        p.name == "default"@,
        c.image matches Some(i) ==> p.image == Some(i@),
        c.command@.len() != 0 ==> p.cmd == c.command.deep_view(),
        c.workdir matches Some(w) ==> p.workdir == Some(w@),
        c.cpus != DEFAULT_MICROVM_CPU_COUNT || sf is None ==> p.cpus == c.cpus,
        c.mem != DEFAULT_MICROVM_MEMORY_MIB || sf is None ==> p.mem == c.mem,
        c.storage is Some || sf is None ==> p.storage_gb == c.storage,
        c.overlay is Some || sf is None ==> p.overlay_gb == c.overlay,
        egress.net ==> p.net,
        c.ssh_agent ==> p.ssh_agent,
        c.gpu ==> p.gpu == Some(true),
        c.gpu_vram is Some ==> p.gpu_vram_mib == c.gpu_vram,
        egress.dns_filter_hosts is Some ==> p.dns_filter_hosts
            == egress.dns_filter_hosts.deep_view(),
        ends_with_list(p.volume, c.volume.deep_view()),
        ends_with_list(p.port, c.port@),
        sf is None ==> {
            &&& p.volume == c.volume.deep_view() && p.port == c.port@
            &&& p.env == c.env.deep_view() && p.init.len() == 0 && p.entrypoint.len() == 0
            &&& p.net <==> egress.net || egress.cidrs@.len() != 0
        },
        egress.cidrs@.len() != 0 ==> p.allowed_cidrs is Some && ends_with_list(
            p.allowed_cidrs->0,
            egress.cidrs.deep_view(),
        ),
{
    let f = c.create_flags(egress);
    let m = merged_params(f, sf)->Ok_0;
    flags_override_smolfile(f, sf, m);
    list_flags_are_appended(f, sf, m);
}

/// The flags of a creation reach the machine that it makes.
pub proof fn flags_of_a_creation_reach_its_machine(
    c: CreateCmd,
    name: Seq<char>,
    egress: EgressFlags,
    sf: Option<SmolfileView>,
    p: CreateVmParamsView,
)
    requires
        merged_with_switches(
            merged_params(c.create_flags(name, egress), sf),
            c.ssh_agent,
            c.gpu,
            c.gpu_vram,
            egress.dns_filter_hosts.deep_view(),
        ) == Ok::<CreateVmParamsView, ErrorView>(p),
    ensures
        p.name == name,
        c.image matches Some(i) ==> p.image == Some(i@),
        sf matches Some(s) ==> p.entrypoint == s.entrypoint && p.cmd == s.cmd,
        sf is None ==> p.entrypoint.len() == 0 && p.cmd.len() == 0,
        c.workdir matches Some(w) ==> p.workdir == Some(w@),
        c.cpus != DEFAULT_MICROVM_CPU_COUNT || sf is None ==> p.cpus == c.cpus,
        c.mem != DEFAULT_MICROVM_MEMORY_MIB || sf is None ==> p.mem == c.mem,
        c.storage is Some || sf is None ==> p.storage_gb == c.storage,
        c.overlay is Some || sf is None ==> p.overlay_gb == c.overlay,
        egress.net ==> p.net,
        c.ssh_agent ==> p.ssh_agent,
        c.gpu ==> p.gpu == Some(true),
        c.gpu_vram is Some ==> p.gpu_vram_mib == c.gpu_vram,
        egress.dns_filter_hosts is Some ==> p.dns_filter_hosts
            == egress.dns_filter_hosts.deep_view(),
        ends_with_list(p.volume, c.volume.deep_view()),
        ends_with_list(p.port, c.port@),
        ends_with_list(p.init, c.init.deep_view()),
        sf is None ==> {
            &&& p.volume == c.volume.deep_view() && p.port == c.port@
            &&& p.env == c.env.deep_view() && p.init == c.init.deep_view()
            &&& p.net <==> egress.net || egress.cidrs@.len() != 0
        },
        egress.cidrs@.len() != 0 ==> p.allowed_cidrs is Some && ends_with_list(
            p.allowed_cidrs->0,
            egress.cidrs.deep_view(),
        ),
{
    let f = c.create_flags(name, egress);
    let m = merged_params(f, sf)->Ok_0;
    flags_override_smolfile(f, sf, m);
    list_flags_are_appended(f, sf, m);
}

/// The parameters of a machine created from a packed artifact.
pub open spec fn artifact_params(
    name: Seq<char>,
    c: CreateCmd,
    m: PackManifestView,
    path: Seq<char>,
) -> CreateVmParamsView {
    CreateVmParamsView {
        name,
        image: Some(m.image),
        entrypoint: m.entrypoint,
        cmd: m.cmd,
        cpus: flag_or(c.cpus, DEFAULT_MICROVM_CPU_COUNT, Some(m.cpus)),
        mem: flag_or(c.mem, DEFAULT_MICROVM_MEMORY_MIB, Some(m.mem)),
        volume: c.volume.deep_view(),
        port: c.port@,
        net: c.net || m.network,
        network_backend: None,
        gpu: if c.gpu {
            Some(true)
        } else {
            None
        },
        gpu_vram_mib: c.gpu_vram,
        init: c.init.deep_view(),
        env: m.env + c.env.deep_view(),
        workdir: m.workdir,
        storage_gb: c.storage,
        overlay_gb: c.overlay,
        allowed_cidrs: None,
        restart_policy: None,
        restart_max_retries: None,
        restart_max_backoff_secs: None,
        health_cmd: None,
        health_interval_secs: None,
        health_timeout_secs: None,
        health_retries: None,
        health_startup_grace_secs: None,
        ssh_agent: c.ssh_agent,
        dns_filter_hosts: None,
        source_smolmachine: Some(path),
    }
}

/// A machine created from a packed artifact is the packed one: it runs the artifact's
/// workload from the artifact's layers. Numbers given as flags win over those of the
/// artifact, variables given as flags come behind its own, and the network is on where the
/// artifact or a flag says so.
pub proof fn machines_from_artifacts_are_the_packed_ones(
    name: Seq<char>,
    c: CreateCmd,
    m: PackManifestView,
    path: Seq<char>,
)
    ensures
        ({
            let p = artifact_params(name, c, m, path);
            &&& p.name == name && p.source_smolmachine == Some(path)
            &&& p.image == Some(m.image)
            &&& p.entrypoint == m.entrypoint && p.cmd == m.cmd && p.workdir == m.workdir
            &&& c.cpus != DEFAULT_MICROVM_CPU_COUNT ==> p.cpus == c.cpus
            &&& c.cpus == DEFAULT_MICROVM_CPU_COUNT ==> p.cpus == m.cpus
            &&& c.mem != DEFAULT_MICROVM_MEMORY_MIB ==> p.mem == c.mem
            &&& c.mem == DEFAULT_MICROVM_MEMORY_MIB ==> p.mem == m.mem
            &&& p.net <==> c.net || m.network
            &&& p.volume == c.volume.deep_view() && p.port == c.port@
            &&& p.init == c.init.deep_view()
            &&& p.env.len() == m.env.len() + c.env@.len()
            &&& forall|i: int| 0 <= i < m.env.len() ==> #[trigger] p.env[i] == m.env[i]
            &&& forall|i: int|
                m.env.len() <= i < p.env.len() ==> #[trigger] p.env[i] == c.env.deep_view()[i
                    - m.env.len()]
            &&& p.storage_gb == c.storage && p.overlay_gb == c.overlay
            &&& p.ssh_agent == c.ssh_agent && p.gpu_vram_mib == c.gpu_vram
            &&& p.gpu == Some(true) <==> c.gpu
            &&& p.network_backend is None && p.allowed_cidrs is None && p.dns_filter_hosts is None
            &&& p.restart_policy is None && p.restart_max_retries is None
            &&& p.restart_max_backoff_secs is None && p.health_cmd is None
            &&& p.health_interval_secs is None && p.health_timeout_secs is None
            &&& p.health_retries is None && p.health_startup_grace_secs is None
        }),
{
}

// ---------------------------------------------------------------------------
// Exec
// ---------------------------------------------------------------------------

/// How a command is executed.
#[derive(Debug, Clone, Copy, PartialEq, Eq, Structural)]
pub enum ExecMode {
    /// In the machine, with output printed as it arrives.
    Stream,
    /// In the image, attached to the terminal.
    ImageInteractive,
    /// In the image, with output collected.
    Image,
    /// In the machine, attached to the terminal.
    BareInteractive,
    /// In the machine, with output collected.
    Bare,
}

/// How a command is executed in a machine that has an image or not.
pub open spec fn exec_mode(stream: bool, attached: bool, has_image: bool) -> ExecMode {
    if stream {
        ExecMode::Stream
    } else if has_image {
        if attached {
            ExecMode::ImageInteractive
        } else {
            ExecMode::Image
        }
    } else if attached {
        ExecMode::BareInteractive
    } else {
        ExecMode::Bare
    }
}

/// A command whose output is not streamed runs in the image exactly where the machine has
/// one, and is attached to the terminal exactly where that was asked for.
pub proof fn commands_run_where_the_machine_runs(stream: bool, attached: bool, has_image: bool)
    ensures
        ({
            let m = exec_mode(stream, attached, has_image);
            &&& m is Stream <==> stream
            &&& !stream ==> (m is ImageInteractive || m is Image <==> has_image)
            &&& !stream ==> (m is ImageInteractive || m is BareInteractive <==> attached)
        }),
{
}

/// The request for a command in a machine's image.
pub open spec fn exec_request_of(e: ExecCmd, image: Seq<char>, r: VmRecordView) -> RunConfigView {
    RunConfigView {
        image,
        command: e.command.deep_view(),
        env: env_pairs(e.env.deep_view()),
        workdir: or_else(e.workdir.deep_view(), r.workdir),
        mounts: tagged(guest_sides(r.mounts)),
        timeout: e.timeout,
        tty: e.tty,
        persistent_overlay_id: Some(label_of(e.name.deep_view())),
    }
}

/// A command runs as it was given, in the directory that was given with it, else in that of
/// the machine, with the machine's mounts. What it leaves in the filesystem belongs to the
/// machine: commands in one machine share it, and those in two machines do not.
pub proof fn commands_share_their_machine(
    e: ExecCmd,
    image: Seq<char>,
    r: VmRecordView,
    other: ExecCmd,
    other_image: Seq<char>,
    other_record: VmRecordView,
)
    ensures
        ({
            let q = exec_request_of(e, image, r);
            let o = exec_request_of(other, other_image, other_record);
            &&& q.image == image && q.command == e.command.deep_view()
            &&& q.timeout == e.timeout && q.tty == e.tty
            &&& q.env == env_pairs(e.env.deep_view())
            &&& e.workdir matches Some(w) ==> q.workdir == Some(w@)
            &&& e.workdir is None ==> q.workdir == r.workdir
            &&& q.mounts.len() == r.mounts.len()
            &&& forall|i: int|
                0 <= i < r.mounts.len() ==> (#[trigger] q.mounts[i]).1 == r.mounts[i].1
                    && q.mounts[i].2 == r.mounts[i].2
            &&& q.persistent_overlay_id is Some
            &&& e.name matches Some(n) ==> q.persistent_overlay_id == Some(n@)
            &&& e.name is None ==> q.persistent_overlay_id == Some("default"@)
            &&& e.name is Some && other.name is Some ==> (q.persistent_overlay_id
                == o.persistent_overlay_id <==> (e.name->0)@ == (other.name->0)@)
        }),
{
}

impl ExecCmd {
    /// How the command is executed in a machine that has an image or not.
    pub fn mode(&self, has_image: bool) -> (r: ExecMode)
        ensures
            r == exec_mode(self.stream, self.interactive || self.tty, has_image),
    {
        if self.stream {
            ExecMode::Stream
        } else if has_image {
            if self.interactive || self.tty {
                ExecMode::ImageInteractive
            } else {
                ExecMode::Image
            }
        } else if self.interactive || self.tty {
            ExecMode::BareInteractive
        } else {
            ExecMode::Bare
        }
    }

    /// The working directory: the flag takes priority over the recorded one.
    pub fn effective_workdir(&self, record: &Option<VmRecord>) -> (r: Option<String>)
        ensures
            r.deep_view() == or_else(
                self.workdir.deep_view(),
                match record {
                    Some(v) => v@.workdir,
                    None => None,
                },
            ),
    {
        match &self.workdir {
            Some(w) => Some(w.clone()),
            None => match record {
                Some(v) => clone_opt(&v.workdir),
                None => None,
            },
        }
    }

    /// The request for a command in a machine's image. The machine's name is the
    /// overlay, so that filesystem changes survive across commands.
    pub fn image_request(&self, image: &str, record: &VmRecord) -> (r: RunConfig)
        ensures
            r@ == exec_request_of(*self, image@, record@),
    {
        let name = match &self.name {
            Some(n) => n.clone(),
            None => "default".to_owned(),
        };
        let workdir = match &self.workdir {
            Some(w) => Some(w.clone()),
            None => clone_opt(&record.workdir),
        };
        RunConfig::new(image, clone_strings(&self.command)).with_env(
            parse_env_list(&self.env),
        ).with_workdir(workdir).with_mounts(
            record_mounts_to_runconfig_bindings(&record.mounts),
        ).with_timeout(self.timeout).with_tty(self.tty).with_persistent_overlay(Some(name))
    }

    /// The request for a command in the machine itself.
    pub fn bare_request(&self, record: &Option<VmRecord>) -> (r: BareRequest)
        ensures
            r.command.deep_view() == self.command.deep_view(),
            r.env.deep_view() == env_pairs(self.env.deep_view()),
            r.workdir.deep_view() == or_else(
                self.workdir.deep_view(),
                match record {
                    Some(v) => v@.workdir,
                    None => None,
                },
            ),
            r.timeout == self.timeout,
            r.tty == self.tty,
    {
        BareRequest {
            command: clone_strings(&self.command),
            env: parse_env_list(&self.env),
            workdir: self.effective_workdir(record),
            timeout: self.timeout,
            tty: self.tty,
        }
    }
}

// ---------------------------------------------------------------------------
// Copy
// ---------------------------------------------------------------------------

/// A copy between the host and a machine.
#[derive(Debug)]
pub struct CopyPlan {
    /// The machine.
    pub machine: String,
    /// Path in the machine.
    pub guest_path: String,
    /// Path on the host.
    pub local_path: String,
    /// Whether the file goes into the machine.
    pub upload: bool,
}

/// The machine, the paths and the direction of a copy.
pub open spec fn copy_plan(src: Seq<char>, dst: Seq<char>) -> Option<
    (Seq<char>, Seq<char>, Seq<char>, bool),
> {
    match split_first(src, ':') {
        Some((name, path)) => Some((name, path, dst, false)),
        None => match split_first(dst, ':') {
            Some((name, path)) => Some((name, path, src, true)),
            None => None,
        },
    }
}

/// A copy names one machine: the text before the first colon of whichever side has one, the
/// source first. What is behind that colon is the path in the machine, and the other side
/// is the path on the host. The file goes into the machine where the source has no colon.
pub proof fn copies_name_a_machine(src: Seq<char>, dst: Seq<char>)
    ensures
        match copy_plan(src, dst) {
            Some((machine, guest, local, upload)) => {
                &&& !machine.contains(':')
                &&& upload <==> !src.contains(':')
                &&& !upload ==> src == machine + seq![':'] + guest && local == dst
                &&& upload ==> dst == machine + seq![':'] + guest && local == src
            },
            None => !src.contains(':') && !dst.contains(':'),
        },
{
    lemma_first_of_facts(src, ':');
    lemma_first_of_facts(dst, ':');
    let k = first_of(src, ':');
    if k < src.len() {
        assert(src =~= src.take(k) + seq![':'] + src.skip(k + 1));
    } else {
        let j = first_of(dst, ':');
        if j < dst.len() {
            assert(dst =~= dst.take(j) + seq![':'] + dst.skip(j + 1));
        }
    }
}

impl CpCmd {
    /// Tell the direction of a copy: a source with a colon is in a machine, else a
    /// destination with a colon is.
    pub fn plan(&self) -> (r: Result<CopyPlan, Error>)
        ensures
            match copy_plan(self.src@, self.dst@) {
                Some((machine, guest, local, upload)) => r matches Ok(p) && p.machine@ == machine
                    && p.guest_path@ == guest && p.local_path@ == local && p.upload == upload,
                None => r matches Err(e) && e@ == config_error(
                    "cp"@,
                    "one of SRC or DST must use machine:path syntax (e.g., myvm:/workspace/file)"@,
                ),
            },
    {
        match split_once(self.src.as_str(), ':') {
            Some((machine, guest_path)) => Ok(
                CopyPlan { machine, guest_path, local_path: self.dst.clone(), upload: false },
            ),
            None => match split_once(self.dst.as_str(), ':') {
                Some((machine, guest_path)) => Ok(
                    CopyPlan { machine, guest_path, local_path: self.src.clone(), upload: true },
                ),
                None => Err(
                    Error::config(
                        "cp",
                        String::from_str(
                            "one of SRC or DST must use machine:path syntax (e.g., myvm:/workspace/file)",
                        ),
                    ),
                ),
            },
        }
    }
}

/// The overlay that a copy targets in a machine with an image.
pub fn persistent_overlay(machine: &str) -> (r: String)
    ensures
        r@ == "persistent-"@ + machine@,
{
    String::from_str("persistent-").concat(machine)
}

// ---------------------------------------------------------------------------
// Prune
// ---------------------------------------------------------------------------

/// The sum of sizes.
pub open spec fn sum_of(sizes: Seq<u64>) -> nat
    decreases sizes.len(),
{
    if sizes.len() == 0 {
        0
    } else {
        sum_of(sizes.drop_last()) + sizes.last() as nat
    }
}

proof fn lemma_sum_grows(sizes: Seq<u64>, k: int)
    requires
        0 <= k <= sizes.len(),
    ensures
        sum_of(sizes.take(k)) <= sum_of(sizes),
    decreases sizes.len(),
{
    if k < sizes.len() {
        lemma_sum_grows(sizes.drop_last(), k);
        assert(sizes.drop_last().take(k) =~= sizes.take(k));
    } else {
        assert(sizes.take(k) =~= sizes);
    }
}

/// The sum of sizes.
pub fn total_size(sizes: &Vec<u64>) -> (r: u64)
    requires
        sum_of(sizes@) <= u64::MAX,
    ensures
        r == sum_of(sizes@),
{
    let mut total: u64 = 0;
    proof {
        assert(sizes@.take(0) =~= Seq::empty());
    }
    for i in 0..sizes.len()
        invariant
            sum_of(sizes@) <= u64::MAX,
            total == sum_of(sizes@.take(i as int)),
    {
        proof {
            assert(sizes@.take(i + 1).drop_last() =~= sizes@.take(i as int));
            lemma_sum_grows(sizes@, i + 1);
        }
        total = total + sizes[i];
    }
    proof {
        assert(sizes@.take(sizes@.len() as int) =~= sizes@);
    }
    total
}

/// What a prune asks of the agent.
#[derive(Debug, Clone, Copy, PartialEq, Eq, Structural)]
pub enum PruneRequest {
    /// List the images that would be removed.
    ListImages,
    /// Remove unreferenced layers, if there are images at all.
    RemoveAll,
    /// Say how much unreferenced layers take.
    Scan,
    /// Remove unreferenced layers.
    Remove,
}

/// What a prune asks of the agent.
pub open spec fn prune_request(all: bool, dry_run: bool) -> PruneRequest {
    match (all, dry_run) {
        (true, true) => PruneRequest::ListImages,
        (true, false) => PruneRequest::RemoveAll,
        (false, true) => PruneRequest::Scan,
        (false, false) => PruneRequest::Remove,
    }
}

/// A prune removes something exactly where it is no dry run, and goes over all images
/// exactly where that was asked for.
pub proof fn dry_runs_remove_nothing(all: bool, dry_run: bool)
    ensures
        ({
            let r = prune_request(all, dry_run);
            &&& r is RemoveAll || r is Remove <==> !dry_run
            &&& r is ListImages || r is RemoveAll <==> all
        }),
{
}

impl PruneCmd {
    /// The error for a machine that runs.
    pub fn running_error() -> (r: Error)
        ensures
            r@ == agent_error(
                "prune"@,
                "cannot prune while the machine is running. Stop it first with 'smolvm machine stop'"@,
            ),
    {
        Error::agent(
            "prune",
            String::from_str(
                "cannot prune while the machine is running. Stop it first with 'smolvm machine stop'",
            ),
        )
    }

    /// What the prune asks of the agent. A dry run removes nothing.
    pub fn request(&self) -> (r: PruneRequest)
        ensures
            r == prune_request(self.all, self.dry_run),
            self.dry_run ==> r is ListImages || r is Scan,
    {
        if self.all {
            if self.dry_run {
                PruneRequest::ListImages
            } else {
                PruneRequest::RemoveAll
            }
        } else if self.dry_run {
            PruneRequest::Scan
        } else {
            PruneRequest::Remove
        }
    }
}

/// The line that closes a prune of layers.
pub fn prune_line(request: PruneRequest, bytes: u64) -> (r: String)
    requires
        !(request is ListImages),
    ensures
        r@ == (match request {
            PruneRequest::RemoveAll => "Freed "@ + size_text(bytes) + " of unreferenced layers"@,
            PruneRequest::Scan => if bytes > 0 {
                "Would free "@ + size_text(bytes) + " of unreferenced layers"@
            } else {
                "No unreferenced layers to remove."@
            },
            _ => if bytes > 0 {
                "Freed "@ + size_text(bytes)
            } else {
                "No unreferenced layers to remove."@
            },
        }),
{
    let size = format_bytes(bytes);
    match request {
        PruneRequest::RemoveAll => String::from_str("Freed ").concat(size.as_str()).concat(
            " of unreferenced layers",
        ),
        PruneRequest::Scan => if bytes > 0 {
            String::from_str("Would free ").concat(size.as_str()).concat(" of unreferenced layers")
        } else {
            String::from_str("No unreferenced layers to remove.")
        },
        _ => if bytes > 0 {
            String::from_str("Freed ").concat(size.as_str())
        } else {
            String::from_str("No unreferenced layers to remove.")
        },
    }
}

/// The sizes of cached images.
pub open spec fn image_sizes(images: Seq<ListedImage>) -> Seq<u64> {
    Seq::new(images.len(), |i: int| images[i].size)
}

/// The line of an image that would be removed.
pub open spec fn removable_image(i: ListedImage) -> Seq<char> {
    "  - "@ + i.reference@ + " ("@ + size_text(i.size) + ", "@ + decimal(i.layer_count as nat)
        + " layers)"@
}

/// The lines of a dry run that would remove all cached images.
pub fn removable_images(images: &Vec<ListedImage>) -> (r: Vec<String>)
    requires
        sum_of(image_sizes(images@)) <= u64::MAX,
    ensures
        r.deep_view() == (if images@.len() == 0 {
            seq!["No cached images to remove."@]
        } else {
            seq![
                "Would remove "@ + decimal(images@.len()) + " images ("@ + size_text(
                    sum_of(image_sizes(images@)) as u64,
                ) + ")"@,
            ] + each_line(images@, |i: ListedImage| removable_image(i))
        }),
{
    let mut r = no_lines();
    if images.len() == 0 {
        add_line(&mut r, String::from_str("No cached images to remove."));
        proof {
            assert(r.deep_view() =~= seq!["No cached images to remove."@]);
        }
        return r;
    }
    let mut sizes: Vec<u64> = Vec::new();
    for i in 0..images.len()
        invariant
            sizes@ =~= image_sizes(images@).take(i as int),
    {
        sizes.push(images[i].size);
    }
    proof {
        assert(sizes@ =~= image_sizes(images@));
    }
    add_line(
        &mut r,
        String::from_str("Would remove ").concat(
            decimal_text(images.len() as u64).as_str(),
        ).concat(" images (").concat(format_bytes(total_size(&sizes)).as_str()).concat(")"),
    );
    let ghost head = r.deep_view();
    let ghost rows = each_line(images@, |i: ListedImage| removable_image(i));
    proof {
        assert(head =~= seq![head[0]]);
        assert(head + rows.take(0) =~= head);
    }
    for i in 0..images.len()
        invariant
            rows == each_line(images@, |i: ListedImage| removable_image(i)),
            r.deep_view() == head + rows.take(i as int),
    {
        add_line(
            &mut r,
            String::from_str("  - ").concat(images[i].reference.as_str()).concat(" (").concat(
                format_bytes(images[i].size).as_str(),
            ).concat(", ").concat(decimal_text(images[i].layer_count as u64).as_str()).concat(
                " layers)",
            ),
        );
        proof {
            assert(rows.take(i + 1) =~= rows.take(i as int).push(rows[i as int]));
            assert(head + rows.take(i + 1) =~= (head + rows.take(i as int)).push(rows[i as int]));
        }
    }
    proof {
        assert(rows.take(rows.len() as int) =~= rows);
    }
    r
}

/// The space that cached images take is that of all of them together.
pub proof fn sizes_add_up(a: Seq<u64>, b: Seq<u64>, size: u64)
    ensures
        sum_of(a + b) == sum_of(a) + sum_of(b),
        sum_of(seq![size]) == size,
    decreases b.len(),
{
    assert(seq![size].drop_last() == Seq::<u64>::empty());
    assert(sum_of(seq![size].drop_last()) == 0);
    if b.len() == 0 {
        assert(a + b == a);
    } else {
        sizes_add_up(a, b.drop_last(), size);
        assert((a + b).drop_last() == a + b.drop_last());
        assert((a + b).last() == b.last());
    }
}

/// Each cached image counts with its own size.
pub proof fn images_count_with_their_sizes(images: Seq<ListedImage>, i: int)
    requires
        0 <= i < images.len(),
    ensures
        image_sizes(images).len() == images.len(),
        image_sizes(images)[i] == images[i].size,
{
}

} // verus!
