//! Machine records, init commands and the rules of the machine commands.
use vstd::prelude::*;
use vstd::string::*;

use crate::agent::{RunConfig, RunConfigView};
use crate::cli::listing::{add_line, no_lines};
use crate::cli::parsers::{env_pairs, parse_env_list, record_mounts_to_runconfig_bindings};
use crate::cli::smolfile::{CreateVmParams, CreateVmParamsView};
use crate::config::{
    default_restart, fresh_record, observed_state, process_alive, updated, RecordState,
    RecordUpdate, RestartConfig, RestartPolicy, SmolvmConfig, VmRecord, VmRecordView,
};
use crate::data::network::{port_pairs, PortMapping};
use crate::data::resources::{DEFAULT_MICROVM_CPU_COUNT, DEFAULT_MICROVM_MEMORY_MIB};
use crate::data::storage::{
    guest_sides, tagged, to_storage_tuples, HostMount, MountView, DEFAULT_OVERLAY_SIZE_GIB,
    DEFAULT_STORAGE_SIZE_GIB,
};
use crate::data::{validate_vm_name, vm_name_error};
use crate::error::{agent_error, config_error, Error, ErrorView};
use crate::lists::{
    clone_opt, clone_opt_strings, clone_pairs, clone_ports, clone_strings, clone_triples,
};
use crate::network::backend::NetworkBackend;
use crate::process::ProcessProbe;
use crate::scan::{trim, trimmed};
use crate::text::{decimal, decimal_text, int_text, same, signed_text};
use crate::util::is_timestamp;

verus! {

// ---------------------------------------------------------------------------
// Names
// ---------------------------------------------------------------------------

/// The name that stands for an optional one.
pub open spec fn resolved_name(name: Option<Seq<char>>, default_recorded: bool) -> Option<Seq<char>> {
    if name is None && default_recorded {
        Some("default"@)
    } else {
        name
    }
}

/// A name that is given is kept; where none is given the default machine is meant, by name
/// exactly where it is recorded. Either way the label is the same.
pub proof fn names_that_are_given_are_kept(name: Option<Seq<char>>, default_recorded: bool)
    ensures
        name is Some ==> resolved_name(name, default_recorded) == name,
        name is None ==> (resolved_name(name, default_recorded) is Some <==> default_recorded),
        label_of(resolved_name(name, default_recorded)) == label_of(name),
        name matches Some(n) ==> label_of(name) == n,
{
}

/// Resolve an optional VM name: if no name is given and a VM named "default" is
/// recorded, the name is "default", so that callers go through the recorded
/// configuration. Otherwise the input is unchanged.
pub fn resolve_vm_name(name: Option<String>, default_recorded: bool) -> (r: Option<String>)
    ensures
        r.deep_view() == resolved_name(name.deep_view(), default_recorded),
{
    if name.is_some() {
        return name;
    }
    if default_recorded {
        Some("default".to_owned())
    } else {
        None
    }
}

/// The display label for an optional VM name.
pub open spec fn label_of(name: Option<Seq<char>>) -> Seq<char> {
    match name {
        Some(n) => n,
        None => "default"@,
    }
}

/// Return the display label for an optional VM name.
pub fn vm_label(name: &Option<String>) -> (r: String)
    ensures
        r@ == label_of(name.deep_view()),
{
    match name {
        Some(n) => n.clone(),
        None => "default".to_owned(),
    }
}

/// The error for a machine that has to run first, with the command that starts it.
pub fn not_running_error(name: &Option<String>) -> (r: Error)
    ensures
        r@ == agent_error(
            "connect"@,
            "machine '"@ + label_of(name.deep_view()) + "' is not running. Use '"@ + (match name {
                Some(n) => "smolvm machine start --name "@ + n@,
                None => "smolvm machine start"@,
            }) + "' first."@,
        ),
{
    let hint = match name {
        Some(n) => String::from_str("smolvm machine start --name ").concat(n.as_str()),
        None => String::from_str("smolvm machine start"),
    };
    let label = vm_label(name);
    Error::agent(
        "connect",
        String::from_str("machine '").concat(label.as_str()).concat("' is not running. Use '").concat(
            hint.as_str(),
        ).concat("' first."),
    )
}

/// What to record of a machine whose agent could not be reached.
pub open spec fn unreachable_mark(r: VmRecordView, probe: ProcessProbe) -> Option<RecordUpdate> {
    if r.state == RecordState::Running && process_alive(r, probe) {
        Some(RecordUpdate::Unreachable)
    } else {
        None
    }
}

/// What to record of a machine whose agent could not be reached: one that is
/// recorded as running and whose process lives is unreachable; every other record
/// is accurate already.
pub fn mark_unreachable_if_zombie(record: &VmRecord, probe: &ProcessProbe) -> (r: Option<
    RecordUpdate,
>)
    ensures
        r == unreachable_mark(record@, *probe),
{
    match record.state {
        RecordState::Running => if record.is_process_alive(probe) {
            Some(RecordUpdate::Unreachable)
        } else {
            None
        },
        _ => None,
    }
}

/// The state of a machine, given what the host says of its process and whether its
/// agent answers: a live process without an answering agent is unreachable.
pub open spec fn probed_state(r: VmRecordView, probe: ProcessProbe, agent_answers: bool) -> RecordState {
    let seen = observed_state(r, probe);
    if seen == RecordState::Running && !agent_answers {
        RecordState::Unreachable
    } else {
        seen
    }
}

/// The state of a machine, given what the host says of its process and whether its
/// agent answers.
pub fn resolve_state(record: &VmRecord, probe: &ProcessProbe, agent_answers: bool) -> (r: RecordState)
    ensures
        r == probed_state(record@, *probe, agent_answers),
{
    match record.actual_state(probe) {
        RecordState::Running => if agent_answers {
            RecordState::Running
        } else {
            RecordState::Unreachable
        },
        other => other,
    }
}

/// A machine is unreachable exactly where it is recorded so, or where it is recorded as
/// running, its process lives and its agent does not answer. A machine whose agent does not
/// answer is marked so that its record says what is seen of it.
pub proof fn silent_machines_are_unreachable(
    r: VmRecordView,
    probe: ProcessProbe,
    agent_answers: bool,
)
    ensures
        ({
            let live = r.state is Running && process_alive(r, probe);
            &&& probed_state(r, probe, agent_answers) is Unreachable <==> r.state is Unreachable || (
            live && !agent_answers)
            &&& probed_state(r, probe, agent_answers) is Running <==> live && agent_answers
            &&& r.state is Running && !live ==> probed_state(r, probe, agent_answers) is Stopped
            &&& !(r.state is Running) ==> probed_state(r, probe, agent_answers) == r.state
            &&& unreachable_mark(r, probe) is Some <==> live
            &&& unreachable_mark(r, probe) matches Some(u) ==> updated(r, u).state == probed_state(
                r,
                probe,
                false,
            )
        }),
{
}

// ---------------------------------------------------------------------------
// Init commands
// ---------------------------------------------------------------------------

/// The words by which a shell runs a command line.
pub open spec fn shell_words(cmd: Seq<char>) -> Seq<Seq<char>> {
    seq!["sh"@, "-c"@, cmd]
}

/// Wrap a single init command line in `sh -c` argv form, so that shell features
/// (`&&`, `|`, env expansion) work in it.
pub fn init_argv(cmd: &str) -> (r: Vec<String>)
    ensures
        r.deep_view() == shell_words(cmd@),
{
    let mut r: Vec<String> = Vec::new();
    r.push("sh".to_owned());
    r.push("-c".to_owned());
    r.push(cmd.to_owned());
    proof {
        assert(r.deep_view() =~= shell_words(cmd@));
    }
    r
}

/// The request under which an image-based init command runs.
pub open spec fn init_request_of(
    image: Seq<char>,
    cmd: Seq<char>,
    env: Seq<(Seq<char>, Seq<char>)>,
    workdir: Option<Seq<char>>,
    mounts: Seq<MountView>,
    overlay: Seq<char>,
) -> RunConfigView {
    RunConfigView {
        image,
        command: shell_words(cmd),
        env,
        workdir,
        mounts: tagged(guest_sides(mounts)),
        timeout: None,
        tty: false,
        persistent_overlay_id: Some(overlay),
    }
}

/// An init command is run by a shell, as the whole of what the shell runs, in the machine's
/// image with its variables, directory and mounts. It takes as long as it takes, and what
/// it leaves in the filesystem stays.
pub proof fn init_commands_prepare_the_machine(
    image: Seq<char>,
    cmd: Seq<char>,
    env: Seq<(Seq<char>, Seq<char>)>,
    workdir: Option<Seq<char>>,
    mounts: Seq<MountView>,
    overlay: Seq<char>,
)
    ensures
        ({
            let r = init_request_of(image, cmd, env, workdir, mounts, overlay);
            &&& r.image == image && r.env == env && r.workdir == workdir
            &&& r.command.len() == 3 && r.command[0] == "sh"@ && r.command[1] == "-c"@
                && r.command[2] == cmd
            &&& r.timeout is None && !r.tty
            &&& r.persistent_overlay_id == Some(overlay)
            &&& r.mounts.len() == mounts.len()
            &&& forall|i: int|
                0 <= i < mounts.len() ==> (#[trigger] r.mounts[i]).1 == mounts[i].1
                    && r.mounts[i].2 == mounts[i].2
        }),
{
}

/// Build the request under which an image-based init command runs: the shell-wrapped
/// command, with environment, working directory and mounts handed on, and the
/// machine's own overlay, so that later commands see its effects.
pub fn build_init_run_config(
    image: &str,
    cmd: &str,
    env: &Vec<(String, String)>,
    workdir: &Option<String>,
    record_mounts: &Vec<(String, String, bool)>,
    overlay_id: &str,
) -> (r: RunConfig)
    ensures
        r@ == init_request_of(
            image@,
            cmd@,
            env.deep_view(),
            workdir.deep_view(),
            record_mounts.deep_view(),
            overlay_id@,
        ),
{
    RunConfig::new(image, init_argv(cmd)).with_env(clone_pairs(env)).with_workdir(
        clone_opt(workdir),
    ).with_mounts(record_mounts_to_runconfig_bindings(record_mounts)).with_persistent_overlay(
        Some(overlay_id.to_owned()),
    )
}

/// What follows the exit code in the message for a failed init command.
pub open spec fn failure_suffix(stdout: Seq<char>, stderr: Seq<char>) -> Seq<char> {
    if stdout.len() == 0 && stderr.len() == 0 {
        Seq::empty()
    } else if stderr.len() == 0 {
        ": "@ + stdout
    } else if stdout.len() == 0 {
        ": "@ + stderr
    } else {
        ": "@ + stderr + "; stdout: "@ + stdout
    }
}

/// Whatever a failed command wrote is shown, the error stream first, and nothing is added
/// where it wrote nothing.
pub proof fn failures_show_both_streams(stdout: Seq<char>, stderr: Seq<char>)
    ensures
        ({
            let s = failure_suffix(stdout, stderr);
            &&& stdout.len() + stderr.len() == 0 <==> s.len() == 0
            &&& stderr.len() > 0 ==> s.len() >= 2 + stderr.len() && s.subrange(
                2,
                (2 + stderr.len()) as int,
            ) == stderr
            &&& stdout.len() > 0 ==> s.len() >= stdout.len() && s.skip(s.len() - stdout.len())
                == stdout
            &&& stderr.len() > 0 && stdout.len() == 0 ==> s.len() == 2 + stderr.len()
        }),
{
    reveal_strlit(": ");
    reveal_strlit("; stdout: ");
    let s = failure_suffix(stdout, stderr);
    if stderr.len() > 0 {
        assert(s.subrange(2, (2 + stderr.len()) as int) =~= stderr);
    }
    if stdout.len() > 0 {
        assert(s.skip(s.len() - stdout.len()) =~= stdout);
    }
}

/// The message for a failed init command. Both streams are shown, without
/// surrounding white space, the error stream first: package managers often write
/// the reason of a failure to standard output.
pub open spec fn init_failure_text(
    index: nat,
    exit_code: i32,
    stdout: Seq<char>,
    stderr: Seq<char>,
) -> Seq<char> {
    "init["@ + decimal(index) + "] failed (exit "@ + int_text(exit_code as int) + ")"@
        + failure_suffix(trimmed(stdout), trimmed(stderr))
}

/// Compose the user-facing init-failure message.
pub fn format_init_failure(index: usize, exit_code: i32, stdout: &str, stderr: &str) -> (r: String)
    ensures
        r@ == init_failure_text(index as nat, exit_code, stdout@, stderr@),
{
    let so = trim(stdout);
    let se = trim(stderr);
    let suffix = if so.is_empty() && se.is_empty() {
        String::new()
    } else if se.is_empty() {
        String::from_str(": ").concat(so)
    } else if so.is_empty() {
        String::from_str(": ").concat(se)
    } else {
        String::from_str(": ").concat(se).concat("; stdout: ").concat(so)
    };
    String::from_str("init[").concat(decimal_text(index as u64).as_str()).concat(
        "] failed (exit ",
    ).concat(signed_text(exit_code as i64).as_str()).concat(")").concat(suffix.as_str())
}

/// What is to be reported of an init command: nothing where it succeeded.
pub fn init_outcome(index: usize, exit_code: i32, stdout: &str, stderr: &str) -> (r: Result<(), Error>)
    ensures
        exit_code == 0 <==> r is Ok,
        r matches Err(e) ==> e@ == agent_error(
            "init"@,
            init_failure_text(index as nat, exit_code, stdout@, stderr@),
        ),
{
    if exit_code != 0 {
        Err(Error::agent("init", format_init_failure(index, exit_code, stdout, stderr)))
    } else {
        Ok(())
    }
}

// ---------------------------------------------------------------------------
// Create
// ---------------------------------------------------------------------------

/// The restart configuration of a new machine.
pub open spec fn new_restart(p: CreateVmParamsView) -> RestartConfig {
    RestartConfig {
        policy: match p.restart_policy {
            Some(x) => x,
            None => RestartPolicy::Never,
        },
        max_retries: match p.restart_max_retries {
            Some(x) => x,
            None => 0,
        },
        max_backoff_secs: match p.restart_max_backoff_secs {
            Some(x) => x,
            None => 0,
        },
        ..default_restart()
    }
}

/// The record of a new machine.
pub open spec fn created_record(
    p: CreateVmParamsView,
    mounts: Seq<MountView>,
    created_at: Seq<char>,
) -> VmRecordView {
    VmRecordView {
        init: p.init,
        env: env_pairs(p.env),
        workdir: p.workdir,
        storage_gb: p.storage_gb,
        overlay_gb: p.overlay_gb,
        allowed_cidrs: p.allowed_cidrs,
        network_backend: p.network_backend,
        gpu: p.gpu,
        gpu_vram_mib: p.gpu_vram_mib,
        image: p.image,
        entrypoint: p.entrypoint,
        cmd: p.cmd,
        health_cmd: p.health_cmd,
        health_interval_secs: p.health_interval_secs,
        health_timeout_secs: p.health_timeout_secs,
        health_retries: p.health_retries,
        health_startup_grace_secs: p.health_startup_grace_secs,
        ssh_agent: p.ssh_agent,
        dns_filter_hosts: p.dns_filter_hosts,
        source_smolmachine: p.source_smolmachine,
        ..fresh_record(
            p.name,
            created_at,
            p.cpus,
            p.mem,
            mounts,
            port_pairs(p.port),
            p.net,
            new_restart(p),
        )
    }
}

/// Why a machine cannot be created, if it cannot: a bad name, a name that is taken,
/// or mounts that could not be resolved, in this order.
pub open spec fn create_refusal(
    p: CreateVmParamsView,
    vms: Map<Seq<char>, VmRecordView>,
    mounts_error: Option<ErrorView>,
) -> Option<ErrorView> {
    match vm_name_error(p.name, "machine name"@) {
        Some(reason) => Some(config_error("create machine"@, reason)),
        None => if vms.dom().contains(p.name) {
            Some(config_error("create machine"@, "machine '"@ + p.name + "' already exists"@))
        } else {
            mounts_error
        },
    }
}

/// Make the record of a named machine (does not start it), given its mounts as the
/// host resolved them.
pub fn create_vm(
    config: &SmolvmConfig,
    params: &CreateVmParams,
    mounts: Result<Vec<HostMount>, Error>,
) -> (r: Result<VmRecord, Error>)
    ensures
        match create_refusal(
            params@,
            config.vms@,
            match mounts {
                Ok(_) => None,
                Err(e) => Some(e@),
            },
        ) {
            Some(e) => r matches Err(x) && x@ == e,
            None => r matches Ok(v) && mounts is Ok && v@ == created_record(
                params@,
                mounts->Ok_0.deep_view(),
                v@.created_at,
            ) && is_timestamp(v@.created_at),
        },
{
    match validate_vm_name(params.name.as_str(), "machine name") {
        Ok(()) => {},
        Err(reason) => {
            return Err(Error::config("create machine", reason));
        },
    }
    if config.get_vm(params.name.as_str()).is_some() {
        return Err(
            Error::config(
                "create machine",
                String::from_str("machine '").concat(params.name.as_str()).concat(
                    "' already exists",
                ),
            ),
        );
    }
    let mounts = match mounts {
        Ok(m) => to_storage_tuples(&m),
        Err(e) => {
            return Err(e);
        },
    };
    let ports = PortMapping::to_tuples(&params.port);
    let restart = RestartConfig {
        policy: params.restart_policy.unwrap_or(RestartPolicy::Never),
        max_retries: params.restart_max_retries.unwrap_or(0),
        max_backoff_secs: params.restart_max_backoff_secs.unwrap_or(0),
        restart_count: 0,
        user_stopped: false,
    };
    let mut record = VmRecord::new_with_restart(
        params.name.clone(),
        params.cpus,
        params.mem,
        mounts,
        ports,
        params.net,
        restart,
    );
    record.init = clone_strings(&params.init);
    record.env = parse_env_list(&params.env);
    record.workdir = clone_opt(&params.workdir);
    record.storage_gb = params.storage_gb;
    record.overlay_gb = params.overlay_gb;
    record.allowed_cidrs = clone_opt_strings(&params.allowed_cidrs);
    record.network_backend = params.network_backend;
    record.gpu = params.gpu;
    record.gpu_vram_mib = params.gpu_vram_mib;
    record.image = clone_opt(&params.image);
    record.entrypoint = clone_strings(&params.entrypoint);
    record.cmd = clone_strings(&params.cmd);
    record.health_cmd = clone_opt_strings(&params.health_cmd);
    record.health_interval_secs = params.health_interval_secs;
    record.health_timeout_secs = params.health_timeout_secs;
    record.health_retries = params.health_retries;
    record.health_startup_grace_secs = params.health_startup_grace_secs;
    record.ssh_agent = params.ssh_agent;
    record.dns_filter_hosts = clone_opt_strings(&params.dns_filter_hosts);
    record.source_smolmachine = clone_opt(&params.source_smolmachine);
    Ok(record)
}

/// A line with a count, where there is anything to count.
pub open spec fn count_line(label: Seq<char>, n: nat) -> Seq<Seq<char>> {
    if n > 0 {
        seq![label + decimal(n)]
    } else {
        Seq::empty()
    }
}

fn add_count(lines: &mut Vec<String>, label: &str, n: usize)
    ensures
        final(lines).deep_view() == old(lines).deep_view() + count_line(label@, n as nat),
{
    if n > 0 {
        add_line(lines, label.to_owned().concat(decimal_text(n as u64).as_str()));
        proof {
            assert(lines.deep_view() =~= old(lines).deep_view() + count_line(label@, n as nat));
        }
    } else {
        proof {
            assert(lines.deep_view() =~= old(lines).deep_view() + count_line(label@, n as nat));
        }
    }
}

/// The lines that close the creation of a machine.
pub fn created_lines(params: &CreateVmParams) -> (r: Vec<String>)
    ensures
        r.deep_view() == seq![
            "Created machine: "@ + params@.name,
            "  CPUs: "@ + decimal(params@.cpus as nat) + ", Memory: "@ + decimal(params@.mem as nat)
                + " MiB"@,
        ] + count_line("  Mounts: "@, params@.volume.len()) + count_line(
            "  Ports: "@,
            params@.port.len(),
        ) + count_line("  Init commands: "@, params@.init.len()) + seq![
            "\nUse 'smolvm machine start --name "@ + params@.name + "' to start the machine"@,
            "Then use 'smolvm machine exec --name "@ + params@.name
                + " -- <command>' to run commands"@,
        ],
{
    let mut r = no_lines();
    add_line(&mut r, String::from_str("Created machine: ").concat(params.name.as_str()));
    add_line(
        &mut r,
        String::from_str("  CPUs: ").concat(decimal_text(params.cpus as u64).as_str()).concat(
            ", Memory: ",
        ).concat(decimal_text(params.mem as u64).as_str()).concat(" MiB"),
    );
    proof {
        assert(r.deep_view() =~= seq![
            "Created machine: "@ + params@.name,
            "  CPUs: "@ + decimal(params@.cpus as nat) + ", Memory: "@ + decimal(params@.mem as nat)
                + " MiB"@,
        ]);
    }
    add_count(&mut r, "  Mounts: ", params.volume.len());
    add_count(&mut r, "  Ports: ", params.port.len());
    add_count(&mut r, "  Init commands: ", params.init.len());
    let ghost before = r.deep_view();
    let start = String::from_str("\nUse 'smolvm machine start --name ").concat(
        params.name.as_str(),
    ).concat("' to start the machine");
    let run = String::from_str("Then use 'smolvm machine exec --name ").concat(
        params.name.as_str(),
    ).concat(" -- <command>' to run commands");
    let ghost tail = seq![start@, run@];
    add_line(&mut r, start);
    add_line(&mut r, run);
    proof {
        assert(r.deep_view() =~= before + tail);
    }
    r
}

/// A machine that was just created is not running, and creating it again under the
/// same name is refused.
pub proof fn created_machine_is_recorded(
    p: CreateVmParamsView,
    vms: Map<Seq<char>, VmRecordView>,
    mounts: Seq<MountView>,
    created_at: Seq<char>,
)
    requires
        create_refusal(p, vms, None) is None,
    ensures
        ({
            let v = created_record(p, mounts, created_at);
            &&& v.name == p.name
            &&& v.state == RecordState::Created
            &&& v.pid is None
            &&& create_refusal(p, vms.insert(p.name, v), None) is Some
        }),
{
}

/// The record of a new machine holds everything that was asked for, and a machine that is
/// started from it has the same resources, mounts, ports and workload.
pub proof fn created_machine_has_what_was_asked_for(
    p: CreateVmParamsView,
    mounts: Seq<MountView>,
    created_at: Seq<char>,
)
    ensures
        ({
            let v = created_record(p, mounts, created_at);
            &&& v.cpus == p.cpus && v.mem == p.mem
            &&& v.network == p.net && v.network_backend == p.network_backend
            &&& v.allowed_cidrs == p.allowed_cidrs && v.dns_filter_hosts == p.dns_filter_hosts
            &&& v.gpu == p.gpu && v.gpu_vram_mib == p.gpu_vram_mib
            &&& v.storage_gb == p.storage_gb && v.overlay_gb == p.overlay_gb
            &&& v.mounts == mounts
            &&& v.ports.len() == p.port.len()
            &&& forall|i: int|
                0 <= i < p.port.len() ==> (#[trigger] v.ports[i]).0 == p.port[i].host
                    && v.ports[i].1 == p.port[i].guest
            &&& v.image == p.image && v.entrypoint == p.entrypoint && v.cmd == p.cmd
            &&& v.init == p.init && v.env == env_pairs(p.env) && v.workdir == p.workdir
            &&& v.health_cmd == p.health_cmd && v.health_interval_secs == p.health_interval_secs
                && v.health_timeout_secs == p.health_timeout_secs && v.health_retries
                == p.health_retries && v.health_startup_grace_secs == p.health_startup_grace_secs
            &&& v.ssh_agent == p.ssh_agent && v.source_smolmachine == p.source_smolmachine
            &&& p.restart_policy matches Some(x) ==> v.restart.policy == x
            &&& p.restart_policy is None ==> v.restart.policy is Never
            &&& p.restart_max_retries matches Some(x) ==> v.restart.max_retries == x
            &&& p.restart_max_retries is None ==> v.restart.max_retries == 0
            &&& p.restart_max_backoff_secs matches Some(x) ==> v.restart.max_backoff_secs == x
            &&& p.restart_max_backoff_secs is None ==> v.restart.max_backoff_secs == 0
            &&& v.restart.restart_count == 0 && !v.restart.user_stopped
            &&& !v.ephemeral && v.last_exit_code is None && v.pid_start_time is None
            &&& v.created_at == created_at
        }),
{
}

/// A machine cannot be created exactly where its name is bad or taken, or its mounts could
/// not be resolved.
pub proof fn creations_are_refused_for_a_reason(
    p: CreateVmParamsView,
    vms: Map<Seq<char>, VmRecordView>,
    mounts_error: Option<ErrorView>,
)
    ensures
        create_refusal(p, vms, mounts_error) is None <==> vm_name_error(p.name, "machine name"@)
            is None && !vms.dom().contains(p.name) && mounts_error is None,
{
}

/// Configuration of the default machine that replaces the recorded one.
#[derive(Debug)]
pub struct DefaultVmOverrides {
    /// Number of vCPUs.
    pub cpus: u8,
    /// Memory in MiB.
    pub mem: u32,
    /// Volume mounts.
    pub mounts: Vec<(String, String, bool)>,
    /// Port mappings.
    pub ports: Vec<(u16, u16)>,
    /// Whether outbound network access is enabled.
    pub network: bool,
    /// Network backend override.
    pub network_backend: Option<NetworkBackend>,
    /// Storage disk size in GiB.
    pub storage_gb: Option<u64>,
    /// Overlay disk size in GiB.
    pub overlay_gb: Option<u64>,
    /// Allowed egress CIDR ranges.
    pub allowed_cidrs: Option<Vec<String>>,
    /// Init commands.
    pub init: Vec<String>,
    /// Environment variables.
    pub env: Vec<(String, String)>,
    /// Working directory.
    pub workdir: Option<String>,
    /// OCI image.
    pub image: Option<String>,
    /// Entrypoint.
    pub entrypoint: Vec<String>,
    /// Command.
    pub cmd: Vec<String>,
    /// Whether the SSH agent is forwarded.
    pub ssh_agent: bool,
    /// Hostnames for DNS filtering.
    pub dns_filter_hosts: Option<Vec<String>>,
}

/// The mathematical value of a [`DefaultVmOverrides`].
pub struct DefaultVmOverridesView {
    /// See [`DefaultVmOverrides::cpus`].
    pub cpus: u8,
    /// See [`DefaultVmOverrides::mem`].
    pub mem: u32,
    /// See [`DefaultVmOverrides::mounts`].
    pub mounts: Seq<(Seq<char>, Seq<char>, bool)>,
    /// See [`DefaultVmOverrides::ports`].
    pub ports: Seq<(u16, u16)>,
    /// See [`DefaultVmOverrides::network`].
    pub network: bool,
    /// See [`DefaultVmOverrides::network_backend`].
    pub network_backend: Option<NetworkBackend>,
    /// See [`DefaultVmOverrides::storage_gb`].
    pub storage_gb: Option<u64>,
    /// See [`DefaultVmOverrides::overlay_gb`].
    pub overlay_gb: Option<u64>,
    /// See [`DefaultVmOverrides::allowed_cidrs`].
    pub allowed_cidrs: Option<Seq<Seq<char>>>,
    /// See [`DefaultVmOverrides::init`].
    pub init: Seq<Seq<char>>,
    /// See [`DefaultVmOverrides::env`].
    pub env: Seq<(Seq<char>, Seq<char>)>,
    /// See [`DefaultVmOverrides::workdir`].
    pub workdir: Option<Seq<char>>,
    /// See [`DefaultVmOverrides::image`].
    pub image: Option<Seq<char>>,
    /// See [`DefaultVmOverrides::entrypoint`].
    pub entrypoint: Seq<Seq<char>>,
    /// See [`DefaultVmOverrides::cmd`].
    pub cmd: Seq<Seq<char>>,
    /// See [`DefaultVmOverrides::ssh_agent`].
    pub ssh_agent: bool,
    /// See [`DefaultVmOverrides::dns_filter_hosts`].
    pub dns_filter_hosts: Option<Seq<Seq<char>>>,
}

impl View for DefaultVmOverrides {
    type V = DefaultVmOverridesView;

    open spec fn view(&self) -> DefaultVmOverridesView {
        DefaultVmOverridesView {
            cpus: self.cpus,
            mem: self.mem,
            mounts: self.mounts.deep_view(),
            ports: self.ports@,
            network: self.network,
            network_backend: self.network_backend,
            storage_gb: self.storage_gb,
            overlay_gb: self.overlay_gb,
            allowed_cidrs: self.allowed_cidrs.deep_view(),
            init: self.init.deep_view(),
            env: self.env.deep_view(),
            workdir: self.workdir.deep_view(),
            image: self.image.deep_view(),
            entrypoint: self.entrypoint.deep_view(),
            cmd: self.cmd.deep_view(),
            ssh_agent: self.ssh_agent,
            dns_filter_hosts: self.dns_filter_hosts.deep_view(),
        }
    }
}

/// A record with the values of overrides.
pub open spec fn overridden(r: VmRecordView, o: DefaultVmOverridesView) -> VmRecordView {
    VmRecordView {
        cpus: o.cpus,
        mem: o.mem,
        mounts: o.mounts,
        ports: o.ports,
        network: o.network,
        network_backend: o.network_backend,
        storage_gb: o.storage_gb,
        overlay_gb: o.overlay_gb,
        allowed_cidrs: o.allowed_cidrs,
        init: o.init,
        env: o.env,
        workdir: o.workdir,
        image: o.image,
        entrypoint: o.entrypoint,
        cmd: o.cmd,
        ssh_agent: o.ssh_agent,
        dns_filter_hosts: o.dns_filter_hosts,
        ..r
    }
}

/// The record of a default machine that was never configured.
pub open spec fn default_record(created_at: Seq<char>) -> VmRecordView {
    fresh_record(
        "default"@,
        created_at,
        DEFAULT_MICROVM_CPU_COUNT,
        DEFAULT_MICROVM_MEMORY_MIB,
        Seq::empty(),
        Seq::empty(),
        false,
        default_restart(),
    )
}

/// The default machine's record as running, with overrides where they are given.
pub open spec fn running_default(
    r: VmRecordView,
    pid: Option<i32>,
    pid_start_time: Option<u64>,
    overrides: Option<DefaultVmOverridesView>,
) -> VmRecordView {
    let running = updated(r, RecordUpdate::Running { pid, pid_start_time });
    match overrides {
        Some(o) => overridden(running, o),
        None => running,
    }
}

/// The record to persist for a default machine that runs: the recorded one, or a
/// fresh one where there is none, marked as running and with overrides applied.
pub fn persist_default_running(
    config: &SmolvmConfig,
    pid: Option<i32>,
    pid_start_time: Option<u64>,
    overrides: &Option<DefaultVmOverrides>,
) -> (r: VmRecord)
    ensures
        ({
            let o = match overrides {
                Some(x) => Some(x@),
                None => None,
            };
            if config.vms@.dom().contains("default"@) {
                r@ == running_default(config.vms@["default"@], pid, pid_start_time, o)
            } else {
                is_timestamp(r@.created_at) && r@ == running_default(
                    default_record(r@.created_at),
                    pid,
                    pid_start_time,
                    o,
                )
            }
        }),
{
    let mut record = match config.get_vm("default") {
        Some(v) => v.clone(),
        None => {
            let mounts: Vec<(String, String, bool)> = Vec::new();
            let ports: Vec<(u16, u16)> = Vec::new();
            proof {
                assert(mounts.deep_view() =~= Seq::empty());
                assert(ports@ =~= Seq::empty());
            }
            VmRecord::new(
                "default".to_owned(),
                DEFAULT_MICROVM_CPU_COUNT,
                DEFAULT_MICROVM_MEMORY_MIB,
                mounts,
                ports,
                false,
            )
        },
    };
    record.apply(RecordUpdate::Running { pid, pid_start_time });
    match overrides {
        Some(o) => {
                record.cpus = o.cpus;
                record.mem = o.mem;
                record.mounts = clone_triples(&o.mounts);
                record.ports = clone_ports(&o.ports);
                record.network = o.network;
                record.network_backend = o.network_backend;
                record.storage_gb = o.storage_gb;
                record.overlay_gb = o.overlay_gb;
                record.allowed_cidrs = clone_opt_strings(&o.allowed_cidrs);
                record.init = clone_strings(&o.init);
                record.env = clone_pairs(&o.env);
                record.workdir = clone_opt(&o.workdir);
                record.image = clone_opt(&o.image);
                record.entrypoint = clone_strings(&o.entrypoint);
                record.cmd = clone_strings(&o.cmd);
                record.ssh_agent = o.ssh_agent;
                record.dns_filter_hosts = clone_opt_strings(&o.dns_filter_hosts);
        },
        None => {},
    }
    record
}

/// A default machine that runs is recorded as the process that it is. What it was started
/// with replaces what was recorded before, and where nothing is said the record stays;
/// restarts, health checks and the GPU are not touched either way.
pub proof fn running_default_is_recorded_as_it_runs(
    r: VmRecordView,
    pid: Option<i32>,
    pid_start_time: Option<u64>,
    overrides: Option<DefaultVmOverridesView>,
)
    ensures
        ({
            let v = running_default(r, pid, pid_start_time, overrides);
            &&& v.state is Running && v.pid == pid && v.pid_start_time == pid_start_time
            &&& v.name == r.name && v.created_at == r.created_at && v.restart == r.restart
            &&& v.health_cmd == r.health_cmd && v.gpu == r.gpu && v.gpu_vram_mib
                == r.gpu_vram_mib && v.ephemeral == r.ephemeral
            &&& overrides matches Some(o) ==> {
                &&& v.cpus == o.cpus && v.mem == o.mem
                &&& v.mounts == o.mounts && v.ports == o.ports
                &&& v.network == o.network && v.network_backend == o.network_backend
                    && v.allowed_cidrs == o.allowed_cidrs && v.dns_filter_hosts
                    == o.dns_filter_hosts
                &&& v.storage_gb == o.storage_gb && v.overlay_gb == o.overlay_gb
                &&& v.init == o.init && v.env == o.env && v.workdir == o.workdir
                &&& v.image == o.image && v.entrypoint == o.entrypoint && v.cmd == o.cmd
                &&& v.ssh_agent == o.ssh_agent
            }
            &&& overrides is None ==> v == (VmRecordView {
                state: v.state,
                pid: v.pid,
                pid_start_time: v.pid_start_time,
                ..r
            })
        }),
{
}

// ---------------------------------------------------------------------------
// Port conflicts
// ---------------------------------------------------------------------------

/// Whether a host port is among those of a list of mappings.
pub open spec fn uses_host_port(ports: Seq<PortMapping>, host: u16) -> bool {
    exists|i: int| 0 <= i < ports.len() && (#[trigger] ports[i]).host == host
}

/// The first of a machine's host ports, from position `i` on, that a list of
/// mappings uses too.
pub open spec fn shared_port(theirs: Seq<(u16, u16)>, ours: Seq<PortMapping>, i: int) -> Option<u16>
    decreases theirs.len() - i,
{
    if i >= theirs.len() {
        None
    } else if uses_host_port(ours, theirs[i].0) {
        Some(theirs[i].0)
    } else {
        shared_port(theirs, ours, i + 1)
    }
}

/// The host port that a machine keeps from others: none for the machine itself and
/// for one that does not run.
pub open spec fn port_taken_by(
    self_name: Seq<char>,
    ours: Seq<PortMapping>,
    name: Seq<char>,
    record: VmRecordView,
    probe: ProcessProbe,
) -> Option<u16> {
    if name == self_name || observed_state(record, probe) != RecordState::Running {
        None
    } else {
        shared_port(record.ports, ours, 0)
    }
}

fn uses_port(ports: &Vec<PortMapping>, host: u16) -> (r: bool)
    ensures
        r == uses_host_port(ports@, host),
{
    for i in 0..ports.len()
        invariant
            forall|j: int| 0 <= j < i ==> (#[trigger] ports@[j]).host != host,
    {
        if ports[i].host == host {
            return true;
        }
    }
    false
}

fn first_shared_port(theirs: &Vec<(u16, u16)>, ours: &Vec<PortMapping>) -> (r: Option<u16>)
    ensures
        r == shared_port(theirs@, ours@, 0),
{
    let mut i: usize = 0;
    while i < theirs.len()
        invariant
            i <= theirs@.len(),
            shared_port(theirs@, ours@, 0) == shared_port(theirs@, ours@, i as int),
        decreases theirs@.len() - i,
    {
        if uses_port(ours, theirs[i].0) {
            return Some(theirs[i].0);
        }
        i = i + 1;
    }
    None
}

/// Check if any running VM already binds to the same host ports, given what the
/// host says of each VM's process.
///
/// Skips the current VM (`self_name`) and VMs that do not run; the first conflict in
/// the order of the list is reported.
pub fn check_port_conflicts(
    self_name: &str,
    ports: &Vec<PortMapping>,
    vms: &Vec<(String, VmRecord)>,
    probes: &Vec<ProcessProbe>,
) -> (r: Result<(), Error>)
    requires
        probes@.len() == vms@.len(),
    ensures
        r is Ok <==> (forall|i: int|
            0 <= i < vms@.len() ==> (#[trigger] conflict_at(self_name@, ports@, vms@, probes@, i)) is None),
        r matches Err(e) ==> exists|i: int|
            0 <= i < vms@.len() && (#[trigger] conflict_at(self_name@, ports@, vms@, probes@, i)) is Some
                && (forall|j: int|
                0 <= j < i ==> (#[trigger] conflict_at(self_name@, ports@, vms@, probes@, j)) is None)
                && e@ == config_error(
                "start machine"@,
                "host port "@ + decimal(
                    conflict_at(self_name@, ports@, vms@, probes@, i)->0 as nat,
                ) + " is already in use by running machine '"@ + vms@[i].0@ + "'"@,
            ),
{
    for i in 0..vms.len()
        invariant
            probes@.len() == vms@.len(),
            forall|j: int|
                0 <= j < i ==> (#[trigger] conflict_at(self_name@, ports@, vms@, probes@, j)) is None,
    {
        let (name, record) = &vms[i];
        let mut taken: Option<u16> = None;
        if !same(name.as_str(), self_name) {
            match record.actual_state(&probes[i]) {
                RecordState::Running => {
                    taken = first_shared_port(&record.ports, ports);
                },
                _ => {},
            }
        }
        proof {
            assert(taken == conflict_at(self_name@, ports@, vms@, probes@, i as int));
        }
        match taken {
            Some(host) => {
                return Err(
                    Error::config(
                        "start machine",
                        String::from_str("host port ").concat(
                            decimal_text(host as u64).as_str(),
                        ).concat(" is already in use by running machine '").concat(
                            name.as_str(),
                        ).concat("'"),
                    ),
                );
            },
            None => {},
        }
    }
    Ok(())
}

/// The host port that the machine at a position keeps from others.
pub open spec fn conflict_at(
    self_name: Seq<char>,
    ours: Seq<PortMapping>,
    vms: Seq<(String, VmRecord)>,
    probes: Seq<ProcessProbe>,
    i: int,
) -> Option<u16> {
    port_taken_by(self_name, ours, vms[i].0@, vms[i].1@, probes[i])
}

proof fn lemma_no_shared_port(theirs: Seq<(u16, u16)>, ours: Seq<PortMapping>, i: int)
    requires
        0 <= i <= theirs.len(),
        shared_port(theirs, ours, i) is None,
    ensures
        forall|j: int| i <= j < theirs.len() ==> !uses_host_port(ours, (#[trigger] theirs[j]).0),
    decreases theirs.len() - i,
{
    if i < theirs.len() {
        lemma_no_shared_port(theirs, ours, i + 1);
    }
}

/// Where no conflict is found, no host port of the machine is bound by another
/// machine that runs.
pub proof fn no_conflict_means_disjoint_ports(
    self_name: Seq<char>,
    ours: Seq<PortMapping>,
    name: Seq<char>,
    record: VmRecordView,
    probe: ProcessProbe,
    i: int,
    j: int,
)
    requires
        name != self_name,
        observed_state(record, probe) == RecordState::Running,
        port_taken_by(self_name, ours, name, record, probe) is None,
        0 <= i < ours.len(),
        0 <= j < record.ports.len(),
    ensures
        ours[i].host != record.ports[j].0,
{
    lemma_no_shared_port(record.ports, ours, 0);
    assert(!uses_host_port(ours, record.ports[j].0));
}

proof fn lemma_shared_port_is_shared(theirs: Seq<(u16, u16)>, ours: Seq<PortMapping>, i: int)
    requires
        0 <= i <= theirs.len(),
    ensures
        shared_port(theirs, ours, i) matches Some(h) ==> uses_host_port(ours, h) && exists|j: int|
            0 <= j < theirs.len() && (#[trigger] theirs[j]).0 == h,
    decreases theirs.len() - i,
{
    if i < theirs.len() {
        lemma_shared_port_is_shared(theirs, ours, i + 1);
        if uses_host_port(ours, theirs[i].0) {
            assert(theirs[i].0 == shared_port(theirs, ours, i)->0);
        }
    }
}

/// A port that is reported as taken is one that both machines map, and the other machine
/// runs; a machine is never in its own way.
pub proof fn conflicts_are_real(
    self_name: Seq<char>,
    ours: Seq<PortMapping>,
    name: Seq<char>,
    record: VmRecordView,
    probe: ProcessProbe,
)
    ensures
        port_taken_by(self_name, ours, name, record, probe) matches Some(h) ==> {
            &&& name != self_name
            &&& record.state is Running && process_alive(record, probe)
            &&& exists|i: int| 0 <= i < ours.len() && (#[trigger] ours[i]).host == h
            &&& exists|j: int| 0 <= j < record.ports.len() && (#[trigger] record.ports[j]).0 == h
        },
{
    lemma_shared_port_is_shared(record.ports, ours, 0);
}

// ---------------------------------------------------------------------------
// Resize
// ---------------------------------------------------------------------------

/// What a resize does.
#[derive(Debug, Clone, Copy, PartialEq, Eq, Structural)]
pub struct ResizePlan {
    /// The current size of the storage disk in GiB.
    pub current_storage_gb: u64,
    /// The current size of the overlay disk in GiB.
    pub current_overlay_gb: u64,
    /// The size to which the storage disk is expanded, where it is.
    pub expand_storage: Option<u64>,
    /// The size to which the overlay disk is expanded, where it is.
    pub expand_overlay: Option<u64>,
    /// What is recorded afterwards.
    pub update: RecordUpdate,
}

/// A disk size, or its default.
pub open spec fn size_or(size: Option<u64>, default: u64) -> u64 {
    match size {
        Some(s) => s,
        None => default,
    }
}

/// The message for a disk that would shrink.
pub open spec fn shrink_text(disk: Seq<char>, current: u64, target: u64) -> Seq<char> {
    disk + " disk cannot be shrunk from "@ + decimal(current as nat) + " GiB to "@ + decimal(
        target as nat,
    ) + " GiB. Only expanding is supported to prevent data loss."@
}

/// The size to which a disk has to be expanded, if it has to be.
pub open spec fn expansion(requested: Option<u64>, current: u64) -> Option<u64> {
    match requested {
        Some(s) => if s > current {
            Some(s)
        } else {
            None
        },
        None => None,
    }
}

/// What a resize does, or why it is refused: the machine must be stopped or never
/// started, and no disk may shrink.
pub open spec fn resize_plan(
    record: VmRecordView,
    state: RecordState,
    storage: Option<u64>,
    overlay: Option<u64>,
) -> Result<ResizePlan, ErrorView> {
    let cs = size_or(record.storage_gb, DEFAULT_STORAGE_SIZE_GIB);
    let co = size_or(record.overlay_gb, DEFAULT_OVERLAY_SIZE_GIB);
    let ts = size_or(storage, cs);
    let to = size_or(overlay, co);
    if state != RecordState::Stopped && state != RecordState::Created {
        Err(ErrorView::InvalidState { expected: "stopped"@, actual: state.variant_name() })
    } else if ts < cs {
        Err(config_error("resize"@, shrink_text("storage"@, cs, ts)))
    } else if to < co {
        Err(config_error("resize"@, shrink_text("overlay"@, co, to)))
    } else {
        Ok(
            ResizePlan {
                current_storage_gb: cs,
                current_overlay_gb: co,
                expand_storage: expansion(storage, cs),
                expand_overlay: expansion(overlay, co),
                update: RecordUpdate::DiskSizes { storage_gb: storage, overlay_gb: overlay },
            },
        )
    }
}

fn shrink_error(disk: &str, current: u64, target: u64) -> (r: Error)
    ensures
        r@ == config_error("resize"@, shrink_text(disk@, current, target)),
{
    Error::config(
        "resize",
        disk.to_owned().concat(" disk cannot be shrunk from ").concat(
            decimal_text(current).as_str(),
        ).concat(" GiB to ").concat(decimal_text(target).as_str()).concat(
            " GiB. Only expanding is supported to prevent data loss.",
        ),
    )
}

fn needed_expansion(requested: Option<u64>, current: u64) -> (r: Option<u64>)
    ensures
        r == expansion(requested, current),
{
    match requested {
        Some(s) => if s > current {
            Some(s)
        } else {
            None
        },
        None => None,
    }
}

/// Plan the resize of a machine's disks.
///
/// The VM must be stopped before resizing. Only expansion is supported (no
/// shrinking to prevent data loss).
pub fn resize_vm(
    record: &VmRecord,
    probe: &ProcessProbe,
    new_storage_gb: Option<u64>,
    new_overlay_gb: Option<u64>,
) -> (r: Result<ResizePlan, Error>)
    ensures
        match resize_plan(
            record@,
            observed_state(record@, *probe),
            new_storage_gb,
            new_overlay_gb,
        ) {
            Ok(p) => r matches Ok(q) && q == p,
            Err(e) => r matches Err(x) && x@ == e,
        },
{
    let state = record.actual_state(probe);
    match state {
        RecordState::Stopped | RecordState::Created => {},
        _ => {
            return Err(
                Error::InvalidState { expected: "stopped".to_owned(), actual: state.name_text() },
            );
        },
    }
    let current_storage_gb: u64 = record.storage_gb.unwrap_or(DEFAULT_STORAGE_SIZE_GIB);
    let current_overlay_gb: u64 = record.overlay_gb.unwrap_or(DEFAULT_OVERLAY_SIZE_GIB);
    let target_storage_gb: u64 = new_storage_gb.unwrap_or(current_storage_gb);
    let target_overlay_gb: u64 = new_overlay_gb.unwrap_or(current_overlay_gb);
    if target_storage_gb < current_storage_gb {
        return Err(shrink_error("storage", current_storage_gb, target_storage_gb));
    }
    if target_overlay_gb < current_overlay_gb {
        return Err(shrink_error("overlay", current_overlay_gb, target_overlay_gb));
    }
    Ok(
        ResizePlan {
            current_storage_gb,
            current_overlay_gb,
            expand_storage: needed_expansion(new_storage_gb, current_storage_gb),
            expand_overlay: needed_expansion(new_overlay_gb, current_overlay_gb),
            update: RecordUpdate::DiskSizes {
                storage_gb: new_storage_gb,
                overlay_gb: new_overlay_gb,
            },
        },
    )
}

/// The error that the resize command reports: a machine in the wrong state is told
/// to be stopped first, every other error stands.
pub fn resize_command_error(name: &str, e: Error) -> (r: Error)
    ensures
        r@ == (if e@ is InvalidState {
            agent_error(
                "resize"@,
                "VM '"@ + name@ + "' is running. Stop it first with: smolvm machine stop --name "@
                    + name@,
            )
        } else {
            e@
        }),
{
    match e {
        Error::InvalidState { expected: _, actual: _ } => Error::agent(
            "resize",
            String::from_str("VM '").concat(name).concat(
                "' is running. Stop it first with: smolvm machine stop --name ",
            ).concat(name),
        ),
        other => other,
    }
}

/// A resize never shrinks a disk: the recorded sizes afterwards are at least those
/// before, and a machine that runs is not touched.
pub proof fn resize_never_shrinks(
    record: VmRecordView,
    state: RecordState,
    storage: Option<u64>,
    overlay: Option<u64>,
    plan: ResizePlan,
)
    requires
        resize_plan(record, state, storage, overlay) == Ok::<ResizePlan, ErrorView>(plan),
    ensures
        state != RecordState::Running,
        ({
            let after = updated(record, plan.update);
            &&& size_or(after.storage_gb, DEFAULT_STORAGE_SIZE_GIB) >= size_or(
                record.storage_gb,
                DEFAULT_STORAGE_SIZE_GIB,
            )
            &&& size_or(after.overlay_gb, DEFAULT_OVERLAY_SIZE_GIB) >= size_or(
                record.overlay_gb,
                DEFAULT_OVERLAY_SIZE_GIB,
            )
            &&& plan.expand_storage matches Some(s) ==> s > plan.current_storage_gb
                && after.storage_gb == Some(s)
            &&& plan.expand_overlay matches Some(o) ==> o > plan.current_overlay_gb
                && after.overlay_gb == Some(o)
        }),
{
}

/// A resize is refused exactly where the machine is neither stopped nor new, or a disk would
/// shrink. Else each disk grows to the size that was asked for, where that is more than it
/// has, and that size is recorded; a disk of which nothing was said stays as it is.
pub proof fn resizes_do_what_is_asked(
    record: VmRecordView,
    state: RecordState,
    storage: Option<u64>,
    overlay: Option<u64>,
)
    ensures
        ({
            let cs = if record.storage_gb is Some {
                record.storage_gb->0
            } else {
                DEFAULT_STORAGE_SIZE_GIB
            };
            let co = if record.overlay_gb is Some {
                record.overlay_gb->0
            } else {
                DEFAULT_OVERLAY_SIZE_GIB
            };
            match resize_plan(record, state, storage, overlay) {
                Err(_) => {
                    ||| !(state is Stopped) && !(state is Created)
                    ||| storage matches Some(s) && s < cs
                    ||| overlay matches Some(o) && o < co
                },
                Ok(p) => {
                    &&& state is Stopped || state is Created
                    &&& storage matches Some(s) ==> s >= cs && (s > cs <==> p.expand_storage
                        == Some(s)) && updated(record, p.update).storage_gb == Some(s)
                    &&& overlay matches Some(o) ==> o >= co && (o > co <==> p.expand_overlay
                        == Some(o)) && updated(record, p.update).overlay_gb == Some(o)
                    &&& storage is None ==> p.expand_storage is None && updated(
                        record,
                        p.update,
                    ).storage_gb == record.storage_gb
                    &&& overlay is None ==> p.expand_overlay is None && updated(
                        record,
                        p.update,
                    ).overlay_gb == record.overlay_gb
                    &&& p.current_storage_gb == cs && p.current_overlay_gb == co
                },
            }
        }),
{
}

// ---------------------------------------------------------------------------
// Ephemeral machines
// ---------------------------------------------------------------------------

/// The record of a machine that lives for one command only.
pub open spec fn ephemeral_record(
    name: Seq<char>,
    created_at: Seq<char>,
    pid: Option<i32>,
    cpus: u8,
    mem: u32,
    network: bool,
    image: Option<Seq<char>>,
) -> VmRecordView {
    VmRecordView {
        ephemeral: true,
        state: RecordState::Running,
        pid,
        image,
        ..fresh_record(
            name,
            created_at,
            cpus,
            mem,
            Seq::empty(),
            Seq::empty(),
            network,
            default_restart(),
        )
    }
}

/// Make the record by which an ephemeral VM is tracked.
pub fn register_ephemeral_vm(
    name: &str,
    pid: Option<i32>,
    cpus: u8,
    mem: u32,
    network: bool,
    image: Option<String>,
) -> (r: VmRecord)
    ensures
        r@ == ephemeral_record(
            name@,
            r@.created_at,
            pid,
            cpus,
            mem,
            network,
            image.deep_view(),
        ),
        is_timestamp(r@.created_at),
{
    let mounts: Vec<(String, String, bool)> = Vec::new();
    let ports: Vec<(u16, u16)> = Vec::new();
    proof {
        assert(mounts.deep_view() =~= Seq::empty());
        assert(ports@ =~= Seq::empty());
    }
    let mut record = VmRecord::new(name.to_owned(), cpus, mem, mounts, ports, network);
    record.ephemeral = true;
    record.state = RecordState::Running;
    record.pid = pid;
    record.image = image;
    record
}

/// Whether a record is left over from an ephemeral machine that is gone, given
/// whether a process with its id is alive.
pub open spec fn is_orphan(r: VmRecordView, alive: bool) -> bool {
    r.ephemeral && (r.pid is None || !alive)
}

/// Whether a record is left over from an ephemeral machine that is gone.
pub fn is_orphaned(record: &VmRecord, alive: bool) -> (r: bool)
    ensures
        r == is_orphan(record@, alive),
{
    if !record.ephemeral {
        return false;
    }
    match record.pid {
        Some(_) => !alive,
        None => true,
    }
}

/// Whether a name is among those of orphaned rows.
pub open spec fn orphan_at(vms: Seq<(String, VmRecord)>, alive: Seq<bool>, i: int) -> bool {
    is_orphan(vms[i].1@, alive[i])
}

/// The names of orphaned records, in order, up to position `n`.
pub open spec fn orphans(vms: Seq<(String, VmRecord)>, alive: Seq<bool>, n: int) -> Seq<Seq<char>>
    decreases n,
{
    if n <= 0 {
        Seq::empty()
    } else if orphan_at(vms, alive, n - 1) {
        orphans(vms, alive, n - 1).push(vms[n - 1].0@)
    } else {
        orphans(vms, alive, n - 1)
    }
}

/// The names of the orphaned ephemeral records that are to be removed, given which
/// recorded processes are alive.
pub fn cleanup_orphaned_ephemeral_vms(vms: &Vec<(String, VmRecord)>, alive: &Vec<bool>) -> (r: Vec<
    String,
>)
    requires
        alive@.len() == vms@.len(),
    ensures
        r.deep_view() == orphans(vms@, alive@, vms@.len() as int),
{
    let mut r: Vec<String> = Vec::new();
    proof {
        assert(r.deep_view() =~= Seq::empty());
    }
    for i in 0..vms.len()
        invariant
            alive@.len() == vms@.len(),
            r.deep_view() == orphans(vms@, alive@, i as int),
    {
        let ghost before = r.deep_view();
        if is_orphaned(&vms[i].1, alive[i]) {
            r.push(vms[i].0.clone());
            proof {
                assert(r.deep_view() =~= before.push(vms@[i as int].0@));
            }
        }
    }
    r
}

/// The cleanup removes only ephemeral machines, and never one whose recorded
/// process is alive.
pub proof fn cleanup_spares_live_machines(r: VmRecordView, alive: bool)
    ensures
        !r.ephemeral ==> !is_orphan(r, alive),
        r.pid is Some && alive ==> !is_orphan(r, alive),
        r.ephemeral && !alive ==> is_orphan(r, alive),
{
}

/// An ephemeral machine is tracked as the process that it is, and as one that goes with it:
/// it is left over exactly once that process is gone.
pub proof fn ephemeral_machines_go_with_their_process(
    name: Seq<char>,
    created_at: Seq<char>,
    pid: Option<i32>,
    cpus: u8,
    mem: u32,
    network: bool,
    image: Option<Seq<char>>,
    alive: bool,
)
    ensures
        ({
            let r = ephemeral_record(name, created_at, pid, cpus, mem, network, image);
            &&& r.name == name && r.pid == pid && r.state is Running && r.ephemeral
            &&& r.cpus == cpus && r.mem == mem && r.network == network && r.image == image
            &&& is_orphan(r, alive) <==> !(pid is Some && alive)
        }),
{
}

/// The cleanup removes the records that are left over, all of them and no others, in the
/// order in which they are listed.
pub proof fn cleanup_removes_exactly_what_is_left_over(
    vms: Seq<(String, VmRecord)>,
    alive: Seq<bool>,
    n: int,
    name: Seq<char>,
)
    requires
        0 <= n <= vms.len(),
        alive.len() == vms.len(),
    ensures
        orphans(vms, alive, n).contains(name) <==> exists|i: int|
            0 <= i < n && (#[trigger] vms[i]).0@ == name && vms[i].1@.ephemeral && (vms[i].1@.pid
                is None || !alive[i]),
    decreases n,
{
    if n > 0 {
        cleanup_removes_exactly_what_is_left_over(vms, alive, n - 1, name);
        let before = orphans(vms, alive, n - 1);
        let after = orphans(vms, alive, n);
        let last = vms[n - 1];
        if before.contains(name) {
            let k = choose|k: int| 0 <= k < before.len() && before[k] == name;
            assert(after[k] == name);
        }
        if orphan_at(vms, alive, n - 1) {
            assert(after.last() == last.0@);
            if after.contains(name) && !before.contains(name) {
                let k = choose|k: int| 0 <= k < after.len() && after[k] == name;
                if k < before.len() {
                    assert(before[k] == name);
                }
                assert(last.0@ == name);
            }
        }
    }
}

} // verus!
