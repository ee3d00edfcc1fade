//! Launching machines with libkrun.
use vstd::prelude::*;
use vstd::string::*;

use crate::data::network::DEFAULT_DNS;
use crate::data::storage::{mount_tag_text, HostMount};
use crate::error::{Error, ErrorView};
use crate::lists::{clone_opt_strings, clone_strings};
use crate::scan::{contains_char, is_digit, lemma_decimal_value};
use crate::text::decimal;
use crate::vm::config::{DiskConfig, RootfsSource, VmConfig, VmId, VsockPort};

verus! {

// ---------------------------------------------------------------------------
// Text for the native library
// ---------------------------------------------------------------------------

/// Whether a text can be handed to the native library: it holds no null character.
pub open spec fn is_c_text(s: Seq<char>) -> bool {
    !s.contains('\0')
}

/// Convert a text for the native library.
fn c_text(s: &str, reason: &str) -> (r: Result<String, Error>)
    ensures
        is_c_text(s@) ==> (r matches Ok(x) && x@ == s@),
        !is_c_text(s@) ==> (r matches Err(e) && e@ == (ErrorView::VmCreation { reason: reason@ })),
{
    if contains_char(s, '\0') {
        Err(Error::vm_creation(reason))
    } else {
        Ok(s.to_owned())
    }
}

/// Convert a path for the native library.
pub fn path_to_cstring(path: &str) -> (r: Result<String, Error>)
    ensures
        is_c_text(path@) ==> (r matches Ok(x) && x@ == path@),
        !is_c_text(path@) ==> (r matches Err(e) && e@ == (ErrorView::VmCreation {
            reason: "path contains null byte"@,
        })),
{
    c_text(path, "path contains null byte")
}

/// What is executed: the program, and its arguments without the program's name.
#[derive(Debug)]
pub struct ExecArgs {
    /// Path of the program.
    pub exec_path: String,
    /// Arguments behind the program's name.
    pub args: Vec<String>,
}

/// The number of pointers that stand for a list of texts: one for each, and a null
/// at the end.
pub fn pointer_count(texts: &Vec<String>) -> (r: usize)
    requires
        texts@.len() < usize::MAX,
    ensures
        r == texts@.len() + 1,
{
    texts.len() + 1
}

/// Whether every text of a list can be handed to the native library.
pub open spec fn all_c_texts(v: Seq<Seq<char>>) -> bool {
    forall|i: int| 0 <= i < v.len() ==> is_c_text(#[trigger] v[i])
}

/// What a command line executes, or what is wrong with it. The arguments do not
/// repeat the program's name: the guest's init supplies it.
pub open spec fn exec_args(command: Option<Seq<Seq<char>>>) -> Result<
    (Seq<char>, Seq<Seq<char>>),
    Seq<char>,
> {
    let words = match command {
        Some(c) => c,
        None => seq![crate::DEFAULT_SHELL_CMD@],
    };
    if words.len() == 0 {
        Err("command cannot be empty"@)
    } else if !is_c_text(words[0]) {
        Err("invalid command path"@)
    } else if !all_c_texts(words.skip(1)) {
        Err("invalid command argument"@)
    } else {
        Ok((words[0], words.skip(1)))
    }
}

fn all_convertible(v: &Vec<String>, from: usize) -> (r: bool)
    requires
        from <= v@.len(),
    ensures
        r == all_c_texts(v.deep_view().skip(from as int)),
{
    let ghost rest = v.deep_view().skip(from as int);
    let mut i: usize = from;
    while i < v.len()
        invariant
            from <= i <= v@.len(),
            rest == v.deep_view().skip(from as int),
            forall|j: int| 0 <= j < i - from ==> is_c_text(#[trigger] rest[j]),
        decreases v@.len() - i,
    {
        if contains_char(v[i].as_str(), '\0') {
            proof {
                assert(!is_c_text(rest[i - from]));
            }
            return false;
        }
        proof {
            assert(rest[i - from] == v@[i as int]@);
        }
        i = i + 1;
    }
    true
}

/// Build what is executed from a command line; without one it is a shell.
pub fn build_exec_args(command: &Option<Vec<String>>) -> (r: Result<ExecArgs, Error>)
    ensures
        match exec_args(command.deep_view()) {
            Ok((path, args)) => r matches Ok(x) && x.exec_path@ == path && x.args.deep_view()
                == args,
            Err(reason) => r matches Err(e) && e@ == (ErrorView::VmCreation { reason }),
        },
{
    let words = match command {
        Some(c) => clone_strings(c),
        None => crate::agent::default_shell_cmd(),
    };
    if words.len() == 0 {
        return Err(Error::vm_creation("command cannot be empty"));
    }
    proof {
        assert(words.deep_view()[0] == words@[0]@);
    }
    let exec_path = match c_text(words[0].as_str(), "invalid command path") {
        Ok(p) => p,
        Err(e) => {
            return Err(e);
        },
    };
    if !all_convertible(&words, 1) {
        return Err(Error::vm_creation("invalid command argument"));
    }
    let mut args: Vec<String> = Vec::new();
    let mut i: usize = 1;
    while i < words.len()
        invariant
            1 <= i <= words@.len(),
            args@.len() == i - 1,
            forall|j: int| 0 <= j < i - 1 ==> (#[trigger] args@[j])@ == words@[j + 1]@,
        decreases words@.len() - i,
    {
        args.push(words[i].clone());
        i = i + 1;
    }
    proof {
        assert(args.deep_view() =~= words.deep_view().skip(1));
    }
    Ok(ExecArgs { exec_path, args })
}

/// The environment of a machine: its own name, three defaults, and what is configured.
pub open spec fn machine_env(env: Seq<(Seq<char>, Seq<char>)>, id: Seq<char>) -> Seq<Seq<char>> {
    seq![
        "HOSTNAME="@ + id,
        "HOME=/root"@,
        "PATH=/usr/local/sbin:/usr/local/bin:/usr/sbin:/usr/bin:/sbin:/bin"@,
        "TERM=xterm-256color"@,
    ] + Seq::new(env.len(), |i: int| env[i].0 + "="@ + env[i].1)
}

/// The environment of a machine, or what is wrong with it.
pub open spec fn env_args(env: Seq<(Seq<char>, Seq<char>)>, id: Seq<char>) -> Result<
    Seq<Seq<char>>,
    Seq<char>,
> {
    let all = machine_env(env, id);
    if !is_c_text(all[0]) {
        Err("invalid hostname"@)
    } else if exists|i: int| 4 <= i < all.len() && !is_c_text(#[trigger] all[i]) {
        Err("invalid environment variable"@)
    } else {
        Ok(all)
    }
}

/// Build the environment of a machine.
pub fn build_env_args(env: &Vec<(String, String)>, vm_id: &VmId) -> (r: Result<Vec<String>, Error>)
    ensures
        match env_args(env.deep_view(), vm_id@) {
            Ok(v) => r matches Ok(x) && x.deep_view() == v,
            Err(reason) => r matches Err(e) && e@ == (ErrorView::VmCreation { reason }),
        },
{
    let ghost all = machine_env(env.deep_view(), vm_id@);
    let hostname = String::from_str("HOSTNAME=").concat(vm_id.as_str());
    let mut r: Vec<String> = Vec::new();
    proof {
        assert(all[0] == hostname@);
    }
    match c_text(hostname.as_str(), "invalid hostname") {
        Ok(h) => {
            r.push(h);
        },
        Err(e) => {
            return Err(e);
        },
    }
    r.push("HOME=/root".to_owned());
    r.push("PATH=/usr/local/sbin:/usr/local/bin:/usr/sbin:/usr/bin:/sbin:/bin".to_owned());
    r.push("TERM=xterm-256color".to_owned());
    for i in 0..env.len()
        invariant
            all == machine_env(env.deep_view(), vm_id@),
            is_c_text(all[0]),
            r@.len() == 4 + i,
            forall|j: int| 0 <= j < 4 + i ==> (#[trigger] r@[j])@ == all[j],
            forall|j: int| 4 <= j < 4 + i ==> is_c_text(#[trigger] all[j]),
    {
        let setting = env[i].0.clone().concat("=").concat(env[i].1.as_str());
        proof {
            assert(all[4 + i] == setting@);
        }
        match c_text(setting.as_str(), "invalid environment variable") {
            Ok(s) => {
                r.push(s);
            },
            Err(e) => {
                return Err(e);
            },
        }
    }
    proof {
        assert(r.deep_view() =~= all);
    }
    Ok(r)
}

// ---------------------------------------------------------------------------
// Preparing the root filesystem
// ---------------------------------------------------------------------------

/// The path of a root filesystem, given whether it exists.
pub fn resolve_rootfs(source: &RootfsSource, exists: bool) -> (r: Result<String, Error>)
    ensures
        exists ==> (r matches Ok(p) && p@ == source->path@),
        !exists ==> (r matches Err(e) && e@ == (ErrorView::RootfsNotFound { path: source->path@ })),
{
    match source {
        RootfsSource::Path { path } => if exists {
            Ok(path.clone())
        } else {
            Err(Error::RootfsNotFound { path: path.clone() })
        },
    }
}

/// The resolver configuration of a guest.
pub fn resolv_conf(dns: Option<&str>) -> (r: String)
    ensures
        r@ == "nameserver "@ + (match dns {
            Some(d) => d@,
            None => DEFAULT_DNS@,
        }) + "\n"@,
{
    let server = match dns {
        Some(d) => d,
        None => DEFAULT_DNS,
    };
    String::from_str("nameserver ").concat(server).concat("\n")
}

// ---------------------------------------------------------------------------
// Configuring the native library
// ---------------------------------------------------------------------------

/// One call to the native library, or the refusal to go on.
#[derive(Debug)]
pub enum KrunStep {
    /// Set the number of vCPUs and the memory.
    SetVmConfig {
        /// Number of vCPUs.
        cpus: u8,
        /// Memory in MiB.
        memory_mib: u32,
    },
    /// Set the root filesystem.
    SetRoot(String),
    /// Set an empty port map.
    SetPortMap,
    /// Set the working directory.
    SetWorkdir(String),
    /// Set what is executed.
    SetExec {
        /// Path of the program.
        exec_path: String,
        /// Arguments behind the program's name.
        args: Vec<String>,
        /// Environment.
        env: Vec<String>,
    },
    /// Add a shared directory.
    AddVirtiofs {
        /// Tag of the device.
        tag: String,
        /// Directory on the host.
        path: String,
    },
    /// Add a block device.
    AddDisk {
        /// Identifier of the device.
        block_id: String,
        /// Path of the image.
        path: String,
        /// Format of the image.
        format: u32,
        /// Whether it is read-only.
        read_only: bool,
    },
    /// Add a vsock port.
    AddVsock {
        /// Port number.
        port: u32,
        /// Socket on the host.
        path: String,
        /// Whether the host listens.
        listen: bool,
    },
    /// Set the console log.
    SetConsole(String),
    /// Stop with this error.
    Refuse(Error),
}

/// The mathematical value of a [`KrunStep`].
pub enum KrunStepView {
    /// See [`KrunStep::SetVmConfig`].
    SetVmConfig { cpus: u8, memory_mib: u32 },
    /// See [`KrunStep::SetRoot`].
    SetRoot(Seq<char>),
    /// See [`KrunStep::SetPortMap`].
    SetPortMap,
    /// See [`KrunStep::SetWorkdir`].
    SetWorkdir(Seq<char>),
    /// See [`KrunStep::SetExec`].
    SetExec { exec_path: Seq<char>, args: Seq<Seq<char>>, env: Seq<Seq<char>> },
    /// See [`KrunStep::AddVirtiofs`].
    AddVirtiofs { tag: Seq<char>, path: Seq<char> },
    /// See [`KrunStep::AddDisk`].
    AddDisk { block_id: Seq<char>, path: Seq<char>, format: u32, read_only: bool },
    /// See [`KrunStep::AddVsock`].
    AddVsock { port: u32, path: Seq<char>, listen: bool },
    /// See [`KrunStep::SetConsole`].
    SetConsole(Seq<char>),
    /// See [`KrunStep::Refuse`].
    Refuse(ErrorView),
}

impl View for KrunStep {
    type V = KrunStepView;

    open spec fn view(&self) -> KrunStepView {
        match self {
            KrunStep::SetVmConfig { cpus, memory_mib } => KrunStepView::SetVmConfig {
                cpus: *cpus,
                memory_mib: *memory_mib,
            },
            KrunStep::SetRoot(p) => KrunStepView::SetRoot(p@),
            KrunStep::SetPortMap => KrunStepView::SetPortMap,
            KrunStep::SetWorkdir(p) => KrunStepView::SetWorkdir(p@),
            KrunStep::SetExec { exec_path, args, env } => KrunStepView::SetExec {
                exec_path: exec_path@,
                args: args.deep_view(),
                env: env.deep_view(),
            },
            KrunStep::AddVirtiofs { tag, path } => KrunStepView::AddVirtiofs {
                tag: tag@,
                path: path@,
            },
            KrunStep::AddDisk { block_id, path, format, read_only } => KrunStepView::AddDisk {
                block_id: block_id@,
                path: path@,
                format: *format,
                read_only: *read_only,
            },
            KrunStep::AddVsock { port, path, listen } => KrunStepView::AddVsock {
                port: *port,
                path: path@,
                listen: *listen,
            },
            KrunStep::SetConsole(p) => KrunStepView::SetConsole(p@),
            KrunStep::Refuse(e) => KrunStepView::Refuse(e@),
        }
    }
}

impl DeepView for KrunStep {
    type V = KrunStepView;

    open spec fn deep_view(&self) -> KrunStepView {
        self@
    }
}

/// The error with which a failed call ends the launch; `None` for a call whose
/// failure is only worth a warning.
pub open spec fn fatal_reason(step: KrunStepView) -> Option<Seq<char>> {
    match step {
        KrunStepView::SetVmConfig { .. } => Some("failed to set VM config"@),
        KrunStepView::SetRoot(_) => Some("failed to set root filesystem"@),
        KrunStepView::SetPortMap => Some("failed to set port map"@),
        KrunStepView::SetExec { .. } => Some("failed to set exec command"@),
        _ => None,
    }
}

/// Judge the return value of a call: a negative one ends the launch where the call
/// is essential.
pub fn krun_outcome(step: &KrunStep, ret: i32) -> (r: Result<(), Error>)
    ensures
        match fatal_reason(step@) {
            Some(reason) => if ret < 0 {
                r matches Err(e) && e@ == (ErrorView::VmCreation { reason })
            } else {
                r is Ok
            },
            None => r is Ok,
        },
{
    if ret >= 0 {
        return Ok(());
    }
    match step {
        KrunStep::SetVmConfig { cpus: _, memory_mib: _ } => Err(
            Error::vm_creation("failed to set VM config"),
        ),
        KrunStep::SetRoot(_) => Err(Error::vm_creation("failed to set root filesystem")),
        KrunStep::SetPortMap => Err(Error::vm_creation("failed to set port map")),
        KrunStep::SetExec { exec_path: _, args: _, env: _ } => Err(
            Error::vm_creation("failed to set exec command"),
        ),
        _ => Ok(()),
    }
}

/// A refusal because of a path.
pub open spec fn bad_path() -> KrunStepView {
    KrunStepView::Refuse(ErrorView::VmCreation { reason: "path contains null byte"@ })
}

/// A refusal with a reason.
pub open spec fn refusal(reason: Seq<char>) -> KrunStepView {
    KrunStepView::Refuse(ErrorView::VmCreation { reason })
}

/// Whether a list of steps ends in a refusal.
pub open spec fn is_refused(steps: Seq<KrunStepView>) -> bool {
    steps.len() > 0 && steps.last() is Refuse
}

/// The next step, unless a step before was a refusal.
pub open spec fn add_step(steps: Seq<KrunStepView>, step: KrunStepView) -> Seq<KrunStepView> {
    if is_refused(steps) {
        steps
    } else {
        steps.push(step)
    }
}

/// A step that needs a path, or the refusal of that path.
pub open spec fn path_step(path: Seq<char>, step: KrunStepView) -> KrunStepView {
    if is_c_text(path) {
        step
    } else {
        bad_path()
    }
}

/// The tag and the guest path of each mount, in order.
pub open spec fn mount_pairs(mounts: Seq<HostMount>) -> Seq<(Seq<char>, Seq<char>)> {
    Seq::new(mounts.len(), |i: int| (mount_tag_text(i), mounts[i].target@))
}

/// Pair the tag of each mount with the path at which the guest mounts it.
pub fn mount_specs(mounts: &Vec<HostMount>) -> (r: Vec<(String, String)>)
    ensures
        r.deep_view() == mount_pairs(mounts@),
{
    let mut r: Vec<(String, String)> = Vec::new();
    for i in 0..mounts.len()
        invariant
            r@.len() == i,
            forall|j: int|
                0 <= j < i ==> (#[trigger] r@[j]).deep_view() == (
                    mount_tag_text(j),
                    mounts@[j].target@,
                ),
    {
        r.push((HostMount::mount_tag(i), mounts[i].target.clone()));
    }
    proof {
        assert(r.deep_view() =~= mount_pairs(mounts@));
    }
    r
}

/// What the platform's executor is asked to turn into a program and its arguments.
#[derive(Debug)]
pub struct ExecRequest {
    /// The configured command, if there is one.
    pub command: Option<Vec<String>>,
    /// The tag and the guest path of each mount.
    pub mounts: Vec<(String, String)>,
    /// Whether foreign binaries are translated.
    pub rosetta: bool,
}

/// What the platform's executor is asked for: translation only where it is wanted and
/// there.
pub fn exec_request(c: &VmConfig, rosetta_available: bool) -> (r: ExecRequest)
    ensures
        r.command.deep_view() == c.command.deep_view(),
        r.mounts.deep_view() == mount_pairs(c.mounts@),
        r.rosetta == (c.rosetta && rosetta_available),
{
    ExecRequest {
        command: clone_opt_strings(&c.command),
        mounts: mount_specs(&c.mounts),
        rosetta: c.rosetta && rosetta_available,
    }
}

/// What the executor gave, by its views.
pub open spec fn exec_view(planned: Result<ExecArgs, Error>) -> Result<
    (Seq<char>, Seq<Seq<char>>),
    ErrorView,
> {
    match planned {
        Ok(x) => Ok((x.exec_path@, x.args.deep_view())),
        Err(e) => Err(e@),
    }
}

/// The step that sets what is executed, given what the executor made of the command,
/// or a refusal. The environment is looked at first.
pub open spec fn exec_step(
    c: VmConfig,
    planned: Result<(Seq<char>, Seq<Seq<char>>), ErrorView>,
) -> KrunStepView {
    match env_args(c.env.deep_view(), c.id@) {
        Err(reason) => refusal(reason),
        Ok(env) => match planned {
            Err(e) => KrunStepView::Refuse(e),
            Ok((exec_path, args)) => if !is_c_text(exec_path) {
                refusal("invalid command path"@)
            } else if !all_c_texts(args) {
                refusal("invalid command argument"@)
            } else {
                KrunStepView::SetExec { exec_path, args, env }
            },
        },
    }
}

/// The steps with those of the first `n` mounts.
pub open spec fn with_mounts(steps: Seq<KrunStepView>, mounts: Seq<HostMount>, n: int) -> Seq<
    KrunStepView,
>
    decreases n,
{
    if n <= 0 {
        steps
    } else {
        add_step(
            with_mounts(steps, mounts, n - 1),
            path_step(
                mounts[n - 1].source@,
                KrunStepView::AddVirtiofs {
                    tag: mount_tag_text(n - 1),
                    path: mounts[n - 1].source@,
                },
            ),
        )
    }
}

/// The step of a block device, or a refusal.
pub open spec fn disk_step(d: DiskConfig) -> KrunStepView {
    if !is_c_text(d.block_id@) {
        refusal("invalid block_id"@)
    } else {
        path_step(
            d.path@,
            KrunStepView::AddDisk {
                block_id: d.block_id@,
                path: d.path@,
                format: d.format.spec_code(),
                read_only: d.read_only,
            },
        )
    }
}

/// The steps with those of the first `n` block devices.
pub open spec fn with_disks(steps: Seq<KrunStepView>, disks: Seq<DiskConfig>, n: int) -> Seq<
    KrunStepView,
>
    decreases n,
{
    if n <= 0 {
        steps
    } else {
        add_step(with_disks(steps, disks, n - 1), disk_step(disks[n - 1]))
    }
}

/// The steps with those of the first `n` vsock ports.
pub open spec fn with_vsocks(steps: Seq<KrunStepView>, ports: Seq<VsockPort>, n: int) -> Seq<
    KrunStepView,
>
    decreases n,
{
    if n <= 0 {
        steps
    } else {
        let p = ports[n - 1];
        add_step(
            with_vsocks(steps, ports, n - 1),
            path_step(
                p.socket_path@,
                KrunStepView::AddVsock { port: p.port, path: p.socket_path@, listen: p.listen },
            ),
        )
    }
}

/// The steps with one for a path, where there is one.
pub open spec fn with_workdir(steps: Seq<KrunStepView>, path: Option<Seq<char>>) -> Seq<
    KrunStepView,
> {
    match path {
        Some(p) => add_step(steps, path_step(p, KrunStepView::SetWorkdir(p))),
        None => steps,
    }
}

/// The steps with one for the console log, where there is one.
pub open spec fn with_console(steps: Seq<KrunStepView>, path: Option<Seq<char>>) -> Seq<
    KrunStepView,
> {
    match path {
        Some(p) => add_step(steps, path_step(p, KrunStepView::SetConsole(p))),
        None => steps,
    }
}

/// The steps with one for the translation runtime, where there is one.
pub open spec fn with_rosetta(
    steps: Seq<KrunStepView>,
    rosetta: Option<(Seq<char>, Seq<char>)>,
) -> Seq<KrunStepView> {
    match rosetta {
        Some((tag, path)) => add_step(
            steps,
            if !is_c_text(tag) {
                KrunStepView::Refuse(
                    ErrorView::Mount {
                        operation: "create rosetta tag"@,
                        reason: "tag contains null byte"@,
                    },
                )
            } else if !is_c_text(path) {
                KrunStepView::Refuse(
                    ErrorView::Mount {
                        operation: "create rosetta path"@,
                        reason: "path contains null byte"@,
                    },
                )
            } else {
                KrunStepView::AddVirtiofs { tag, path }
            },
        ),
        None => steps,
    }
}

/// The calls that configure a machine, in order: resources, root filesystem, port
/// map, working directory, command, mounts, translation runtime, block devices,
/// vsock ports and console. A text that cannot be handed on ends the list.
pub open spec fn krun_steps(
    rootfs: Seq<char>,
    c: VmConfig,
    planned: Result<(Seq<char>, Seq<Seq<char>>), ErrorView>,
    rosetta: Option<(Seq<char>, Seq<char>)>,
) -> Seq<KrunStepView> {
    let s0 = seq![KrunStepView::SetVmConfig { cpus: c.cpus, memory_mib: c.memory_mib }];
    let s1 = add_step(s0, path_step(rootfs, KrunStepView::SetRoot(rootfs)));
    let s2 = add_step(s1, KrunStepView::SetPortMap);
    let s3 = with_workdir(s2, c.workdir.deep_view());
    let s4 = add_step(s3, exec_step(c, planned));
    let s5 = with_mounts(s4, c.mounts@, c.mounts@.len() as int);
    let s6 = with_rosetta(s5, if c.rosetta { rosetta } else { None });
    let s7 = with_disks(s6, c.disks@, c.disks@.len() as int);
    let s8 = with_vsocks(s7, c.vsock_ports@, c.vsock_ports@.len() as int);
    with_console(s8, c.console_log.deep_view())
}

/// Steps that are planned one after the other.
struct Plan {
    steps: Vec<KrunStep>,
    refused: bool,
}

impl Plan {
    spec fn view_steps(&self) -> Seq<KrunStepView> {
        self.steps.deep_view()
    }

    spec fn wf(&self) -> bool {
        self.refused == is_refused(self.steps.deep_view())
    }

    fn push(&mut self, step: KrunStep)
        requires
            old(self).wf(),
        ensures
            final(self).wf(),
            final(self).view_steps() == add_step(old(self).view_steps(), step@),
    {
        if !self.refused {
            let refuses = match &step {
                KrunStep::Refuse(_) => true,
                _ => false,
            };
            self.steps.push(step);
            self.refused = refuses;
            proof {
                assert(self.steps.deep_view() =~= old(self).steps.deep_view().push(step@));
            }
        }
    }

    fn push_path(&mut self, path: &str, step: KrunStep)
        requires
            old(self).wf(),
        ensures
            final(self).wf(),
            final(self).view_steps() == add_step(old(self).view_steps(), path_step(path@, step@)),
    {
        if contains_char(path, '\0') {
            self.push(KrunStep::Refuse(Error::vm_creation("path contains null byte")));
        } else {
            self.push(step);
        }
    }
}

fn planned_exec(c: &VmConfig, planned: Result<ExecArgs, Error>) -> (r: KrunStep)
    ensures
        r@ == exec_step(*c, exec_view(planned)),
{
    let env = match build_env_args(&c.env, &c.id) {
        Ok(env) => env,
        Err(e) => {
            return KrunStep::Refuse(e);
        },
    };
    match planned {
        Ok(x) => {
            proof {
                assert(x.args.deep_view().skip(0) =~= x.args.deep_view());
            }
            if contains_char(x.exec_path.as_str(), '\0') {
                KrunStep::Refuse(Error::vm_creation("invalid command path"))
            } else if !all_convertible(&x.args, 0) {
                KrunStep::Refuse(Error::vm_creation("invalid command argument"))
            } else {
                KrunStep::SetExec { exec_path: x.exec_path, args: x.args, env }
            }
        },
        Err(e) => KrunStep::Refuse(e),
    }
}

fn planned_disk(d: &DiskConfig) -> (r: KrunStep)
    ensures
        r@ == disk_step(*d),
{
    if contains_char(d.block_id.as_str(), '\0') {
        return KrunStep::Refuse(Error::vm_creation("invalid block_id"));
    }
    if contains_char(d.path.as_str(), '\0') {
        return KrunStep::Refuse(Error::vm_creation("path contains null byte"));
    }
    KrunStep::AddDisk {
        block_id: d.block_id.clone(),
        path: d.path.clone(),
        format: d.format.code(),
        read_only: d.read_only,
    }
}

/// Plan the calls that configure a machine, given the program and arguments that the
/// platform's executor made of [`exec_request`]. The translation runtime is shared
/// where it is wanted and its tag and directory are given.
pub fn plan_exec_vm(
    rootfs: &str,
    c: &VmConfig,
    planned: Result<ExecArgs, Error>,
    rosetta: Option<(String, String)>,
) -> (r: Vec<KrunStep>)
    ensures
        r.deep_view() == krun_steps(rootfs@, *c, exec_view(planned), rosetta.deep_view()),
{
    let mut plan = Plan { steps: Vec::new(), refused: false };
    proof {
        assert(plan.steps.deep_view() =~= Seq::empty());
    }
    plan.push(KrunStep::SetVmConfig { cpus: c.cpus, memory_mib: c.memory_mib });
    proof {
        assert(plan.view_steps() =~= seq![
            KrunStepView::SetVmConfig { cpus: c.cpus, memory_mib: c.memory_mib },
        ]);
    }
    plan.push_path(rootfs, KrunStep::SetRoot(rootfs.to_owned()));
    plan.push(KrunStep::SetPortMap);
    match &c.workdir {
        Some(w) => {
            plan.push_path(w.as_str(), KrunStep::SetWorkdir(w.clone()));
        },
        None => {},
    }
    plan.push(planned_exec(c, planned));
    let ghost s4 = plan.view_steps();
    for i in 0..c.mounts.len()
        invariant
            plan.wf(),
            plan.view_steps() == with_mounts(s4, c.mounts@, i as int),
    {
        let m = &c.mounts[i];
        plan.push_path(
            m.source.as_str(),
            KrunStep::AddVirtiofs { tag: HostMount::mount_tag(i), path: m.source.clone() },
        );
    }
    if c.rosetta {
        match rosetta {
            Some((tag, path)) => {
                if contains_char(tag.as_str(), '\0') {
                    plan.push(
                        KrunStep::Refuse(
                            Error::mount(
                                "create rosetta tag",
                                String::from_str("tag contains null byte"),
                            ),
                        ),
                    );
                } else if contains_char(path.as_str(), '\0') {
                    plan.push(
                        KrunStep::Refuse(
                            Error::mount(
                                "create rosetta path",
                                String::from_str("path contains null byte"),
                            ),
                        ),
                    );
                } else {
                    plan.push(KrunStep::AddVirtiofs { tag, path });
                }
            },
            None => {},
        }
    }
    let ghost s6 = plan.view_steps();
    for i in 0..c.disks.len()
        invariant
            plan.wf(),
            plan.view_steps() == with_disks(s6, c.disks@, i as int),
    {
        plan.push(planned_disk(&c.disks[i]));
    }
    let ghost s7 = plan.view_steps();
    for i in 0..c.vsock_ports.len()
        invariant
            plan.wf(),
            plan.view_steps() == with_vsocks(s7, c.vsock_ports@, i as int),
    {
        let p = &c.vsock_ports[i];
        plan.push_path(
            p.socket_path.as_str(),
            KrunStep::AddVsock { port: p.port, path: p.socket_path.clone(), listen: p.listen },
        );
    }
    match &c.console_log {
        Some(p) => {
            plan.push_path(p.as_str(), KrunStep::SetConsole(p.clone()));
        },
        None => {},
    }
    plan.steps
}

/// Whether every text of a step can be handed to the native library.
pub open spec fn is_clean_step(step: KrunStepView) -> bool {
    match step {
        KrunStepView::SetRoot(p) => is_c_text(p),
        KrunStepView::SetWorkdir(p) => is_c_text(p),
        KrunStepView::SetExec { exec_path, args, env } => is_c_text(exec_path) && all_c_texts(args)
            && all_c_texts(env),
        KrunStepView::AddVirtiofs { tag, path } => is_c_text(tag) && is_c_text(path),
        KrunStepView::AddDisk { block_id, path, .. } => is_c_text(block_id) && is_c_text(path),
        KrunStepView::AddVsock { path, .. } => is_c_text(path),
        KrunStepView::SetConsole(p) => is_c_text(p),
        _ => true,
    }
}

/// Whether every text of every step can be handed to the native library.
pub open spec fn all_clean(steps: Seq<KrunStepView>) -> bool {
    forall|i: int| 0 <= i < steps.len() ==> is_clean_step(#[trigger] steps[i])
}

proof fn lemma_tag_is_c_text(i: nat)
    ensures
        is_c_text(mount_tag_text(i as int)),
{
    reveal_strlit("smolvm");
    lemma_decimal_value(i);
    let s = mount_tag_text(i as int);
    assert forall|j: int| 0 <= j < s.len() implies s[j] != '\0' by {
        if j >= 6 {
            assert(s[j] == decimal(i)[j - 6]);
            assert(is_digit(decimal(i)[j - 6]));
        }
    }
}

proof fn lemma_mounts_clean(steps: Seq<KrunStepView>, mounts: Seq<HostMount>, n: int)
    requires
        all_clean(steps),
    ensures
        all_clean(with_mounts(steps, mounts, n)),
    decreases n,
{
    if n > 0 {
        lemma_mounts_clean(steps, mounts, n - 1);
        lemma_tag_is_c_text((n - 1) as nat);
    }
}

proof fn lemma_disks_clean(steps: Seq<KrunStepView>, disks: Seq<DiskConfig>, n: int)
    requires
        all_clean(steps),
    ensures
        all_clean(with_disks(steps, disks, n)),
    decreases n,
{
    if n > 0 {
        lemma_disks_clean(steps, disks, n - 1);
    }
}

proof fn lemma_vsocks_clean(steps: Seq<KrunStepView>, ports: Seq<VsockPort>, n: int)
    requires
        all_clean(steps),
    ensures
        all_clean(with_vsocks(steps, ports, n)),
    decreases n,
{
    if n > 0 {
        lemma_vsocks_clean(steps, ports, n - 1);
    }
}

proof fn lemma_exec_clean(
    c: VmConfig,
    planned: Result<(Seq<char>, Seq<Seq<char>>), ErrorView>,
)
    ensures
        is_clean_step(exec_step(c, planned)),
{
    let all = machine_env(c.env.deep_view(), c.id@);
    if env_args(c.env.deep_view(), c.id@) is Ok {
        assert forall|i: int| 0 <= i < all.len() implies is_c_text(#[trigger] all[i]) by {
            reveal_strlit("HOME=/root");
            reveal_strlit("PATH=/usr/local/sbin:/usr/local/bin:/usr/sbin:/usr/bin:/sbin:/bin");
            reveal_strlit("TERM=xterm-256color");
            if i == 1 {
                assert(all[1] == "HOME=/root"@);
            } else if i == 2 {
                assert(all[2]
                    == "PATH=/usr/local/sbin:/usr/local/bin:/usr/sbin:/usr/bin:/sbin:/bin"@);
            } else if i == 3 {
                assert(all[3] == "TERM=xterm-256color"@);
            }
        }
    }
}

/// No text that holds a null character is ever handed to the native library.
pub proof fn only_clean_texts_are_handed_on(
    rootfs: Seq<char>,
    c: VmConfig,
    planned: Result<(Seq<char>, Seq<Seq<char>>), ErrorView>,
    rosetta: Option<(Seq<char>, Seq<char>)>,
)
    ensures
        all_clean(krun_steps(rootfs, c, planned, rosetta)),
{
    let s0 = seq![KrunStepView::SetVmConfig { cpus: c.cpus, memory_mib: c.memory_mib }];
    let s1 = add_step(s0, path_step(rootfs, KrunStepView::SetRoot(rootfs)));
    let s2 = add_step(s1, KrunStepView::SetPortMap);
    let s3 = with_workdir(s2, c.workdir.deep_view());
    lemma_exec_clean(c, planned);
    let s4 = add_step(s3, exec_step(c, planned));
    assert(all_clean(s4));
    lemma_mounts_clean(s4, c.mounts@, c.mounts@.len() as int);
    let s5 = with_mounts(s4, c.mounts@, c.mounts@.len() as int);
    let s6 = with_rosetta(s5, if c.rosetta { rosetta } else { None });
    assert(all_clean(s6));
    lemma_disks_clean(s6, c.disks@, c.disks@.len() as int);
    let s7 = with_disks(s6, c.disks@, c.disks@.len() as int);
    lemma_vsocks_clean(s7, c.vsock_ports@, c.vsock_ports@.len() as int);
}

/// Nothing follows a refusal.
pub proof fn nothing_follows_a_refusal(steps: Seq<KrunStepView>, step: KrunStepView)
    requires
        is_refused(steps),
    ensures
        add_step(steps, step) == steps,
        forall|p: Option<Seq<char>>| #[trigger] with_workdir(steps, p) == steps,
        forall|p: Option<Seq<char>>| #[trigger] with_console(steps, p) == steps,
{
}

proof fn lemma_mounts_planned(steps: Seq<KrunStepView>, mounts: Seq<HostMount>, n: int)
    requires
        0 <= n <= mounts.len(),
    ensures
        is_refused(with_mounts(steps, mounts, n)) <==> is_refused(steps) || exists|i: int|
            0 <= i < n && !is_c_text((#[trigger] mounts[i]).source@),
        !is_refused(with_mounts(steps, mounts, n)) ==> with_mounts(steps, mounts, n) == steps
            + Seq::new(
            n as nat,
            |i: int|
                KrunStepView::AddVirtiofs { tag: mount_tag_text(i), path: mounts[i].source@ },
        ),
    decreases n,
{
    let added = Seq::new(
        n as nat,
        |i: int| KrunStepView::AddVirtiofs { tag: mount_tag_text(i), path: mounts[i].source@ },
    );
    if n > 0 {
        lemma_mounts_planned(steps, mounts, n - 1);
        let fewer = Seq::new(
            (n - 1) as nat,
            |i: int| KrunStepView::AddVirtiofs { tag: mount_tag_text(i), path: mounts[i].source@ },
        );
        assert(added =~= fewer.push(added.last()));
        assert((steps + fewer).push(added.last()) =~= steps + added);
        assert(!is_c_text(mounts[n - 1].source@) ==> is_refused(with_mounts(steps, mounts, n)));
    } else {
        assert(steps + added =~= steps);
    }
}

proof fn lemma_disks_planned(steps: Seq<KrunStepView>, disks: Seq<DiskConfig>, n: int)
    requires
        0 <= n <= disks.len(),
    ensures
        is_refused(with_disks(steps, disks, n)) <==> is_refused(steps) || exists|i: int|
            0 <= i < n && !(is_c_text((#[trigger] disks[i]).block_id@) && is_c_text(disks[i].path@)),
        !is_refused(with_disks(steps, disks, n)) ==> with_disks(steps, disks, n) == steps
            + Seq::new(
            n as nat,
            |i: int|
                KrunStepView::AddDisk {
                    block_id: disks[i].block_id@,
                    path: disks[i].path@,
                    format: disks[i].format.spec_code(),
                    read_only: disks[i].read_only,
                },
        ),
    decreases n,
{
    let step = |i: int|
        KrunStepView::AddDisk {
            block_id: disks[i].block_id@,
            path: disks[i].path@,
            format: disks[i].format.spec_code(),
            read_only: disks[i].read_only,
        };
    let added = Seq::new(n as nat, step);
    if n > 0 {
        lemma_disks_planned(steps, disks, n - 1);
        let fewer = Seq::new((n - 1) as nat, step);
        assert(added =~= fewer.push(added.last()));
        assert((steps + fewer).push(added.last()) =~= steps + added);
        let d = disks[n - 1];
        assert(!(is_c_text(d.block_id@) && is_c_text(d.path@)) ==> is_refused(
            with_disks(steps, disks, n),
        ));
    } else {
        assert(steps + added =~= steps);
    }
}

proof fn lemma_vsocks_planned(steps: Seq<KrunStepView>, ports: Seq<VsockPort>, n: int)
    requires
        0 <= n <= ports.len(),
    ensures
        is_refused(with_vsocks(steps, ports, n)) <==> is_refused(steps) || exists|i: int|
            0 <= i < n && !is_c_text((#[trigger] ports[i]).socket_path@),
        !is_refused(with_vsocks(steps, ports, n)) ==> with_vsocks(steps, ports, n) == steps
            + Seq::new(
            n as nat,
            |i: int|
                KrunStepView::AddVsock {
                    port: ports[i].port,
                    path: ports[i].socket_path@,
                    listen: ports[i].listen,
                },
        ),
    decreases n,
{
    let step = |i: int|
        KrunStepView::AddVsock {
            port: ports[i].port,
            path: ports[i].socket_path@,
            listen: ports[i].listen,
        };
    let added = Seq::new(n as nat, step);
    if n > 0 {
        lemma_vsocks_planned(steps, ports, n - 1);
        let fewer = Seq::new((n - 1) as nat, step);
        assert(added =~= fewer.push(added.last()));
        assert((steps + fewer).push(added.last()) =~= steps + added);
        assert(!is_c_text(ports[n - 1].socket_path@) ==> is_refused(with_vsocks(steps, ports, n)));
    } else {
        assert(steps + added =~= steps);
    }
}

/// One where a thing is there, else none.
pub open spec fn one_if(there: bool) -> int {
    if there {
        1
    } else {
        0
    }
}

/// The position at which a plan sets what is executed: behind resources, root filesystem
/// and port map, and the working directory, where there is one.
pub open spec fn exec_position(c: VmConfig) -> int {
    3 + one_if(c.workdir is Some)
}

/// A plan that is not refused configures the machine as it is asked to, with nothing left
/// out and nothing added. Each mount shares its directory on the host under the tag of its
/// position, apart from the translation runtime no other directory is shared, and each
/// block device and vsock port is handed on as configured.
pub proof fn plans_hold_the_whole_configuration(
    rootfs: Seq<char>,
    c: VmConfig,
    planned: Result<(Seq<char>, Seq<Seq<char>>), ErrorView>,
    rosetta: Option<(Seq<char>, Seq<char>)>,
)
    requires
        !is_refused(krun_steps(rootfs, c, planned, rosetta)),
    ensures
        ({
            let s = krun_steps(rootfs, c, planned, rosetta);
            let x = exec_position(c);
            let translated = c.rosetta && rosetta is Some;
            let d = x + 1 + c.mounts@.len() + one_if(translated);
            let v = d + c.disks@.len();
            let e = v + c.vsock_ports@.len();
            &&& s.len() == e + one_if(c.console_log is Some)
            &&& s[0] == KrunStepView::SetVmConfig { cpus: c.cpus, memory_mib: c.memory_mib }
            &&& s[1] == KrunStepView::SetRoot(rootfs)
            &&& s[2] == KrunStepView::SetPortMap
            &&& c.workdir matches Some(w) ==> s[3] == KrunStepView::SetWorkdir(w@)
            &&& s[x] is SetExec
            &&& planned matches Ok((path, args)) && s[x]->exec_path == path && s[x]->args == args
            &&& forall|i: int|
                0 <= i < c.mounts@.len() ==> #[trigger] s[x + 1 + i] == (KrunStepView::AddVirtiofs {
                    tag: mount_tag_text(i),
                    path: c.mounts@[i].source@,
                })
            &&& translated ==> (rosetta matches Some((tag, path)) && s[d - 1] == (
            KrunStepView::AddVirtiofs { tag, path }))
            &&& forall|i: int|
                0 <= i < c.disks@.len() ==> #[trigger] s[d + i] == (KrunStepView::AddDisk {
                    block_id: c.disks@[i].block_id@,
                    path: c.disks@[i].path@,
                    format: c.disks@[i].format.spec_code(),
                    read_only: c.disks@[i].read_only,
                })
            &&& forall|i: int|
                0 <= i < c.vsock_ports@.len() ==> #[trigger] s[v + i] == (KrunStepView::AddVsock {
                    port: c.vsock_ports@[i].port,
                    path: c.vsock_ports@[i].socket_path@,
                    listen: c.vsock_ports@[i].listen,
                })
            &&& c.console_log matches Some(l) ==> s[e] == KrunStepView::SetConsole(l@)
        }),
{
    let s0 = seq![KrunStepView::SetVmConfig { cpus: c.cpus, memory_mib: c.memory_mib }];
    let s1 = add_step(s0, path_step(rootfs, KrunStepView::SetRoot(rootfs)));
    let s2 = add_step(s1, KrunStepView::SetPortMap);
    let s3 = with_workdir(s2, c.workdir.deep_view());
    let s4 = add_step(s3, exec_step(c, planned));
    let s5 = with_mounts(s4, c.mounts@, c.mounts@.len() as int);
    let s6 = with_rosetta(
        s5,
        if c.rosetta {
            rosetta
        } else {
            None
        },
    );
    let s7 = with_disks(s6, c.disks@, c.disks@.len() as int);
    let s8 = with_vsocks(s7, c.vsock_ports@, c.vsock_ports@.len() as int);
    lemma_mounts_planned(s4, c.mounts@, c.mounts@.len() as int);
    lemma_disks_planned(s6, c.disks@, c.disks@.len() as int);
    lemma_vsocks_planned(s7, c.vsock_ports@, c.vsock_ports@.len() as int);
    assert(!is_refused(s8) && !is_refused(s7) && !is_refused(s6) && !is_refused(s5) && !is_refused(
        s4,
    ) && !is_refused(s3) && !is_refused(s2) && !is_refused(s1));
    let x = exec_position(c);
    assert(s4.len() == x + 1);
    let s = krun_steps(rootfs, c, planned, rosetta);
    let d = x + 1 + c.mounts@.len() + one_if(c.rosetta && rosetta is Some);
    let v = d + c.disks@.len();
    assert(s6.len() == d);
    assert(s7.len() == v);
    assert(forall|i: int| 0 <= i < s8.len() ==> s[i] == #[trigger] s8[i]);
    assert(forall|i: int| 0 <= i < s7.len() ==> s8[i] == #[trigger] s7[i]);
    assert(forall|i: int| 0 <= i < s6.len() ==> s7[i] == #[trigger] s6[i]);
    assert(forall|i: int| 0 <= i < s5.len() ==> s6[i] == #[trigger] s5[i]);
    assert(forall|i: int| 0 <= i < s4.len() ==> s5[i] == #[trigger] s4[i]);
    assert forall|i: int| 0 <= i < c.mounts@.len() implies #[trigger] s[x + 1 + i] == (
    KrunStepView::AddVirtiofs { tag: mount_tag_text(i), path: c.mounts@[i].source@ }) by {
        assert(s[x + 1 + i] == s5[x + 1 + i]);
    }
    assert forall|i: int| 0 <= i < c.disks@.len() implies #[trigger] s[d + i] == (
    KrunStepView::AddDisk {
        block_id: c.disks@[i].block_id@,
        path: c.disks@[i].path@,
        format: c.disks@[i].format.spec_code(),
        read_only: c.disks@[i].read_only,
    }) by {
        assert(s[d + i] == s7[d + i]);
    }
    assert forall|i: int| 0 <= i < c.vsock_ports@.len() implies #[trigger] s[v + i] == (
    KrunStepView::AddVsock {
        port: c.vsock_ports@[i].port,
        path: c.vsock_ports@[i].socket_path@,
        listen: c.vsock_ports@[i].listen,
    }) by {
        assert(s[v + i] == s8[v + i]);
    }
    assert(s[0] == s4[0] && s[1] == s4[1] && s[2] == s4[2] && s[3] == s4[3] && s[x] == s4[x]);
}

/// What the guest mounts at the target of a mount is what the host shares from its source:
/// the tag that the executor is told of is that of the shared directory.
pub proof fn guests_mount_what_the_host_shares(
    rootfs: Seq<char>,
    c: VmConfig,
    planned: Result<(Seq<char>, Seq<Seq<char>>), ErrorView>,
    rosetta: Option<(Seq<char>, Seq<char>)>,
    i: int,
)
    requires
        !is_refused(krun_steps(rootfs, c, planned, rosetta)),
        0 <= i < c.mounts@.len(),
    ensures
        mount_pairs(c.mounts@).len() == c.mounts@.len(),
        mount_pairs(c.mounts@)[i].1 == c.mounts@[i].target@,
        krun_steps(rootfs, c, planned, rosetta)[exec_position(c) + 1 + i] == (
        KrunStepView::AddVirtiofs {
            tag: mount_pairs(c.mounts@)[i].0,
            path: c.mounts@[i].source@,
        }),
{
    plans_hold_the_whole_configuration(rootfs, c, planned, rosetta);
}

/// A program runs with its name and three defaults in its environment, then each configured
/// variable, in order.
pub proof fn programs_get_the_configured_environment(
    rootfs: Seq<char>,
    c: VmConfig,
    planned: Result<(Seq<char>, Seq<Seq<char>>), ErrorView>,
    rosetta: Option<(Seq<char>, Seq<char>)>,
)
    requires
        !is_refused(krun_steps(rootfs, c, planned, rosetta)),
    ensures
        ({
            let env = krun_steps(rootfs, c, planned, rosetta)[exec_position(c)]->env;
            let own = c.env.deep_view();
            &&& env.len() == own.len() + 4
            &&& env[0] == "HOSTNAME="@ + c.id@
            &&& env[1] == "HOME=/root"@
            &&& env[3] == "TERM=xterm-256color"@
            &&& forall|i: int|
                0 <= i < own.len() ==> #[trigger] env[4 + i] == own[i].0 + seq!['='] + own[i].1
        }),
{
    plans_hold_the_whole_configuration(rootfs, c, planned, rosetta);
    let s3 = with_workdir(
        add_step(
            add_step(
                seq![KrunStepView::SetVmConfig { cpus: c.cpus, memory_mib: c.memory_mib }],
                path_step(rootfs, KrunStepView::SetRoot(rootfs)),
            ),
            KrunStepView::SetPortMap,
        ),
        c.workdir.deep_view(),
    );
    let s4 = add_step(s3, exec_step(c, planned));
    let s5 = with_mounts(s4, c.mounts@, c.mounts@.len() as int);
    let s6 = with_rosetta(
        s5,
        if c.rosetta {
            rosetta
        } else {
            None
        },
    );
    let s7 = with_disks(s6, c.disks@, c.disks@.len() as int);
    let s8 = with_vsocks(s7, c.vsock_ports@, c.vsock_ports@.len() as int);
    lemma_mounts_planned(s4, c.mounts@, c.mounts@.len() as int);
    lemma_disks_planned(s6, c.disks@, c.disks@.len() as int);
    lemma_vsocks_planned(s7, c.vsock_ports@, c.vsock_ports@.len() as int);
    let x = exec_position(c);
    assert(s4.len() == x + 1);
    assert(s8[x] == s4[x]);
    assert(s4[x] == exec_step(c, planned));
    reveal_strlit("=");
    assert("="@ =~= seq!['=']);
}

/// A plan is refused exactly where something that it has to hand on cannot be handed on, or
/// where the executor made nothing of the command.
pub proof fn plans_are_refused_for_a_reason(
    rootfs: Seq<char>,
    c: VmConfig,
    planned: Result<(Seq<char>, Seq<Seq<char>>), ErrorView>,
    rosetta: Option<(Seq<char>, Seq<char>)>,
)
    ensures
        is_refused(krun_steps(rootfs, c, planned, rosetta)) <==> {
            ||| rootfs.contains('\0')
            ||| c.workdir matches Some(w) && w@.contains('\0')
            ||| env_args(c.env.deep_view(), c.id@) is Err
            ||| planned is Err
            ||| planned matches Ok(p) && !(is_c_text(p.0) && all_c_texts(p.1))
            ||| exists|i: int|
                0 <= i < c.mounts@.len() && !is_c_text((#[trigger] c.mounts@[i]).source@)
            ||| c.rosetta && (rosetta matches Some(p) && !(is_c_text(p.0) && is_c_text(p.1)))
            ||| exists|i: int|
                0 <= i < c.disks@.len() && !(is_c_text((#[trigger] c.disks@[i]).block_id@)
                    && is_c_text(c.disks@[i].path@))
            ||| exists|i: int|
                0 <= i < c.vsock_ports@.len() && !is_c_text(
                    (#[trigger] c.vsock_ports@[i]).socket_path@,
                )
            ||| c.console_log matches Some(l) && l@.contains('\0')
        },
{
    let s0 = seq![KrunStepView::SetVmConfig { cpus: c.cpus, memory_mib: c.memory_mib }];
    let s1 = add_step(s0, path_step(rootfs, KrunStepView::SetRoot(rootfs)));
    let s2 = add_step(s1, KrunStepView::SetPortMap);
    let s3 = with_workdir(s2, c.workdir.deep_view());
    let s4 = add_step(s3, exec_step(c, planned));
    let s5 = with_mounts(s4, c.mounts@, c.mounts@.len() as int);
    let s6 = with_rosetta(
        s5,
        if c.rosetta {
            rosetta
        } else {
            None
        },
    );
    let s7 = with_disks(s6, c.disks@, c.disks@.len() as int);
    lemma_mounts_planned(s4, c.mounts@, c.mounts@.len() as int);
    lemma_disks_planned(s6, c.disks@, c.disks@.len() as int);
    lemma_vsocks_planned(s7, c.vsock_ports@, c.vsock_ports@.len() as int);
}

/// An environment is refused exactly where the machine's name or a variable holds a null
/// character.
pub proof fn environments_are_refused_for_null_characters(
    env: Seq<(Seq<char>, Seq<char>)>,
    id: Seq<char>,
)
    ensures
        env_args(env, id) is Err <==> id.contains('\0') || exists|i: int|
            0 <= i < env.len() && ((#[trigger] env[i]).0.contains('\0') || env[i].1.contains('\0')),
{
    let all = machine_env(env, id);
    reveal_strlit("HOSTNAME=");
    reveal_strlit("=");
    let head = "HOSTNAME="@ + id;
    if id.contains('\0') {
        let k = choose|k: int| 0 <= k < id.len() && id[k] == '\0';
        assert(head[9 + k] == '\0');
    }
    if head.contains('\0') {
        let k = choose|k: int| 0 <= k < head.len() && head[k] == '\0';
        assert(id[k - 9] == '\0');
    }
    assert forall|i: int| 0 <= i < env.len() implies (is_c_text(#[trigger] all[4 + i]) <==> !(
    env[i].0.contains('\0') || env[i].1.contains('\0'))) by {
        let t = env[i].0 + "="@ + env[i].1;
        assert(all[4 + i] == t);
        let n = env[i].0.len();
        if env[i].0.contains('\0') {
            let k = choose|k: int| 0 <= k < n && env[i].0[k] == '\0';
            assert(t[k] == '\0');
        }
        if env[i].1.contains('\0') {
            let k = choose|k: int| 0 <= k < env[i].1.len() && env[i].1[k] == '\0';
            assert(t[n + 1 + k] == '\0');
        }
        if t.contains('\0') {
            let k = choose|k: int| 0 <= k < t.len() && t[k] == '\0';
            if k < n {
                assert(env[i].0[k] == '\0');
            } else {
                assert(k != n);
                assert(env[i].1[k - n - 1] == '\0');
            }
        }
    }
    assert forall|i: int| 4 <= i < all.len() implies is_c_text(#[trigger] all[i]) == is_c_text(
        all[4 + (i - 4)],
    ) by {}
    if exists|i: int| 4 <= i < all.len() && !is_c_text(#[trigger] all[i]) {
        let i = choose|i: int| 4 <= i < all.len() && !is_c_text(#[trigger] all[i]);
        assert(!is_c_text(all[4 + (i - 4)]));
        assert(env[i - 4].0.contains('\0') || env[i - 4].1.contains('\0'));
    }
    if exists|i: int|
        0 <= i < env.len() && ((#[trigger] env[i]).0.contains('\0') || env[i].1.contains('\0')) {
        let i = choose|i: int|
            0 <= i < env.len() && ((#[trigger] env[i]).0.contains('\0') || env[i].1.contains(
                '\0',
            ));
        assert(!is_c_text(all[4 + i]));
    }
}

/// A command line is executed word by word: its first word is the program, the others are
/// its arguments. Without a command line a shell runs, without arguments.
pub proof fn command_lines_are_executed_word_by_word(command: Option<Seq<Seq<char>>>)
    ensures
        match exec_args(command) {
            Ok((path, args)) => match command {
                Some(words) => words.len() == args.len() + 1 && words[0] == path && forall|i: int|
                    0 <= i < args.len() ==> #[trigger] args[i] == words[i + 1],
                None => path == crate::DEFAULT_SHELL_CMD@ && args.len() == 0,
            },
            Err(_) => command matches Some(words) ==> words.len() == 0 || exists|i: int|
                0 <= i < words.len() && (#[trigger] words[i]).contains('\0'),
        },
        command matches Some(words) ==> (exec_args(command) is Ok <==> words.len() > 0 && forall|
            i: int,
        |
            0 <= i < words.len() ==> !(#[trigger] words[i]).contains('\0')),
{
    if let Some(words) = command {
        let rest = words.skip(1);
        if words.len() > 0 {
            assert forall|i: int| 0 <= i < rest.len() implies #[trigger] rest[i] == words[i + 1] by {}
            if !all_c_texts(rest) {
                let j = choose|j: int| 0 <= j < rest.len() && !is_c_text(#[trigger] rest[j]);
                assert(words[j + 1].contains('\0'));
            }
            if all_c_texts(rest) && is_c_text(words[0]) {
                assert forall|i: int| 0 <= i < words.len() implies !(#[trigger] words[i]).contains(
                    '\0',
                ) by {
                    if i > 0 {
                        assert(rest[i - 1] == words[i]);
                    }
                }
            }
        }
    }
}

/// A launch ends at the first failure of a call without which the machine cannot run: its
/// resources, its root filesystem, its port map and its program. Failures of other calls
/// are survived.
pub proof fn essential_calls_must_succeed(step: KrunStepView)
    ensures
        fatal_reason(step) is Some <==> step is SetVmConfig || step is SetRoot || step
            is SetPortMap || step is SetExec,
{
}

// ---------------------------------------------------------------------------
// The backend and its machines
// ---------------------------------------------------------------------------

/// libkrun backend for VM creation.
#[derive(Debug, Clone, Copy)]
pub struct LibkrunBackend {
    /// Whether libkrun appears to be available.
    available: bool,
}

impl LibkrunBackend {
    /// Whether the native library was found.
    pub closed spec fn spec_available(&self) -> bool {
        self.available
    }

    /// Create a new libkrun backend, given whether the native library was found.
    pub fn new(library_found: bool) -> (r: LibkrunBackend)
        ensures
            r.spec_available() == library_found,
    {
        LibkrunBackend { available: library_found }
    }

    /// The name of the backend.
    pub fn name(&self) -> (r: &'static str)
        ensures
            r@ == "libkrun"@,
    {
        "libkrun"
    }

    /// Whether the backend can be used.
    pub fn is_available(&self) -> (r: bool)
        ensures
            r == self.spec_available(),
    {
        self.available
    }
}

/// The state of a machine that libkrun runs.
#[derive(Debug)]
pub enum VmState {
    /// Not started.
    Created,
    /// Starting.
    Booting,
    /// Running.
    Running,
    /// Ended or stopped.
    Stopped,
    /// Could not be run.
    Failed {
        /// Why.
        reason: String,
    },
}

/// Why a machine ended.
#[derive(Debug)]
pub enum ExitReason {
    /// Its process ended with this code.
    Exited(i32),
    /// It could not be run.
    VmCrash(String),
}

/// A VM instance managed by libkrun.
#[derive(Debug)]
pub struct LibkrunVm {
    /// Identifier of the machine.
    pub id: VmId,
    /// State of the machine.
    pub state: VmState,
    /// Why the machine ended, where it has.
    pub exit_reason: Option<ExitReason>,
}

impl LibkrunVm {
    /// A machine that is being booted.
    pub fn boot(id: VmId) -> (r: LibkrunVm)
        ensures
            r == (LibkrunVm { id, state: VmState::Booting, exit_reason: None }),
    {
        LibkrunVm { id, state: VmState::Booting, exit_reason: None }
    }

    /// Record how the machine's run ended: with the exit code of its process, or
    /// with the reason why it could not be run.
    pub fn finish(&mut self, result: Result<i32, String>)
        ensures
            final(self).id == old(self).id,
            match result {
                Ok(code) => final(self).state == VmState::Stopped && final(self).exit_reason
                    == Some(ExitReason::Exited(code)),
                Err(e) => {
                    &&& final(self).state matches VmState::Failed { reason } && reason@ == e@
                    &&& final(self).exit_reason matches Some(ExitReason::VmCrash(r)) && r@ == e@
                },
            },
    {
        match result {
            Ok(code) => {
                self.state = VmState::Stopped;
                self.exit_reason = Some(ExitReason::Exited(code));
            },
            Err(e) => {
                self.state = VmState::Failed { reason: e.clone() };
                self.exit_reason = Some(ExitReason::VmCrash(e));
            },
        }
    }

    /// Why the machine ended; it is an error to ask before it has.
    pub fn wait(&self) -> (r: Result<&ExitReason, Error>)
        ensures
            match self.exit_reason {
                Some(reason) => r matches Ok(x) && *x == reason,
                None => r matches Err(e) && e@ == (ErrorView::VmNotFound { name: self.id@ }),
            },
    {
        match &self.exit_reason {
            Some(reason) => Ok(reason),
            None => Err(Error::vm_not_found(self.id.as_str())),
        }
    }

    /// Record that the machine was stopped, where its process was running.
    pub fn stop(&mut self, child_running: bool)
        ensures
            final(self).id == old(self).id,
            final(self).exit_reason == old(self).exit_reason,
            final(self).state == (if child_running {
                VmState::Stopped
            } else {
                old(self).state
            }),
    {
        if child_running {
            self.state = VmState::Stopped;
        }
    }

    /// Record that the machine was killed.
    pub fn kill(&mut self)
        ensures
            final(self).id == old(self).id,
            final(self).exit_reason == old(self).exit_reason,
            final(self).state == VmState::Stopped,
    {
        self.state = VmState::Stopped;
    }
}

} // verus!
