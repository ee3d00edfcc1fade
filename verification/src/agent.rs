//! Requests to the guest agent and launch features of machines.
use vstd::prelude::*;
use vstd::string::*;

use crate::duration::Duration;

verus! {

/// The words of the command that keeps a machine idle.
pub open spec fn idle_command() -> Seq<Seq<char>> {
    seq!["sleep"@, "infinity"@]
}

/// The command that keeps a machine idle: `sleep infinity`.
pub fn default_idle_cmd() -> (r: Vec<String>)
    ensures
        r.deep_view() == idle_command(),
{
    let mut r: Vec<String> = Vec::new();
    r.push("sleep".to_owned());
    r.push("infinity".to_owned());
    proof {
        assert(r.deep_view() =~= idle_command());
    }
    r
}

/// The command that opens a shell: `/bin/sh`.
pub fn default_shell_cmd() -> (r: Vec<String>)
    ensures
        r.deep_view() == seq![crate::DEFAULT_SHELL_CMD@],
{
    let mut r: Vec<String> = Vec::new();
    r.push(crate::DEFAULT_SHELL_CMD.to_owned());
    proof {
        assert(r.deep_view() =~= seq![crate::DEFAULT_SHELL_CMD@]);
    }
    r
}

/// A command to be run inside an image's root filesystem.
#[derive(Debug)]
pub struct RunConfig {
    /// Image to run in.
    pub image: String,
    /// Command and arguments.
    pub command: Vec<String>,
    /// Environment variables.
    pub env: Vec<(String, String)>,
    /// Working directory.
    pub workdir: Option<String>,
    /// Virtiofs bindings (tag, guest_path, read_only).
    pub mounts: Vec<(String, String, bool)>,
    /// Time limit.
    pub timeout: Option<Duration>,
    /// Whether a pseudo-TTY is allocated.
    pub tty: bool,
    /// Overlay that keeps filesystem changes.
    pub persistent_overlay_id: Option<String>,
}

/// The mathematical value of a [`RunConfig`].
pub struct RunConfigView {
    /// See [`RunConfig::image`].
    pub image: Seq<char>,
    /// See [`RunConfig::command`].
    pub command: Seq<Seq<char>>,
    /// See [`RunConfig::env`].
    pub env: Seq<(Seq<char>, Seq<char>)>,
    /// See [`RunConfig::workdir`].
    pub workdir: Option<Seq<char>>,
    /// See [`RunConfig::mounts`].
    pub mounts: Seq<(Seq<char>, Seq<char>, bool)>,
    /// See [`RunConfig::timeout`].
    pub timeout: Option<Duration>,
    /// See [`RunConfig::tty`].
    pub tty: bool,
    /// See [`RunConfig::persistent_overlay_id`].
    pub persistent_overlay_id: Option<Seq<char>>,
}

impl View for RunConfig {
    type V = RunConfigView;

    open spec fn view(&self) -> RunConfigView {
        RunConfigView {
            image: self.image@,
            command: self.command.deep_view(),
            env: self.env.deep_view(),
            workdir: self.workdir.deep_view(),
            mounts: self.mounts.deep_view(),
            timeout: self.timeout,
            tty: self.tty,
            persistent_overlay_id: self.persistent_overlay_id.deep_view(),
        }
    }
}

impl RunConfig {
    /// A command in an image, with nothing else set.
    pub fn new(image: &str, command: Vec<String>) -> (r: RunConfig)
        ensures
            r@ == (RunConfigView {
                image: image@,
                command: command.deep_view(),
                env: Seq::empty(),
                workdir: None,
                mounts: Seq::empty(),
                timeout: None,
                tty: false,
                persistent_overlay_id: None,
            }),
    {
        let r = RunConfig {
            image: image.to_owned(),
            command,
            env: Vec::new(),
            workdir: None,
            mounts: Vec::new(),
            timeout: None,
            tty: false,
            persistent_overlay_id: None,
        };
        proof {
            assert(r.env.deep_view() =~= Seq::empty());
            assert(r.mounts.deep_view() =~= Seq::empty());
        }
        r
    }

    /// Set the environment variables.
    pub fn with_env(self, env: Vec<(String, String)>) -> (r: RunConfig)
        ensures
            r@ == (RunConfigView { env: env.deep_view(), ..self@ }),
    {
        RunConfig { env, ..self }
    }

    /// Set the working directory.
    pub fn with_workdir(self, workdir: Option<String>) -> (r: RunConfig)
        ensures
            r@ == (RunConfigView { workdir: workdir.deep_view(), ..self@ }),
    {
        RunConfig { workdir, ..self }
    }

    /// Set the virtiofs bindings.
    pub fn with_mounts(self, mounts: Vec<(String, String, bool)>) -> (r: RunConfig)
        ensures
            r@ == (RunConfigView { mounts: mounts.deep_view(), ..self@ }),
    {
        RunConfig { mounts, ..self }
    }

    /// Set the time limit.
    pub fn with_timeout(self, timeout: Option<Duration>) -> (r: RunConfig)
        ensures
            r@ == (RunConfigView { timeout, ..self@ }),
    {
        RunConfig { timeout, ..self }
    }

    /// Set whether a pseudo-TTY is allocated.
    pub fn with_tty(self, tty: bool) -> (r: RunConfig)
        ensures
            r@ == (RunConfigView { tty, ..self@ }),
    {
        RunConfig { tty, ..self }
    }

    /// Set the overlay that keeps filesystem changes.
    pub fn with_persistent_overlay(self, id: Option<String>) -> (r: RunConfig)
        ensures
            r@ == (RunConfigView { persistent_overlay_id: id.deep_view(), ..self@ }),
    {
        RunConfig { persistent_overlay_id: id, ..self }
    }
}

/// Optional features of a machine launch.
#[derive(Debug)]
pub struct LaunchFeatures {
    /// Socket of the host's SSH agent.
    pub ssh_agent_socket: Option<String>,
    /// Hostnames for DNS filtering.
    pub dns_filter_hosts: Option<Vec<String>>,
    /// Directory of extracted layers.
    pub packed_layers_dir: Option<String>,
    /// Further block devices (path, read_only).
    pub extra_disks: Vec<(String, bool)>,
}

/// The mathematical value of a [`LaunchFeatures`].
pub struct LaunchFeaturesView {
    /// See [`LaunchFeatures::ssh_agent_socket`].
    pub ssh_agent_socket: Option<Seq<char>>,
    /// See [`LaunchFeatures::dns_filter_hosts`].
    pub dns_filter_hosts: Option<Seq<Seq<char>>>,
    /// See [`LaunchFeatures::packed_layers_dir`].
    pub packed_layers_dir: Option<Seq<char>>,
    /// See [`LaunchFeatures::extra_disks`].
    pub extra_disks: Seq<(Seq<char>, bool)>,
}

impl View for LaunchFeatures {
    type V = LaunchFeaturesView;

    open spec fn view(&self) -> LaunchFeaturesView {
        LaunchFeaturesView {
            ssh_agent_socket: self.ssh_agent_socket.deep_view(),
            dns_filter_hosts: self.dns_filter_hosts.deep_view(),
            packed_layers_dir: self.packed_layers_dir.deep_view(),
            extra_disks: self.extra_disks.deep_view(),
        }
    }
}

/// What the agent says of an image.
#[derive(Debug)]
pub struct ImageInfo {
    /// Reference by which the image was pulled.
    pub reference: String,
    /// Digest of the image.
    pub digest: String,
    /// Size in bytes.
    pub size: u64,
    /// Number of layers.
    pub layer_count: usize,
    /// Layer digests, bottom first.
    pub layers: Vec<String>,
    /// Operating system.
    pub os: String,
    /// Architecture.
    pub architecture: String,
    /// Entrypoint of the image.
    pub entrypoint: Vec<String>,
    /// Command of the image.
    pub cmd: Vec<String>,
    /// Environment variables of the image.
    pub env: Vec<String>,
    /// Working directory of the image.
    pub workdir: Option<String>,
}

/// The mathematical value of a [`ImageInfo`].
pub struct ImageInfoView {
    /// See [`ImageInfo::reference`].
    pub reference: Seq<char>,
    /// See [`ImageInfo::digest`].
    pub digest: Seq<char>,
    /// See [`ImageInfo::size`].
    pub size: u64,
    /// See [`ImageInfo::layer_count`].
    pub layer_count: usize,
    /// See [`ImageInfo::layers`].
    pub layers: Seq<Seq<char>>,
    /// See [`ImageInfo::os`].
    pub os: Seq<char>,
    /// See [`ImageInfo::architecture`].
    pub architecture: Seq<char>,
    /// See [`ImageInfo::entrypoint`].
    pub entrypoint: Seq<Seq<char>>,
    /// See [`ImageInfo::cmd`].
    pub cmd: Seq<Seq<char>>,
    /// See [`ImageInfo::env`].
    pub env: Seq<Seq<char>>,
    /// See [`ImageInfo::workdir`].
    pub workdir: Option<Seq<char>>,
}

impl View for ImageInfo {
    type V = ImageInfoView;

    open spec fn view(&self) -> ImageInfoView {
        ImageInfoView {
            reference: self.reference@,
            digest: self.digest@,
            size: self.size,
            layer_count: self.layer_count,
            layers: self.layers.deep_view(),
            os: self.os@,
            architecture: self.architecture@,
            entrypoint: self.entrypoint.deep_view(),
            cmd: self.cmd.deep_view(),
            env: self.env.deep_view(),
            workdir: self.workdir.deep_view(),
        }
    }
}

/// One event of a streamed command.
#[derive(Debug)]
pub enum ExecEvent {
    /// Output bytes.
    Stdout(Vec<u8>),
    /// Error output bytes.
    Stderr(Vec<u8>),
    /// The command ended with this code.
    Exit(i32),
    /// The stream failed.
    Error(String),
}

/// The exit code that a stream of events leads to: that of the last exit, or 1 for
/// a failure that came later; 0 where neither came.
pub open spec fn stream_exit_code(events: Seq<ExecEvent>) -> i32
    decreases events.len(),
{
    if events.len() == 0 {
        0
    } else {
        match events.last() {
            ExecEvent::Exit(code) => code,
            ExecEvent::Error(_) => 1,
            _ => stream_exit_code(events.drop_last()),
        }
    }
}

/// The exit code that a stream of events leads to.
pub fn exit_code_of_stream(events: &Vec<ExecEvent>) -> (r: i32)
    ensures
        r == stream_exit_code(events@),
{
    let mut code: i32 = 0;
    proof {
        assert(events@.take(0) =~= Seq::empty());
    }
    for i in 0..events.len()
        invariant
            code == stream_exit_code(events@.take(i as int)),
    {
        proof {
            assert(events@.take(i + 1).drop_last() =~= events@.take(i as int));
            assert(events@.take(i + 1).last() == events@[i as int]);
        }
        match &events[i] {
            ExecEvent::Exit(c) => {
                code = *c;
            },
            ExecEvent::Error(_) => {
                code = 1;
            },
            _ => {},
        }
    }
    proof {
        assert(events@.take(events@.len() as int) =~= events@);
    }
    code
}

/// A stream ends with the code of its last exit, whatever output follows; a failure after
/// it counts as 1; output alone ends with 0.
pub proof fn streams_end_with_the_last_exit(
    events: Seq<ExecEvent>,
    code: i32,
    reason: String,
    output: Seq<ExecEvent>,
)
    requires
        forall|i: int|
            0 <= i < output.len() ==> (#[trigger] output[i]) is Stdout || output[i] is Stderr,
    ensures
        stream_exit_code(events.push(ExecEvent::Exit(code)) + output) == code,
        stream_exit_code(events.push(ExecEvent::Error(reason)) + output) == 1,
        stream_exit_code(output) == 0,
    decreases output.len(),
{
    let exited = events.push(ExecEvent::Exit(code));
    let failed = events.push(ExecEvent::Error(reason));
    if output.len() == 0 {
        assert(exited + output == exited);
        assert(failed + output == failed);
    } else {
        streams_end_with_the_last_exit(events, code, reason, output.drop_last());
        assert((exited + output).drop_last() == exited + output.drop_last());
        assert((failed + output).drop_last() == failed + output.drop_last());
        assert((exited + output).last() == output.last());
        assert((failed + output).last() == output.last());
        assert(output.last() == output[output.len() - 1]);
    }
}

} // verus!
