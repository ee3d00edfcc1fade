//! Machine records, restart policy and global configuration.
use vstd::prelude::*;
use vstd::string::*;
use vstd::utf8::*;

use crate::data::network::{pair_ports, PortMapping, DEFAULT_DNS};
use crate::data::resources::{
    VmResources, VmResourcesView, DEFAULT_MICROVM_CPU_COUNT, DEFAULT_MICROVM_MEMORY_MIB,
};
use crate::data::storage::{from_storage_tuples, HostMount};
use crate::db::with_settings;
use crate::db::{listed, lists_map};
use crate::duration::Duration;
use crate::error::Error;
use crate::lists::{
    clone_opt, clone_opt_strings, clone_pairs, clone_ports, clone_strings, clone_triples,
};
use crate::network::backend::NetworkBackend;
use crate::process::{is_our_process, is_ours, ProcessProbe};
use crate::scan::{decimal_parses_back, parse_unsigned, parsed_nat};
use crate::table::Table;
use crate::text::{ascii_lowercase, decimal, decimal_text, same, to_lowercase, unicode_lowercase};
use crate::util::{current_timestamp, is_timestamp};

verus! {

/// VM lifecycle state.
#[derive(Debug, Clone, Copy, PartialEq, Eq, Structural)]
pub enum RecordState {
    /// Container exists, VM not started.
    Created,
    /// VM process is running.
    Running,
    /// VM exited cleanly.
    Stopped,
    /// VM crashed or error.
    Failed,
    /// The VMM process is alive but the guest agent does not respond. Listings
    /// show this instead of a misleading "running"; a start recovers by killing
    /// the process and starting fresh.
    Unreachable,
}

impl Default for RecordState {
    fn default() -> (r: RecordState)
        ensures
            r == RecordState::Created,
    {
        RecordState::Created
    }
}

impl RecordState {
    /// The word for a state.
    pub open spec fn word(self) -> Seq<char> {
        match self {
            RecordState::Created => "created"@,
            RecordState::Running => "running"@,
            RecordState::Stopped => "stopped"@,
            RecordState::Failed => "failed"@,
            RecordState::Unreachable => "unreachable"@,
        }
    }

    /// The word for the state.
    pub fn to_string(&self) -> (r: String)
        ensures
            r@ == self.word(),
    {
        match self {
            RecordState::Created => "created".to_owned(),
            RecordState::Running => "running".to_owned(),
            RecordState::Stopped => "stopped".to_owned(),
            RecordState::Failed => "failed".to_owned(),
            RecordState::Unreachable => "unreachable".to_owned(),
        }
    }

    /// The name of a state, as it stands in this enumeration.
    pub open spec fn variant_name(self) -> Seq<char> {
        match self {
            RecordState::Created => "Created"@,
            RecordState::Running => "Running"@,
            RecordState::Stopped => "Stopped"@,
            RecordState::Failed => "Failed"@,
            RecordState::Unreachable => "Unreachable"@,
        }
    }

    /// The name of the state, as it stands in this enumeration.
    pub fn name_text(&self) -> (r: String)
        ensures
            r@ == self.variant_name(),
    {
        match self {
            RecordState::Created => "Created".to_owned(),
            RecordState::Running => "Running".to_owned(),
            RecordState::Stopped => "Stopped".to_owned(),
            RecordState::Failed => "Failed".to_owned(),
            RecordState::Unreachable => "Unreachable".to_owned(),
        }
    }
}

/// Restart policy for a machine.
#[derive(Debug, Clone, Copy, PartialEq, Eq, Structural)]
pub enum RestartPolicy {
    /// Never restart the machine automatically.
    Never,
    /// Always restart the machine when it exits.
    Always,
    /// Restart only if the machine exited with a non-zero exit code.
    OnFailure,
    /// Restart unless the user explicitly stopped the machine.
    UnlessStopped,
}

impl Default for RestartPolicy {
    fn default() -> (r: RestartPolicy)
        ensures
            r == RestartPolicy::Never,
    {
        RestartPolicy::Never
    }
}

/// The policy that a lower-case word names.
pub open spec fn policy_of(word: Seq<char>) -> Option<RestartPolicy> {
    if word == "never"@ {
        Some(RestartPolicy::Never)
    } else if word == "always"@ {
        Some(RestartPolicy::Always)
    } else if word == "on-failure"@ || word == "onfailure"@ {
        Some(RestartPolicy::OnFailure)
    } else if word == "unless-stopped"@ || word == "unlessstopped"@ {
        Some(RestartPolicy::UnlessStopped)
    } else {
        None
    }
}

/// The policy that a text names, whatever its case, or what is wrong with it.
pub open spec fn parsed_policy(s: Seq<char>) -> Result<RestartPolicy, Seq<char>> {
    match policy_of(unicode_lowercase(s)) {
        Some(p) => Ok(p),
        None => Err("invalid restart policy: "@ + s),
    }
}

impl RestartPolicy {
    /// The word for a policy.
    pub open spec fn word(self) -> Seq<char> {
        match self {
            RestartPolicy::Never => "never"@,
            RestartPolicy::Always => "always"@,
            RestartPolicy::OnFailure => "on-failure"@,
            RestartPolicy::UnlessStopped => "unless-stopped"@,
        }
    }

    /// The word for the policy.
    pub fn to_string(&self) -> (r: String)
        ensures
            r@ == self.word(),
    {
        match self {
            RestartPolicy::Never => "never".to_owned(),
            RestartPolicy::Always => "always".to_owned(),
            RestartPolicy::OnFailure => "on-failure".to_owned(),
            RestartPolicy::UnlessStopped => "unless-stopped".to_owned(),
        }
    }

    /// The policy that a lower-case word names.
    pub fn from_word(word: &str) -> (r: Option<RestartPolicy>)
        ensures
            r == policy_of(word@),
    {
        if same(word, "never") {
            Some(RestartPolicy::Never)
        } else if same(word, "always") {
            Some(RestartPolicy::Always)
        } else if same(word, "on-failure") || same(word, "onfailure") {
            Some(RestartPolicy::OnFailure)
        } else if same(word, "unless-stopped") || same(word, "unlessstopped") {
            Some(RestartPolicy::UnlessStopped)
        } else {
            None
        }
    }

    /// Parse a policy, whatever its case. The word that a policy is shown as gives
    /// that policy back, in whatever ASCII case its letters are, and no other ASCII text
    /// but the words without a hyphen names a policy.
    pub fn parse(s: &str) -> (r: Result<RestartPolicy, String>)
        ensures
            match parsed_policy(s@) {
                Ok(p) => r matches Ok(q) && q == p,
                Err(e) => r matches Err(f) && f@ == e,
            },
            is_ascii_chars(s@) ==> (match policy_of(ascii_lowercase(s@)) {
                Some(p) => r matches Ok(q) && q == p,
                None => r is Err,
            }),
            forall|p: RestartPolicy|
                is_ascii_chars(s@) && ascii_lowercase(s@) == #[trigger] p.word() ==> (r matches Ok(
                    q,
                ) && q == p),
            forall|p: RestartPolicy| s@ == #[trigger] p.word() ==> (r matches Ok(q) && q == p),
    {
        let word = to_lowercase(s);
        proof {
            lemma_policy_words();
            assert forall|p: RestartPolicy| s@ == #[trigger] p.word() implies is_ascii_chars(s@)
                && ascii_lowercase(s@) == s@ by {
                assert(ascii_lowercase(s@) =~= s@);
            }
        }
        match RestartPolicy::from_word(word.as_str()) {
            Some(p) => Ok(p),
            None => Err(String::from_str("invalid restart policy: ").concat(s)),
        }
    }
}

/// The words for the policies are lower-case ASCII and name their policies.
proof fn lemma_policy_words()
    ensures
        forall|p: RestartPolicy, i: int|
            0 <= i < p.word().len() ==> (#[trigger] p.word()[i] as u32) < 128
                && !crate::text::is_ascii_upper(p.word()[i]),
        forall|p: RestartPolicy| policy_of(#[trigger] p.word()) == Some(p),
{
    reveal_strlit("never");
    reveal_strlit("always");
    reveal_strlit("on-failure");
    reveal_strlit("unless-stopped");
    reveal_strlit("onfailure");
    reveal_strlit("unlessstopped");
    assert("never"@.len() == 5 && "always"@.len() == 6 && "on-failure"@.len() == 10
        && "unless-stopped"@.len() == 14 && "onfailure"@.len() == 9 && "unlessstopped"@.len()
        == 13);
}

impl std::str::FromStr for RestartPolicy {
    type Err = String;

    /// Parse a policy, as [`RestartPolicy::parse`] does.
    fn from_str(s: &str) -> (r: Result<RestartPolicy, String>)
        ensures
            match parsed_policy(s@) {
                Ok(p) => r matches Ok(q) && q == p,
                Err(e) => r matches Err(f) && f@ == e,
            },
            is_ascii_chars(s@) ==> (match policy_of(ascii_lowercase(s@)) {
                Some(p) => r matches Ok(q) && q == p,
                None => r is Err,
            }),
            forall|p: RestartPolicy|
                is_ascii_chars(s@) && ascii_lowercase(s@) == #[trigger] p.word() ==> (r matches Ok(
                    q,
                ) && q == p),
            forall|p: RestartPolicy| s@ == #[trigger] p.word() ==> (r matches Ok(q) && q == p),
    {
        RestartPolicy::parse(s)
    }
}

/// Restart configuration for a machine.
#[derive(Debug, Clone, Copy, PartialEq, Eq, Structural)]
pub struct RestartConfig {
    /// The restart policy.
    pub policy: RestartPolicy,
    /// Maximum number of restart attempts (0 = unlimited).
    pub max_retries: u32,
    /// Maximum backoff duration in seconds (0 = use default 300s).
    pub max_backoff_secs: u64,
    /// Current restart count.
    pub restart_count: u32,
    /// Whether the user explicitly stopped this machine.
    pub user_stopped: bool,
}

/// The restart configuration of a machine of which nothing was said.
pub open spec fn default_restart() -> RestartConfig {
    RestartConfig {
        policy: RestartPolicy::Never,
        max_retries: 0,
        max_backoff_secs: 0,
        restart_count: 0,
        user_stopped: false,
    }
}

impl Default for RestartConfig {
    fn default() -> (r: RestartConfig)
        ensures
            r == default_restart(),
    {
        RestartConfig {
            policy: RestartPolicy::Never,
            max_retries: 0,
            max_backoff_secs: 0,
            restart_count: 0,
            user_stopped: false,
        }
    }
}

/// Default maximum backoff duration in seconds (5 minutes).
pub const DEFAULT_MAX_BACKOFF_SECS: u64 = 300;

/// Maximum exponent for backoff calculation (2^8 = 256s).
pub const MAX_BACKOFF_EXPONENT: u32 = 8;

impl RestartConfig {
    /// Whether the retries are used up.
    pub open spec fn retries_used_up(&self) -> bool {
        self.max_retries > 0 && self.restart_count >= self.max_retries
    }

    /// Whether a machine that ended with an exit code is to be restarted.
    pub open spec fn restart_due(&self, exit_code: Option<i32>) -> bool {
        !self.retries_used_up() && match self.policy {
            RestartPolicy::Never => false,
            RestartPolicy::Always => true,
            RestartPolicy::OnFailure => exit_code != Some(0i32),
            RestartPolicy::UnlessStopped => !self.user_stopped,
        }
    }

    /// The longest pause between restarts, in seconds.
    pub open spec fn backoff_cap(&self) -> u64 {
        if self.max_backoff_secs > 0 {
            self.max_backoff_secs
        } else {
            DEFAULT_MAX_BACKOFF_SECS
        }
    }

    /// The pause before the next restart, in seconds: 2^n, with n at most 8, capped.
    pub open spec fn backoff_secs(&self) -> u64 {
        let n = if self.restart_count < MAX_BACKOFF_EXPONENT {
            self.restart_count
        } else {
            MAX_BACKOFF_EXPONENT
        };
        let doubled = vstd::arithmetic::power2::pow2(n as nat);
        if doubled < self.backoff_cap() {
            doubled as u64
        } else {
            self.backoff_cap()
        }
    }

    /// Determine whether the machine should be restarted based on the policy,
    /// exit code, and current restart count.
    pub fn should_restart(&self, exit_code: Option<i32>) -> (r: bool)
        ensures
            r == self.restart_due(exit_code),
    {
        if self.max_retries > 0 && self.restart_count >= self.max_retries {
            return false;
        }
        match self.policy {
            RestartPolicy::Never => false,
            RestartPolicy::Always => true,
            RestartPolicy::OnFailure => match exit_code {
                Some(code) => code != 0,
                None => true,
            },
            RestartPolicy::UnlessStopped => !self.user_stopped,
        }
    }

    /// Calculate exponential backoff duration for the current restart count.
    ///
    /// Formula: 2^n seconds, capped at max_backoff_secs (default 300s).
    pub fn backoff_duration(&self) -> (r: Duration)
        ensures
            r == (Duration { secs: self.backoff_secs(), nanos: 0 }),
    {
        let cap: u64 = if self.max_backoff_secs > 0 {
            self.max_backoff_secs
        } else {
            DEFAULT_MAX_BACKOFF_SECS
        };
        let n: u32 = if self.restart_count < MAX_BACKOFF_EXPONENT {
            self.restart_count
        } else {
            MAX_BACKOFF_EXPONENT
        };
        let mut secs: u64 = 1;
        let mut k: u32 = 0;
        proof {
            vstd::arithmetic::power2::lemma2_to64();
        }
        while k < n
            invariant
                k <= n <= 8,
                secs == vstd::arithmetic::power2::pow2(k as nat),
                secs <= 256,
            decreases n - k,
        {
            proof {
                vstd::arithmetic::power2::lemma_pow2_unfold((k + 1) as nat);
                vstd::arithmetic::power2::lemma2_to64();
                assert(secs * 2 == vstd::arithmetic::power2::pow2((k + 1) as nat));
                if k + 1 < 8 {
                    vstd::arithmetic::power2::lemma_pow2_strictly_increases((k + 1) as nat, 8);
                }
            }
            secs = secs * 2;
            k = k + 1;
        }
        Duration::from_secs(
            if secs < cap {
                secs
            } else {
                cap
            },
        )
    }
}

/// A machine with a limit is not restarted once that many restarts were made, and
/// without a limit the count does not matter.
pub proof fn restarts_respect_the_limit(c: RestartConfig, count: u32, exit_code: Option<i32>)
    ensures
        c.max_retries > 0 && c.restart_count >= c.max_retries ==> !c.restart_due(exit_code),
        c.max_retries == 0 ==> c.restart_due(exit_code) == (RestartConfig {
            restart_count: count,
            ..c
        }).restart_due(exit_code),
{
}

/// As long as a machine may be restarted at all, its policy decides: one is never
/// restarted, one always, one after every exit but a clean one, and one until its user
/// stopped it.
pub proof fn policies_decide_on_restarts(c: RestartConfig, exit_code: Option<i32>)
    requires
        c.max_retries == 0 || c.restart_count < c.max_retries,
    ensures
        c.policy is Never ==> !c.restart_due(exit_code),
        c.policy is Always ==> c.restart_due(exit_code),
        c.policy is OnFailure ==> (!c.restart_due(exit_code) <==> exit_code == Some(0i32)),
        c.policy is UnlessStopped ==> (!c.restart_due(exit_code) <==> c.user_stopped),
{
}

/// The first pause is a second, and each later one is twice as long as the one before, up to
/// the eighth and to the cap, which is five minutes where none is set.
pub proof fn backoff_doubles(c: RestartConfig, next: RestartConfig)
    requires
        c.restart_count < u32::MAX,
        next == (RestartConfig { restart_count: (c.restart_count + 1) as u32, ..c }),
    ensures
        c.restart_count == 0 ==> c.backoff_secs() == 1,
        c.restart_count >= 8 ==> next.backoff_secs() == c.backoff_secs(),
        c.restart_count < 8 ==> next.backoff_secs() == (if 2 * c.backoff_secs()
            < c.backoff_cap() {
            2 * c.backoff_secs()
        } else {
            c.backoff_cap() as int
        }),
        c.max_backoff_secs == 0 ==> c.backoff_cap() == 300,
        c.max_backoff_secs != 0 ==> c.backoff_cap() == c.max_backoff_secs,
{
    vstd::arithmetic::power2::lemma2_to64();
    if c.restart_count < 8 {
        vstd::arithmetic::power2::lemma_pow2_unfold((c.restart_count + 1) as nat);
        vstd::arithmetic::power2::lemma_pow2_strictly_increases(c.restart_count as nat, 8);
        if c.restart_count + 1 < 8 {
            vstd::arithmetic::power2::lemma_pow2_strictly_increases(
                (c.restart_count + 1) as nat,
                8,
            );
        }
    }
    vstd::arithmetic::power2::lemma_pow2_pos(c.restart_count as nat);
}

/// The backoff never exceeds the cap, is never zero, and does not shrink as the
/// restart count grows.
pub proof fn backoff_grows_up_to_the_cap(c: RestartConfig, more: u32)
    requires
        c.restart_count <= more,
    ensures
        1 <= c.backoff_secs() <= c.backoff_cap(),
        c.backoff_secs() <= 256,
        c.backoff_secs() <= (RestartConfig { restart_count: more, ..c }).backoff_secs(),
{
    use_pow2_facts();
    let n = if c.restart_count < 8 {
        c.restart_count as nat
    } else {
        8
    };
    let m = if more < 8 {
        more as nat
    } else {
        8
    };
    assert(vstd::arithmetic::power2::pow2(n) <= vstd::arithmetic::power2::pow2(m)) by {
        if n < m {
            vstd::arithmetic::power2::lemma_pow2_strictly_increases(n, m);
        }
    }
    vstd::arithmetic::power2::lemma_pow2_pos(n);
    if n < 8 {
        vstd::arithmetic::power2::lemma_pow2_strictly_increases(n, 8);
    }
    if m < 8 {
        vstd::arithmetic::power2::lemma_pow2_strictly_increases(m, 8);
    }
}

proof fn use_pow2_facts()
    ensures
        vstd::arithmetic::power2::pow2(8) == 256,
{
    vstd::arithmetic::power2::lemma2_to64();
}

/// Record of a VM in the registry.
///
/// This stores machine configuration only. Container configuration is managed
/// separately via the container commands.
#[derive(Debug)]
pub struct VmRecord {
    /// VM name/ID.
    pub name: String,
    /// Creation timestamp.
    pub created_at: String,
    /// VM lifecycle state.
    pub state: RecordState,
    /// Process ID when running.
    pub pid: Option<i32>,
    /// Process start time for PID verification: detects PID reuse by the OS.
    pub pid_start_time: Option<u64>,
    /// Number of vCPUs.
    pub cpus: u8,
    /// Memory in MiB.
    pub mem: u32,
    /// Volume mounts (host_path, guest_path, read_only).
    pub mounts: Vec<(String, String, bool)>,
    /// Port mappings (host_port, guest_port).
    pub ports: Vec<(u16, u16)>,
    /// Enable outbound network access (TSI).
    pub network: bool,
    /// Enable GPU acceleration (virtio-gpu with Venus/Vulkan).
    pub gpu: Option<bool>,
    /// GPU shared-memory region size in MiB. Ignored unless `gpu` is true.
    pub gpu_vram_mib: Option<u32>,
    /// Restart configuration.
    pub restart: RestartConfig,
    /// Last exit code from the VM process.
    pub last_exit_code: Option<i32>,
    /// Commands to run on every VM start (via `sh -c`).
    pub init: Vec<String>,
    /// Environment variables for init commands.
    pub env: Vec<(String, String)>,
    /// Working directory for init commands.
    pub workdir: Option<String>,
    /// Storage disk size in GiB (None = default 20 GiB).
    pub storage_gb: Option<u64>,
    /// Overlay disk size in GiB (None = default 10 GiB).
    pub overlay_gb: Option<u64>,
    /// Allowed egress CIDR ranges. None = unrestricted, Some([]) = deny all.
    pub allowed_cidrs: Option<Vec<String>>,
    /// Preferred network backend override for machine launch.
    pub network_backend: Option<NetworkBackend>,
    /// OCI image for auto-container creation on start.
    pub image: Option<String>,
    /// Entrypoint for the container.
    pub entrypoint: Vec<String>,
    /// Default command for the container.
    pub cmd: Vec<String>,
    /// Health check command (run inside VM to verify workload is healthy).
    pub health_cmd: Option<Vec<String>>,
    /// Health check interval in seconds.
    pub health_interval_secs: Option<u64>,
    /// Health check timeout in seconds.
    pub health_timeout_secs: Option<u64>,
    /// Health check failure threshold before marking unhealthy.
    pub health_retries: Option<u32>,
    /// Grace period in seconds before health checks start after boot.
    pub health_startup_grace_secs: Option<u64>,
    /// Enable SSH agent forwarding into the VM.
    pub ssh_agent: bool,
    /// Hostnames for DNS filtering. When set, the guest DNS proxy filters queries against this allowlist.
    pub dns_filter_hosts: Option<Vec<String>>,
    /// True for `machine run` VMs. Auto-deleted on exit or cleanup sweep.
    pub ephemeral: bool,
    /// Absolute path to the .smolmachine sidecar this machine was created from.
    pub source_smolmachine: Option<String>,
}

/// The mathematical value of a [`VmRecord`].
pub struct VmRecordView {
    /// See [`VmRecord::name`].
    pub name: Seq<char>,
    /// See [`VmRecord::created_at`].
    pub created_at: Seq<char>,
    /// See [`VmRecord::state`].
    pub state: RecordState,
    /// See [`VmRecord::pid`].
    pub pid: Option<i32>,
    /// See [`VmRecord::pid_start_time`].
    pub pid_start_time: Option<u64>,
    /// See [`VmRecord::cpus`].
    pub cpus: u8,
    /// See [`VmRecord::mem`].
    pub mem: u32,
    /// See [`VmRecord::mounts`].
    pub mounts: Seq<(Seq<char>, Seq<char>, bool)>,
    /// See [`VmRecord::ports`].
    pub ports: Seq<(u16, u16)>,
    /// See [`VmRecord::network`].
    pub network: bool,
    /// See [`VmRecord::gpu`].
    pub gpu: Option<bool>,
    /// See [`VmRecord::gpu_vram_mib`].
    pub gpu_vram_mib: Option<u32>,
    /// See [`VmRecord::restart`].
    pub restart: RestartConfig,
    /// See [`VmRecord::last_exit_code`].
    pub last_exit_code: Option<i32>,
    /// See [`VmRecord::init`].
    pub init: Seq<Seq<char>>,
    /// See [`VmRecord::env`].
    pub env: Seq<(Seq<char>, Seq<char>)>,
    /// See [`VmRecord::workdir`].
    pub workdir: Option<Seq<char>>,
    /// See [`VmRecord::storage_gb`].
    pub storage_gb: Option<u64>,
    /// See [`VmRecord::overlay_gb`].
    pub overlay_gb: Option<u64>,
    /// See [`VmRecord::allowed_cidrs`].
    pub allowed_cidrs: Option<Seq<Seq<char>>>,
    /// See [`VmRecord::network_backend`].
    pub network_backend: Option<NetworkBackend>,
    /// See [`VmRecord::image`].
    pub image: Option<Seq<char>>,
    /// See [`VmRecord::entrypoint`].
    pub entrypoint: Seq<Seq<char>>,
    /// See [`VmRecord::cmd`].
    pub cmd: Seq<Seq<char>>,
    /// See [`VmRecord::health_cmd`].
    pub health_cmd: Option<Seq<Seq<char>>>,
    /// See [`VmRecord::health_interval_secs`].
    pub health_interval_secs: Option<u64>,
    /// See [`VmRecord::health_timeout_secs`].
    pub health_timeout_secs: Option<u64>,
    /// See [`VmRecord::health_retries`].
    pub health_retries: Option<u32>,
    /// See [`VmRecord::health_startup_grace_secs`].
    pub health_startup_grace_secs: Option<u64>,
    /// See [`VmRecord::ssh_agent`].
    pub ssh_agent: bool,
    /// See [`VmRecord::dns_filter_hosts`].
    pub dns_filter_hosts: Option<Seq<Seq<char>>>,
    /// See [`VmRecord::ephemeral`].
    pub ephemeral: bool,
    /// See [`VmRecord::source_smolmachine`].
    pub source_smolmachine: Option<Seq<char>>,
}

impl View for VmRecord {
    type V = VmRecordView;

    open spec fn view(&self) -> VmRecordView {
        VmRecordView {
            name: self.name@,
            created_at: self.created_at@,
            state: self.state,
            pid: self.pid,
            pid_start_time: self.pid_start_time,
            cpus: self.cpus,
            mem: self.mem,
            mounts: self.mounts.deep_view(),
            ports: self.ports@,
            network: self.network,
            gpu: self.gpu,
            gpu_vram_mib: self.gpu_vram_mib,
            restart: self.restart,
            last_exit_code: self.last_exit_code,
            init: self.init.deep_view(),
            env: self.env.deep_view(),
            workdir: self.workdir.deep_view(),
            storage_gb: self.storage_gb,
            overlay_gb: self.overlay_gb,
            allowed_cidrs: self.allowed_cidrs.deep_view(),
            network_backend: self.network_backend,
            image: self.image.deep_view(),
            entrypoint: self.entrypoint.deep_view(),
            cmd: self.cmd.deep_view(),
            health_cmd: self.health_cmd.deep_view(),
            health_interval_secs: self.health_interval_secs,
            health_timeout_secs: self.health_timeout_secs,
            health_retries: self.health_retries,
            health_startup_grace_secs: self.health_startup_grace_secs,
            ssh_agent: self.ssh_agent,
            dns_filter_hosts: self.dns_filter_hosts.deep_view(),
            ephemeral: self.ephemeral,
            source_smolmachine: self.source_smolmachine.deep_view(),
        }
    }
}

impl Clone for VmRecord {
    fn clone(&self) -> (r: VmRecord)
        ensures
            r@ == self@,
    {
        VmRecord {
            name: self.name.clone(),
            created_at: self.created_at.clone(),
            state: self.state,
            pid: self.pid,
            pid_start_time: self.pid_start_time,
            cpus: self.cpus,
            mem: self.mem,
            mounts: clone_triples(&self.mounts),
            ports: clone_ports(&self.ports),
            network: self.network,
            gpu: self.gpu,
            gpu_vram_mib: self.gpu_vram_mib,
            restart: self.restart,
            last_exit_code: self.last_exit_code,
            init: clone_strings(&self.init),
            env: clone_pairs(&self.env),
            workdir: clone_opt(&self.workdir),
            storage_gb: self.storage_gb,
            overlay_gb: self.overlay_gb,
            allowed_cidrs: clone_opt_strings(&self.allowed_cidrs),
            network_backend: self.network_backend,
            image: clone_opt(&self.image),
            entrypoint: clone_strings(&self.entrypoint),
            cmd: clone_strings(&self.cmd),
            health_cmd: clone_opt_strings(&self.health_cmd),
            health_interval_secs: self.health_interval_secs,
            health_timeout_secs: self.health_timeout_secs,
            health_retries: self.health_retries,
            health_startup_grace_secs: self.health_startup_grace_secs,
            ssh_agent: self.ssh_agent,
            dns_filter_hosts: clone_opt_strings(&self.dns_filter_hosts),
            ephemeral: self.ephemeral,
            source_smolmachine: clone_opt(&self.source_smolmachine),
        }
    }
}

/// A record as it is first made: created, not running, nothing configured beyond
/// what the arguments say.
pub open spec fn fresh_record(
    name: Seq<char>,
    created_at: Seq<char>,
    cpus: u8,
    mem: u32,
    mounts: Seq<(Seq<char>, Seq<char>, bool)>,
    ports: Seq<(u16, u16)>,
    network: bool,
    restart: RestartConfig,
) -> VmRecordView {
    VmRecordView {
        name,
        created_at,
        state: RecordState::Created,
        pid: None,
        pid_start_time: None,
        cpus,
        mem,
        mounts,
        ports,
        network,
        gpu: None,
        gpu_vram_mib: None,
        restart,
        last_exit_code: None,
        init: Seq::empty(),
        env: Seq::empty(),
        workdir: None,
        storage_gb: None,
        overlay_gb: None,
        allowed_cidrs: None,
        network_backend: None,
        image: None,
        entrypoint: Seq::empty(),
        cmd: Seq::empty(),
        health_cmd: None,
        health_interval_secs: None,
        health_timeout_secs: None,
        health_retries: None,
        health_startup_grace_secs: None,
        ssh_agent: false,
        dns_filter_hosts: None,
        ephemeral: false,
        source_smolmachine: None,
    }
}

/// A change of a record that is persisted as one step.
#[derive(Debug, Clone, Copy, PartialEq, Eq, Structural)]
pub enum RecordUpdate {
    /// The machine runs as this process.
    Running {
        /// Its process id.
        pid: Option<i32>,
        /// When that process started.
        pid_start_time: Option<u64>,
    },
    /// The machine was stopped.
    Stopped,
    /// The process lives but its agent does not answer.
    Unreachable,
    /// The process ended by itself.
    Exited {
        /// Its exit code, where it is known.
        exit_code: Option<i32>,
    },
    /// So many restarts were made.
    RestartCount {
        /// The number of restarts.
        count: u32,
    },
    /// The user ended the supervision.
    UserStopped,
    /// Disks were expanded; a size that is not given stays.
    DiskSizes {
        /// New size of the storage disk in GiB.
        storage_gb: Option<u64>,
        /// New size of the overlay disk in GiB.
        overlay_gb: Option<u64>,
    },
}

/// A record after an update: only what the update speaks of changes.
pub open spec fn updated(r: VmRecordView, u: RecordUpdate) -> VmRecordView {
    match u {
        RecordUpdate::Running { pid, pid_start_time } => VmRecordView {
            state: RecordState::Running,
            pid,
            pid_start_time,
            ..r
        },
        RecordUpdate::Stopped => VmRecordView {
            state: RecordState::Stopped,
            pid: None,
            pid_start_time: None,
            ..r
        },
        RecordUpdate::Unreachable => VmRecordView { state: RecordState::Unreachable, ..r },
        RecordUpdate::Exited { exit_code } => VmRecordView {
            state: RecordState::Stopped,
            pid: None,
            last_exit_code: exit_code,
            ..r
        },
        RecordUpdate::RestartCount { count } => VmRecordView {
            restart: RestartConfig { restart_count: count, ..r.restart },
            ..r
        },
        RecordUpdate::UserStopped => VmRecordView {
            restart: RestartConfig { user_stopped: true, ..r.restart },
            ..r
        },
        RecordUpdate::DiskSizes { storage_gb, overlay_gb } => VmRecordView {
            storage_gb: if storage_gb is Some {
                storage_gb
            } else {
                r.storage_gb
            },
            overlay_gb: if overlay_gb is Some {
                overlay_gb
            } else {
                r.overlay_gb
            },
            ..r
        },
    }
}

/// The state of a record, given what the host says of its process.
pub open spec fn observed_state(r: VmRecordView, probe: ProcessProbe) -> RecordState {
    if r.state == RecordState::Running && !process_alive(r, probe) {
        RecordState::Stopped
    } else {
        r.state
    }
}

/// Whether the process of a record lives, given what the host says of it.
pub open spec fn process_alive(r: VmRecordView, probe: ProcessProbe) -> bool {
    r.pid is Some && is_ours(probe, r.pid_start_time)
}

/// The resources that a record asks for.
pub open spec fn record_resources(r: VmRecordView) -> VmResourcesView {
    VmResourcesView {
        cpus: r.cpus,
        memory_mib: r.mem,
        network: r.network,
        network_backend: r.network_backend,
        gpu: r.gpu == Some(true),
        gpu_vram_mib: r.gpu_vram_mib,
        storage_gib: r.storage_gb,
        overlay_gib: r.overlay_gb,
        allowed_cidrs: r.allowed_cidrs,
    }
}

impl VmRecord {
    /// Create a new VM record.
    pub fn new(
        name: String,
        cpus: u8,
        mem: u32,
        mounts: Vec<(String, String, bool)>,
        ports: Vec<(u16, u16)>,
        network: bool,
    ) -> (r: VmRecord)
        ensures
            r@ == fresh_record(
                name@,
                r@.created_at,
                cpus,
                mem,
                mounts.deep_view(),
                ports@,
                network,
                default_restart(),
            ),
            is_timestamp(r@.created_at),
    {
        VmRecord::new_with_restart(
            name,
            cpus,
            mem,
            mounts,
            ports,
            network,
            RestartConfig::default(),
        )
    }

    /// Create a new VM record with restart configuration.
    pub fn new_with_restart(
        name: String,
        cpus: u8,
        mem: u32,
        mounts: Vec<(String, String, bool)>,
        ports: Vec<(u16, u16)>,
        network: bool,
        restart: RestartConfig,
    ) -> (r: VmRecord)
        ensures
            r@ == fresh_record(
                name@,
                r@.created_at,
                cpus,
                mem,
                mounts.deep_view(),
                ports@,
                network,
                restart,
            ),
            is_timestamp(r@.created_at),
    {
        let r = VmRecord {
            name,
            created_at: current_timestamp(),
            state: RecordState::Created,
            pid: None,
            pid_start_time: None,
            cpus,
            mem,
            mounts,
            ports,
            network,
            gpu: None,
            gpu_vram_mib: None,
            restart,
            last_exit_code: None,
            init: Vec::new(),
            env: Vec::new(),
            workdir: None,
            storage_gb: None,
            overlay_gb: None,
            allowed_cidrs: None,
            network_backend: None,
            image: None,
            entrypoint: Vec::new(),
            cmd: Vec::new(),
            health_cmd: None,
            health_interval_secs: None,
            health_timeout_secs: None,
            health_retries: None,
            health_startup_grace_secs: None,
            ssh_agent: false,
            dns_filter_hosts: None,
            ephemeral: false,
            source_smolmachine: None,
        };
        proof {
            assert(r.init.deep_view() =~= Seq::empty());
            assert(r.env.deep_view() =~= Seq::empty());
            assert(r.entrypoint.deep_view() =~= Seq::empty());
            assert(r.cmd.deep_view() =~= Seq::empty());
        }
        r
    }

    /// Check if the VM process is still alive, given what the host says of the
    /// recorded process id.
    ///
    /// Uses start time verification to detect PID reuse by the OS. Falls back to
    /// liveness alone for legacy records without start time.
    pub fn is_process_alive(&self, probe: &ProcessProbe) -> (r: bool)
        ensures
            r == process_alive(self@, *probe),
    {
        match self.pid {
            Some(_) => is_our_process(probe, self.pid_start_time),
            None => false,
        }
    }

    /// Get the actual state, checking if a running process is still alive.
    pub fn actual_state(&self, probe: &ProcessProbe) -> (r: RecordState)
        ensures
            r == observed_state(self@, *probe),
    {
        match self.state {
            RecordState::Running => if self.is_process_alive(probe) {
                RecordState::Running
            } else {
                RecordState::Stopped
            },
            other => other,
        }
    }

    /// Convert stored mounts to HostMount format.
    pub fn host_mounts(&self) -> (r: Vec<HostMount>)
        ensures
            r.deep_view() == self@.mounts,
    {
        from_storage_tuples(&self.mounts)
    }

    /// Convert stored ports to PortMapping format.
    pub fn port_mappings(&self) -> (r: Vec<PortMapping>)
        ensures
            r@ == pair_ports(self@.ports),
    {
        PortMapping::from_tuples(&self.ports)
    }

    /// Convert record fields to VmResources.
    pub fn vm_resources(&self) -> (r: VmResources)
        ensures
            r@ == record_resources(self@),
    {
        VmResources {
            cpus: self.cpus,
            memory_mib: self.mem,
            network: self.network,
            network_backend: self.network_backend,
            gpu: match self.gpu {
                Some(on) => on,
                None => false,
            },
            gpu_vram_mib: self.gpu_vram_mib,
            storage_gib: self.storage_gb,
            overlay_gib: self.overlay_gb,
            allowed_cidrs: clone_opt_strings(&self.allowed_cidrs),
        }
    }

    /// Apply an update.
    pub fn apply(&mut self, u: RecordUpdate)
        ensures
            final(self)@ == updated(old(self)@, u),
    {
        match u {
            RecordUpdate::Running { pid, pid_start_time } => {
                self.state = RecordState::Running;
                self.pid = pid;
                self.pid_start_time = pid_start_time;
            },
            RecordUpdate::Stopped => {
                self.state = RecordState::Stopped;
                self.pid = None;
                self.pid_start_time = None;
            },
            RecordUpdate::Unreachable => {
                self.state = RecordState::Unreachable;
            },
            RecordUpdate::Exited { exit_code } => {
                self.state = RecordState::Stopped;
                self.pid = None;
                self.last_exit_code = exit_code;
            },
            RecordUpdate::RestartCount { count } => {
                self.restart.restart_count = count;
            },
            RecordUpdate::UserStopped => {
                self.restart.user_stopped = true;
            },
            RecordUpdate::DiskSizes { storage_gb, overlay_gb } => {
                if storage_gb.is_some() {
                    self.storage_gb = storage_gb;
                }
                if overlay_gb.is_some() {
                    self.overlay_gb = overlay_gb;
                }
            },
        }
    }
}

/// Only a record that says "running" is ever observed as running, and a machine
/// whose process is gone is observed as stopped.
pub proof fn observed_state_tells_the_truth(r: VmRecordView, probe: ProcessProbe)
    ensures
        observed_state(r, probe) == RecordState::Running <==> r.state == RecordState::Running
            && process_alive(r, probe),
        r.state != RecordState::Running ==> observed_state(r, probe) == r.state,
        r.state == RecordState::Running && !probe.alive ==> observed_state(r, probe)
            == RecordState::Stopped,
{
}

/// No update renames a machine or changes its mounts, ports or image.
pub proof fn updates_keep_identity(r: VmRecordView, u: RecordUpdate)
    ensures
        updated(r, u).name == r.name,
        updated(r, u).created_at == r.created_at,
        updated(r, u).mounts == r.mounts,
        updated(r, u).ports == r.ports,
        updated(r, u).image == r.image,
        updated(r, u).ephemeral == r.ephemeral,
{
}

/// An update records what happened and leaves everything else alone: a machine that runs is
/// recorded with its process, one that was stopped or that ended without one, an exit with
/// its code, and a disk with the size it was given.
pub proof fn updates_record_what_happened(r: VmRecordView, u: RecordUpdate)
    ensures
        ({
            let v = updated(r, u);
            &&& match u {
                RecordUpdate::Running { pid, pid_start_time } => v.state is Running && v.pid == pid
                    && v.pid_start_time == pid_start_time,
                RecordUpdate::Stopped => v.state is Stopped && v.pid is None && v.pid_start_time
                    is None,
                RecordUpdate::Unreachable => v.state is Unreachable && v.pid == r.pid
                    && v.pid_start_time == r.pid_start_time,
                RecordUpdate::Exited { exit_code } => v.state is Stopped && v.pid is None
                    && v.last_exit_code == exit_code,
                RecordUpdate::RestartCount { count } => v.restart.restart_count == count,
                RecordUpdate::UserStopped => v.restart.user_stopped,
                RecordUpdate::DiskSizes { storage_gb, overlay_gb } => {
                    &&& storage_gb is Some ==> v.storage_gb == storage_gb
                    &&& storage_gb is None ==> v.storage_gb == r.storage_gb
                    &&& overlay_gb is Some ==> v.overlay_gb == overlay_gb
                    &&& overlay_gb is None ==> v.overlay_gb == r.overlay_gb
                },
            }
            &&& !(u is Exited) ==> v.last_exit_code == r.last_exit_code
            &&& !(u is DiskSizes) ==> v.storage_gb == r.storage_gb && v.overlay_gb == r.overlay_gb
            &&& u is RestartCount || u is UserStopped || u is DiskSizes ==> v.state == r.state
                && v.pid == r.pid && v.pid_start_time == r.pid_start_time
            &&& !(u is RestartCount) ==> v.restart.restart_count == r.restart.restart_count
            &&& !(u is UserStopped) ==> v.restart.user_stopped == r.restart.user_stopped
            &&& v.restart.policy == r.restart.policy && v.restart.max_retries
                == r.restart.max_retries && v.restart.max_backoff_secs
                == r.restart.max_backoff_secs
            &&& r == (VmRecordView {
                state: r.state,
                pid: r.pid,
                pid_start_time: r.pid_start_time,
                last_exit_code: r.last_exit_code,
                restart: r.restart,
                storage_gb: r.storage_gb,
                overlay_gb: r.overlay_gb,
                ..v
            })
        }),
{
}

/// The resources of a machine are those that its record names; the GPU is on only where that
/// was said.
pub proof fn machines_get_their_recorded_resources(r: VmRecordView)
    ensures
        ({
            let v = record_resources(r);
            &&& v.cpus == r.cpus && v.memory_mib == r.mem
            &&& v.network == r.network && v.network_backend == r.network_backend
            &&& v.gpu <==> r.gpu == Some(true)
            &&& v.gpu_vram_mib == r.gpu_vram_mib
            &&& v.storage_gib == r.storage_gb && v.overlay_gib == r.overlay_gb
            &&& v.allowed_cidrs == r.allowed_cidrs
        }),
{
}

/// Stopping a running machine undoes what marking it as running did.
pub proof fn stop_undoes_running(r: VmRecordView, pid: Option<i32>, start: Option<u64>)
    requires
        r.state == RecordState::Stopped,
        r.pid is None,
        r.pid_start_time is None,
    ensures
        updated(
            updated(r, RecordUpdate::Running { pid, pid_start_time: start }),
            RecordUpdate::Stopped,
        ) == r,
{
}

/// Global smolvm configuration, with an in-memory cache of the machine records.
#[derive(Debug)]
pub struct SmolvmConfig {
    /// Configuration format version.
    pub version: u8,
    /// Default number of vCPUs for new VMs.
    pub default_cpus: u8,
    /// Default memory in MiB for new VMs.
    pub default_mem: u32,
    /// Default DNS server for VMs with network egress.
    pub default_dns: String,
    /// Path of the storage volume, for a case-sensitive filesystem. It is a setting of
    /// macOS, and empty elsewhere.
    pub storage_volume: String,
    /// Registry of known VMs (by name): a cache that follows the database.
    pub vms: Table<VmRecord>,
}

/// The number stored under a key, where it is there and well-formed, else a default.
pub open spec fn stored_number(
    config: Map<Seq<char>, Seq<char>>,
    key: Seq<char>,
    max: nat,
    default: nat,
) -> nat {
    if config.dom().contains(key) {
        match parsed_nat(config[key], max) {
            Some(n) => n,
            None => default,
        }
    } else {
        default
    }
}

fn load_number(config: &Table<String>, key: &str, max: u64, default: u64) -> (r: u64)
    requires
        default <= max,
    ensures
        r == stored_number(config@, key@, max as nat, default as nat),
        r <= max,
{
    match config.get(key) {
        Some(v) => match parse_unsigned(v.as_str(), max) {
            Some(n) => n,
            None => default,
        },
        None => default,
    }
}

impl SmolvmConfig {
    /// Whether the settings are those that stored pairs stand for, on macOS or elsewhere.
    pub open spec fn settings_from(&self, config: Map<Seq<char>, Seq<char>>, macos: bool) -> bool {
        &&& self.version == stored_number(config, "version"@, u8::MAX as nat, 1)
        &&& self.default_cpus == stored_number(
            config,
            "default_cpus"@,
            u8::MAX as nat,
            DEFAULT_MICROVM_CPU_COUNT as nat,
        )
        &&& self.default_mem == stored_number(
            config,
            "default_mem"@,
            u32::MAX as nat,
            DEFAULT_MICROVM_MEMORY_MIB as nat,
        )
        &&& self.default_dns@ == (if config.dom().contains("default_dns"@) {
            config["default_dns"@]
        } else {
            DEFAULT_DNS@
        })
        &&& self.storage_volume@ == (if macos && config.dom().contains("storage_volume"@) {
            config["storage_volume"@]
        } else {
            Seq::empty()
        })
    }

    /// The settings as pairs to be stored. A storage volume is among them only where there
    /// is one.
    pub open spec fn stored_settings(&self) -> Seq<(Seq<char>, Seq<char>)> {
        if self.storage_volume@.len() == 0 {
            self.common_settings()
        } else {
            self.common_settings().push(("storage_volume"@, self.storage_volume@))
        }
    }

    /// The settings of every platform as pairs to be stored.
    pub open spec fn common_settings(&self) -> Seq<(Seq<char>, Seq<char>)> {
        seq![
            ("version"@, decimal(self.version as nat)),
            ("default_cpus"@, decimal(self.default_cpus as nat)),
            ("default_mem"@, decimal(self.default_mem as nat)),
            ("default_dns"@, self.default_dns@),
        ]
    }

    /// A new configuration with default values and no machines.
    pub fn try_default() -> (r: SmolvmConfig)
        ensures
            r.version == 1,
            r.default_cpus == DEFAULT_MICROVM_CPU_COUNT,
            r.default_mem == DEFAULT_MICROVM_MEMORY_MIB,
            r.default_dns@ == DEFAULT_DNS@,
            r.storage_volume@ == Seq::<char>::empty(),
            r.vms@ == Map::<Seq<char>, VmRecordView>::empty(),
    {
        proof {
            reveal_strlit("");
            assert(""@ =~= Seq::<char>::empty());
        }
        SmolvmConfig {
            version: 1,
            default_cpus: DEFAULT_MICROVM_CPU_COUNT,
            default_mem: DEFAULT_MICROVM_MEMORY_MIB,
            default_dns: DEFAULT_DNS.to_owned(),
            storage_volume: "".to_owned(),
            vms: Table::new(),
        }
    }

    /// The configuration that stored settings and machine records stand for, on macOS or
    /// elsewhere. A setting that is missing or malformed has its default; a storage volume
    /// is read on macOS only.
    pub fn load(config: &Table<String>, vms: Table<VmRecord>, macos: bool) -> (r: SmolvmConfig)
        ensures
            r.settings_from(config@, macos),
            r.vms == vms,
    {
        let version: u64 = load_number(config, "version", u8::MAX as u64, 1);
        let cpus: u64 = load_number(
            config,
            "default_cpus",
            u8::MAX as u64,
            DEFAULT_MICROVM_CPU_COUNT as u64,
        );
        let mem: u64 = load_number(
            config,
            "default_mem",
            u32::MAX as u64,
            DEFAULT_MICROVM_MEMORY_MIB as u64,
        );
        let dns = match config.get("default_dns") {
            Some(v) => v.clone(),
            None => DEFAULT_DNS.to_owned(),
        };
        proof {
            reveal_strlit("");
            assert(""@ =~= Seq::<char>::empty());
        }
        let volume = match config.get("storage_volume") {
            Some(v) => if macos {
                v.clone()
            } else {
                "".to_owned()
            },
            None => "".to_owned(),
        };
        SmolvmConfig {
            version: version as u8,
            default_cpus: cpus as u8,
            default_mem: mem as u32,
            default_dns: dns,
            storage_volume: volume,
            vms,
        }
    }

    /// The settings as pairs to be stored. Machine records are not among them:
    /// they are written as they change.
    pub fn save(&self) -> (r: Vec<(String, String)>)
        ensures
            r.deep_view() == self.stored_settings(),
    {
        let mut r: Vec<(String, String)> = Vec::new();
        r.push(("version".to_owned(), decimal_text(self.version as u64)));
        r.push(("default_cpus".to_owned(), decimal_text(self.default_cpus as u64)));
        r.push(("default_mem".to_owned(), decimal_text(self.default_mem as u64)));
        r.push(("default_dns".to_owned(), self.default_dns.clone()));
        proof {
            assert(r.deep_view() =~= self.common_settings());
        }
        if self.storage_volume.as_str().unicode_len() > 0 {
            r.push(("storage_volume".to_owned(), self.storage_volume.clone()));
        }
        proof {
            assert(r.deep_view() =~= self.stored_settings());
        }
        r
    }

    /// Insert a VM record, once the database took it; a record that the database
    /// refused leaves the cache as it is.
    pub fn insert_vm(
        &mut self,
        name: String,
        record: VmRecord,
        persisted: Result<(), Error>,
    ) -> (r: Result<(), Error>)
        ensures
            r == persisted,
            final(self).vms@ == (if persisted is Ok {
                old(self).vms@.insert(name@, record@)
            } else {
                old(self).vms@
            }),
            final(self).same_settings(old(self)),
    {
        if persisted.is_ok() {
            let _old = self.vms.insert(name, record);
        }
        persisted
    }

    /// Whether two configurations differ at most in their machines.
    pub open spec fn same_settings(&self, other: &SmolvmConfig) -> bool {
        &&& self.version == other.version
        &&& self.default_cpus == other.default_cpus
        &&& self.default_mem == other.default_mem
        &&& self.default_dns == other.default_dns
        &&& self.storage_volume == other.storage_volume
    }

    /// Remove a VM from the registry.
    pub fn remove_vm(&mut self, id: &str) -> (r: Option<VmRecord>)
        ensures
            final(self).vms@ == old(self).vms@.remove(id@),
            final(self).same_settings(old(self)),
            match r {
                Some(v) => old(self).vms@.dom().contains(id@) && v@ == old(self).vms@[id@],
                None => !old(self).vms@.dom().contains(id@),
            },
    {
        self.vms.remove(id)
    }

    /// Get a VM record by ID.
    pub fn get_vm(&self, id: &str) -> (r: Option<&VmRecord>)
        ensures
            match r {
                Some(v) => self.vms@.dom().contains(id@) && v@ == self.vms@[id@],
                None => !self.vms@.dom().contains(id@),
            },
    {
        self.vms.get(id)
    }

    /// List all VM records.
    pub fn list_vms(&self) -> (r: Vec<(String, VmRecord)>)
        ensures
            lists_map(r@, self.vms@),
    {
        listed(&self.vms)
    }

    /// Update a VM record in place.
    pub fn update_vm(&mut self, id: &str, u: RecordUpdate) -> (r: Option<()>)
        ensures
            r is Some <==> old(self).vms@.dom().contains(id@),
            final(self).vms@ == (if old(self).vms@.dom().contains(id@) {
                old(self).vms@.insert(id@, updated(old(self).vms@[id@], u))
            } else {
                old(self).vms@
            }),
            final(self).same_settings(old(self)),
    {
        match self.vms.get(id) {
            Some(v) => {
                let mut record = v.clone();
                record.apply(u);
                let _old = self.vms.insert(id.to_owned(), record);
                Some(())
            },
            None => None,
        }
    }
}

/// Saving settings and loading them again gives the same settings: on macOS with a storage
/// volume, or with none where none was stored before, elsewhere with none.
pub proof fn settings_round_trip(
    c: SmolvmConfig,
    before: Map<Seq<char>, Seq<char>>,
    macos: bool,
)
    requires
        macos ==> c.storage_volume@.len() > 0 || !before.dom().contains("storage_volume"@),
        !macos ==> c.storage_volume@.len() == 0,
    ensures
        c.settings_from(with_settings(before, c.stored_settings()), macos),
{
    decimal_parses_back(c.version as nat, u8::MAX as nat);
    decimal_parses_back(c.default_cpus as nat, u8::MAX as nat);
    decimal_parses_back(c.default_mem as nat, u32::MAX as nat);
    reveal_strlit("version");
    reveal_strlit("default_cpus");
    reveal_strlit("default_mem");
    reveal_strlit("default_dns");
    reveal_strlit("storage_volume");
    assert("version"@.len() == 7 && "default_cpus"@.len() == 12 && "default_mem"@.len() == 11
        && "default_dns"@.len() == 11 && "storage_volume"@.len() == 14);
    assert("default_mem"@[8] != "default_dns"@[8]);
    let s = c.common_settings();
    assert(s.drop_last() =~= seq![s[0], s[1], s[2]]);
    assert(s.drop_last().drop_last() =~= seq![s[0], s[1]]);
    assert(s.drop_last().drop_last().drop_last() =~= seq![s[0]]);
    assert(s.drop_last().drop_last().drop_last().drop_last() =~= Seq::empty());
    assert(s.push(("storage_volume"@, c.storage_volume@)).drop_last() =~= s);
    if c.storage_volume@.len() == 0 {
        assert(c.storage_volume@ =~= Seq::empty());
    }
    reveal_with_fuel(with_settings, 7);
}

/// A setting that was never stored, or that cannot be read, has its default: version 1, the
/// numbers of a new machine and the default resolver.
pub proof fn missing_settings_have_defaults(
    c: SmolvmConfig,
    stored: Map<Seq<char>, Seq<char>>,
    macos: bool,
)
    requires
        c.settings_from(stored, macos),
    ensures
        !stored.dom().contains("version"@) ==> c.version == 1,
        !stored.dom().contains("default_cpus"@) ==> c.default_cpus == DEFAULT_MICROVM_CPU_COUNT,
        !stored.dom().contains("default_mem"@) ==> c.default_mem == DEFAULT_MICROVM_MEMORY_MIB,
        !stored.dom().contains("default_dns"@) ==> c.default_dns@ == DEFAULT_DNS@,
        stored.dom().contains("default_dns"@) ==> c.default_dns@ == stored["default_dns"@],
        stored.dom().contains("default_cpus"@) && parsed_nat(
            stored["default_cpus"@],
            u8::MAX as nat,
        ) is None ==> c.default_cpus == DEFAULT_MICROVM_CPU_COUNT,
        stored.dom().contains("default_mem"@) && parsed_nat(
            stored["default_mem"@],
            u32::MAX as nat,
        ) is None ==> c.default_mem == DEFAULT_MICROVM_MEMORY_MIB,
        !macos ==> c.storage_volume@.len() == 0,
{
}

/// No two states are shown by the same word, and no two policies.
pub proof fn words_tell_states_and_policies_apart(
    a: RecordState,
    b: RecordState,
    p: RestartPolicy,
    q: RestartPolicy,
)
    ensures
        a.word() == b.word() ==> a == b,
        p.word() == q.word() ==> p == q,
{
    lemma_policy_words();
    reveal_strlit("created");
    reveal_strlit("running");
    reveal_strlit("stopped");
    reveal_strlit("failed");
    reveal_strlit("unreachable");
    assert("created"@[0] == 'c' && "running"@[0] == 'r' && "stopped"@[0] == 's' && "failed"@[0]
        == 'f' && "unreachable"@[0] == 'u');
    assert(policy_of(p.word()) == Some(p) && policy_of(q.word()) == Some(q));
}

/// A new record holds what it was made with, in its places, was never run, and asks for
/// nothing else.
pub proof fn new_records_hold_what_they_are_made_with(
    name: Seq<char>,
    created_at: Seq<char>,
    cpus: u8,
    mem: u32,
    mounts: Seq<(Seq<char>, Seq<char>, bool)>,
    ports: Seq<(u16, u16)>,
    network: bool,
    restart: RestartConfig,
)
    ensures
        ({
            let r = fresh_record(name, created_at, cpus, mem, mounts, ports, network, restart);
            &&& r.name == name && r.created_at == created_at && r.cpus == cpus && r.mem == mem
            &&& r.mounts == mounts && r.ports == ports && r.network == network
            &&& r.restart == restart
            &&& r.state is Created && r.pid is None && r.pid_start_time is None
            &&& r.last_exit_code is None
            &&& r.gpu is None && r.gpu_vram_mib is None && r.network_backend is None
            &&& r.init.len() == 0 && r.env.len() == 0 && r.workdir is None
            &&& r.storage_gb is None && r.overlay_gb is None && r.allowed_cidrs is None
            &&& r.image is None && r.entrypoint.len() == 0 && r.cmd.len() == 0
            &&& r.health_cmd is None && r.health_interval_secs is None
            &&& r.health_timeout_secs is None && r.health_retries is None
            &&& r.health_startup_grace_secs is None
            &&& !r.ssh_agent && r.dns_filter_hosts is None && !r.ephemeral
            &&& r.source_smolmachine is None
        }),
{
}

/// Each policy is named by its word and, where that has a hyphen, also without it; no other
/// word names one.
pub proof fn policies_are_named_by_their_words(p: RestartPolicy, word: Seq<char>)
    ensures
        policy_of(p.word()) == Some(p),
        policy_of("onfailure"@) == Some(RestartPolicy::OnFailure),
        policy_of("unlessstopped"@) == Some(RestartPolicy::UnlessStopped),
        policy_of(word) is None <==> word != "never"@ && word != "always"@ && word
            != "on-failure"@ && word != "onfailure"@ && word != "unless-stopped"@ && word
            != "unlessstopped"@,
{
    reveal_strlit("never");
    reveal_strlit("always");
    reveal_strlit("on-failure");
    reveal_strlit("onfailure");
    reveal_strlit("unless-stopped");
    reveal_strlit("unlessstopped");
    assert("always"@[0] == 'a' && "never"@[0] == 'n' && "on-failure"@[0] == 'o');
    assert("unless-stopped"@[0] == 'u' && "onfailure"@[0] == 'o' && "unlessstopped"@[0] == 'u');
}

/// A machine of which nothing was said is never restarted, and nothing was counted of it.
pub proof fn restarts_are_off_by_default(exit_code: Option<i32>)
    ensures
        default_restart().policy is Never,
        default_restart().max_retries == 0 && default_restart().max_backoff_secs == 0,
        default_restart().restart_count == 0 && !default_restart().user_stopped,
        !default_restart().restart_due(exit_code),
{
}

/// The name of a state is told apart from that of any other by its first letter.
pub proof fn state_names_tell_states_apart(s: RecordState)
    ensures
        s.variant_name().len() > 0,
        s.variant_name()[0] == (match s {
            RecordState::Created => 'C',
            RecordState::Running => 'R',
            RecordState::Stopped => 'S',
            RecordState::Failed => 'F',
            RecordState::Unreachable => 'U',
        }),
{
    reveal_strlit("Created");
    reveal_strlit("Running");
    reveal_strlit("Stopped");
    reveal_strlit("Failed");
    reveal_strlit("Unreachable");
}

/// Configurations that differ at most in their machines are stored as the same settings, and
/// every configuration agrees with itself.
pub proof fn machines_are_no_part_of_the_settings(a: SmolvmConfig, b: SmolvmConfig)
    ensures
        a.same_settings(&a),
        a.same_settings(&b) ==> a.stored_settings() == b.stored_settings() && a.version == b.version
            && a.default_cpus == b.default_cpus && a.default_mem == b.default_mem
            && a.default_dns == b.default_dns && a.storage_volume == b.storage_volume,
{
}

} // verus!
