//! VM configuration types.
use vstd::prelude::*;
use vstd::string::*;

use crate::data::storage::HostMount;
use crate::duration::Duration;
use crate::text::{
    char_vec, hexadecimal, hexadecimal_injective, hexadecimal_shape, hexadecimal_text,
    is_ascii_alnum, string_of, unicode_alphanumeric,
};
use crate::util::since_epoch;

verus! {

/// Unique identifier for a VM instance.
#[derive(Debug, PartialEq, Eq, Hash)]
pub struct VmId(pub String);

/// Whether a character may stand in an identifier.
pub open spec fn is_id_char(c: char) -> bool {
    unicode_alphanumeric(c) || c == '-' || c == '_'
}

/// The longest identifier.
pub const MAX_VM_ID_LENGTH: usize = 64;

/// An input without the characters that an identifier cannot hold, cut to 64.
pub open spec fn sanitized_id(s: Seq<char>) -> Seq<char> {
    let kept = s.filter(|c: char| is_id_char(c));
    if kept.len() > MAX_VM_ID_LENGTH {
        kept.take(MAX_VM_ID_LENGTH as int)
    } else {
        kept
    }
}

/// The milliseconds of a clock reading.
pub open spec fn reading_millis(secs: u64, nanos: u32) -> nat {
    (secs * 1000 + nanos as int / 1_000_000) as nat
}

/// The identifier that is made from a clock reading: its milliseconds, in hexadecimal.
pub open spec fn timed_id(secs: u64, nanos: u32) -> Seq<char> {
    "vm-"@ + hexadecimal(reading_millis(secs, nanos))
}

/// Whether a text is the identifier of some clock reading.
pub open spec fn is_generated_id(s: Seq<char>) -> bool {
    exists|secs: u64, nanos: u32| nanos < 1_000_000_000 && s == #[trigger] timed_id(secs, nanos)
}

impl View for VmId {
    type V = Seq<char>;

    open spec fn view(&self) -> Seq<char> {
        self.0@
    }
}

impl Clone for VmId {
    fn clone(&self) -> (r: VmId)
        ensures
            r@ == self@,
    {
        VmId(self.0.clone())
    }
}

impl VmId {
    /// Create a new VmId from a string.
    ///
    /// The ID is sanitized to only allow alphanumeric characters, dashes, and
    /// underscores. IDs are limited to 64 characters. If the input is empty or
    /// contains only invalid characters, a generated ID is used instead.
    pub fn new(id: &str) -> (r: VmId)
        ensures
            sanitized_id(id@).len() > 0 ==> r@ == sanitized_id(id@),
            sanitized_id(id@).len() == 0 ==> is_generated_id(r@),
            r@.len() > 0,
            !r@.contains('/'),
            !r@.contains('\\'),
            !r@.contains('.'),
    {
        let odd = '/'.is_alphanumeric() || '\\'.is_alphanumeric() || '.'.is_alphanumeric();
        proof {
            assert(!odd);
            sanitized_id_is_clean(id@);
        }
        let chars = char_vec(id);
        let mut kept: Vec<char> = Vec::new();
        let ghost pred = |c: char| is_id_char(c);
        proof {
            reveal(Seq::filter);
            assert(chars@.take(0).filter(pred) =~= Seq::empty());
        }
        for i in 0..chars.len()
            invariant
                chars@ == id@,
                pred == (|c: char| is_id_char(c)),
                kept@ == chars@.take(i as int).filter(pred),
        {
            let c = chars[i];
            proof {
                reveal(Seq::filter);
                assert(chars@.take(i + 1).drop_last() =~= chars@.take(i as int));
                assert(chars@.take(i + 1).last() == c);
            }
            if c.is_alphanumeric() || c == '-' || c == '_' {
                kept.push(c);
            }
        }
        proof {
            assert(chars@.take(chars@.len() as int) =~= chars@);
        }
        kept.truncate(MAX_VM_ID_LENGTH);
        if kept.len() == 0 {
            let r = VmId::generate();
            proof {
                generated_id_is_clean(r@);
            }
            r
        } else {
            VmId(string_of(&kept))
        }
    }

    /// The VmId of a clock reading, given in seconds and nanoseconds since the epoch: the
    /// milliseconds in lower-case hexadecimal.
    pub fn id_at(secs: u64, nanos: u32) -> (r: VmId)
        requires
            nanos < 1_000_000_000,
        ensures
            r@ == "vm-"@ + hexadecimal((secs * 1000 + nanos as int / 1_000_000) as nat),
            r@ == timed_id(secs, nanos),
    {
        let ts: u128 = (secs as u128) * 1000 + (nanos / 1_000_000) as u128;
        VmId(String::from_str("vm-").concat(hexadecimal_text(ts).as_str()))
    }

    /// Generate a unique VmId based on timestamp: that of the current clock reading.
    pub fn generate() -> (r: VmId)
        ensures
            is_generated_id(r@),
    {
        let (secs, nanos) = since_epoch();
        VmId::id_at(secs, nanos)
    }

    /// Get the ID as a string slice.
    pub fn as_str(&self) -> (r: &str)
        ensures
            r@ == self@,
    {
        self.0.as_str()
    }
}

proof fn lemma_filter_keeps_only(s: Seq<char>, pred: spec_fn(char) -> bool)
    ensures
        forall|i: int| 0 <= i < s.filter(pred).len() ==> pred(#[trigger] s.filter(pred)[i]),
    decreases s.len(),
{
    reveal(Seq::filter);
    if s.len() > 0 {
        lemma_filter_keeps_only(s.drop_last(), pred);
    }
}

/// Clock readings in different milliseconds give different identifiers.
pub proof fn generated_ids_differ(secs: u64, nanos: u32, later_secs: u64, later_nanos: u32)
    requires
        reading_millis(secs, nanos) != reading_millis(later_secs, later_nanos),
    ensures
        timed_id(secs, nanos) != timed_id(later_secs, later_nanos),
{
    let a = reading_millis(secs, nanos);
    let b = reading_millis(later_secs, later_nanos);
    if timed_id(secs, nanos) == timed_id(later_secs, later_nanos) {
        let n = "vm-"@.len() as int;
        assert(timed_id(secs, nanos).skip(n) =~= hexadecimal(a));
        assert(timed_id(later_secs, later_nanos).skip(n) =~= hexadecimal(b));
        hexadecimal_injective(a, b);
    }
}

/// A generated identifier holds letters, digits and a dash only.
pub proof fn generated_id_is_clean(s: Seq<char>)
    requires
        is_generated_id(s),
    ensures
        s.len() > 3,
        forall|i: int| 0 <= i < s.len() ==> is_ascii_alnum(#[trigger] s[i]) || s[i] == '-',
{
    let (secs, nanos) = choose|secs: u64, nanos: u32|
        nanos < 1_000_000_000 && s == #[trigger] timed_id(secs, nanos);
    let hex = hexadecimal(reading_millis(secs, nanos));
    reveal_strlit("vm-");
    hexadecimal_shape(reading_millis(secs, nanos));
    assert forall|i: int| 0 <= i < s.len() implies is_ascii_alnum(#[trigger] s[i]) || s[i]
        == '-' by {
        if i >= 3 {
            assert(s[i] == hex[i - 3]);
        }
    }
}

/// A sanitized identifier has at most 64 characters, all of them allowed.
pub proof fn sanitized_id_is_clean(s: Seq<char>)
    ensures
        sanitized_id(s).len() <= MAX_VM_ID_LENGTH,
        forall|i: int| 0 <= i < sanitized_id(s).len() ==> is_id_char(#[trigger] sanitized_id(s)[i]),
{
    let pred = |c: char| is_id_char(c);
    lemma_filter_keeps_only(s, pred);
    assert forall|i: int| 0 <= i < sanitized_id(s).len() implies is_id_char(
        #[trigger] sanitized_id(s)[i],
    ) by {
        assert(pred(s.filter(pred)[i]));
    }
}

/// Dashes, underscores and what counts as alphanumeric may stand in an identifier, and no
/// other character.
pub proof fn identifiers_hold_words_and_dashes(c: char)
    ensures
        is_id_char('-') && is_id_char('_'),
        c != '-' && c != '_' ==> is_id_char(c) == unicode_alphanumeric(c),
{
}

proof fn lemma_filter_all(s: Seq<char>, pred: spec_fn(char) -> bool)
    requires
        forall|i: int| 0 <= i < s.len() ==> pred(#[trigger] s[i]),
    ensures
        s.filter(pred) == s,
    decreases s.len(),
{
    reveal(Seq::filter);
    if s.len() > 0 {
        lemma_filter_all(s.drop_last(), pred);
        assert(s.drop_last().push(s.last()) == s);
        assert(pred(s[s.len() - 1]));
    }
}

proof fn lemma_filter_add(a: Seq<char>, b: Seq<char>, pred: spec_fn(char) -> bool)
    ensures
        (a + b).filter(pred) == a.filter(pred) + b.filter(pred),
    decreases b.len(),
{
    reveal(Seq::filter);
    if b.len() == 0 {
        assert(a + b == a);
        assert(b.filter(pred) == Seq::<char>::empty());
        assert(a.filter(pred) + b.filter(pred) == a.filter(pred));
    } else {
        lemma_filter_add(a, b.drop_last(), pred);
        assert((a + b).drop_last() == a + b.drop_last());
        assert((a + b).last() == b.last());
        assert((a + b).filter(pred) == a.filter(pred) + b.filter(pred));
    }
}

/// An identifier of allowed characters is kept as it is, up to its first 64, and a character
/// that is not allowed is dropped wherever it stands, and nothing with it.
pub proof fn allowed_characters_are_kept(s: Seq<char>, a: Seq<char>, c: char, b: Seq<char>)
    requires
        forall|i: int| 0 <= i < s.len() ==> is_id_char(#[trigger] s[i]),
        !is_id_char(c),
    ensures
        s.len() <= 64 ==> sanitized_id(s) == s,
        s.len() > 64 ==> sanitized_id(s) == s.take(64),
        sanitized_id(a + seq![c] + b) == sanitized_id(a + b),
{
    let pred = |x: char| is_id_char(x);
    lemma_filter_all(s, pred);
    lemma_filter_add(a + seq![c], b, pred);
    lemma_filter_add(a, seq![c], pred);
    lemma_filter_add(a, b, pred);
    assert(seq![c].filter(pred) == Seq::<char>::empty()) by {
        reveal(Seq::filter);
        assert(seq![c].drop_last() == Seq::<char>::empty());
        assert(seq![c].drop_last().filter(pred) == Seq::<char>::empty());
    }
    assert(a.filter(pred) + Seq::<char>::empty() == a.filter(pred));
}

/// Timeout configuration.
#[derive(Debug, Clone, Copy)]
pub struct Timeouts {
    /// Boot timeout (default: 30s).
    pub boot: Duration,
    /// Shutdown timeout (default: 10s).
    pub shutdown: Duration,
    /// Optional execution timeout.
    pub execution: Option<Duration>,
}

impl Default for Timeouts {
    fn default() -> (r: Timeouts)
        ensures
            r == (Timeouts {
                boot: Duration { secs: 30, nanos: 0 },
                shutdown: Duration { secs: 10, nanos: 0 },
                execution: None,
            }),
    {
        Timeouts { boot: Duration::from_secs(30), shutdown: Duration::from_secs(10), execution: None }
    }
}

/// Network policy.
#[derive(Debug, PartialEq, Eq)]
pub enum NetworkPolicy {
    /// vsock only, no network access.
    Disabled,
    /// Outbound internet via NAT.
    Egress {
        /// Address of a custom DNS server (default: inherit from host).
        dns: Option<String>,
        /// If set, only these CIDR ranges are reachable. Omit for unrestricted.
        allowed_cidrs: Option<Vec<String>>,
    },
}

impl Default for NetworkPolicy {
    fn default() -> (r: NetworkPolicy)
        ensures
            r == NetworkPolicy::Disabled,
    {
        NetworkPolicy::Disabled
    }
}

/// Disk image format for block devices.
#[derive(Debug, Clone, Copy, PartialEq, Eq, Structural)]
pub enum DiskFormat {
    /// Raw disk image.
    Raw,
    /// QCOW2 format (copy-on-write).
    Qcow2,
}

impl Default for DiskFormat {
    fn default() -> (r: DiskFormat)
        ensures
            r == DiskFormat::Raw,
    {
        DiskFormat::Raw
    }
}

impl DiskFormat {
    /// The number by which libkrun knows the format.
    pub open spec fn spec_code(self) -> u32 {
        match self {
            DiskFormat::Raw => 0,
            DiskFormat::Qcow2 => 1,
        }
    }

    /// The number by which libkrun knows the format.
    pub fn code(self) -> (r: u32)
        ensures
            r == self.spec_code(),
    {
        match self {
            DiskFormat::Raw => 0,
            DiskFormat::Qcow2 => 1,
        }
    }
}

/// Block device configuration.
#[derive(Debug, PartialEq, Eq)]
pub struct DiskConfig {
    /// Unique identifier for this block device.
    pub block_id: String,
    /// Path to the disk image.
    pub path: String,
    /// Disk format.
    pub format: DiskFormat,
    /// Whether the disk is read-only.
    pub read_only: bool,
}

impl DiskConfig {
    /// Create a new disk configuration.
    pub fn new(block_id: String, path: String) -> (r: DiskConfig)
        ensures
            r == (DiskConfig { block_id, path, format: DiskFormat::Raw, read_only: false }),
    {
        DiskConfig { block_id, path, format: DiskFormat::Raw, read_only: false }
    }

    /// Set the disk as read-only.
    pub fn read_only(self) -> (r: DiskConfig)
        ensures
            r == (DiskConfig { read_only: true, ..self }),
    {
        DiskConfig { read_only: true, ..self }
    }

    /// Set the disk format.
    pub fn format(self, format: DiskFormat) -> (r: DiskConfig)
        ensures
            r == (DiskConfig { format, ..self }),
    {
        DiskConfig { format, ..self }
    }
}

/// vsock port configuration.
#[derive(Debug, PartialEq, Eq)]
pub struct VsockPort {
    /// Port number (CID 3 is guest, 2 is host).
    pub port: u32,
    /// Unix socket path on the host.
    pub socket_path: String,
    /// If true, the host listens; if false, the guest listens.
    pub listen: bool,
}

impl VsockPort {
    /// Create a new vsock port where host listens.
    pub fn host_listen(port: u32, socket_path: String) -> (r: VsockPort)
        ensures
            r == (VsockPort { port, socket_path, listen: true }),
    {
        VsockPort { port, socket_path, listen: true }
    }

    /// Create a new vsock port where guest listens.
    pub fn guest_listen(port: u32, socket_path: String) -> (r: VsockPort)
        ensures
            r == (VsockPort { port, socket_path, listen: false }),
    {
        VsockPort { port, socket_path, listen: false }
    }
}

/// Source of the guest root filesystem.
#[derive(Debug, PartialEq, Eq)]
pub enum RootfsSource {
    /// Direct path to a directory or image.
    Path {
        /// Path to the rootfs directory.
        path: String,
    },
}

impl RootfsSource {
    /// Create a path-based rootfs source.
    pub fn path(p: String) -> (r: RootfsSource)
        ensures
            r == (RootfsSource::Path { path: p }),
    {
        RootfsSource::Path { path: p }
    }
}

/// Complete VM configuration.
#[derive(Debug)]
pub struct VmConfig {
    /// Unique VM identifier.
    pub id: VmId,
    /// Root filesystem source.
    pub rootfs: RootfsSource,
    /// Memory in MiB (default: 512).
    pub memory_mib: u32,
    /// Number of vCPUs (default: 1).
    pub cpus: u8,
    /// Timeouts.
    pub timeouts: Timeouts,
    /// Network policy.
    pub network: NetworkPolicy,
    /// Host mounts (virtiofs).
    pub mounts: Vec<HostMount>,
    /// Block devices (virtio-blk).
    pub disks: Vec<DiskConfig>,
    /// vsock ports for host-guest communication.
    pub vsock_ports: Vec<VsockPort>,
    /// Console output log file (for debugging).
    pub console_log: Option<String>,
    /// Enable Rosetta for x86_64 binaries on Apple Silicon.
    pub rosetta: bool,
    /// Enable GPU acceleration (virtio-gpu with Venus/Vulkan).
    pub gpu: bool,
    /// Command to execute (None = use rootfs default).
    pub command: Option<Vec<String>>,
    /// Working directory.
    pub workdir: Option<String>,
    /// Environment variables.
    pub env: Vec<(String, String)>,
}

impl VmConfig {
    /// Create a builder for VmConfig.
    pub fn builder(rootfs: RootfsSource) -> (r: VmConfigBuilder)
        ensures
            r.is_fresh(rootfs),
    {
        VmConfigBuilder::new(rootfs)
    }
}

/// Builder for VmConfig.
#[derive(Debug)]
pub struct VmConfigBuilder {
    /// The configuration as it stands.
    pub config: VmConfig,
}

impl VmConfigBuilder {
    /// A builder on which nothing but the root filesystem was set.
    pub open spec fn is_fresh(&self, rootfs: RootfsSource) -> bool {
        let c = self.config;
        &&& is_generated_id(c.id@)
        &&& c.rootfs == rootfs
        &&& c.memory_mib == 512
        &&& c.cpus == 1
        &&& c.timeouts == (Timeouts {
            boot: Duration { secs: 30, nanos: 0 },
            shutdown: Duration { secs: 10, nanos: 0 },
            execution: None,
        })
        &&& c.network == NetworkPolicy::Disabled
        &&& c.mounts@.len() == 0
        &&& c.disks@.len() == 0
        &&& c.vsock_ports@.len() == 0
        &&& c.console_log is None
        &&& !c.rosetta
        &&& !c.gpu
        &&& c.command is None
        &&& c.workdir is None
        &&& c.env@.len() == 0
    }

    /// Create a new builder with the given rootfs source.
    pub fn new(rootfs: RootfsSource) -> (r: VmConfigBuilder)
        ensures
            r.is_fresh(rootfs),
    {
        VmConfigBuilder {
            config: VmConfig {
                id: VmId::generate(),
                rootfs,
                memory_mib: 512,
                cpus: 1,
                timeouts: Timeouts::default(),
                network: NetworkPolicy::default(),
                mounts: Vec::new(),
                disks: Vec::new(),
                vsock_ports: Vec::new(),
                console_log: None,
                rosetta: false,
                gpu: false,
                command: None,
                workdir: None,
                env: Vec::new(),
            },
        }
    }

    /// Set the VM ID.
    pub fn id(self, id: VmId) -> (r: VmConfigBuilder)
        ensures
            r.config == (VmConfig { id, ..self.config }),
    {
        VmConfigBuilder { config: VmConfig { id, ..self.config } }
    }

    /// Set the memory in MiB.
    pub fn memory(self, mib: u32) -> (r: VmConfigBuilder)
        ensures
            r.config == (VmConfig { memory_mib: mib, ..self.config }),
    {
        VmConfigBuilder { config: VmConfig { memory_mib: mib, ..self.config } }
    }

    /// Set the number of CPUs.
    pub fn cpus(self, cpus: u8) -> (r: VmConfigBuilder)
        ensures
            r.config == (VmConfig { cpus, ..self.config }),
    {
        VmConfigBuilder { config: VmConfig { cpus, ..self.config } }
    }

    /// Set the network policy.
    pub fn network(self, policy: NetworkPolicy) -> (r: VmConfigBuilder)
        ensures
            r.config == (VmConfig { network: policy, ..self.config }),
    {
        VmConfigBuilder { config: VmConfig { network: policy, ..self.config } }
    }

    /// Add a host mount.
    pub fn mount(self, mount: HostMount) -> (r: VmConfigBuilder)
        ensures
            r.config.mounts@ == self.config.mounts@.push(mount),
            r.config == (VmConfig { mounts: r.config.mounts, ..self.config }),
    {
        let mut config = self.config;
        config.mounts.push(mount);
        VmConfigBuilder { config }
    }

    /// Set the command to execute.
    pub fn command(self, cmd: Vec<String>) -> (r: VmConfigBuilder)
        ensures
            r.config == (VmConfig { command: Some(cmd), ..self.config }),
    {
        VmConfigBuilder { config: VmConfig { command: Some(cmd), ..self.config } }
    }

    /// Set the working directory.
    pub fn workdir(self, path: String) -> (r: VmConfigBuilder)
        ensures
            r.config == (VmConfig { workdir: Some(path), ..self.config }),
    {
        VmConfigBuilder { config: VmConfig { workdir: Some(path), ..self.config } }
    }

    /// Add an environment variable.
    pub fn env(self, key: String, value: String) -> (r: VmConfigBuilder)
        ensures
            r.config.env@ == self.config.env@.push((key, value)),
            r.config == (VmConfig { env: r.config.env, ..self.config }),
    {
        let mut config = self.config;
        config.env.push((key, value));
        VmConfigBuilder { config }
    }

    /// Set the boot timeout.
    pub fn boot_timeout(self, timeout: Duration) -> (r: VmConfigBuilder)
        ensures
            r.config == (VmConfig {
                timeouts: Timeouts { boot: timeout, ..self.config.timeouts },
                ..self.config
            }),
    {
        let timeouts = Timeouts { boot: timeout, ..self.config.timeouts };
        VmConfigBuilder { config: VmConfig { timeouts, ..self.config } }
    }

    /// Set the shutdown timeout.
    pub fn shutdown_timeout(self, timeout: Duration) -> (r: VmConfigBuilder)
        ensures
            r.config == (VmConfig {
                timeouts: Timeouts { shutdown: timeout, ..self.config.timeouts },
                ..self.config
            }),
    {
        let timeouts = Timeouts { shutdown: timeout, ..self.config.timeouts };
        VmConfigBuilder { config: VmConfig { timeouts, ..self.config } }
    }

    /// Set the execution timeout.
    pub fn exec_timeout(self, timeout: Duration) -> (r: VmConfigBuilder)
        ensures
            r.config == (VmConfig {
                timeouts: Timeouts { execution: Some(timeout), ..self.config.timeouts },
                ..self.config
            }),
    {
        let timeouts = Timeouts { execution: Some(timeout), ..self.config.timeouts };
        VmConfigBuilder { config: VmConfig { timeouts, ..self.config } }
    }

    /// Add a block device.
    pub fn disk(self, disk: DiskConfig) -> (r: VmConfigBuilder)
        ensures
            r.config.disks@ == self.config.disks@.push(disk),
            r.config == (VmConfig { disks: r.config.disks, ..self.config }),
    {
        let mut config = self.config;
        config.disks.push(disk);
        VmConfigBuilder { config }
    }

    /// Add a vsock port.
    pub fn vsock(self, port: VsockPort) -> (r: VmConfigBuilder)
        ensures
            r.config.vsock_ports@ == self.config.vsock_ports@.push(port),
            r.config == (VmConfig { vsock_ports: r.config.vsock_ports, ..self.config }),
    {
        let mut config = self.config;
        config.vsock_ports.push(port);
        VmConfigBuilder { config }
    }

    /// Set the console log file.
    pub fn console_log(self, path: String) -> (r: VmConfigBuilder)
        ensures
            r.config == (VmConfig { console_log: Some(path), ..self.config }),
    {
        VmConfigBuilder { config: VmConfig { console_log: Some(path), ..self.config } }
    }

    /// Enable Rosetta for x86_64 binaries.
    pub fn rosetta(self, enabled: bool) -> (r: VmConfigBuilder)
        ensures
            r.config == (VmConfig { rosetta: enabled, ..self.config }),
    {
        VmConfigBuilder { config: VmConfig { rosetta: enabled, ..self.config } }
    }

    /// Build the VmConfig.
    pub fn build(self) -> (r: VmConfig)
        ensures
            r == self.config,
    {
        self.config
    }
}

/// A configuration that nothing was set on asks for one vCPU and 512 MiB, for half a minute
/// to boot and ten seconds to shut down, and for no network, devices or command.
pub proof fn untouched_configurations_have_the_defaults(b: VmConfigBuilder, rootfs: RootfsSource)
    requires
        b.is_fresh(rootfs),
    ensures
        b.config.rootfs == rootfs && is_generated_id(b.config.id@),
        b.config.cpus == 1 && b.config.memory_mib == 512,
        b.config.timeouts.boot.total_nanos() == 30_000_000_000,
        b.config.timeouts.shutdown.total_nanos() == 10_000_000_000,
        b.config.timeouts.execution is None,
        b.config.network is Disabled,
        b.config.mounts@.len() == 0 && b.config.disks@.len() == 0,
        b.config.vsock_ports@.len() == 0 && b.config.env@.len() == 0,
        b.config.console_log is None && b.config.command is None && b.config.workdir is None,
        !b.config.rosetta && !b.config.gpu,
{
}

/// libkrun knows raw images as 0 and QCOW2 images as 1.
pub proof fn formats_have_their_numbers(f: DiskFormat)
    ensures
        f.spec_code() == 0 <==> f is Raw,
        f.spec_code() == 1 <==> f is Qcow2,
{
}

} // verus!
