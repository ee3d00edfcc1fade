//! Running packed artifacts.
use vstd::prelude::*;
use vstd::string::*;

use crate::agent::{default_shell_cmd, RunConfig, RunConfigView};
use crate::cli::machine::BareRequest;
use crate::cli::parsers::{
    env_pair, env_pairs, mounts_to_virtiofs_bindings, parse_env_list, parse_env_spec,
};
use crate::cli::smolfile::prefer;
use crate::data::network::PortMapping;
use crate::data::resources::{VmResources, VmResourcesView};
use crate::data::storage::{guest_sides, mount_tag_text, tagged, HostMount, MountView};
use crate::duration::Duration;
use crate::error::{agent_error, outcome, Error, ErrorView};
use crate::lists::{clone_opt, clone_strings, join, join_text, joined, or_else};
use crate::network::backend::NetworkBackend;
use crate::pack::{PackManifest, PackManifestView, PackMode};
use crate::process::{is_our_process_strict, is_surely_ours, ProcessProbe};
use crate::scan::{
    decimal_parses_back, int_text_parses_back, is_digit, lemma_decimal_value, lemma_split_cons,
    lemma_split_pieces, lemma_split_single, parse_i32, parse_unsigned, parsed_i32, parsed_nat, split,
    split_all,
};
use crate::text::{decimal, decimal_text, hex_digits, hex_digits_text, int_text, same, signed_text};

verus! {

// ---------------------------------------------------------------------------
// Commands
// ---------------------------------------------------------------------------

/// Run a VM from a packed `.smolmachine` sidecar file.
#[derive(Debug)]
pub struct PackRunCmd {
    /// Path to the `.smolmachine` sidecar file.
    pub sidecar: Option<String>,
    /// What is run, and how.
    pub args: PackedRunArgs,
    /// Re-extract assets even if already cached.
    pub force_extract: bool,
    /// Show manifest info and exit.
    pub info: bool,
    /// Enable debug output.
    pub debug: bool,
}

/// Arguments of an ephemeral run of a packed artifact.
#[derive(Debug)]
pub struct PackedRunArgs {
    /// Command to run (overrides image entrypoint/cmd).
    pub command: Vec<String>,
    /// Keep stdin open for interactive input.
    pub interactive: bool,
    /// Allocate a pseudo-TTY.
    pub tty: bool,
    /// Kill command after duration.
    pub timeout: Option<Duration>,
    /// Working directory inside the container.
    pub workdir: Option<String>,
    /// Environment variables.
    pub env: Vec<String>,
    /// Host directories to mount.
    pub volume: Vec<String>,
    /// Ports to expose.
    pub port: Vec<PortMapping>,
    /// Machine settings.
    pub machine: PackedMachineArgs,
}

/// Machine settings of a packed artifact.
#[derive(Debug, Clone, Copy)]
pub struct PackedMachineArgs {
    /// Enable outbound network access.
    pub net: bool,
    /// Networking backend.
    pub net_backend: Option<NetworkBackend>,
    /// Number of vCPUs (overrides default).
    pub cpus: Option<u8>,
    /// Memory in MiB (overrides default).
    pub mem: Option<u32>,
    /// Storage disk size in GiB.
    pub storage: Option<u64>,
    /// Overlay disk size in GiB.
    pub overlay: Option<u64>,
}

// ---------------------------------------------------------------------------
// Finding and checking the artifact
// ---------------------------------------------------------------------------

/// A path that was looked at.
#[derive(Debug)]
pub struct FoundPath {
    /// The path.
    pub path: String,
    /// Whether it exists.
    pub exists: bool,
}

/// The sidecar that is run, or why there is none: an explicit path must exist; else
/// the one next to the executable; else the only one in the current directory.
pub open spec fn chosen_sidecar(
    explicit: Option<FoundPath>,
    beside_exe: Option<FoundPath>,
    in_cwd: Option<Seq<Seq<char>>>,
) -> Result<Seq<char>, ErrorView> {
    match explicit {
        Some(p) => if p.exists {
            Ok(p.path@)
        } else {
            Err(
                agent_error(
                    "find sidecar"@,
                    "sidecar file not found: "@ + p.path@ + "\nSpecify with --sidecar PATH"@,
                ),
            )
        },
        None => if beside_exe matches Some(p) && p.exists {
            Ok(beside_exe->0.path@)
        } else if in_cwd matches Some(v) && v.len() == 1 {
            Ok(in_cwd->0[0])
        } else if in_cwd matches Some(v) && v.len() > 1 {
            Err(
                agent_error(
                    "find sidecar"@,
                    "multiple .smolmachine files in current directory. Specify with --sidecar PATH"@,
                ),
            )
        } else {
            Err(
                agent_error(
                    "find sidecar"@,
                    "no .smolmachine sidecar file found.\nSpecify with: smolvm pack run --sidecar PATH"@,
                ),
            )
        },
    }
}

/// A sidecar that was named is the one that is run, or none is. Else the one next to the
/// executable is run, where it is there, else the one in the current directory, where there
/// is exactly one.
pub proof fn named_sidecars_are_the_ones_run(
    explicit: Option<FoundPath>,
    beside_exe: Option<FoundPath>,
    in_cwd: Option<Seq<Seq<char>>>,
)
    ensures
        ({
            let r = chosen_sidecar(explicit, beside_exe, in_cwd);
            let beside = beside_exe is Some && beside_exe->0.exists;
            let only = in_cwd is Some && in_cwd->0.len() == 1;
            &&& explicit matches Some(p) ==> (r is Ok <==> p.exists) && (r matches Ok(x) ==> x
                == p.path@)
            &&& explicit is None && beside ==> r == Ok::<Seq<char>, ErrorView>(
                beside_exe->0.path@,
            )
            &&& explicit is None && !beside && only ==> r == Ok::<Seq<char>, ErrorView>(
                in_cwd->0[0],
            )
            &&& explicit is None && !beside && !only ==> r is Err
        }),
{
}

/// Resolve the path to the `.smolmachine` sidecar file.
pub fn resolve_sidecar_path(
    explicit: Option<FoundPath>,
    beside_exe: Option<FoundPath>,
    in_cwd: Option<Vec<String>>,
) -> (r: Result<String, Error>)
    ensures
        outcome(r) == chosen_sidecar(explicit, beside_exe, in_cwd.deep_view()),
{
    if let Some(p) = explicit {
        if p.exists {
            return Ok(p.path);
        }
        return Err(
            Error::agent(
                "find sidecar",
                String::from_str("sidecar file not found: ").concat(p.path.as_str()).concat(
                    "\nSpecify with --sidecar PATH",
                ),
            ),
        );
    }
    if let Some(p) = beside_exe {
        if p.exists {
            return Ok(p.path);
        }
    }
    if let Some(found) = in_cwd {
        if found.len() == 1 {
            return Ok(found[0].clone());
        }
        if found.len() > 1 {
            return Err(
                Error::agent(
                    "find sidecar",
                    String::from_str(
                        "multiple .smolmachine files in current directory. Specify with --sidecar PATH",
                    ),
                ),
            );
        }
    }
    Err(
        Error::agent(
            "find sidecar",
            String::from_str(
                "no .smolmachine sidecar file found.\nSpecify with: smolvm pack run --sidecar PATH",
            ),
        ),
    )
}

/// Judge the check of a sidecar's checksum: nothing of a sidecar is trusted before
/// it passed.
pub fn checksum_outcome(path: &str, verified: Result<bool, String>) -> (r: Result<(), Error>)
    ensures
        verified == Ok::<bool, String>(true) <==> r is Ok,
        verified == Ok::<bool, String>(false) ==> (r matches Err(e) && e@ == agent_error(
            "verify sidecar"@,
            "checksum mismatch for "@ + path@
                + ": sidecar may be corrupt or tampered with.\nTry re-packing the image with `smolvm pack`."@,
        )),
        verified matches Err(x) ==> (r matches Err(e) && e@ == agent_error(
            "verify sidecar"@,
            "failed to verify checksum: "@ + x@,
        )),
{
    match verified {
        Ok(true) => Ok(()),
        Ok(false) => Err(
            Error::agent(
                "verify sidecar",
                String::from_str("checksum mismatch for ").concat(path).concat(
                    ": sidecar may be corrupt or tampered with.\nTry re-packing the image with `smolvm pack`.",
                ),
            ),
        ),
        Err(e) => Err(
            Error::agent(
                "verify sidecar",
                String::from_str("failed to verify checksum: ").concat(e.as_str()),
            ),
        ),
    }
}

/// Whether assets have to be extracted.
pub fn needs_extract(force: bool, extracted: bool) -> (r: bool)
    ensures
        r == (force || !extracted),
{
    force || !extracted
}

/// The directory of the native libraries.
pub open spec fn chosen_lib_dir(
    embedded: Option<Seq<char>>,
    cached: FoundPath,
    installed: Option<Seq<char>>,
) -> Option<Seq<char>> {
    if embedded is Some {
        embedded
    } else if cached.exists {
        Some(cached.path@)
    } else {
        installed
    }
}

/// Libraries that an executable brings with it come before those among its assets, and
/// these before installed ones; they are missing only where there are none of any kind.
pub proof fn libraries_that_are_packed_come_first(
    embedded: Option<Seq<char>>,
    cached: FoundPath,
    installed: Option<Seq<char>>,
)
    ensures
        ({
            let d = chosen_lib_dir(embedded, cached, installed);
            &&& embedded is Some ==> d == embedded
            &&& embedded is None && cached.exists ==> d == Some(cached.path@)
            &&& embedded is None && !cached.exists ==> d == installed
        }),
{
}

/// Choose the directory of the native libraries: those embedded in the executable,
/// else those among the extracted assets, else the installed ones.
pub fn resolve_lib_dir(
    embedded: Option<String>,
    cached: FoundPath,
    installed: Option<String>,
) -> (r: Result<String, Error>)
    ensures
        match chosen_lib_dir(embedded.deep_view(), cached, installed.deep_view()) {
            Some(d) => r matches Ok(x) && x@ == d,
            None => r matches Err(e) && e@ == agent_error(
                "find libraries"@,
                "libkrun/libkrunfw not found. The binary may be corrupted or the libraries are missing."@,
            ),
        },
{
    if let Some(d) = embedded {
        return Ok(d);
    }
    if cached.exists {
        return Ok(cached.path);
    }
    if let Some(d) = installed {
        return Ok(d);
    }
    Err(
        Error::agent(
            "find libraries",
            String::from_str(
                "libkrun/libkrunfw not found. The binary may be corrupted or the libraries are missing.",
            ),
        ),
    )
}

// ---------------------------------------------------------------------------
// Resources, commands and variables
// ---------------------------------------------------------------------------

/// The storage size of a packed machine: the one asked for, else the default where
/// the image's size is not known, else three times the image and some room, at
/// least 20 GiB.
pub open spec fn storage_size(explicit: Option<u64>, image_size: u64) -> Option<u64> {
    if explicit is Some {
        explicit
    } else if image_size == 0 {
        None
    } else {
        let needed = image_size as int / 0x4000_0000 * 3 + 5;
        Some(
            if needed > 20 {
                needed as u64
            } else {
                20
            },
        )
    }
}

/// Compute storage size for a packed VM.
///
/// An explicit size is used as it is. Otherwise, auto-size based on the image's
/// extracted on-disk size. Formula: `max(20, image_gib * 3 + 5)` — the 3x covers
/// overlay copy-up, container setup, and ext4 metadata; the +5 gives headroom for
/// user data.
pub fn storage_gib_for_manifest(explicit: Option<u64>, manifest: &PackManifest) -> (r: Option<u64>)
    ensures
        r == storage_size(explicit, manifest@.image_size),
{
    if explicit.is_some() {
        return explicit;
    }
    if manifest.image_size == 0 {
        return None;
    }
    let needed: u64 = manifest.image_size / 0x4000_0000 * 3 + 5;
    Some(
        if needed > 20 {
            needed
        } else {
            20
        },
    )
}

/// The automatic storage size is at least 20 GiB and leaves room for the image
/// three times over.
pub proof fn automatic_storage_is_roomy(image_size: u64)
    requires
        image_size > 0,
    ensures
        storage_size(None, image_size) matches Some(s) && s >= 20 && s >= image_size as int
            / 0x4000_0000 * 3 + 5,
{
}

/// A size that was asked for is the size of the disk. Else it is left open where the size of
/// the image is not known, and else it is three times the whole GiB of the image and five
/// more, but at least 20.
pub proof fn storage_has_the_size_asked_for(explicit: Option<u64>, image_size: u64, gib: int)
    requires
        gib * 0x4000_0000 <= image_size < (gib + 1) * 0x4000_0000,
    ensures
        explicit is Some ==> storage_size(explicit, image_size) == explicit,
        image_size == 0 ==> storage_size(None, image_size) is None,
        image_size > 0 && 3 * gib + 5 <= 20 ==> storage_size(None, image_size) == Some(20u64),
        image_size > 0 && 3 * gib + 5 > 20 ==> (storage_size(None, image_size) matches Some(s) && s
            == 3 * gib + 5),
{
    assert(image_size as int / 0x4000_0000 == gib) by (nonlinear_arith)
        requires
            gib * 0x4000_0000 <= image_size < (gib + 1) * 0x4000_0000,
    ;
}

/// The resources of a packed machine: settings override the manifest, and mapped
/// ports turn the network on.
pub open spec fn packed_resources(
    a: PackedMachineArgs,
    ports: nat,
    m: PackManifestView,
) -> VmResourcesView {
    VmResourcesView {
        cpus: match a.cpus {
            Some(c) => c,
            None => m.cpus,
        },
        memory_mib: match a.mem {
            Some(x) => x,
            None => m.mem,
        },
        network: a.net || m.network || ports > 0,
        network_backend: a.net_backend,
        gpu: false,
        gpu_vram_mib: None,
        storage_gib: storage_size(a.storage, m.image_size),
        overlay_gib: a.overlay,
        allowed_cidrs: None,
    }
}

/// The resources of a packed machine.
pub fn resources_for_packed(a: &PackedMachineArgs, ports: &Vec<PortMapping>, manifest: &PackManifest) -> (r:
    VmResources)
    ensures
        r@ == packed_resources(*a, ports@.len(), manifest@),
{
    VmResources {
        cpus: a.cpus.unwrap_or(manifest.cpus),
        memory_mib: a.mem.unwrap_or(manifest.mem),
        network: a.net || manifest.network || ports.len() > 0,
        network_backend: a.net_backend,
        gpu: false,
        gpu_vram_mib: None,
        storage_gib: storage_gib_for_manifest(a.storage, manifest),
        overlay_gib: a.overlay,
        allowed_cidrs: None,
    }
}

/// A packed machine has the numbers that were asked for, else those that were packed. Its
/// network is on where that was asked for or packed, and where a port is mapped.
pub proof fn packed_machines_get_their_resources(
    a: PackedMachineArgs,
    ports: nat,
    m: PackManifestView,
)
    ensures
        ({
            let r = packed_resources(a, ports, m);
            &&& a.cpus matches Some(c) ==> r.cpus == c
            &&& a.cpus is None ==> r.cpus == m.cpus
            &&& a.mem matches Some(x) ==> r.memory_mib == x
            &&& a.mem is None ==> r.memory_mib == m.mem
            &&& !r.network <==> !a.net && !m.network && ports == 0
            &&& r.network_backend == a.net_backend
            &&& r.storage_gib == storage_size(a.storage, m.image_size)
            &&& r.overlay_gib == a.overlay
            &&& !r.gpu && r.gpu_vram_mib is None && r.allowed_cidrs is None
        }),
{
}

/// A mount as the launcher takes it.
#[derive(Debug)]
pub struct PackedMount {
    /// Virtiofs tag.
    pub tag: String,
    /// Directory on the host.
    pub host_path: String,
    /// Path in the guest.
    pub guest_path: String,
    /// Whether the guest may only read it.
    pub read_only: bool,
}

/// The tag, the two paths and the flag of a mount as the launcher takes it.
pub open spec fn packed_form(p: PackedMount) -> (Seq<char>, Seq<char>, Seq<char>, bool) {
    (p.tag@, p.host_path@, p.guest_path@, p.read_only)
}

/// The form in which the launcher takes the mount at a position.
pub open spec fn packed_at(m: HostMount, i: int) -> (Seq<char>, Seq<char>, Seq<char>, bool) {
    (mount_tag_text(i), m.source@, m.target@, m.read_only)
}

/// The launcher shares the directory that a mount has on the host and tells the guest the
/// path that it has there, under the tag that a request for the same mounts uses.
pub proof fn launchers_share_what_requests_mount(mounts: Seq<HostMount>, i: int)
    requires
        0 <= i < mounts.len(),
    ensures
        ({
            let (tag, host, guest, read_only) = packed_at(mounts[i], i);
            let views = Seq::new(mounts.len(), |k: int| mounts[k]@);
            &&& (host, guest, read_only) == mounts[i]@
            &&& tagged(guest_sides(views))[i] == (tag, guest, read_only)
        }),
{
}

/// Convert parsed mounts to the launcher's form: positional tags, same order.
pub fn mounts_to_packed(mounts: &Vec<HostMount>) -> (r: Vec<PackedMount>)
    ensures
        r@.len() == mounts@.len(),
        forall|i: int|
            0 <= i < mounts@.len() ==> (#[trigger] r@[i]).tag@ == mount_tag_text(i)
                && r@[i].host_path@ == mounts@[i].source@ && r@[i].guest_path@
                == mounts@[i].target@ && r@[i].read_only == mounts@[i].read_only,
        forall|i: int| 0 <= i < mounts@.len() ==> packed_form(#[trigger] r@[i]) == packed_at(mounts@[i], i),
{
    let mut r: Vec<PackedMount> = Vec::new();
    for i in 0..mounts.len()
        invariant
            r@.len() == i,
            forall|j: int|
                0 <= j < i ==> (#[trigger] r@[j]).tag@ == mount_tag_text(j) && r@[j].host_path@
                    == mounts@[j].source@ && r@[j].guest_path@ == mounts@[j].target@
                    && r@[j].read_only == mounts@[j].read_only,
    {
        r.push(
            PackedMount {
                tag: HostMount::mount_tag(i),
                host_path: mounts[i].source.clone(),
                guest_path: mounts[i].target.clone(),
                read_only: mounts[i].read_only,
            },
        );
    }
    r
}

/// The command of a packed artifact: the one given, else the manifest's, else a shell.
pub open spec fn packed_command(m: PackManifestView, cli: Seq<Seq<char>>) -> Seq<Seq<char>> {
    prefer(cli, prefer(m.entrypoint + m.cmd, seq![crate::DEFAULT_SHELL_CMD@]))
}

/// A packed artifact runs the command that was given, else what was packed, its entrypoint
/// followed by its arguments, and a shell only where nothing was packed.
pub proof fn packed_commands_come_from_the_first_source(m: PackManifestView, cli: Seq<Seq<char>>)
    ensures
        ({
            let r = packed_command(m, cli);
            let packed = m.entrypoint.len() != 0 || m.cmd.len() != 0;
            &&& cli.len() != 0 ==> r == cli
            &&& cli.len() == 0 && packed ==> r == m.entrypoint + m.cmd
            &&& cli.len() == 0 && !packed ==> r == seq![crate::DEFAULT_SHELL_CMD@]
        }),
{
}

/// Build the command to execute from manifest defaults and overrides.
pub fn build_command(manifest: &PackManifest, cli_command: &Vec<String>) -> (r: Vec<String>)
    ensures
        r.deep_view() == packed_command(manifest@, cli_command.deep_view()),
{
    if cli_command.len() > 0 {
        return clone_strings(cli_command);
    }
    if manifest.entrypoint.len() > 0 || manifest.cmd.len() > 0 {
        joined(clone_strings(&manifest.entrypoint), clone_strings(&manifest.cmd))
    } else {
        default_shell_cmd()
    }
}

/// Variables without those of a key.
pub open spec fn env_without(env: Seq<(Seq<char>, Seq<char>)>, key: Seq<char>) -> Seq<
    (Seq<char>, Seq<char>),
>
    decreases env.len(),
{
    if env.len() == 0 {
        Seq::empty()
    } else if env.last().0 == key {
        env_without(env.drop_last(), key)
    } else {
        env_without(env.drop_last(), key).push(env.last())
    }
}

/// Variables after the first `n` settings were applied: each replaces what its key
/// had before; texts that set nothing are left out.
pub open spec fn env_after(
    env: Seq<(Seq<char>, Seq<char>)>,
    settings: Seq<Seq<char>>,
    n: int,
) -> Seq<(Seq<char>, Seq<char>)>
    decreases n,
{
    if n <= 0 {
        env
    } else {
        let before = env_after(env, settings, n - 1);
        match env_pair(settings[n - 1]) {
            Some(p) => env_without(before, p.0).push(p),
            None => before,
        }
    }
}

fn remove_key(env: &Vec<(String, String)>, key: &str) -> (r: Vec<(String, String)>)
    ensures
        r.deep_view() == env_without(env.deep_view(), key@),
{
    let ghost all = env.deep_view();
    let mut r: Vec<(String, String)> = Vec::new();
    proof {
        assert(all.take(0) =~= Seq::empty());
        assert(r.deep_view() =~= Seq::empty());
    }
    for i in 0..env.len()
        invariant
            all == env.deep_view(),
            r.deep_view() == env_without(all.take(i as int), key@),
    {
        let ghost before = r.deep_view();
        proof {
            assert(all.take(i + 1).drop_last() =~= all.take(i as int));
            assert(all.take(i + 1).last() == env@[i as int].deep_view());
        }
        if !same(env[i].0.as_str(), key) {
            r.push((env[i].0.clone(), env[i].1.clone()));
            proof {
                assert(r.deep_view() =~= before.push(env@[i as int].deep_view()));
            }
        }
    }
    proof {
        assert(all.take(all.len() as int) =~= all);
    }
    r
}

/// Build environment variables from manifest defaults and overrides.
pub fn build_env(manifest: &PackManifest, cli_env: &Vec<String>) -> (r: Vec<(String, String)>)
    ensures
        r.deep_view() == env_after(
            env_pairs(manifest@.env),
            cli_env.deep_view(),
            cli_env@.len() as int,
        ),
{
    let mut env = parse_env_list(&manifest.env);
    let ghost base = env.deep_view();
    for i in 0..cli_env.len()
        invariant
            env.deep_view() == env_after(base, cli_env.deep_view(), i as int),
    {
        proof {
            assert(cli_env.deep_view()[i as int] == cli_env@[i as int]@);
        }
        match parse_env_spec(cli_env[i].as_str()) {
            Some((key, value)) => {
                env = remove_key(&env, key.as_str());
                let ghost before = env.deep_view();
                env.push((key, value));
                proof {
                    assert(env.deep_view() =~= before.push((key@, value@)));
                }
            },
            None => {},
        }
    }
    env
}

proof fn lemma_env_without(env: Seq<(Seq<char>, Seq<char>)>, key: Seq<char>)
    ensures
        forall|i: int|
            0 <= i < env_without(env, key).len() ==> (#[trigger] env_without(env, key)[i]).0 != key,
    decreases env.len(),
{
    if env.len() > 0 {
        lemma_env_without(env.drop_last(), key);
        let before = env_without(env.drop_last(), key);
        let after = env_without(env, key);
        assert forall|i: int| 0 <= i < after.len() implies (#[trigger] after[i]).0 != key by {
            if i < before.len() {
                assert(after[i] == before[i]);
            }
        }
    }
}

/// A setting overrides the manifest: after the last setting, its key has its value
/// and no other.
pub proof fn last_setting_wins(
    env: Seq<(Seq<char>, Seq<char>)>,
    settings: Seq<Seq<char>>,
    n: int,
)
    requires
        0 < n <= settings.len(),
        env_pair(settings[n - 1]) is Some,
    ensures
        ({
            let p = env_pair(settings[n - 1])->0;
            let r = env_after(env, settings, n);
            r.len() > 0 && r.last() == p && forall|i: int|
                0 <= i < r.len() - 1 ==> (#[trigger] r[i]).0 != p.0
        }),
{
    let p = env_pair(settings[n - 1])->0;
    let before = env_after(env, settings, n - 1);
    lemma_env_without(before, p.0);
    let r = env_after(env, settings, n);
    assert forall|i: int| 0 <= i < r.len() - 1 implies (#[trigger] r[i]).0 != p.0 by {
        assert(r[i] == env_without(before, p.0)[i]);
    }
}

proof fn lemma_env_without_keeps(
    env: Seq<(Seq<char>, Seq<char>)>,
    key: Seq<char>,
    x: (Seq<char>, Seq<char>),
)
    ensures
        env_without(env, key).contains(x) <==> env.contains(x) && x.0 != key,
    decreases env.len(),
{
    if env.len() > 0 {
        let init = env.drop_last();
        lemma_env_without_keeps(init, key, x);
        let r = env_without(env, key);
        let before = env_without(init, key);
        if env.contains(x) && !init.contains(x) {
            let k = choose|k: int| 0 <= k < env.len() && env[k] == x;
            if k < init.len() {
                assert(init[k] == x);
            }
            assert(env.last() == x);
        }
        if init.contains(x) {
            let k = choose|k: int| 0 <= k < init.len() && init[k] == x;
            assert(env[k] == x);
        }
        assert(env[env.len() - 1] == env.last());
        if before.contains(x) {
            let k = choose|k: int| 0 <= k < before.len() && before[k] == x;
            assert(r[k] == x);
        }
        if env.last().0 != key {
            assert(r[r.len() - 1] == env.last());
            if r.contains(x) && !before.contains(x) {
                let k = choose|k: int| 0 <= k < r.len() && r[k] == x;
                if k < before.len() {
                    assert(before[k] == x);
                }
                assert(env.last() == x);
            }
        }
    }
}

/// Whether a text sets a key.
pub open spec fn sets_key(setting: Seq<char>, key: Seq<char>) -> bool {
    env_pair(setting) matches Some(p) && p.0 == key
}

/// A variable has the value of the last setting of its key, and where no setting has that
/// key the value that it had; nothing else is set.
pub proof fn variables_have_their_last_value(
    env: Seq<(Seq<char>, Seq<char>)>,
    settings: Seq<Seq<char>>,
    n: int,
    x: (Seq<char>, Seq<char>),
)
    requires
        0 <= n <= settings.len(),
    ensures
        env_after(env, settings, n).contains(x) <==> {
            ||| exists|i: int|
                0 <= i < n && env_pair(#[trigger] settings[i]) == Some(x) && forall|j: int|
                    i < j < n ==> !sets_key(#[trigger] settings[j], x.0)
            ||| env.contains(x) && forall|j: int|
                0 <= j < n ==> !sets_key(#[trigger] settings[j], x.0)
        },
    decreases n,
{
    if n > 0 {
        variables_have_their_last_value(env, settings, n - 1, x);
        let before = env_after(env, settings, n - 1);
        let after = env_after(env, settings, n);
        let last = settings[n - 1];
        assert(after.contains(x) <==> env_pair(last) == Some(x) || (before.contains(x) && !sets_key(
            last,
            x.0,
        ))) by {
            if let Some(p) = env_pair(last) {
                lemma_env_without_keeps(before, p.0, x);
                let kept = env_without(before, p.0);
                assert(after == kept.push(p));
                assert(after[after.len() - 1] == p);
                if kept.contains(x) {
                    let k = choose|k: int| 0 <= k < kept.len() && kept[k] == x;
                    assert(after[k] == x);
                }
                if after.contains(x) && x != p {
                    let k = choose|k: int| 0 <= k < after.len() && after[k] == x;
                    assert(kept[k] == x);
                }
            }
        }
        if env_pair(last) == Some(x) {
            assert(env_pair(settings[n - 1]) == Some(x));
        } else if after.contains(x) {
            if exists|i: int|
                0 <= i < n - 1 && env_pair(#[trigger] settings[i]) == Some(x) && forall|j: int|
                    i < j < n - 1 ==> !sets_key(#[trigger] settings[j], x.0) {
                let i = choose|i: int|
                    0 <= i < n - 1 && env_pair(#[trigger] settings[i]) == Some(x) && forall|j: int|
                        i < j < n - 1 ==> !sets_key(#[trigger] settings[j], x.0);
                assert(env_pair(settings[i]) == Some(x));
                assert forall|j: int| i < j < n implies !sets_key(#[trigger] settings[j], x.0) by {}
            } else {
                assert forall|j: int| 0 <= j < n implies !sets_key(#[trigger] settings[j], x.0) by {}
            }
        } else {
            if exists|i: int|
                0 <= i < n && env_pair(#[trigger] settings[i]) == Some(x) && forall|j: int|
                    i < j < n ==> !sets_key(#[trigger] settings[j], x.0) {
                let i = choose|i: int|
                    0 <= i < n && env_pair(#[trigger] settings[i]) == Some(x) && forall|j: int|
                        i < j < n ==> !sets_key(#[trigger] settings[j], x.0);
                assert(i < n - 1);
                assert(!sets_key(settings[n - 1], x.0));
                assert(forall|j: int| i < j < n - 1 ==> !sets_key(#[trigger] settings[j], x.0));
            }
            if env.contains(x) && forall|j: int|
                0 <= j < n ==> !sets_key(#[trigger] settings[j], x.0) {
                assert(!sets_key(settings[n - 1], x.0));
            }
        }
    }
}

// ---------------------------------------------------------------------------
// Execution
// ---------------------------------------------------------------------------

/// How a packed command is executed.
#[derive(Debug, Clone, Copy, PartialEq, Eq, Structural)]
pub enum PackedExec {
    /// In the machine, attached to the terminal.
    VmInteractive,
    /// In the machine, with output collected.
    Vm,
    /// In the image, attached to the terminal.
    ContainerInteractive,
    /// In the image, with output collected.
    Container,
}

/// How a packed command is executed.
pub open spec fn packed_exec_of(mode: PackMode, attached: bool) -> PackedExec {
    match (mode, attached) {
        (PackMode::Vm, true) => PackedExec::VmInteractive,
        (PackMode::Vm, false) => PackedExec::Vm,
        (PackMode::Container, true) => PackedExec::ContainerInteractive,
        (PackMode::Container, false) => PackedExec::Container,
    }
}

/// A packed image runs in its image and a packed machine in the machine itself, attached to
/// the terminal exactly where that was asked for.
pub proof fn packed_commands_run_as_they_were_packed(mode: PackMode, attached: bool)
    ensures
        ({
            let e = packed_exec_of(mode, attached);
            &&& e is ContainerInteractive || e is Container <==> mode is Container
            &&& e is ContainerInteractive || e is VmInteractive <==> attached
        }),
{
}

/// The request that runs a packed command, with mounts and with what is kept of the
/// filesystem.
pub open spec fn packed_request_of(
    m: PackManifestView,
    args: PackedRunArgs,
    mounts: Seq<MountView>,
    overlay: Option<Seq<char>>,
) -> RunConfigView {
    RunConfigView {
        image: m.image,
        command: packed_command(m, args.command.deep_view()),
        env: env_after(env_pairs(m.env), args.env.deep_view(), args.env@.len() as int),
        workdir: or_else(args.workdir.deep_view(), m.workdir),
        mounts: tagged(guest_sides(mounts)),
        timeout: args.timeout,
        tty: args.tty,
        persistent_overlay_id: overlay,
    }
}

/// A packed command runs in the packed image, in the directory that was given, else in the
/// packed one, with the packed variables and those that were given on top. Each mount
/// appears at its target. In a daemon commands share their filesystem, and nothing is
/// mounted for one of them alone.
pub proof fn packed_requests_follow_the_manifest(
    m: PackManifestView,
    args: PackedRunArgs,
    mounts: Seq<MountView>,
    overlay: Option<Seq<char>>,
)
    ensures
        ({
            let r = packed_request_of(m, args, mounts, overlay);
            &&& r.image == m.image
            &&& r.command == packed_command(m, args.command.deep_view())
            &&& args.workdir matches Some(w) ==> r.workdir == Some(w@)
            &&& args.workdir is None ==> r.workdir == m.workdir
            &&& r.timeout == args.timeout && r.tty == args.tty
            &&& r.persistent_overlay_id == overlay
            &&& args.env@.len() == 0 ==> r.env == env_pairs(m.env)
            &&& r.mounts.len() == mounts.len()
            &&& forall|i: int|
                0 <= i < mounts.len() ==> (#[trigger] r.mounts[i]).1 == mounts[i].1
                    && r.mounts[i].2 == mounts[i].2
            &&& daemon_request_of(m, args).mounts.len() == 0
            &&& daemon_request_of(m, args).persistent_overlay_id is Some
            &&& daemon_request_of(m, args) == (RunConfigView {
                mounts: Seq::empty(),
                persistent_overlay_id: Some("daemon"@),
                ..r
            })
        }),
{
}

/// The request that runs a command in a daemon's image.
pub open spec fn daemon_request_of(m: PackManifestView, args: PackedRunArgs) -> RunConfigView {
    RunConfigView {
        image: m.image,
        command: packed_command(m, args.command.deep_view()),
        env: env_after(env_pairs(m.env), args.env.deep_view(), args.env@.len() as int),
        workdir: or_else(args.workdir.deep_view(), m.workdir),
        mounts: Seq::empty(),
        timeout: args.timeout,
        tty: args.tty,
        persistent_overlay_id: Some("daemon"@),
    }
}

/// Decide how a packed command is executed.
pub fn packed_exec(mode: PackMode, interactive: bool, tty: bool) -> (r: PackedExec)
    ensures
        r == packed_exec_of(mode, interactive || tty),
{
    match mode {
        PackMode::Vm => if interactive || tty {
            PackedExec::VmInteractive
        } else {
            PackedExec::Vm
        },
        PackMode::Container => if interactive || tty {
            PackedExec::ContainerInteractive
        } else {
            PackedExec::Container
        },
    }
}

/// The request that runs a packed command in its image.
pub fn packed_request(
    manifest: &PackManifest,
    args: &PackedRunArgs,
    mounts: &Vec<HostMount>,
    persistent_overlay_id: Option<String>,
) -> (r: RunConfig)
    ensures
        r@ == packed_request_of(
            manifest@,
            *args,
            mounts.deep_view(),
            persistent_overlay_id.deep_view(),
        ),
{
    let workdir = match &args.workdir {
        Some(w) => Some(w.clone()),
        None => clone_opt(&manifest.workdir),
    };
    RunConfig::new(manifest.image.as_str(), build_command(manifest, &args.command)).with_env(
        build_env(manifest, &args.env),
    ).with_workdir(workdir).with_mounts(mounts_to_virtiofs_bindings(mounts)).with_timeout(
        args.timeout,
    ).with_tty(args.tty).with_persistent_overlay(persistent_overlay_id)
}

/// The lines that describe a manifest.
pub open spec fn manifest_text(m: PackManifestView, checksum: u32) -> Seq<Seq<char>> {
    let head = seq![
        "Mode:       "@ + (match m.mode {
            PackMode::Container => "container"@,
            PackMode::Vm => "vm"@,
        }),
        "Image:      "@ + m.image,
        "Digest:     "@ + m.digest,
        "Platform:   "@ + m.platform,
        "CPUs:       "@ + decimal(m.cpus as nat),
        "Memory:     "@ + decimal(m.mem as nat) + " MiB"@,
    ];
    let network = if m.network {
        seq!["Network:    enabled"@]
    } else {
        Seq::empty()
    };
    let entrypoint = if m.entrypoint.len() > 0 {
        seq!["Entrypoint: "@ + join_text(m.entrypoint, " "@)]
    } else {
        Seq::empty()
    };
    let cmd = if m.cmd.len() > 0 {
        seq!["Cmd:        "@ + join_text(m.cmd, " "@)]
    } else {
        Seq::empty()
    };
    let workdir = match m.workdir {
        Some(w) => seq!["Workdir:    "@ + w],
        None => Seq::empty(),
    };
    let env = if m.env.len() > 0 {
        seq!["Env:"@] + Seq::new(m.env.len(), |i: int| "  "@ + m.env[i])
    } else {
        Seq::empty()
    };
    head + network + entrypoint + cmd + workdir + env + seq![
        "Checksum:   "@ + hex_digits(checksum as nat, 8),
    ]
}

fn push_line(lines: &mut Vec<String>, label: &str, value: &str)
    ensures
        final(lines).deep_view() == old(lines).deep_view().push(label@ + value@),
{
    let line = label.to_owned().concat(value);
    lines.push(line);
    proof {
        assert(lines.deep_view() =~= old(lines).deep_view().push(line@));
    }
}

fn env_block(env: &Vec<String>) -> (r: Vec<String>)
    ensures
        r.deep_view() == (if env@.len() > 0 {
            seq!["Env:"@] + Seq::new(env@.len(), |i: int| "  "@ + env.deep_view()[i])
        } else {
            Seq::empty()
        }),
{
    let mut r: Vec<String> = Vec::new();
    if env.len() == 0 {
        proof {
            assert(r.deep_view() =~= Seq::empty());
        }
        return r;
    }
    r.push("Env:".to_owned());
    for i in 0..env.len()
        invariant
            r@.len() == i + 1,
            r@[0]@ == "Env:"@,
            forall|j: int| 1 <= j < i + 1 ==> (#[trigger] r@[j])@ == "  "@ + env@[j - 1]@,
    {
        r.push(String::from_str("  ").concat(env[i].as_str()));
    }
    proof {
        assert(r.deep_view() =~= seq!["Env:"@] + Seq::new(
            env@.len(),
            |i: int| "  "@ + env.deep_view()[i],
        ));
    }
    r
}

/// Describe a manifest.
pub fn manifest_info(m: &PackManifest, checksum: u32) -> (r: Vec<String>)
    ensures
        r.deep_view() == manifest_text(m@, checksum),
{
    let mut r: Vec<String> = Vec::new();
    proof {
        assert(r.deep_view() =~= Seq::empty());
    }
    let mode = match m.mode {
        PackMode::Container => "container",
        PackMode::Vm => "vm",
    };
    push_line(&mut r, "Mode:       ", mode);
    push_line(&mut r, "Image:      ", m.image.as_str());
    push_line(&mut r, "Digest:     ", m.digest.as_str());
    push_line(&mut r, "Platform:   ", m.platform.as_str());
    push_line(&mut r, "CPUs:       ", decimal_text(m.cpus as u64).as_str());
    let memory = String::from_str("Memory:     ").concat(
        decimal_text(m.mem as u64).as_str(),
    ).concat(" MiB");
    push_line(&mut r, memory.as_str(), "");
    let ghost head = seq![
        "Mode:       "@ + mode@,
        "Image:      "@ + m@.image,
        "Digest:     "@ + m@.digest,
        "Platform:   "@ + m@.platform,
        "CPUs:       "@ + decimal(m@.cpus as nat),
        memory@,
    ];
    proof {
        reveal_strlit("");
        assert(memory@ + ""@ =~= memory@);
        assert(r.deep_view() =~= head);
    }
    if m.network {
        push_line(&mut r, "Network:    enabled", "");
    }
    let ghost network = if m@.network {
        seq!["Network:    enabled"@]
    } else {
        Seq::empty()
    };
    proof {
        assert("Network:    enabled"@ + ""@ =~= "Network:    enabled"@);
        assert(r.deep_view() =~= head + network);
    }
    if m.entrypoint.len() > 0 {
        push_line(&mut r, "Entrypoint: ", join(&m.entrypoint, " ").as_str());
    }
    let ghost entrypoint = if m@.entrypoint.len() > 0 {
        seq!["Entrypoint: "@ + join_text(m@.entrypoint, " "@)]
    } else {
        Seq::empty()
    };
    proof {
        assert(r.deep_view() =~= head + network + entrypoint);
    }
    if m.cmd.len() > 0 {
        push_line(&mut r, "Cmd:        ", join(&m.cmd, " ").as_str());
    }
    let ghost cmd = if m@.cmd.len() > 0 {
        seq!["Cmd:        "@ + join_text(m@.cmd, " "@)]
    } else {
        Seq::empty()
    };
    proof {
        assert(r.deep_view() =~= head + network + entrypoint + cmd);
    }
    match &m.workdir {
        Some(w) => {
            push_line(&mut r, "Workdir:    ", w.as_str());
        },
        None => {},
    }
    let ghost workdir = match m@.workdir {
        Some(w) => seq!["Workdir:    "@ + w],
        None => Seq::empty(),
    };
    proof {
        assert(r.deep_view() =~= head + network + entrypoint + cmd + workdir);
    }
    let mut r = joined(r, env_block(&m.env));
    push_line(&mut r, "Checksum:   ", hex_digits_text(checksum as u64, 8).as_str());
    proof {
        let env = if m@.env.len() > 0 {
            seq!["Env:"@] + Seq::new(m@.env.len(), |i: int| "  "@ + m@.env[i])
        } else {
            Seq::empty()
        };
        assert(r.deep_view() =~= head + network + entrypoint + cmd + workdir + env + seq![
            "Checksum:   "@ + hex_digits(checksum as nat, 8),
        ]);
    }
    r
}

// ---------------------------------------------------------------------------
// The process of a packed machine
// ---------------------------------------------------------------------------

/// How often the start time of a new process is asked for again.
pub const START_TIME_RETRIES: u32 = 5;

/// What is done about a new process whose start time was asked for.
#[derive(Debug, Clone, Copy, PartialEq, Eq, Structural)]
pub enum IdentityStep {
    /// Go on with this start time.
    Proceed(Option<u64>),
    /// Ask again in a millisecond.
    Retry,
    /// Kill the process, which cannot be told apart later, and fail.
    KillAndFail,
}

/// What is done about a new process, after so many retries.
pub open spec fn identity_step_of(
    start_time: Option<u64>,
    alive: bool,
    retries: u32,
) -> IdentityStep {
    if start_time is Some || !alive {
        IdentityStep::Proceed(start_time)
    } else if retries < START_TIME_RETRIES {
        IdentityStep::Retry
    } else {
        IdentityStep::KillAndFail
    }
}

/// A run goes on with a live process only where its start time is known, and with the one
/// that was found. A process is killed only where it lives and its start time could not be
/// found in five more attempts.
pub proof fn live_processes_are_identified(start_time: Option<u64>, alive: bool, retries: u32)
    ensures
        ({
            let s = identity_step_of(start_time, alive, retries);
            &&& s matches IdentityStep::Proceed(t) ==> t == start_time && (alive ==> t is Some)
            &&& s is Proceed <==> start_time is Some || !alive
            &&& s is KillAndFail <==> alive && start_time is None && retries >= 5
        }),
{
}

/// Decide what is done about a new process, after so many retries: one that lives
/// without a start time is asked again, and killed in the end; one that is gone is
/// not signalled.
pub fn identity_step(start_time: Option<u64>, alive: bool, retries: u32) -> (r: IdentityStep)
    ensures
        r == identity_step_of(start_time, alive, retries),
{
    if start_time.is_some() || !alive {
        IdentityStep::Proceed(start_time)
    } else if retries < START_TIME_RETRIES {
        IdentityStep::Retry
    } else {
        IdentityStep::KillAndFail
    }
}

/// The error for a process that cannot be identified.
pub fn unidentified_child_error() -> (r: Error)
    ensures
        r@ == agent_error(
            "verify child process"@,
            "unable to capture child start time for safe lifecycle management"@,
        ),
{
    Error::agent(
        "verify child process",
        String::from_str("unable to capture child start time for safe lifecycle management"),
    )
}

/// How long an agent has to become ready, in seconds.
pub const AGENT_READY_TIMEOUT_SECS: u64 = 30;

/// One round of waiting for an agent.
#[derive(Debug, Clone, Copy, PartialEq, Eq, Structural)]
pub enum AgentWait {
    /// Too much time has passed.
    TimedOut,
    /// It is ready.
    Ready,
    /// Try again in 100 milliseconds.
    Retry,
}

/// One round of waiting for an agent.
pub open spec fn agent_wait_of(elapsed: Duration, answered_ping: bool) -> AgentWait {
    if elapsed.total_nanos() > AGENT_READY_TIMEOUT_SECS * 1_000_000_000 {
        AgentWait::TimedOut
    } else if answered_ping {
        AgentWait::Ready
    } else {
        AgentWait::Retry
    }
}

/// An agent is ready only once it answered, within its thirty seconds, and is waited for as
/// long as these last.
pub proof fn agents_are_ready_once_they_answer(elapsed: Duration, answered_ping: bool)
    ensures
        ({
            let w = agent_wait_of(elapsed, answered_ping);
            let late = elapsed.total_nanos() > 30 * 1_000_000_000;
            &&& w is Ready <==> answered_ping && !late
            &&& w is TimedOut <==> late
        }),
{
}

/// Judge one round of waiting for an agent: time is checked first, and an agent is
/// ready only once it answered a ping.
pub fn agent_wait_step(elapsed: &Duration, answered_ping: bool) -> (r: AgentWait)
    requires
        elapsed.wf(),
    ensures
        r == agent_wait_of(*elapsed, answered_ping),
{
    if elapsed.longer_than(&Duration::from_secs(AGENT_READY_TIMEOUT_SECS)) {
        AgentWait::TimedOut
    } else if answered_ping {
        AgentWait::Ready
    } else {
        AgentWait::Retry
    }
}

/// The error for an agent that did not become ready.
pub fn agent_not_ready_error() -> (r: Error)
    ensures
        r@ == agent_error(
            "wait for agent"@,
            "agent did not become ready within "@ + decimal(AGENT_READY_TIMEOUT_SECS as nat)
                + " seconds"@,
        ),
{
    Error::agent(
        "wait for agent",
        String::from_str("agent did not become ready within ").concat(
            decimal_text(AGENT_READY_TIMEOUT_SECS).as_str(),
        ).concat(" seconds"),
    )
}

/// How the overlay disk of a packed machine is made.
#[derive(Debug, Clone, Copy, PartialEq, Eq, Structural)]
pub enum OverlaySetup {
    /// Copy the artifact's template, grown to so many GiB where that is asked for.
    CopyTemplate(Option<u64>),
    /// The machine has no overlay disk.
    NoOverlay,
}

/// How the overlay disk of a packed machine is made.
pub open spec fn overlay_setup_of(mode: PackMode, overlay_gb: Option<u64>) -> OverlaySetup {
    match mode {
        PackMode::Vm => OverlaySetup::CopyTemplate(overlay_gb),
        PackMode::Container => OverlaySetup::NoOverlay,
    }
}

/// A packed machine gets the disk that was packed with it, at the size that was asked for; a
/// packed image gets none.
pub proof fn only_packed_machines_have_an_overlay(mode: PackMode, overlay_gb: Option<u64>)
    ensures
        overlay_setup_of(mode, overlay_gb) is NoOverlay <==> mode is Container,
        overlay_setup_of(mode, overlay_gb) matches OverlaySetup::CopyTemplate(size) ==> size
            == overlay_gb,
{
}

/// Decide how the overlay disk of a packed machine is made: the artifact of a machine
/// brings its own, one of an image has none.
pub fn setup_vm_overlay(mode: PackMode, overlay_gb: Option<u64>) -> (r: OverlaySetup)
    ensures
        mode == PackMode::Vm ==> r == OverlaySetup::CopyTemplate(overlay_gb),
        mode == PackMode::Container ==> r == OverlaySetup::NoOverlay,
        r == overlay_setup_of(mode, overlay_gb),
{
    match mode {
        PackMode::Vm => OverlaySetup::CopyTemplate(overlay_gb),
        PackMode::Container => OverlaySetup::NoOverlay,
    }
}

/// The error for an overlay template that cannot be copied.
pub fn overlay_template_error(reason: &str) -> (r: Error)
    ensures
        r@ == agent_error(
            "setup overlay"@,
            "VM mode overlay template is missing or corrupt: "@ + reason@
                + ". Try re-packing with `smolvm pack --from-vm`."@,
        ),
{
    Error::agent(
        "setup overlay",
        String::from_str("VM mode overlay template is missing or corrupt: ").concat(reason).concat(
            ". Try re-packing with `smolvm pack --from-vm`.",
        ),
    )
}

// ---------------------------------------------------------------------------
// Daemons
// ---------------------------------------------------------------------------

/// The text of a daemon's process file.
pub open spec fn pid_file_text(pid: i32, start_time: Option<u64>) -> Seq<char> {
    match start_time {
        Some(st) => int_text(pid as int) + "\n"@ + decimal(st as nat),
        None => int_text(pid as int),
    }
}

/// The text of a daemon's process file: the process id and, on a second line, its
/// start time.
pub fn write_daemon_pid(pid: i32, start_time: Option<u64>) -> (r: String)
    ensures
        r@ == pid_file_text(pid, start_time),
{
    match start_time {
        Some(st) => signed_text(pid as i64).concat("\n").concat(decimal_text(st).as_str()),
        None => signed_text(pid as i64),
    }
}

/// A line without the carriage return at its end.
pub open spec fn without_return(line: Seq<char>) -> Seq<char> {
    if line.len() > 0 && line.last() == '\r' {
        line.drop_last()
    } else {
        line
    }
}

/// The process id and start time that a process file holds, where its first line is
/// a number; a second line that is none counts as missing.
pub open spec fn parsed_pid_file(text: Seq<char>) -> Option<(i32, Option<u64>)> {
    let lines = split_all(text, '\n');
    match parsed_i32(file_line(lines, 0)) {
        None => None,
        Some(pid) => Some(
            (
                pid as i32,
                if lines.len() >= 2 {
                    match parsed_nat(file_line(lines, 1), u64::MAX as nat) {
                        Some(n) => Some(n as u64),
                        None => None,
                    }
                } else {
                    None
                },
            ),
        ),
    }
}

/// A line of a file: the end of a line may have a carriage return, the rest behind
/// the last line break may not.
pub open spec fn file_line(pieces: Seq<Seq<char>>, i: int) -> Seq<char> {
    if i < pieces.len() - 1 {
        without_return(pieces[i])
    } else {
        pieces[i]
    }
}

fn strip_return(pieces: &Vec<String>, i: usize) -> (r: String)
    requires
        i < pieces@.len(),
    ensures
        r@ == file_line(pieces.deep_view(), i as int),
{
    let line = pieces[i].as_str();
    let n: usize = line.unicode_len();
    proof {
        assert(pieces.deep_view()[i as int] == line@);
    }
    if i < pieces.len() - 1 && n > 0 && line.get_char(n - 1) == '\r' {
        let head = line.substring_char(0, n - 1);
        proof {
            assert(head@ =~= line@.drop_last());
        }
        head.to_owned()
    } else {
        line.to_owned()
    }
}

/// Read the process id and start time from the text of a daemon's process file.
pub fn read_daemon_pid(text: &str) -> (r: Option<(i32, Option<u64>)>)
    ensures
        r == parsed_pid_file(text@),
{
    let lines = split(text, '\n');
    proof {
        assert(lines.deep_view().len() == lines@.len());
    }
    let first = strip_return(&lines, 0);
    let pid: i32 = match parse_i32(first.as_str()) {
        Some(p) => p,
        None => {
            return None;
        },
    };
    let start_time = if lines.len() >= 2 {
        let second = strip_return(&lines, 1);
        parse_unsigned(second.as_str(), u64::MAX)
    } else {
        None
    };
    Some((pid, start_time))
}

proof fn lemma_int_text_chars(i: i32)
    ensures
        int_text(i as int).len() > 0,
        !int_text(i as int).contains('\n'),
        int_text(i as int).last() != '\r',
{
    let m = if i < 0 {
        (-(i as int)) as nat
    } else {
        i as nat
    };
    lemma_decimal_value(m);
    let s = int_text(i as int);
    assert forall|j: int| 0 <= j < s.len() implies s[j] != '\n' && s[j] != '\r' by {
        if i < 0 {
            if j > 0 {
                assert(s[j] == decimal(m)[j - 1]);
                assert(is_digit(decimal(m)[j - 1]));
            }
        } else {
            assert(is_digit(decimal(m)[j]));
        }
    }
    assert(s[s.len() - 1] != '\r');
}

/// What is written to a process file is read back.
pub proof fn pid_file_round_trip(pid: i32, start_time: Option<u64>)
    ensures
        parsed_pid_file(pid_file_text(pid, start_time)) == Some((pid, start_time)),
{
    let a = int_text(pid as int);
    lemma_int_text_chars(pid);
    int_text_parses_back(pid);
    match start_time {
        Some(st) => {
            let b = decimal(st as nat);
            lemma_decimal_value(st as nat);
            decimal_parses_back(st as nat, u64::MAX as nat);
            reveal_strlit("\n");
            assert("\n"@ =~= seq!['\n']);
            lemma_split_cons(a, '\n', b);
            assert forall|j: int| 0 <= j < b.len() implies b[j] != '\n' by {
                assert(is_digit(b[j]));
            }
            lemma_split_single(b, '\n');
            let lines = split_all(pid_file_text(pid, start_time), '\n');
            assert(lines =~= seq![a, b]);
        },
        None => {
            lemma_split_single(a, '\n');
        },
    }
}

/// Whether a daemon runs: its recorded process is surely ours, its socket is there,
/// and its agent answers.
pub open spec fn daemon_runs(
    recorded: Option<(i32, Option<u64>)>,
    probe: ProcessProbe,
    socket_exists: bool,
    answers: bool,
) -> bool {
    (recorded matches Some(p) && is_surely_ours(probe, p.1)) && socket_exists && answers
}

/// Check if a daemon is running and connectable.
pub fn is_daemon_running(
    recorded: Option<(i32, Option<u64>)>,
    probe: &ProcessProbe,
    socket_exists: bool,
    answers: bool,
) -> (r: bool)
    ensures
        r == daemon_runs(recorded, *probe, socket_exists, answers),
{
    match recorded {
        None => false,
        Some((_pid, start_time)) => {
            if !is_our_process_strict(probe, start_time) {
                return false;
            }
            socket_exists && answers
        },
    }
}

/// Whether a daemon's process may be stopped: its agent answered, or it is surely
/// ours. A process that merely has the recorded id is never signalled.
pub fn may_stop_daemon(agent_answered: bool, probe: &ProcessProbe, start_time: Option<u64>) -> (r: bool)
    ensures
        r == (agent_answered || is_surely_ours(*probe, start_time)),
{
    agent_answered || is_our_process_strict(probe, start_time)
}

/// The status of a daemon.
#[derive(Debug, Clone, Copy, PartialEq, Eq, Structural)]
pub enum DaemonStatus {
    /// No process is recorded.
    NotRunning,
    /// The recorded process is not ours: its files are removed.
    Stale,
    /// It runs and answers.
    Running(i32),
    /// It runs but its agent does not answer.
    Silent(i32),
}

/// The status of a daemon, given its recorded process and what is found of it.
pub open spec fn status_of(
    recorded: Option<(i32, Option<u64>)>,
    probe: ProcessProbe,
    socket_exists: bool,
    answers: bool,
) -> DaemonStatus {
    match recorded {
        None => DaemonStatus::NotRunning,
        Some((pid, start_time)) => if !is_surely_ours(probe, start_time) {
            DaemonStatus::Stale
        } else if socket_exists && answers {
            DaemonStatus::Running(pid)
        } else {
            DaemonStatus::Silent(pid)
        },
    }
}

/// Determine the status of a daemon.
pub fn daemon_status(
    recorded: Option<(i32, Option<u64>)>,
    probe: &ProcessProbe,
    socket_exists: bool,
    answers: bool,
) -> (r: DaemonStatus)
    ensures
        r == status_of(recorded, *probe, socket_exists, answers),
{
    match recorded {
        None => DaemonStatus::NotRunning,
        Some((pid, start_time)) => if !is_our_process_strict(probe, start_time) {
            DaemonStatus::Stale
        } else if socket_exists && answers {
            DaemonStatus::Running(pid)
        } else {
            DaemonStatus::Silent(pid)
        },
    }
}

/// The line that shows a daemon's status.
pub fn daemon_status_line(status: DaemonStatus) -> (r: String)
    ensures
        r@ == (match status {
            DaemonStatus::NotRunning => "Status: not running"@,
            DaemonStatus::Stale => "Status: not running (stale PID file)"@,
            DaemonStatus::Running(pid) => "Status: running (PID: "@ + int_text(pid as int) + ")"@,
            DaemonStatus::Silent(pid) => "Status: running (PID: "@ + int_text(pid as int)
                + ", agent not responding)"@,
        }),
{
    match status {
        DaemonStatus::NotRunning => String::from_str("Status: not running"),
        DaemonStatus::Stale => String::from_str("Status: not running (stale PID file)"),
        DaemonStatus::Running(pid) => String::from_str("Status: running (PID: ").concat(
            signed_text(pid as i64).as_str(),
        ).concat(")"),
        DaemonStatus::Silent(pid) => String::from_str("Status: running (PID: ").concat(
            signed_text(pid as i64).as_str(),
        ).concat(", agent not responding)"),
    }
}

/// The status says "running" exactly when the check for a running daemon holds, and
/// then shows the recorded process.
pub proof fn status_agrees_with_check(
    recorded: Option<(i32, Option<u64>)>,
    probe: ProcessProbe,
    socket_exists: bool,
    answers: bool,
)
    ensures
        daemon_runs(recorded, probe, socket_exists, answers) <==> status_of(
            recorded,
            probe,
            socket_exists,
            answers,
        ) is Running,
        status_of(recorded, probe, socket_exists, answers) matches DaemonStatus::Running(pid) ==> (
        recorded matches Some(p) && p.0 == pid),
{
}

/// What the stop of a daemon comes to.
#[derive(Debug, Clone, Copy, PartialEq, Eq, Structural)]
pub enum DaemonStop {
    /// No process is recorded: there is nothing to stop.
    NotRunning,
    /// Stop this process, then remove its files and its lease.
    StopProcess(i32),
    /// The recorded process is not known to be ours: remove its files and its lease only.
    CleanUp,
}

/// What the stop of a daemon comes to.
pub open spec fn daemon_stop_of(
    recorded: Option<(i32, Option<u64>)>,
    agent_answered: bool,
    probe: ProcessProbe,
) -> DaemonStop {
    match recorded {
        None => DaemonStop::NotRunning,
        Some((pid, start_time)) => if agent_answered || is_surely_ours(probe, start_time) {
            DaemonStop::StopProcess(pid)
        } else {
            DaemonStop::CleanUp
        },
    }
}

/// A stop signals exactly the process that is recorded, and only where its agent answered or
/// where its status shows it as running; a stale record is cleared without a signal.
pub proof fn stops_signal_only_the_daemon(
    recorded: Option<(i32, Option<u64>)>,
    agent_answered: bool,
    probe: ProcessProbe,
    socket_exists: bool,
    answers: bool,
)
    ensures
        ({
            let d = daemon_stop_of(recorded, agent_answered, probe);
            let s = status_of(recorded, probe, socket_exists, answers);
            &&& d is NotRunning <==> recorded is None
            &&& d matches DaemonStop::StopProcess(pid) ==> (recorded matches Some(p) && p.0 == pid)
            &&& s is Running || s is Silent ==> d is StopProcess
            &&& s is Stale && !agent_answered ==> d is CleanUp
            &&& recorded is Some && agent_answered ==> d is StopProcess
            &&& s is NotRunning <==> recorded is None
            &&& s is Stale <==> (recorded matches Some(p) && !is_surely_ours(probe, p.1))
            &&& s matches DaemonStatus::Silent(pid) ==> (recorded matches Some(p) && p.0 == pid)
                && !(socket_exists && answers)
        }),
{
}

/// Decide what the stop of a daemon comes to, given whether its agent took the request
/// to shut down.
pub fn daemon_stop(
    recorded: Option<(i32, Option<u64>)>,
    agent_answered: bool,
    probe: &ProcessProbe,
) -> (r: DaemonStop)
    ensures
        r == daemon_stop_of(recorded, agent_answered, *probe),
{
    match recorded {
        None => DaemonStop::NotRunning,
        Some((pid, start_time)) => if may_stop_daemon(agent_answered, probe, start_time) {
            DaemonStop::StopProcess(pid)
        } else {
            DaemonStop::CleanUp
        },
    }
}

/// The error for a command in a daemon that does not run.
pub fn daemon_not_running_error() -> (r: Error)
    ensures
        r@ == agent_error(
            "daemon exec"@,
            "daemon is not running. Start it with: <binary> start"@,
        ),
{
    Error::agent(
        "daemon exec",
        String::from_str("daemon is not running. Start it with: <binary> start"),
    )
}

/// The request that runs a command in a daemon's image. Devices are fixed when the
/// daemon boots, so no mounts are added, and filesystem changes are kept across
/// commands.
pub fn daemon_request(manifest: &PackManifest, args: &PackedRunArgs) -> (r: RunConfig)
    ensures
        r@ == daemon_request_of(manifest@, *args),
{
    let mounts: Vec<HostMount> = Vec::new();
    proof {
        assert(tagged(guest_sides(mounts.deep_view())) =~= Seq::empty());
    }
    packed_request(manifest, args, &mounts, Some(String::from_str("daemon")))
}

/// The request that runs a packed command in the machine itself.
pub fn packed_bare_request(manifest: &PackManifest, args: &PackedRunArgs) -> (r: BareRequest)
    ensures
        r.command.deep_view() == packed_command(manifest@, args.command.deep_view()),
        r.env.deep_view() == env_after(
            env_pairs(manifest@.env),
            args.env.deep_view(),
            args.env@.len() as int,
        ),
        r.workdir.deep_view() == or_else(args.workdir.deep_view(), manifest@.workdir),
        r.timeout == args.timeout,
        r.tty == args.tty,
{
    let workdir = match &args.workdir {
        Some(w) => Some(w.clone()),
        None => clone_opt(&manifest.workdir),
    };
    BareRequest {
        command: build_command(manifest, &args.command),
        env: build_env(manifest, &args.env),
        workdir,
        timeout: args.timeout,
        tty: args.tty,
    }
}

/// What is shown of a packed artifact is what its manifest says of it, each in a line of its
/// own, with its variables below one another and its checksum at the end.
pub proof fn manifests_are_shown_whole(m: PackManifestView, checksum: u32, i: int)
    ensures
        ({
            let lines = manifest_text(m, checksum);
            let n = lines.len();
            &&& lines[0] == "Mode:       "@ + (if m.mode is Vm {
                "vm"@
            } else {
                "container"@
            })
            &&& lines[1] == "Image:      "@ + m.image
            &&& lines[2] == "Digest:     "@ + m.digest
            &&& lines[3] == "Platform:   "@ + m.platform
            &&& lines[4] == "CPUs:       "@ + decimal(m.cpus as nat)
            &&& lines[5] == "Memory:     "@ + decimal(m.mem as nat) + " MiB"@
            &&& m.network ==> lines[6] == "Network:    enabled"@
            &&& n == 7 + (if m.network {
                1int
            } else {
                0
            }) + (if m.entrypoint.len() > 0 {
                1int
            } else {
                0
            }) + (if m.cmd.len() > 0 {
                1int
            } else {
                0
            }) + (if m.workdir is Some {
                1int
            } else {
                0
            }) + (if m.env.len() > 0 {
                1 + m.env.len()
            } else {
                0
            })
            &&& 0 <= i < m.env.len() ==> lines[n - 1 - m.env.len() + i] == "  "@ + m.env[i]
            &&& lines[n - 1] == "Checksum:   "@ + hex_digits(checksum as nat, 8)
            &&& !m.network && m.entrypoint.len() > 0 ==> lines[6] == "Entrypoint: "@ + join_text(
                m.entrypoint,
                " "@,
            )
            &&& m.network && m.entrypoint.len() > 0 ==> lines[7] == "Entrypoint: "@ + join_text(
                m.entrypoint,
                " "@,
            )
            &&& m.env.len() == 0 ==> (m.workdir matches Some(w) ==> lines[n - 2]
                == "Workdir:    "@ + w)
            &&& m.env.len() == 0 && m.workdir is None && m.cmd.len() > 0 ==> lines[n - 2]
                == "Cmd:        "@ + join_text(m.cmd, " "@)
        }),
{
}

/// A carriage return at the end of a line changes nothing of what a process file says.
pub proof fn carriage_returns_do_not_count(line: Seq<char>, rest: Seq<char>)
    requires
        !line.contains('\n'),
        line.len() > 0 ==> line.last() != '\r',
    ensures
        parsed_pid_file(line.push('\r') + seq!['\n'] + rest) == parsed_pid_file(
            line + seq!['\n'] + rest,
        ),
{
    let returned = line.push('\r');
    assert(!returned.contains('\n')) by {
        if returned.contains('\n') {
            let i = choose|i: int| 0 <= i < returned.len() && returned[i] == '\n';
            assert(line[i] == '\n');
        }
    }
    lemma_split_cons(line, '\n', rest);
    lemma_split_cons(returned, '\n', rest);
    lemma_split_pieces(rest, '\n');
    let a = split_all(line + seq!['\n'] + rest, '\n');
    let b = split_all(returned + seq!['\n'] + rest, '\n');
    assert(a.len() == b.len() && a.len() >= 2);
    assert(a[0] == line && b[0] == returned);
    assert(a[1] == b[1]);
    assert(returned.drop_last() == line);
    assert(file_line(a, 0) == file_line(b, 0));
    assert(file_line(a, 1) == file_line(b, 1));
}

/// A process file counts exactly where its first line is a number, which is the process id;
/// a second line counts as the start time exactly where it is a number.
pub proof fn process_files_start_with_the_process(first: Seq<char>, second: Seq<char>)
    requires
        !first.contains('\n') && !second.contains('\n'),
        first.len() > 0 ==> first.last() != '\r',
    ensures
        match parsed_i32(first) {
            None => parsed_pid_file(first) is None && parsed_pid_file(first + seq!['\n'] + second)
                is None,
            Some(pid) => {
                &&& parsed_pid_file(first) == Some((pid as i32, None::<u64>))
                &&& parsed_pid_file(first + seq!['\n'] + second) == Some(
                    (
                        pid as i32,
                        match parsed_nat(second, u64::MAX as nat) {
                            Some(n) => Some(n as u64),
                            None => None,
                        },
                    ),
                )
            },
        },
{
    lemma_split_single(first, '\n');
    lemma_split_single(second, '\n');
    lemma_split_cons(first, '\n', second);
    let lines = split_all(first + seq!['\n'] + second, '\n');
    assert(lines == seq![first, second]);
    assert(file_line(lines, 0) == first);
    assert(file_line(lines, 1) == second);
    assert(file_line(seq![first], 0) == first);
}

} // verus!
