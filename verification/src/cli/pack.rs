//! Packing machines and images, and the registry commands.
use vstd::prelude::*;
use vstd::string::*;
use vstd::utf8::*;

use crate::agent::{ImageInfo, ImageInfoView};
use crate::cli::smolfile::{prefer, PackConfig, PackConfigView};
use crate::cli::{format_bytes, size_text};
use crate::config::{observed_state, process_alive, RecordState, VmRecord, VmRecordView};
use crate::data::{is_name_char, is_vm_name, vm_name_accepted_iff, vm_name_error};
use crate::duration::Duration;
use crate::error::{agent_error, config_error, Error};
use crate::lists::{clone_opt, clone_strings, join, join_text, or_else};
use crate::pack::{fresh_manifest, PackManifest, PackManifestView, PackMode};
use crate::process::ProcessProbe;
use crate::registry::{repository_of, tag_or_digest, Reference};
use crate::scan::{
    contains_text, has_prefix, has_text, is_digit, lemma_decimal_value, split_first, split_once,
    starts_with, strip_prefix,
};
use crate::text::{decimal, decimal_text, decimal_text_wide, int_text, is_ascii_alnum, signed_text};
use crate::util::is_timestamp;

verus! {

// ---------------------------------------------------------------------------
// Commands
// ---------------------------------------------------------------------------

/// Package and run self-contained VM executables.
#[derive(Debug)]
pub enum PackCmd {
    /// Package an OCI image or VM snapshot into a self-contained executable
    Create(PackCreateCmd),
    /// Run a VM from a packed .smolmachine sidecar file
    Run(crate::cli::pack_run::PackRunCmd),
    /// Push a .smolmachine artifact to a registry
    Push(PackPushCmd),
    /// Pull a .smolmachine artifact from a registry
    Pull(PackPullCmd),
    /// Inspect a .smolmachine artifact in a registry (without downloading)
    Inspect(PackInspectCmd),
    /// Clean up cached pack extractions to free disk space
    Prune(PackPruneCmd),
}

/// Package an OCI image or VM snapshot into a self-contained executable.
#[derive(Debug)]
pub struct PackCreateCmd {
    /// Container image to pack.
    pub image: Option<String>,
    /// Pack from a stopped VM snapshot instead of an OCI image.
    pub from_vm: Option<String>,
    /// Output file path for the packed binary.
    pub output: String,
    /// Default number of vCPUs for the packed VM.
    pub cpus: u8,
    /// Default memory in MiB for the packed VM.
    pub mem: u32,
    /// Target OCI platform for multi-arch images.
    pub oci_platform: Option<String>,
    /// Override the image entrypoint.
    pub entrypoint: Option<String>,
    /// Skip code signing.
    pub no_sign: bool,
    /// Pack as a single file (no sidecar).
    pub single_file: bool,
    /// Path to stub executable.
    pub stub: Option<String>,
    /// Path to library directory.
    pub lib_dir: Option<String>,
    /// Path to agent rootfs directory.
    pub rootfs_dir: Option<String>,
    /// Path of a Smolfile.
    pub smolfile: Option<String>,
}

/// Clean up cached pack extractions to free disk space.
#[derive(Debug)]
pub struct PackPruneCmd {
    /// Number of cached extractions to keep.
    pub keep: usize,
    /// Remove all cached extractions.
    pub all: bool,
    /// Show what would be removed without actually removing.
    pub dry_run: bool,
}

/// Push a .smolmachine artifact to a registry.
#[derive(Debug)]
pub struct PackPushCmd {
    /// Artifact reference.
    pub reference: String,
    /// Path to the .smolmachine file to push.
    pub file: String,
}

/// Pull a .smolmachine artifact from a registry.
#[derive(Debug)]
pub struct PackPullCmd {
    /// Artifact reference.
    pub reference: String,
    /// Output path for the downloaded .smolmachine file.
    pub output: Option<String>,
}

/// Inspect a .smolmachine artifact in a registry without downloading the full artifact.
#[derive(Debug)]
pub struct PackInspectCmd {
    /// Artifact reference.
    pub reference: String,
    /// Output as JSON.
    pub json: bool,
}

// ---------------------------------------------------------------------------
// Temporary machines
// ---------------------------------------------------------------------------

/// The name of the temporary machine of a packing process.
pub open spec fn pack_name(prefix: Seq<char>, pid: nat, nanos: nat) -> Seq<char> {
    prefix + decimal(pid) + "-"@ + decimal(nanos)
}

/// The name of the temporary machine that packs an image: process id and time keep
/// concurrent packing apart.
pub fn pack_vm_name(pid: u32, nanos: u128) -> (r: String)
    ensures
        r@ == pack_name("pack-"@, pid as nat, nanos as nat),
{
    String::from_str("pack-").concat(decimal_text(pid as u64).as_str()).concat("-").concat(
        decimal_text_wide(nanos).as_str(),
    )
}

/// The name of the temporary machine that packs another machine.
pub fn pack_from_vm_name(pid: u32, nanos: u128) -> (r: String)
    ensures
        r@ == pack_name("pack-fromvm-"@, pid as nat, nanos as nat),
{
    String::from_str("pack-fromvm-").concat(decimal_text(pid as u64).as_str()).concat("-").concat(
        decimal_text_wide(nanos).as_str(),
    )
}

proof fn lemma_decimal_len(n: nat, k: nat)
    requires
        n < pow10(k),
        k >= 1,
    ensures
        1 <= decimal(n).len() <= k,
    decreases k,
{
    if n >= 10 {
        if k == 1 {
            reveal_with_fuel(pow10, 2);
        } else {
            assert(n / 10 < pow10((k - 1) as nat));
            lemma_decimal_len(n / 10, (k - 1) as nat);
        }
    }
}

/// Ten to the power of `k`.
pub open spec fn pow10(k: nat) -> nat
    decreases k,
{
    if k == 0 {
        1
    } else {
        10 * pow10((k - 1) as nat)
    }
}

proof fn lemma_pack_name_valid(prefix: Seq<char>, pid: nat, nanos: nat, label: Seq<char>)
    requires
        2 <= prefix.len() <= 20,
        is_ascii_alnum(prefix[0]),
        prefix.last() == '-',
        forall|i: int| 0 <= i < prefix.len() ==> is_name_char(#[trigger] prefix[i]),
        forall|i: int|
            0 < i < prefix.len() ==> !(prefix[i - 1] == '-' && #[trigger] prefix[i] == '-'),
        pid < pow10(10),
        nanos < pow10(39),
    ensures
        vm_name_error(pack_name(prefix, pid, nanos), label) is None,
{
    let name = pack_name(prefix, pid, nanos);
    let a = decimal(pid);
    let b = decimal(nanos);
    lemma_decimal_value(pid);
    lemma_decimal_value(nanos);
    lemma_decimal_len(pid, 10);
    lemma_decimal_len(nanos, 39);
    reveal_strlit("-");
    let p = prefix.len() as int;
    let q = p + a.len();
    assert(name.len() == q + 1 + b.len());
    assert forall|i: int| 0 <= i < name.len() implies is_name_char(#[trigger] name[i]) by {
        if i < p {
            assert(name[i] == prefix[i]);
        } else if i < q {
            assert(name[i] == a[i - p]);
            assert(is_digit(a[i - p]));
        } else if i > q {
            assert(name[i] == b[i - q - 1]);
            assert(is_digit(b[i - q - 1]));
        } else {
            assert(name[i] == "-"@[0]);
        }
    }
    assert(name[0] == prefix[0]);
    assert(name.last() == b.last());
    assert(is_digit(b[b.len() - 1]));
    assert forall|i: int| 0 < i < name.len() implies !(name[i - 1] == '-' && #[trigger] name[i]
        == '-') by {
        if i < p {
            assert(name[i] == prefix[i] && name[i - 1] == prefix[i - 1]);
        } else if i < q {
            assert(name[i] == a[i - p]);
            assert(is_digit(a[i - p]));
        } else if i == q {
            assert(name[i - 1] == a[i - 1 - p]);
            assert(is_digit(a[i - 1 - p]));
        } else {
            assert(name[i] == b[i - q - 1]);
            assert(is_digit(b[i - q - 1]));
        }
    }
    assert(is_vm_name(name));
    vm_name_accepted_iff(name, label);
}

/// The names of temporary machines pass the check of machine names.
pub proof fn pack_names_are_valid(pid: u32, nanos: u128, label: Seq<char>)
    ensures
        vm_name_error(pack_name("pack-"@, pid as nat, nanos as nat), label) is None,
        vm_name_error(pack_name("pack-fromvm-"@, pid as nat, nanos as nat), label) is None,
{
    reveal_strlit("pack-");
    reveal_strlit("pack-fromvm-");
    assert(pow10(10) == 10_000_000_000) by {
        reveal_with_fuel(pow10, 11);
    }
    assert(pow10(39) == pow10(10) * pow10(10) * pow10(10) * 1_000_000_000) by {
        reveal_with_fuel(pow10, 40);
    }
    lemma_pack_name_valid("pack-"@, pid as nat, nanos as nat, label);
    lemma_pack_name_valid("pack-fromvm-"@, pid as nat, nanos as nat, label);
}

// ---------------------------------------------------------------------------
// Layers
// ---------------------------------------------------------------------------

/// The directory of a layer in the machine that packs.
pub open spec fn layer_dir(digest: Seq<char>) -> Seq<char> {
    "/storage/layers/"@ + (if has_prefix(digest, "sha256:"@) {
        digest.skip("sha256:"@.len() as int)
    } else {
        digest
    })
}

/// The lines that merge the first `n` layers, bottom first.
pub open spec fn merge_lines(layers: Seq<Seq<char>>, count: nat, n: int) -> Seq<char>
    decreases n,
{
    if n <= 0 {
        Seq::empty()
    } else {
        merge_lines(layers, count, n - 1) + "echo 'Merging layer "@ + decimal(n as nat) + "/"@
            + decimal(count) + "...'\ncp -a "@ + layer_dir(layers[n - 1])
            + "/. /tmp/merged/ || true\n"@
    }
}

/// The first lines of a merge.
pub const MERGE_HEAD: &'static str = "set -e\nmkdir -p /tmp/merged\n";

/// The last lines of a merge: a full disk is an error, then the result is archived.
pub const MERGE_TAIL: &'static str = "if ! df /tmp/merged | awk 'NR==2{if($4<1024){exit 1}}'; then\necho 'MERGE_FAIL: disk full'; exit 1\nfi\necho 'Creating merged tar...'\ntar cf /tmp/merged-layers.tar -C /tmp/merged .\necho 'MERGE_OK'\n";

/// The layers of an image are merged bottom first: what merges one layer is behind what
/// merges the layers below it, and copies the directory of that layer over the result.
pub proof fn layers_are_merged_bottom_first(layers: Seq<Seq<char>>, count: nat, k: int, n: int)
    requires
        0 <= k < n <= layers.len(),
    ensures
        ({
            let upto = merge_lines(layers, count, k + 1);
            let copy = "cp -a "@ + layer_dir(layers[k]) + "/. /tmp/merged/ || true\n"@;
            &&& has_prefix(merge_lines(layers, count, n), upto)
            &&& has_prefix(upto, merge_lines(layers, count, k))
            &&& upto.len() >= merge_lines(layers, count, k).len() + copy.len()
            &&& upto.skip(upto.len() - copy.len()) == copy
        }),
    decreases n,
{
    let all = merge_lines(layers, count, n);
    let upto = merge_lines(layers, count, k + 1);
    if k + 1 < n {
        layers_are_merged_bottom_first(layers, count, k, n - 1);
        let before = merge_lines(layers, count, n - 1);
        assert(all.take(before.len() as int) =~= before);
        assert(all.take(upto.len() as int) =~= before.take(upto.len() as int));
    } else {
        assert(all.take(upto.len() as int) =~= upto);
        let below = merge_lines(layers, count, k);
        let copy = "cp -a "@ + layer_dir(layers[k]) + "/. /tmp/merged/ || true\n"@;
        reveal_strlit("...'\ncp -a ");
        reveal_strlit("cp -a ");
        assert(upto.take(below.len() as int) =~= below);
        assert(upto.skip(upto.len() - copy.len()) =~= copy);
    }
}

/// The directory of a layer is named by its digest, with or without the name of the digest's
/// kind before it.
pub proof fn layer_directories_are_named_by_digest(digest: Seq<char>)
    requires
        !has_prefix(digest, "sha256:"@),
    ensures
        layer_dir(digest) == "/storage/layers/"@ + digest,
        layer_dir("sha256:"@ + digest) == "/storage/layers/"@ + digest,
{
    let full = "sha256:"@ + digest;
    assert(full.take("sha256:"@.len() as int) =~= "sha256:"@);
    assert(full.skip("sha256:"@.len() as int) =~= digest);
}

/// The script that merges an image's layers into one archive.
pub open spec fn merge_text(layers: Seq<Seq<char>>, count: nat) -> Seq<char> {
    MERGE_HEAD@ + merge_lines(layers, count, layers.len() as int) + MERGE_TAIL@
}

fn layer_dir_of(digest: &str) -> (r: String)
    ensures
        r@ == layer_dir(digest@),
{
    match strip_prefix(digest, "sha256:") {
        Some(id) => String::from_str("/storage/layers/").concat(id.as_str()),
        None => String::from_str("/storage/layers/").concat(digest),
    }
}

/// The script that merges an image's layers, bottom first, into one archive.
pub fn merge_script(layers: &Vec<String>, count: usize) -> (r: String)
    ensures
        r@ == merge_text(layers.deep_view(), count as nat),
{
    let mut lines = String::new();
    for i in 0..layers.len()
        invariant
            lines@ == merge_lines(layers.deep_view(), count as nat, i as int),
    {
        lines = lines.concat("echo 'Merging layer ").concat(
            decimal_text((i as u64) + 1).as_str(),
        ).concat("/").concat(decimal_text(count as u64).as_str()).concat("...'\ncp -a ").concat(
            layer_dir_of(layers[i].as_str()).as_str(),
        ).concat("/. /tmp/merged/ || true\n");
    }
    String::from_str(MERGE_HEAD).concat(lines.as_str()).concat(MERGE_TAIL)
}

/// What came of a merge: it succeeded where it exited with zero and said so.
pub fn merge_outcome(exit_code: i32, stdout: &str, stderr: &str) -> (r: Result<(), Error>)
    ensures
        exit_code == 0 && has_text(stdout@, "MERGE_OK"@) <==> r is Ok,
        r matches Err(e) ==> e@ == agent_error(
            "merge layers"@,
            "layer merge failed (exit "@ + int_text(exit_code as int) + "): "@ + (if stderr@.len()
                == 0 {
                stdout@
            } else {
                stderr@
            }),
        ),
{
    if exit_code != 0 || !contains_text(stdout, "MERGE_OK") {
        let shown = if stderr.is_empty() {
            stdout
        } else {
            stderr
        };
        return Err(
            Error::agent(
                "merge layers",
                String::from_str("layer merge failed (exit ").concat(
                    signed_text(exit_code as i64).as_str(),
                ).concat("): ").concat(shown),
            ),
        );
    }
    Ok(())
}

/// Whether the layers of an image are merged: from two on. A single layer is
/// exported as it is.
pub fn merges_layers(layer_count: usize) -> (r: bool)
    ensures
        r == (layer_count > 1),
{
    layer_count > 1
}

/// The characters in the first `n` bytes of a text.
pub open spec fn byte_prefix(s: Seq<char>, n: int) -> Seq<char> {
    decode_utf8(encode_utf8(s).subrange(0, n))
}

/// The first bytes of a text, which end where a character ends.
fn first_bytes(s: &str, n: usize) -> (r: &str)
    requires
        is_char_boundary(encode_utf8(s@), n as int),
    ensures
        r@ == byte_prefix(s@, n as int),
{
    let (head, _tail) = s.split_at(n);
    proof {
        encode_utf8_decode_utf8(head@);
    }
    head
}

/// Of an ASCII text, the first bytes are the first characters.
pub proof fn ascii_prefix(s: Seq<char>, n: int)
    requires
        is_ascii_chars(s),
        0 <= n <= s.len(),
    ensures
        is_char_boundary(encode_utf8(s), n),
        byte_prefix(s, n) == s.take(n),
{
    let head = s.take(n);
    let tail = s.skip(n);
    assert(s =~= head + tail);
    assert(is_ascii_chars(head)) by {
        assert forall|i: int| 0 <= i < head.len() implies '\0' <= #[trigger] head[i] <= '\u{7f}' by {
            assert(head[i] == s[i]);
        }
    }
    is_ascii_chars_encode_utf8(s);
    is_ascii_chars_encode_utf8(head);
    assert(encode_utf8(s).subrange(0, n) =~= encode_utf8(head));
    encode_utf8_decode_utf8(head);
    encode_utf8_valid_utf8(s);
    if n == 0 || n == s.len() {
        is_char_boundary_start_end_of_seq(encode_utf8(s));
    } else {
        is_char_boundary_iff_not_is_continuation_byte(encode_utf8(s), n);
        let byte = encode_utf8(s)[n];
        assert(byte == s[n] as u8);
        assert(s[n] <= '\u{7f}');
        assert(byte & 0xc0 != 0x80) by (bit_vector)
            requires
                byte <= 0x7f,
        ;
    }
}

/// The digest under which the merged layers of an image are kept.
pub fn merged_digest(digest: &str) -> (r: String)
    requires
        is_char_boundary(encode_utf8(digest@), 16),
    ensures
        r@ == "sha256:merged-"@ + byte_prefix(digest@, 16),
{
    String::from_str("sha256:merged-").concat(first_bytes(digest, 16))
}

/// The length of the part of a digest that a label shows, in bytes.
pub open spec fn label_bytes(digest: Seq<char>) -> int {
    if encode_utf8(digest).len() > 19 {
        19
    } else {
        encode_utf8(digest).len() as int
    }
}

/// The label of a layer that is exported: its number and the start of its digest.
pub fn layer_label(index: usize, count: usize, digest: &str) -> (r: String)
    requires
        index < usize::MAX,
        is_char_boundary(encode_utf8(digest@), label_bytes(digest@)),
    ensures
        r@ == "  Layer "@ + decimal((index + 1) as nat) + "/"@ + decimal(count as nat) + ": "@
            + byte_prefix(digest@, label_bytes(digest@)),
{
    let len: usize = digest.as_bytes().len();
    let shown: usize = if len > 19 {
        19
    } else {
        len
    };
    String::from_str("  Layer ").concat(decimal_text((index as u64) + 1).as_str()).concat(
        "/",
    ).concat(decimal_text(count as u64).as_str()).concat(": ").concat(first_bytes(digest, shown))
}

/// How long the export of one layer may take, in seconds.
pub const LAYER_EXPORT_TIMEOUT_SECS: u64 = 600;

/// What the agent sends during the export of a layer.
#[derive(Debug, Clone, Copy, PartialEq, Eq, Structural)]
pub enum ExportReply {
    /// So many bytes of the layer, and whether they are the last.
    Chunk {
        /// Number of bytes.
        len: u64,
        /// Whether the export is complete.
        done: bool,
    },
    /// The agent failed.
    Error,
    /// Anything else.
    Unexpected,
}

/// What follows a reply.
#[derive(Debug, Clone, Copy, PartialEq, Eq, Structural)]
pub enum ExportStep {
    /// Write the bytes, if there are any, and go on.
    Continue {
        /// Whether there are bytes to be written.
        write: bool,
        /// Bytes received so far.
        total: u64,
    },
    /// Write the bytes, if there are any, and finish.
    Finish {
        /// Whether there are bytes to be written.
        write: bool,
        /// Bytes received.
        total: u64,
    },
    /// Too much time has passed.
    TimedOut,
    /// Pass on the agent's error.
    AgentError,
    /// The reply makes no sense.
    Unexpected,
}

/// What follows a reply of the agent, after so many bytes and so much time.
pub open spec fn export_step(total: u64, elapsed: Duration, reply: ExportReply) -> ExportStep {
    if elapsed.total_nanos() > LAYER_EXPORT_TIMEOUT_SECS * 1_000_000_000 {
        ExportStep::TimedOut
    } else {
        match reply {
            ExportReply::Chunk { len, done } => if done {
                ExportStep::Finish { write: len > 0, total: (total + len) as u64 }
            } else {
                ExportStep::Continue { write: len > 0, total: (total + len) as u64 }
            },
            ExportReply::Error => ExportStep::AgentError,
            ExportReply::Unexpected => ExportStep::Unexpected,
        }
    }
}

/// Decide what follows a reply of the agent.
pub fn next_export_step(total: u64, elapsed: &Duration, reply: ExportReply) -> (r: ExportStep)
    requires
        elapsed.wf(),
        reply matches ExportReply::Chunk { len, .. } ==> total + len <= u64::MAX,
    ensures
        r == export_step(total, *elapsed, reply),
{
    if elapsed.longer_than(&Duration::from_secs(LAYER_EXPORT_TIMEOUT_SECS)) {
        return ExportStep::TimedOut;
    }
    match reply {
        ExportReply::Chunk { len, done } => if done {
            ExportStep::Finish { write: len > 0, total: total + len }
        } else {
            ExportStep::Continue { write: len > 0, total: total + len }
        },
        ExportReply::Error => ExportStep::AgentError,
        ExportReply::Unexpected => ExportStep::Unexpected,
    }
}

/// An export goes on as long as it is within its ten minutes and the agent sends parts that
/// are not the last; what was received adds up, and every part that holds anything is
/// written, the last one too.
pub proof fn exports_add_up(total: u64, elapsed: Duration, len: u64, done: bool)
    requires
        total + len <= u64::MAX,
    ensures
        ({
            let step = export_step(total, elapsed, ExportReply::Chunk { len, done });
            if elapsed.total_nanos() > 600 * 1_000_000_000 {
                step is TimedOut
            } else {
                match step {
                    ExportStep::Continue { write, total: t } => !done && t == total + len && (write
                        <==> len != 0),
                    ExportStep::Finish { write, total: t } => done && t == total + len && (write
                        <==> len != 0),
                    _ => false,
                }
            }
        }),
        elapsed.total_nanos() <= 600 * 1_000_000_000 ==> export_step(
            total,
            elapsed,
            ExportReply::Error,
        ) is AgentError && export_step(total, elapsed, ExportReply::Unexpected) is Unexpected,
{
}

/// The error for an export that took too long.
pub fn export_timeout_error(total: u64) -> (r: Error)
    ensures
        r@ == agent_error(
            "export layer"@,
            "layer export timed out after "@ + decimal(LAYER_EXPORT_TIMEOUT_SECS as nat)
                + "s (received "@ + decimal(total as nat) + " bytes so far)"@,
        ),
{
    Error::agent(
        "export layer",
        String::from_str("layer export timed out after ").concat(
            decimal_text(LAYER_EXPORT_TIMEOUT_SECS).as_str(),
        ).concat("s (received ").concat(decimal_text(total).as_str()).concat(" bytes so far)"),
    )
}

/// A byte count: kilobytes below a megabyte, else megabytes.
pub fn fmt_bytes(bytes: u64) -> (r: String)
    ensures
        r@ == (if bytes < 1024 * 1024 {
            decimal(bytes as nat / 1024) + " KB"@
        } else {
            decimal(bytes as nat / 1_048_576) + " MB"@
        }),
{
    if bytes < 1024 * 1024 {
        decimal_text(bytes / 1024).concat(" KB")
    } else {
        decimal_text(bytes / (1024 * 1024)).concat(" MB")
    }
}

// ---------------------------------------------------------------------------
// Manifests
// ---------------------------------------------------------------------------

/// Variables without those that set a key.
pub open spec fn without_key(env: Seq<Seq<char>>, key: Seq<char>) -> Seq<Seq<char>>
    decreases env.len(),
{
    if env.len() == 0 {
        Seq::empty()
    } else if has_prefix(env.last(), key + "="@) {
        without_key(env.drop_last(), key)
    } else {
        without_key(env.drop_last(), key).push(env.last())
    }
}

/// Variables with another one on top: it replaces those with the same key.
pub open spec fn with_variable(env: Seq<Seq<char>>, e: Seq<char>) -> Seq<Seq<char>> {
    match split_first(e, '=') {
        Some((key, _)) => without_key(env, key).push(e),
        None => env.push(e),
    }
}

/// Variables with the first `n` of a list on top, one after the other.
pub open spec fn layered_env(env: Seq<Seq<char>>, top: Seq<Seq<char>>, n: int) -> Seq<Seq<char>>
    decreases n,
{
    if n <= 0 {
        env
    } else {
        with_variable(layered_env(env, top, n - 1), top[n - 1])
    }
}

fn drop_key(env: &Vec<String>, key: &str) -> (r: Vec<String>)
    ensures
        r.deep_view() == without_key(env.deep_view(), key@),
{
    let prefix = key.to_owned().concat("=");
    let ghost all = env.deep_view();
    let mut r: Vec<String> = Vec::new();
    proof {
        assert(all.take(0) =~= Seq::empty());
        assert(r.deep_view() =~= Seq::empty());
    }
    for i in 0..env.len()
        invariant
            all == env.deep_view(),
            prefix@ == key@ + "="@,
            r.deep_view() == without_key(all.take(i as int), key@),
    {
        let ghost before = r.deep_view();
        proof {
            assert(all.take(i + 1).drop_last() =~= all.take(i as int));
            assert(all.take(i + 1).last() == env@[i as int]@);
        }
        if !starts_with(env[i].as_str(), prefix.as_str()) {
            r.push(env[i].clone());
            proof {
                assert(r.deep_view() =~= before.push(env@[i as int]@));
            }
        }
    }
    proof {
        assert(all.take(all.len() as int) =~= all);
    }
    r
}

/// Put variables on top of others: each replaces those with the same key.
pub fn layer_env(env: Vec<String>, top: &Vec<String>) -> (r: Vec<String>)
    ensures
        r.deep_view() == layered_env(env.deep_view(), top.deep_view(), top@.len() as int),
{
    let ghost base = env.deep_view();
    let mut r = env;
    for i in 0..top.len()
        invariant
            r.deep_view() == layered_env(base, top.deep_view(), i as int),
    {
        match split_once(top[i].as_str(), '=') {
            Some((key, _value)) => {
                r = drop_key(&r, key.as_str());
            },
            None => {},
        }
        let ghost before = r.deep_view();
        r.push(top[i].clone());
        proof {
            assert(r.deep_view() =~= before.push(top@[i as int]@));
            assert(top.deep_view()[i as int] == top@[i as int]@);
        }
    }
    r
}

proof fn lemma_without_key(env: Seq<Seq<char>>, key: Seq<char>)
    ensures
        forall|i: int|
            0 <= i < without_key(env, key).len() ==> !has_prefix(
                #[trigger] without_key(env, key)[i],
                key + "="@,
            ),
    decreases env.len(),
{
    if env.len() > 0 {
        lemma_without_key(env.drop_last(), key);
        let before = without_key(env.drop_last(), key);
        let after = without_key(env, key);
        assert forall|i: int| 0 <= i < after.len() implies !has_prefix(
            #[trigger] after[i],
            key + "="@,
        ) by {
            if i < before.len() {
                assert(after[i] == before[i]);
            }
        }
    }
}

/// A variable that is put on top is the last one, and no other variable sets its
/// key any more.
pub proof fn top_variable_wins(env: Seq<Seq<char>>, e: Seq<char>)
    ensures
        with_variable(env, e).len() > 0,
        with_variable(env, e).last() == e,
        split_first(e, '=') matches Some((key, _)) ==> forall|i: int|
            0 <= i < with_variable(env, e).len() - 1 ==> !has_prefix(
                #[trigger] with_variable(env, e)[i],
                key + "="@,
            ),
{
    if let Some((key, _)) = split_first(e, '=') {
        lemma_without_key(env, key);
    }
}

/// Whether a variable takes the place of another: it sets the same key.
pub open spec fn replaces(e: Seq<char>, x: Seq<char>) -> bool {
    split_first(e, '=') matches Some((key, _)) && has_prefix(x, key + "="@)
}

proof fn lemma_without_key_keeps(env: Seq<Seq<char>>, key: Seq<char>, x: Seq<char>)
    ensures
        without_key(env, key).contains(x) <==> env.contains(x) && !has_prefix(x, key + "="@),
    decreases env.len(),
{
    if env.len() > 0 {
        let init = env.drop_last();
        lemma_without_key_keeps(init, key, x);
        let r = without_key(env, key);
        let before = without_key(init, key);
        if env.contains(x) && !init.contains(x) {
            let k = choose|k: int| 0 <= k < env.len() && env[k] == x;
            if k < init.len() {
                assert(init[k] == x);
            }
            assert(env.last() == x);
        }
        if init.contains(x) {
            let k = choose|k: int| 0 <= k < init.len() && init[k] == x;
            assert(env[k] == x);
        }
        if env.last() == x {
            assert(env[env.len() - 1] == x);
        }
        if before.contains(x) {
            let k = choose|k: int| 0 <= k < before.len() && before[k] == x;
            assert(r[k] == x);
        }
        if !has_prefix(env.last(), key + "="@) {
            assert(r[r.len() - 1] == env.last());
            if r.contains(x) && !before.contains(x) {
                let k = choose|k: int| 0 <= k < r.len() && r[k] == x;
                if k < before.len() {
                    assert(before[k] == x);
                }
                assert(env.last() == x);
            }
        }
    }
}

proof fn lemma_with_variable_keeps(env: Seq<Seq<char>>, e: Seq<char>, x: Seq<char>)
    ensures
        with_variable(env, e).contains(x) <==> x == e || (env.contains(x) && !replaces(e, x)),
{
    let r = with_variable(env, e);
    let kept = match split_first(e, '=') {
        Some((key, _)) => {
            lemma_without_key_keeps(env, key, x);
            without_key(env, key)
        },
        None => env,
    };
    assert(r == kept.push(e));
    assert(r[r.len() - 1] == e);
    if kept.contains(x) {
        let k = choose|k: int| 0 <= k < kept.len() && kept[k] == x;
        assert(r[k] == x);
    }
    if r.contains(x) && x != e {
        let k = choose|k: int| 0 <= k < r.len() && r[k] == x;
        assert(kept[k] == x);
    }
}

/// Of variables that are put on top of others, those are left that no later one replaces,
/// and of the others those that none replaces; nothing else is set.
pub proof fn layered_variables_are_those_not_replaced(
    env: Seq<Seq<char>>,
    top: Seq<Seq<char>>,
    n: int,
    x: Seq<char>,
)
    requires
        0 <= n <= top.len(),
    ensures
        layered_env(env, top, n).contains(x) <==> {
            ||| exists|i: int|
                0 <= i < n && #[trigger] top[i] == x && forall|j: int|
                    i < j < n ==> !replaces(#[trigger] top[j], x)
            ||| env.contains(x) && forall|j: int| 0 <= j < n ==> !replaces(#[trigger] top[j], x)
        },
    decreases n,
{
    if n > 0 {
        layered_variables_are_those_not_replaced(env, top, n - 1, x);
        lemma_with_variable_keeps(layered_env(env, top, n - 1), top[n - 1], x);
        let last = top[n - 1];
        if last == x {
            assert(top[n - 1] == x);
        } else if layered_env(env, top, n).contains(x) {
            assert(!replaces(last, x));
            if exists|i: int|
                0 <= i < n - 1 && #[trigger] top[i] == x && forall|j: int|
                    i < j < n - 1 ==> !replaces(#[trigger] top[j], x) {
                let i = choose|i: int|
                    0 <= i < n - 1 && #[trigger] top[i] == x && forall|j: int|
                        i < j < n - 1 ==> !replaces(#[trigger] top[j], x);
                assert(top[i] == x);
                assert forall|j: int| i < j < n implies !replaces(#[trigger] top[j], x) by {}
            } else {
                assert forall|j: int| 0 <= j < n implies !replaces(#[trigger] top[j], x) by {}
            }
        } else {
            if exists|i: int|
                0 <= i < n && #[trigger] top[i] == x && forall|j: int|
                    i < j < n ==> !replaces(#[trigger] top[j], x) {
                let i = choose|i: int|
                    0 <= i < n && #[trigger] top[i] == x && forall|j: int|
                        i < j < n ==> !replaces(#[trigger] top[j], x);
                assert(i < n - 1);
                assert(!replaces(top[n - 1], x));
                assert(forall|j: int| i < j < n - 1 ==> !replaces(#[trigger] top[j], x));
            }
            if env.contains(x) && forall|j: int| 0 <= j < n ==> !replaces(#[trigger] top[j], x) {
                assert(!replaces(top[n - 1], x));
            }
        }
    }
}

/// The manifest of a packed image: the image's own configuration, with the
/// Smolfile's variables on top and overridden by what the Smolfile and the flags say.
pub open spec fn image_manifest(
    image: Seq<char>,
    info: ImageInfoView,
    c: PackConfigView,
    host_platform: Seq<char>,
    created: Seq<char>,
) -> PackManifestView {
    PackManifestView {
        image_size: info.size,
        cpus: c.cpus,
        mem: c.mem,
        network: c.net == Some(true),
        entrypoint: prefer(c.entrypoint, info.entrypoint),
        cmd: prefer(c.cmd, info.cmd),
        env: layered_env(info.env, c.env, c.env.len() as int),
        workdir: or_else(c.workdir, info.workdir),
        ..fresh_manifest(
            image,
            info.digest,
            info.os + "/"@ + info.architecture,
            host_platform,
            created,
        )
    }
}

/// A packed image runs what the pack configuration says and, where that says nothing, what
/// the image itself says; its numbers and its network are those of the configuration.
pub proof fn packed_images_run_as_configured(
    image: Seq<char>,
    info: ImageInfoView,
    c: PackConfigView,
    host_platform: Seq<char>,
    created: Seq<char>,
)
    ensures
        ({
            let m = image_manifest(image, info, c, host_platform, created);
            &&& m.mode is Container
            &&& m.image == image && m.digest == info.digest && m.image_size == info.size
            &&& m.platform == info.os + "/"@ + info.architecture
            &&& m.host_platform == host_platform && m.created == created
            &&& m.cpus == c.cpus && m.mem == c.mem
            &&& m.network <==> c.net == Some(true)
            &&& c.entrypoint.len() != 0 ==> m.entrypoint == c.entrypoint
            &&& c.entrypoint.len() == 0 ==> m.entrypoint == info.entrypoint
            &&& c.cmd.len() != 0 ==> m.cmd == c.cmd
            &&& c.cmd.len() == 0 ==> m.cmd == info.cmd
            &&& c.workdir is Some ==> m.workdir == c.workdir
            &&& c.workdir is None ==> m.workdir == info.workdir
            &&& m.env == layered_env(info.env, c.env, c.env.len() as int)
        }),
{
}

/// Build the manifest of a packed image; an image has to be named.
pub fn build_image_manifest(config: PackConfig, info: &ImageInfo, host_platform: String) -> (r:
    Result<PackManifest, Error>)
    ensures
        match config@.image {
            None => r matches Err(e) && e@ == config_error("pack create"@, NO_IMAGE@),
            Some(image) => r matches Ok(m) && m@ == image_manifest(
                image,
                info@,
                config@,
                host_platform@,
                m@.created,
            ) && is_timestamp(m@.created),
        },
{
    let image = match config.image {
        Some(i) => i,
        None => {
            return Err(Error::config("pack create", NO_IMAGE.to_owned()));
        },
    };
    let platform = info.os.clone().concat("/").concat(info.architecture.as_str());
    let mut m = PackManifest::new(image, info.digest.clone(), platform, host_platform);
    m.image_size = info.size;
    m.cpus = config.cpus;
    m.mem = config.mem;
    m.network = config.net.unwrap_or(false);
    m.entrypoint = clone_strings(&info.entrypoint);
    m.cmd = clone_strings(&info.cmd);
    m.env = layer_env(clone_strings(&info.env), &config.env);
    m.workdir = clone_opt(&info.workdir);
    if config.workdir.is_some() {
        m.workdir = config.workdir;
    }
    if config.entrypoint.len() > 0 {
        m.entrypoint = config.entrypoint;
    }
    if config.cmd.len() > 0 {
        m.cmd = config.cmd;
    }
    Ok(m)
}

/// The message for a pack without an image.
pub const NO_IMAGE: &'static str = "no image specified. Provide IMAGE argument or set 'image' in Smolfile";

/// The image that is packed; one has to be named.
pub fn required_image(config: &PackConfig) -> (r: Result<String, Error>)
    ensures
        match config@.image {
            None => r matches Err(e) && e@ == config_error("pack create"@, NO_IMAGE@),
            Some(image) => r matches Ok(i) && i@ == image,
        },
{
    match &config.image {
        Some(i) => Ok(i.clone()),
        None => Err(Error::config("pack create", NO_IMAGE.to_owned())),
    }
}

/// Variables as `KEY=VALUE` texts.
pub open spec fn env_texts(env: Seq<(Seq<char>, Seq<char>)>) -> Seq<Seq<char>> {
    Seq::new(env.len(), |i: int| env[i].0 + "="@ + env[i].1)
}

fn env_texts_of(env: &Vec<(String, String)>) -> (r: Vec<String>)
    ensures
        r.deep_view() == env_texts(env.deep_view()),
{
    let mut r: Vec<String> = Vec::new();
    for i in 0..env.len()
        invariant
            r@.len() == i,
            forall|j: int| 0 <= j < i ==> (#[trigger] r@[j])@ == env@[j].0@ + "="@ + env@[j].1@,
    {
        r.push(env[i].0.clone().concat("=").concat(env[i].1.as_str()));
    }
    proof {
        assert(r.deep_view() =~= env_texts(env.deep_view()));
    }
    r
}

/// The manifest of a packed machine: the machine's own configuration, with the
/// Smolfile's variables on top and overridden by what the Smolfile and the flags say.
pub open spec fn vm_manifest(
    vm_name: Seq<char>,
    vm: VmRecordView,
    c: PackConfigView,
    platform: Seq<char>,
    host_platform: Seq<char>,
    created: Seq<char>,
) -> PackManifestView {
    PackManifestView {
        mode: if vm.image is Some {
            PackMode::Container
        } else {
            PackMode::Vm
        },
        image: match vm.image {
            Some(i) => i,
            None => "vm://"@ + vm_name,
        },
        cpus: c.cpus,
        mem: c.mem,
        network: match c.net {
            Some(n) => n,
            None => vm.network,
        },
        entrypoint: prefer(
            c.entrypoint,
            prefer(vm.entrypoint, seq![crate::DEFAULT_SHELL_CMD@]),
        ),
        cmd: prefer(c.cmd, vm.cmd),
        env: layered_env(env_texts(vm.env), c.env, c.env.len() as int),
        workdir: or_else(c.workdir, vm.workdir),
        ..fresh_manifest("vm://"@ + vm_name, "none"@, platform, host_platform, created)
    }
}

/// Build the manifest of a packed machine.
///
/// Precedence of entrypoint, command, working directory and network: flags >
/// `[artifact]` > Smolfile top level > machine record > default. The numbers of vCPUs
/// and MiB come from the pack configuration alone.
pub fn build_vm_manifest(
    vm_name: &str,
    vm: &VmRecord,
    config: PackConfig,
    platform: String,
    host_platform: String,
) -> (r: PackManifest)
    ensures
        r@ == vm_manifest(vm_name@, vm@, config@, platform@, host_platform@, r@.created),
        is_timestamp(r@.created),
{
    let mut m = PackManifest::new(
        String::from_str("vm://").concat(vm_name),
        String::from_str("none"),
        platform,
        host_platform,
    );
    match &vm.image {
        Some(i) => {
            m.mode = PackMode::Container;
            m.image = i.clone();
        },
        None => {
            m.mode = PackMode::Vm;
        },
    }
    m.cpus = config.cpus;
    m.mem = config.mem;
    m.network = config.net.unwrap_or(vm.network);
    m.entrypoint = if vm.entrypoint.len() > 0 {
        clone_strings(&vm.entrypoint)
    } else {
        crate::agent::default_shell_cmd()
    };
    m.cmd = clone_strings(&vm.cmd);
    m.env = layer_env(env_texts_of(&vm.env), &config.env);
    m.workdir = clone_opt(&vm.workdir);
    if config.workdir.is_some() {
        m.workdir = config.workdir;
    }
    if config.entrypoint.len() > 0 {
        m.entrypoint = config.entrypoint;
    }
    if config.cmd.len() > 0 {
        m.cmd = config.cmd;
    }
    m
}

/// A packed artifact always has something to run when it was packed from a machine,
/// and runs as a container exactly when the machine has an image.
pub proof fn packed_vm_has_an_entrypoint(
    vm_name: Seq<char>,
    vm: VmRecordView,
    c: PackConfigView,
    platform: Seq<char>,
    host_platform: Seq<char>,
    created: Seq<char>,
)
    ensures
        ({
            let m = vm_manifest(vm_name, vm, c, platform, host_platform, created);
            m.entrypoint.len() > 0 && (m.mode == PackMode::Container <==> vm.image is Some)
        }),
{
}

/// A packed machine runs what the pack configuration says and, where that says nothing,
/// what the machine's record says, with a shell where neither has an entrypoint. It carries
/// the machine's image, and its network is on where the machine's is, unless the
/// configuration says otherwise.
pub proof fn packed_machines_run_as_recorded(
    vm_name: Seq<char>,
    vm: VmRecordView,
    c: PackConfigView,
    platform: Seq<char>,
    host_platform: Seq<char>,
    created: Seq<char>,
)
    ensures
        ({
            let m = vm_manifest(vm_name, vm, c, platform, host_platform, created);
            &&& m.mode is Vm <==> vm.image is None
            &&& vm.image matches Some(i) ==> m.image == i
            &&& vm.image is None ==> m.image == "vm://"@ + vm_name
            &&& m.platform == platform && m.host_platform == host_platform
            &&& m.cpus == c.cpus && m.mem == c.mem
            &&& c.net matches Some(n) ==> m.network == n
            &&& c.net is None ==> m.network == vm.network
            &&& c.entrypoint.len() != 0 ==> m.entrypoint == c.entrypoint
            &&& c.entrypoint.len() == 0 && vm.entrypoint.len() != 0 ==> m.entrypoint
                == vm.entrypoint
            &&& c.entrypoint.len() == 0 && vm.entrypoint.len() == 0 ==> m.entrypoint == seq![
                crate::DEFAULT_SHELL_CMD@,
            ]
            &&& c.cmd.len() != 0 ==> m.cmd == c.cmd
            &&& c.cmd.len() == 0 ==> m.cmd == vm.cmd
            &&& c.workdir is Some ==> m.workdir == c.workdir
            &&& c.workdir is None ==> m.workdir == vm.workdir
        }),
{
}

/// The variables of a packed machine are those of its record, as `KEY=VALUE`, with those of
/// the pack configuration on top.
pub proof fn packed_machines_keep_their_variables(
    vm_name: Seq<char>,
    vm: VmRecordView,
    c: PackConfigView,
    platform: Seq<char>,
    host_platform: Seq<char>,
    created: Seq<char>,
    i: int,
)
    requires
        0 <= i < vm.env.len(),
        forall|j: int|
            0 <= j < c.env.len() ==> !replaces(#[trigger] c.env[j], env_texts(vm.env)[i]),
    ensures
        env_texts(vm.env)[i] == vm.env[i].0 + "="@ + vm.env[i].1,
        vm_manifest(vm_name, vm, c, platform, host_platform, created).env.contains(
            env_texts(vm.env)[i],
        ),
{
    let texts = env_texts(vm.env);
    assert(texts.contains(texts[i]));
    layered_variables_are_those_not_replaced(texts, c.env, c.env.len() as int, texts[i]);
}

// ---------------------------------------------------------------------------
// Packing a machine
// ---------------------------------------------------------------------------

/// Whether a machine can be packed.
pub open spec fn is_packable(
    vm: Option<VmRecordView>,
    probe: ProcessProbe,
    overlay_exists: bool,
) -> bool {
    vm matches Some(v) && observed_state(v, probe) != RecordState::Running && overlay_exists
}

/// A machine can be packed exactly where it is recorded, its overlay disk is there, and no
/// process of its own runs.
pub proof fn only_machines_at_rest_are_packed(
    vm: Option<VmRecordView>,
    probe: ProcessProbe,
    overlay_exists: bool,
)
    ensures
        is_packable(vm, probe, overlay_exists) <==> {
            &&& overlay_exists
            &&& vm matches Some(v) && !(v.state is Running && process_alive(v, probe))
        },
{
}

/// Check that a machine can be packed: it is recorded, it does not run, and it has
/// an overlay disk.
pub fn check_packable(
    vm_name: &str,
    vm: &Option<VmRecord>,
    probe: &ProcessProbe,
    overlay_path: &str,
    overlay_exists: bool,
) -> (r: Result<(), Error>)
    ensures
        match vm {
            None => r matches Err(e) && e@ == agent_error(
                "pack from VM"@,
                "VM '"@ + vm_name@ + "' not found"@,
            ),
            Some(v) => if observed_state(v@, *probe) == RecordState::Running {
                r matches Err(e) && e@ == agent_error(
                    "pack from VM"@,
                    "VM '"@ + vm_name@
                        + "' is running. Stop it first with: smolvm machine stop --name "@
                        + vm_name@,
                )
            } else if !overlay_exists {
                r matches Err(e) && e@ == agent_error(
                    "pack from VM"@,
                    "overlay disk not found at "@ + overlay_path@
                        + ". The VM may not have been started yet."@,
                )
            } else {
                r is Ok
            },
        },
        r is Ok <==> is_packable(
            match vm {
                Some(v) => Some(v@),
                None => None,
            },
            *probe,
            overlay_exists,
        ),
{
    match vm {
        None => Err(
            Error::agent(
                "pack from VM",
                String::from_str("VM '").concat(vm_name).concat("' not found"),
            ),
        ),
        Some(v) => {
            match v.actual_state(probe) {
                RecordState::Running => {
                    return Err(
                        Error::agent(
                            "pack from VM",
                            String::from_str("VM '").concat(vm_name).concat(
                                "' is running. Stop it first with: smolvm machine stop --name ",
                            ).concat(vm_name),
                        ),
                    );
                },
                _ => {},
            }
            if !overlay_exists {
                return Err(
                    Error::agent(
                        "pack from VM",
                        String::from_str("overlay disk not found at ").concat(overlay_path).concat(
                            ". The VM may not have been started yet.",
                        ),
                    ),
                );
            }
            Ok(())
        },
    }
}

/// The directory of a machine's container overlay on its mounted storage disk.
pub open spec fn overlay_dir(vm_name: Seq<char>) -> Seq<char> {
    "/mnt/source-storage/overlays/persistent-"@ + vm_name + "/upper"@
}

/// The script that mounts the storage disk of the machine that is packed.
pub const MOUNT_SCRIPT: &'static str = "mkdir -p /mnt/source-storage && mount /dev/vdc /mnt/source-storage";

/// The script that archives a machine's container overlay, where it holds anything.
pub fn overlay_export_script(vm_name: &str) -> (r: String)
    ensures
        r@ == "if [ -d '"@ + overlay_dir(vm_name@) + "' ] && [ \"$(ls -A '"@ + overlay_dir(vm_name@)
            + "')\" ]; then tar cf /tmp/overlay-export.tar -C '"@ + overlay_dir(vm_name@)
            + "' . 2>/dev/null; echo OVERLAY_OK; else echo OVERLAY_EMPTY; fi"@,
{
    let dir = String::from_str("/mnt/source-storage/overlays/persistent-").concat(vm_name).concat(
        "/upper",
    );
    String::from_str("if [ -d '").concat(dir.as_str()).concat("' ] && [ \"$(ls -A '").concat(
        dir.as_str(),
    ).concat("')\" ]; then tar cf /tmp/overlay-export.tar -C '").concat(dir.as_str()).concat(
        "' . 2>/dev/null; echo OVERLAY_OK; else echo OVERLAY_EMPTY; fi",
    )
}

/// The digest under which a machine's container overlay is kept.
pub fn overlay_digest(vm_name: &str) -> (r: String)
    ensures
        r@ == "sha256:overlay-"@ + vm_name@,
{
    String::from_str("sha256:overlay-").concat(vm_name)
}

/// What came of mounting the storage disk.
pub fn mount_outcome(exit_code: i32, stderr: &str) -> (r: Result<(), Error>)
    ensures
        exit_code == 0 <==> r is Ok,
        r matches Err(e) ==> e@ == agent_error(
            "mount source storage in temp VM"@,
            "mount failed (exit "@ + int_text(exit_code as int) + "): "@ + stderr@,
        ),
{
    if exit_code != 0 {
        Err(
            Error::agent(
                "mount source storage in temp VM",
                String::from_str("mount failed (exit ").concat(
                    signed_text(exit_code as i64).as_str(),
                ).concat("): ").concat(stderr),
            ),
        )
    } else {
        Ok(())
    }
}

/// Whether the archive of a container overlay becomes a layer: where the export
/// succeeded and left anything.
pub fn keeps_overlay(exit_code: i32, archive_len: usize) -> (r: bool)
    ensures
        r == (exit_code == 0 && archive_len > 0),
{
    exit_code == 0 && archive_len > 0
}

// ---------------------------------------------------------------------------
// Finding files
// ---------------------------------------------------------------------------

/// The first candidate that exists.
pub open spec fn first_existing(candidates: Seq<(Seq<char>, bool)>, i: int) -> Option<Seq<char>>
    decreases candidates.len() - i,
{
    if i >= candidates.len() {
        None
    } else if candidates[i].1 {
        Some(candidates[i].0)
    } else {
        first_existing(candidates, i + 1)
    }
}

/// What is found first is a candidate that exists, with none before it; nothing is found
/// only where no candidate exists.
pub proof fn the_first_existing_candidate_is_found(candidates: Seq<(Seq<char>, bool)>, from: int)
    requires
        0 <= from <= candidates.len(),
    ensures
        match first_existing(candidates, from) {
            Some(p) => exists|i: int|
                from <= i < candidates.len() && (#[trigger] candidates[i]).1 && candidates[i].0 == p
                    && forall|j: int| from <= j < i ==> !(#[trigger] candidates[j]).1,
            None => forall|i: int| from <= i < candidates.len() ==> !(#[trigger] candidates[i]).1,
        },
    decreases candidates.len() - from,
{
    if from < candidates.len() {
        the_first_existing_candidate_is_found(candidates, from + 1);
        if candidates[from].1 {
            assert(candidates[from].0 == first_existing(candidates, from)->0);
        } else if let Some(p) = first_existing(candidates, from + 1) {
            let i = choose|i: int|
                from + 1 <= i < candidates.len() && (#[trigger] candidates[i]).1
                    && candidates[i].0 == p && forall|j: int|
                    from + 1 <= j < i ==> !(#[trigger] candidates[j]).1;
            assert(candidates[i].1 && candidates[i].0 == p);
            assert(forall|j: int| from <= j < i ==> !(#[trigger] candidates[j]).1);
        }
    }
}

/// Choose a path: the one given as a flag, else the first candidate that exists,
/// else an error that names what was looked for.
pub fn choose_path(
    flag: &Option<String>,
    candidates: &Vec<(String, bool)>,
    operation: &str,
    reason: &str,
) -> (r: Result<String, Error>)
    ensures
        match or_else(flag.deep_view(), first_existing(candidates.deep_view(), 0)) {
            Some(p) => r matches Ok(x) && x@ == p,
            None => r matches Err(e) && e@ == agent_error(operation@, reason@),
        },
{
    match flag {
        Some(p) => {
            return Ok(p.clone());
        },
        None => {},
    }
    let mut i: usize = 0;
    while i < candidates.len()
        invariant
            i <= candidates@.len(),
            flag is None,
            first_existing(candidates.deep_view(), 0) == first_existing(
                candidates.deep_view(),
                i as int,
            ),
        decreases candidates@.len() - i,
    {
        if candidates[i].1 {
            return Ok(candidates[i].0.clone());
        }
        i = i + 1;
    }
    Err(Error::agent(operation, reason.to_owned()))
}

/// What a finished pack consists of.
#[derive(Debug)]
pub struct PackedInfo {
    /// Size of the stub in bytes.
    pub stub_size: u64,
    /// Size of everything in bytes.
    pub total_size: u64,
    /// Compressed size of the assets in bytes.
    pub assets_size: u64,
    /// Path of the sidecar, where there is one.
    pub sidecar_path: Option<String>,
}

/// The label of the assembly.
pub fn assembly_label(single_file: bool) -> (r: &'static str)
    ensures
        r@ == (if single_file {
            "Assembling single-file packed binary"@
        } else {
            "Assembling packed binary"@
        }),
{
    if single_file {
        "Assembling single-file packed binary"
    } else {
        "Assembling packed binary"
    }
}

/// The two lines that sum up a pack.
pub fn packed_summary(output: &str, info: &PackedInfo) -> (r: (String, String))
    ensures
        r.0@ == "Packed: "@ + output@ + " (stub: "@ + decimal((info.stub_size / 1024) as nat)
            + "KB, total: "@ + decimal((info.total_size / 1024) as nat) + "KB)"@,
        r.1@ == (match info.sidecar_path {
            Some(p) => "Assets: "@ + p@ + " ("@ + decimal((info.assets_size / 1024) as nat)
                + "KB compressed)"@,
            None => "Mode: single-file (no sidecar)"@,
        }),
{
    let first = String::from_str("Packed: ").concat(output).concat(" (stub: ").concat(
        decimal_text(info.stub_size / 1024).as_str(),
    ).concat("KB, total: ").concat(decimal_text(info.total_size / 1024).as_str()).concat("KB)");
    let second = match &info.sidecar_path {
        Some(p) => String::from_str("Assets: ").concat(p.as_str()).concat(" (").concat(
            decimal_text(info.assets_size / 1024).as_str(),
        ).concat("KB compressed)"),
        None => String::from_str("Mode: single-file (no sidecar)"),
    };
    (first, second)
}

// ---------------------------------------------------------------------------
// Prune
// ---------------------------------------------------------------------------

/// A cached extraction.
#[derive(Debug)]
pub struct CacheEntry {
    /// Its directory.
    pub path: String,
    /// When it was last modified.
    pub modified: u128,
    /// Its size in bytes.
    pub size: u64,
}

/// Entries, newest first, with another one in its place: behind those that are as new.
pub open spec fn insert_entry(sorted: Seq<CacheEntry>, e: CacheEntry) -> Seq<CacheEntry>
    decreases sorted.len(),
{
    if sorted.len() == 0 || sorted.last().modified >= e.modified {
        sorted.push(e)
    } else {
        insert_entry(sorted.drop_last(), e).push(sorted.last())
    }
}

/// Entries, newest first; those that are equally new keep their order.
pub open spec fn newest_first(entries: Seq<CacheEntry>) -> Seq<CacheEntry>
    decreases entries.len(),
{
    if entries.len() == 0 {
        Seq::empty()
    } else {
        insert_entry(newest_first(entries.drop_last()), entries.last())
    }
}

/// Whether entries are in order, newest first.
pub open spec fn is_newest_first(entries: Seq<CacheEntry>) -> bool {
    forall|i: int, j: int|
        0 <= i <= j < entries.len() ==> (#[trigger] entries[i]).modified >= (#[trigger] entries[j]).modified
}

proof fn lemma_insert_entry(sorted: Seq<CacheEntry>, e: CacheEntry)
    requires
        is_newest_first(sorted),
    ensures
        is_newest_first(insert_entry(sorted, e)),
        insert_entry(sorted, e).len() == sorted.len() + 1,
        insert_entry(sorted, e).to_multiset() == sorted.to_multiset().insert(e),
        forall|i: int|
            0 <= i < insert_entry(sorted, e).len() ==> (#[trigger] insert_entry(sorted, e)[i]).modified
                <= (if sorted.len() > 0 && sorted[0].modified >= e.modified {
                sorted[0].modified
            } else {
                e.modified
            }),
    decreases sorted.len(),
{
    broadcast use vstd::seq_lib::group_to_multiset_ensures;

    if sorted.len() == 0 || sorted.last().modified >= e.modified {
        assert(is_newest_first(sorted.push(e)));
    } else {
        let init = sorted.drop_last();
        let last = sorted.last();
        lemma_insert_entry(init, e);
        let r = insert_entry(init, e);
        assert(init.push(last) =~= sorted);
        assert(r.push(last).to_multiset() =~= sorted.to_multiset().insert(e));
        assert forall|i: int| 0 <= i < r.len() implies (#[trigger] r[i]).modified >= last.modified by {
            lemma_insert_keeps_lower_bound(init, e, last.modified);
        }
        assert(is_newest_first(r.push(last)));
    }
}

proof fn lemma_insert_keeps_lower_bound(sorted: Seq<CacheEntry>, e: CacheEntry, bound: u128)
    requires
        forall|i: int| 0 <= i < sorted.len() ==> (#[trigger] sorted[i]).modified >= bound,
        e.modified >= bound,
    ensures
        forall|i: int|
            0 <= i < insert_entry(sorted, e).len() ==> (#[trigger] insert_entry(sorted, e)[i]).modified
                >= bound,
    decreases sorted.len(),
{
    if !(sorted.len() == 0 || sorted.last().modified >= e.modified) {
        let init = sorted.drop_last();
        assert forall|i: int| 0 <= i < init.len() implies (#[trigger] init[i]).modified >= bound by {
            assert(init[i] == sorted[i]);
        }
        lemma_insert_keeps_lower_bound(init, e, bound);
        let before = insert_entry(init, e);
        let after = insert_entry(sorted, e);
        assert forall|i: int| 0 <= i < after.len() implies (#[trigger] after[i]).modified >= bound by {
            if i < before.len() {
                assert(after[i] == before[i]);
            } else {
                assert(sorted[sorted.len() - 1].modified >= bound);
            }
        }
    }
}

/// Sorting loses no entry and puts newer ones before older ones.
pub proof fn sorting_keeps_entries(entries: Seq<CacheEntry>)
    ensures
        is_newest_first(newest_first(entries)),
        newest_first(entries).len() == entries.len(),
        newest_first(entries).to_multiset() == entries.to_multiset(),
    decreases entries.len(),
{
    broadcast use vstd::seq_lib::group_to_multiset_ensures;

    if entries.len() > 0 {
        sorting_keeps_entries(entries.drop_last());
        lemma_insert_entry(newest_first(entries.drop_last()), entries.last());
        assert(entries.drop_last().push(entries.last()) =~= entries);
    } else {
        assert(entries =~= Seq::empty());
    }
}

/// The entries that a prune may remove: all but the newest ones.
pub open spec fn prunable(entries: Seq<CacheEntry>, keep: int) -> Seq<CacheEntry> {
    if entries.len() > keep {
        newest_first(entries).skip(keep)
    } else {
        Seq::empty()
    }
}

/// No entry that is kept is older than one that may be removed, and at most `keep`
/// entries are kept.
pub proof fn prune_keeps_the_newest(entries: Seq<CacheEntry>, keep: int, i: int, j: int)
    requires
        0 <= keep < entries.len(),
        0 <= i < keep,
        0 <= j < prunable(entries, keep).len(),
    ensures
        newest_first(entries)[i].modified >= prunable(entries, keep)[j].modified,
        prunable(entries, keep).len() == entries.len() - keep,
{
    sorting_keeps_entries(entries);
}

proof fn lemma_insert_at(sorted: Seq<CacheEntry>, e: CacheEntry, k: int)
    requires
        0 <= k <= sorted.len(),
        k > 0 ==> sorted[k - 1].modified >= e.modified,
        forall|j: int| k <= j < sorted.len() ==> (#[trigger] sorted[j]).modified < e.modified,
    ensures
        insert_entry(sorted, e) == sorted.insert(k, e),
    decreases sorted.len(),
{
    if k == sorted.len() {
        assert(sorted.insert(k, e) =~= sorted.push(e));
    } else {
        let init = sorted.drop_last();
        assert(sorted[sorted.len() - 1].modified < e.modified);
        assert forall|j: int| k <= j < init.len() implies (#[trigger] init[j]).modified < e.modified by {
            assert(init[j] == sorted[j]);
        }
        lemma_insert_at(init, e, k);
        assert(init.insert(k, e).push(sorted.last()) =~= sorted.insert(k, e));
    }
}

impl PackPruneCmd {
    /// How many entries are kept.
    pub fn kept(&self) -> (r: usize)
        ensures
            r == (if self.all {
                0
            } else {
                self.keep
            }),
    {
        if self.all {
            0
        } else {
            self.keep
        }
    }

    /// The line that closes a prune.
    pub fn summary(&self, removed: usize, freed: u64) -> (r: String)
        ensures
            r@ == (if removed == 0 {
                "No cached entries to remove."@
            } else if self.dry_run {
                "Would remove "@ + decimal(removed as nat) + " cached entries ("@ + size_text(freed)
                    + ")"@
            } else {
                "Removed "@ + decimal(removed as nat) + " cached entries, freed "@ + size_text(
                    freed,
                )
            }),
    {
        if removed > 0 {
            if self.dry_run {
                String::from_str("Would remove ").concat(
                    decimal_text(removed as u64).as_str(),
                ).concat(" cached entries (").concat(format_bytes(freed).as_str()).concat(")")
            } else {
                String::from_str("Removed ").concat(decimal_text(removed as u64).as_str()).concat(
                    " cached entries, freed ",
                ).concat(format_bytes(freed).as_str())
            }
        } else {
            String::from_str("No cached entries to remove.")
        }
    }
}

/// Sort entries, newest first.
fn sort_newest_first(entries: Vec<CacheEntry>) -> (r: Vec<CacheEntry>)
    ensures
        r@ == newest_first(entries@),
{
    let ghost all = entries@;
    let mut rest = entries;
    let mut sorted: Vec<CacheEntry> = Vec::new();
    let n: usize = rest.len();
    proof {
        assert(all.take(0) =~= Seq::empty());
        assert(all.skip(0) =~= all);
    }
    for i in 0..n
        invariant
            n == all.len(),
            rest@ == all.skip(i as int),
            sorted@ == newest_first(all.take(i as int)),
    {
        proof {
            sorting_keeps_entries(all.take(i as int));
        }
        let e = rest.remove(0);
        proof {
            assert(rest@ =~= all.skip(i + 1));
        }
        let mut k: usize = sorted.len();
        while k > 0 && sorted[k - 1].modified < e.modified
            invariant
                k <= sorted@.len(),
                forall|j: int| k <= j < sorted@.len() ==> (#[trigger] sorted@[j]).modified
                    < e.modified,
            decreases k,
        {
            k = k - 1;
        }
        proof {
            lemma_insert_at(sorted@, e, k as int);
            assert(all.take(i + 1).drop_last() =~= all.take(i as int));
            assert(all.take(i + 1).last() == e);
        }
        sorted.insert(k, e);
    }
    proof {
        assert(all.take(all.len() as int) =~= all);
    }
    sorted
}

/// The entries that a prune may remove: all but the `keep` newest ones, newest first.
pub fn prune_cache_dir(entries: Vec<CacheEntry>, keep: usize) -> (r: Vec<CacheEntry>)
    ensures
        r@ == prunable(entries@, keep as int),
{
    if entries.len() <= keep {
        return Vec::new();
    }
    proof {
        sorting_keeps_entries(entries@);
    }
    let mut sorted = sort_newest_first(entries);
    let tail = sorted.split_off(keep);
    proof {
        assert(tail@ =~= newest_first(entries@).skip(keep as int));
    }
    tail
}

/// What is done with an entry that may be removed.
#[derive(Debug, Clone, Copy, PartialEq, Eq, Structural)]
pub enum PruneStep {
    /// It is in use: leave it.
    Skip,
    /// Say that it would be removed.
    Report,
    /// Remove it.
    Remove,
}

/// What is done with an entry: one in use is left, and a dry run removes nothing.
pub open spec fn step_of(in_use: bool, dry_run: bool) -> PruneStep {
    if in_use {
        PruneStep::Skip
    } else if dry_run {
        PruneStep::Report
    } else {
        PruneStep::Remove
    }
}

/// Decide what is done with an entry: one in use is left, and a dry run removes
/// nothing.
pub fn prune_step(in_use: bool, dry_run: bool) -> (r: PruneStep)
    ensures
        r == step_of(in_use, dry_run),
{
    if in_use {
        PruneStep::Skip
    } else if dry_run {
        PruneStep::Report
    } else {
        PruneStep::Remove
    }
}

/// What is done with each entry, given which are in use.
pub open spec fn steps_of(in_use: Seq<bool>, dry_run: bool) -> Seq<PruneStep> {
    Seq::new(in_use.len(), |i: int| step_of(in_use[i], dry_run))
}

/// Decide what is done with each entry, given which are in use.
pub fn prune_plan(in_use: &Vec<bool>, dry_run: bool) -> (r: Vec<PruneStep>)
    ensures
        r@ == steps_of(in_use@, dry_run),
{
    let mut r: Vec<PruneStep> = Vec::new();
    for i in 0..in_use.len()
        invariant
            r@ =~= steps_of(in_use@, dry_run).take(i as int),
    {
        r.push(prune_step(in_use[i], dry_run));
    }
    proof {
        assert(r@ =~= steps_of(in_use@, dry_run));
    }
    r
}

/// The sizes of the entries that are removed, or would be, among the first `n`.
pub open spec fn pruned_bytes(entries: Seq<CacheEntry>, steps: Seq<PruneStep>, n: int) -> nat
    decreases n,
{
    if n <= 0 {
        0
    } else {
        pruned_bytes(entries, steps, n - 1) + if steps[n - 1] is Skip {
            0
        } else {
            entries[n - 1].size as nat
        }
    }
}

/// How many entries are removed, or would be, among the first `n`.
pub open spec fn pruned_count(steps: Seq<PruneStep>, n: int) -> nat
    decreases n,
{
    if n <= 0 {
        0
    } else {
        pruned_count(steps, n - 1) + if steps[n - 1] is Skip {
            0nat
        } else {
            1
        }
    }
}

proof fn lemma_pruned_grows(entries: Seq<CacheEntry>, steps: Seq<PruneStep>, k: int, n: int)
    requires
        0 <= k <= n,
    ensures
        pruned_bytes(entries, steps, k) <= pruned_bytes(entries, steps, n),
        pruned_count(steps, n) <= n,
    decreases n,
{
    if k < n {
        lemma_pruned_grows(entries, steps, k, n - 1);
    } else if n > 0 {
        lemma_pruned_grows(entries, steps, n - 1, n - 1);
    }
}

/// Sum a prune up: the bytes and the number of the entries that were removed, or would
/// be. An entry whose removal failed counts as left.
pub fn prune_totals(entries: &Vec<CacheEntry>, steps: &Vec<PruneStep>) -> (r: (u64, usize))
    requires
        steps@.len() == entries@.len(),
        pruned_bytes(entries@, steps@, entries@.len() as int) <= u64::MAX,
    ensures
        r.0 == pruned_bytes(entries@, steps@, entries@.len() as int),
        r.1 == pruned_count(steps@, entries@.len() as int),
{
    let mut freed: u64 = 0;
    let mut removed: usize = 0;
    for i in 0..entries.len()
        invariant
            steps@.len() == entries@.len(),
            pruned_bytes(entries@, steps@, entries@.len() as int) <= u64::MAX,
            freed == pruned_bytes(entries@, steps@, i as int),
            removed == pruned_count(steps@, i as int),
            removed <= i,
    {
        proof {
            lemma_pruned_grows(entries@, steps@, i + 1, entries@.len() as int);
        }
        match steps[i] {
            PruneStep::Skip => {},
            _ => {
                freed = freed + entries[i].size;
                removed = removed + 1;
            },
        }
    }
    (freed, removed)
}

/// The sizes of the entries that are not in use, among the first `n`.
pub open spec fn unused_bytes(entries: Seq<CacheEntry>, in_use: Seq<bool>, n: int) -> nat
    decreases n,
{
    if n <= 0 {
        0
    } else {
        unused_bytes(entries, in_use, n - 1) + if in_use[n - 1] {
            0
        } else {
            entries[n - 1].size as nat
        }
    }
}

/// How many entries are not in use, among the first `n`.
pub open spec fn unused_count(in_use: Seq<bool>, n: int) -> nat
    decreases n,
{
    if n <= 0 {
        0
    } else {
        unused_count(in_use, n - 1) + if in_use[n - 1] {
            0nat
        } else {
            1
        }
    }
}

/// A prune counts the removable entries that are not in use, and their bytes, alike in a
/// dry and in a real run. A dry run removes nothing; a real one removes exactly those
/// entries.
pub proof fn dry_and_real_prunes_agree(
    entries: Seq<CacheEntry>,
    keep: int,
    in_use: Seq<bool>,
    n: int,
)
    requires
        in_use.len() == prunable(entries, keep).len(),
        0 <= n <= in_use.len(),
    ensures
        ({
            let removable = prunable(entries, keep);
            let dry = steps_of(in_use, true);
            let full = steps_of(in_use, false);
            &&& pruned_bytes(removable, dry, n) == unused_bytes(removable, in_use, n)
            &&& pruned_bytes(removable, full, n) == unused_bytes(removable, in_use, n)
            &&& pruned_count(dry, n) == unused_count(in_use, n)
            &&& pruned_count(full, n) == unused_count(in_use, n)
            &&& forall|i: int| 0 <= i < dry.len() ==> !(#[trigger] dry[i] is Remove)
            &&& forall|i: int| 0 <= i < full.len() ==> (#[trigger] full[i] is Remove <==> !in_use[i])
        }),
    decreases n,
{
    if n > 0 {
        dry_and_real_prunes_agree(entries, keep, in_use, n - 1);
    }
}

// ---------------------------------------------------------------------------
// Registries
// ---------------------------------------------------------------------------

/// The address of a registry: plain HTTP for the host itself, else HTTPS.
pub open spec fn registry_url(registry: Seq<char>) -> Seq<char> {
    if has_prefix(registry, "localhost"@) || has_text(registry, "127.0.0.1"@) {
        "http://"@ + registry
    } else {
        "https://"@ + registry
    }
}

/// A registry is reached by its own name, and without encryption only where it is on the
/// host itself.
pub proof fn registries_are_encrypted_unless_local(registry: Seq<char>)
    ensures
        registry_url(registry) == "https://"@ + registry || registry_url(registry) == "http://"@
            + registry,
        !has_prefix(registry, "localhost"@) && !has_text(registry, "127.0.0.1"@)
            ==> registry_url(registry) == "https://"@ + registry,
        has_prefix(registry, "localhost"@) || has_text(registry, "127.0.0.1"@)
            ==> registry_url(registry) == "http://"@ + registry,
{
}

/// The address of a registry.
pub fn registry_base_url(registry: &str) -> (r: String)
    ensures
        r@ == registry_url(registry@),
{
    if starts_with(registry, "localhost") || contains_text(registry, "127.0.0.1") {
        String::from_str("http://").concat(registry)
    } else {
        String::from_str("https://").concat(registry)
    }
}

/// The line that announces a push.
pub fn pushing_line(file: &str, target: &Reference) -> (r: String)
    ensures
        r@ == "Pushing "@ + file@ + " to "@ + target@.registry + "/"@ + repository_of(target@)
            + ":"@ + (match target@.tag {
            Some(t) => t,
            None => "latest"@,
        }),
{
    String::from_str("Pushing ").concat(file).concat(" to ").concat(
        target.registry.as_str(),
    ).concat("/").concat(target.repository().as_str()).concat(":").concat(target.tag_or_latest())
}

/// The lines that end a push.
pub fn pushed_text(layer_digest: &str, layer_size: u64, manifest_digest: &str) -> (r: String)
    ensures
        r@ == "Pushed successfully\n  Layer:    "@ + layer_digest@ + " ("@ + decimal(
            layer_size as nat,
        ) + " bytes)\n  Manifest: "@ + manifest_digest@,
{
    String::from_str("Pushed successfully\n  Layer:    ").concat(layer_digest).concat(" (").concat(
        decimal_text(layer_size).as_str(),
    ).concat(" bytes)\n  Manifest: ").concat(manifest_digest)
}

/// The line that announces a pull.
pub fn pulling_line(source: &Reference) -> (r: String)
    ensures
        r@ == "Pulling "@ + source@.registry + "/"@ + repository_of(source@) + ":"@
            + tag_or_digest(source@),
{
    String::from_str("Pulling ").concat(source.registry.as_str()).concat("/").concat(
        source.repository().as_str(),
    ).concat(":").concat(source.tag_or_digest())
}

/// The lines that end a pull: where the artifact was cached, that too; it lies at
/// the requested output, else in the cache.
pub fn pulled_lines(
    cached: bool,
    digest: &str,
    output: &Option<String>,
    cache_path: &str,
    size: u64,
) -> (r: Vec<String>)
    ensures
        r.deep_view() == (if cached {
            seq!["Using cached blob ("@ + digest@ + ")"@]
        } else {
            Seq::empty()
        }) + seq![
            "Pulled successfully -> "@ + (match output.deep_view() {
                Some(p) => p,
                None => cache_path@,
            }) + " ("@ + decimal(size as nat) + " bytes)"@,
        ],
{
    let mut lines: Vec<String> = Vec::new();
    if cached {
        lines.push(String::from_str("Using cached blob (").concat(digest).concat(")"));
    }
    let dest = match output {
        Some(p) => p.as_str(),
        None => cache_path,
    };
    let last = String::from_str("Pulled successfully -> ").concat(dest).concat(" (").concat(
        decimal_text(size).as_str(),
    ).concat(" bytes)");
    lines.push(last);
    proof {
        assert(lines.deep_view() =~= (if cached {
            seq!["Using cached blob ("@ + digest@ + ")"@]
        } else {
            Seq::empty()
        }) + seq![last@]);
    }
    lines
}

/// The lines that describe a packed artifact in a registry.
pub open spec fn inspect_text(
    registry: Seq<char>,
    repository: Seq<char>,
    version: Seq<char>,
    m: PackManifestView,
    layer_size: u64,
    layer_digest: Seq<char>,
) -> Seq<Seq<char>> {
    let head = seq![
        "Reference:  "@ + registry + "/"@ + repository + ":"@ + version,
        "Image:      "@ + m.image,
        "Platform:   "@ + m.platform,
        "Host:       "@ + m.host_platform,
        "CPUs:       "@ + decimal(m.cpus as nat),
        "Memory:     "@ + decimal(m.mem as nat) + " MiB"@,
    ];
    let entrypoint = if m.entrypoint.len() > 0 {
        seq!["Entrypoint: "@ + join_text(m.entrypoint, " "@)]
    } else {
        Seq::empty()
    };
    let cmd = if m.cmd.len() > 0 {
        seq!["Cmd:        "@ + join_text(m.cmd, " "@)]
    } else {
        Seq::empty()
    };
    let workdir = match m.workdir {
        Some(w) => seq!["Workdir:    "@ + w],
        None => Seq::empty(),
    };
    let tail = seq![
        "Created:    "@ + m.created,
        "Version:    "@ + m.smolvm_version,
        "Size:       "@ + size_text(layer_size),
        "Digest:     "@ + layer_digest,
    ];
    head + entrypoint + cmd + workdir + tail
}

fn push_line(lines: &mut Vec<String>, label: &str, value: &str)
    ensures
        final(lines).deep_view() == old(lines).deep_view().push(label@ + value@),
{
    let line = label.to_owned().concat(value);
    lines.push(line);
    proof {
        assert(lines.deep_view() =~= old(lines).deep_view().push(line@));
    }
}

/// Describe a packed artifact in a registry.
pub fn inspect_lines(
    reference: &Reference,
    m: &PackManifest,
    layer_size: u64,
    layer_digest: &str,
) -> (r: Vec<String>)
    ensures
        r.deep_view() == inspect_text(
            reference@.registry,
            crate::registry::repository_of(reference@),
            crate::registry::tag_or_digest(reference@),
            m@,
            layer_size,
            layer_digest@,
        ),
{
    let mut r: Vec<String> = Vec::new();
    proof {
        assert(r.deep_view() =~= Seq::empty());
    }
    let repo = reference.repository();
    let first = String::from_str("Reference:  ").concat(reference.registry.as_str()).concat(
        "/",
    ).concat(repo.as_str()).concat(":").concat(reference.tag_or_digest());
    r.push(first);
    proof {
        assert(r.deep_view() =~= seq![first@]);
    }
    push_line(&mut r, "Image:      ", m.image.as_str());
    push_line(&mut r, "Platform:   ", m.platform.as_str());
    push_line(&mut r, "Host:       ", m.host_platform.as_str());
    push_line(&mut r, "CPUs:       ", decimal_text(m.cpus as u64).as_str());
    let memory = String::from_str("Memory:     ").concat(
        decimal_text(m.mem as u64).as_str(),
    ).concat(" MiB");
    let ghost five = r.deep_view();
    r.push(memory);
    let ghost head = seq![
        first@,
        "Image:      "@ + m@.image,
        "Platform:   "@ + m@.platform,
        "Host:       "@ + m@.host_platform,
        "CPUs:       "@ + decimal(m@.cpus as nat),
        memory@,
    ];
    proof {
        assert(r.deep_view() =~= five.push(memory@));
        assert(r.deep_view() =~= head);
    }
    if m.entrypoint.len() > 0 {
        push_line(&mut r, "Entrypoint: ", join(&m.entrypoint, " ").as_str());
    }
    let ghost entrypoint = if m@.entrypoint.len() > 0 {
        seq!["Entrypoint: "@ + join_text(m@.entrypoint, " "@)]
    } else {
        Seq::empty()
    };
    proof {
        assert(r.deep_view() =~= head + entrypoint);
    }
    if m.cmd.len() > 0 {
        push_line(&mut r, "Cmd:        ", join(&m.cmd, " ").as_str());
    }
    let ghost cmd = if m@.cmd.len() > 0 {
        seq!["Cmd:        "@ + join_text(m@.cmd, " "@)]
    } else {
        Seq::empty()
    };
    proof {
        assert(r.deep_view() =~= head + entrypoint + cmd);
    }
    match &m.workdir {
        Some(w) => {
            push_line(&mut r, "Workdir:    ", w.as_str());
        },
        None => {},
    }
    let ghost workdir = match m@.workdir {
        Some(w) => seq!["Workdir:    "@ + w],
        None => Seq::empty(),
    };
    proof {
        assert(r.deep_view() =~= head + entrypoint + cmd + workdir);
    }
    push_line(&mut r, "Created:    ", m.created.as_str());
    push_line(&mut r, "Version:    ", m.smolvm_version.as_str());
    push_line(&mut r, "Size:       ", format_bytes(layer_size).as_str());
    push_line(&mut r, "Digest:     ", layer_digest);
    proof {
        let tail = seq![
            "Created:    "@ + m@.created,
            "Version:    "@ + m@.smolvm_version,
            "Size:       "@ + size_text(layer_size),
            "Digest:     "@ + layer_digest@,
        ];
        assert(r.deep_view() =~= head + entrypoint + cmd + workdir + tail);
    }
    r
}

/// An entry in use is always left; any other is removed, and in a dry run only reported.
pub proof fn entries_in_use_are_left(in_use: bool, dry_run: bool)
    ensures
        step_of(in_use, dry_run) is Skip <==> in_use,
        step_of(in_use, dry_run) is Remove <==> !in_use && !dry_run,
        step_of(in_use, dry_run) is Report <==> !in_use && dry_run,
{
}

/// The overlays of different machines lie in different directories.
pub proof fn overlays_are_told_apart(a: Seq<char>, b: Seq<char>)
    ensures
        overlay_dir(a) == overlay_dir(b) ==> a == b,
{
    let head = "/mnt/source-storage/overlays/persistent-"@;
    let tail = "/upper"@;
    if overlay_dir(a) == overlay_dir(b) {
        assert(overlay_dir(a).len() == head.len() + a.len() + tail.len());
        assert(overlay_dir(b).len() == head.len() + b.len() + tail.len());
        assert(a == overlay_dir(a).subrange(head.len() as int, (head.len() + a.len()) as int));
        assert(b == overlay_dir(b).subrange(head.len() as int, (head.len() + b.len()) as int));
    }
}

/// What is shown of an artifact in a registry is where it is, what it runs, on what, and
/// with which resources, each in a line of its own.
pub proof fn inspections_show_the_artifact(
    registry: Seq<char>,
    repository: Seq<char>,
    version: Seq<char>,
    m: PackManifestView,
    layer_size: u64,
    layer_digest: Seq<char>,
)
    ensures
        ({
            let lines = inspect_text(registry, repository, version, m, layer_size, layer_digest);
            let n = lines.len();
            &&& lines[0] == "Reference:  "@ + registry + "/"@ + repository + ":"@ + version
            &&& lines[1] == "Image:      "@ + m.image
            &&& lines[2] == "Platform:   "@ + m.platform
            &&& lines[3] == "Host:       "@ + m.host_platform
            &&& lines[4] == "CPUs:       "@ + decimal(m.cpus as nat)
            &&& lines[5] == "Memory:     "@ + decimal(m.mem as nat) + " MiB"@
            &&& m.entrypoint.len() > 0 ==> lines[6] == "Entrypoint: "@ + join_text(
                m.entrypoint,
                " "@,
            )
            &&& m.entrypoint.len() == 0 && m.cmd.len() > 0 ==> lines[6] == "Cmd:        "@
                + join_text(m.cmd, " "@)
            &&& m.entrypoint.len() > 0 && m.cmd.len() > 0 ==> lines[7] == "Cmd:        "@
                + join_text(m.cmd, " "@)
            &&& m.workdir matches Some(w) ==> lines[n - 5] == "Workdir:    "@ + w
            &&& lines[n - 4] == "Created:    "@ + m.created
            &&& lines[n - 3] == "Version:    "@ + m.smolvm_version
            &&& lines[n - 2] == "Size:       "@ + size_text(layer_size)
            &&& lines[n - 1] == "Digest:     "@ + layer_digest
        }),
{
}

} // verus!
