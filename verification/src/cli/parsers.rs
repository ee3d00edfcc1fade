//! Shared argument parsers.
use vstd::prelude::*;
use vstd::string::*;

use crate::cli::spans::is_bounded_span;
use crate::data::resources::{validate_gpu_vram_mib, GPU_VRAM_ZERO};
use crate::data::storage::{guest_sides, mount_tag_text, tagged, HostMount};
use crate::duration::Duration;
use crate::scan::{
    lemma_decimal_value, lemma_first_of, lemma_first_of_facts, parse_unsigned, parsed_nat,
    split_first, split_once,
};
use crate::text::decimal;

verus! {

// ---------------------------------------------------------------------------
// Durations
// ---------------------------------------------------------------------------

/// The span of time that a text denotes in the notation of `humantime`, as seconds
/// and nanoseconds, or why it denotes none.
pub uninterp spec fn human_duration(s: Seq<char>) -> Result<(u64, u32), Seq<char>>;

/// `humantime::parse_duration`. The notation is named rather than stated; the
/// fraction of the span is less than a second. It panics on exactly the texts that are
/// left out: those with spans that sum up to 2^64 seconds where the nanoseconds, and not
/// the seconds, make up the last of them.
#[verifier::external_body]
fn parse_human_duration(s: &str) -> (r: Result<Duration, String>)
    requires
        is_bounded_span(s@),
    ensures
        match human_duration(s@) {
            Ok(d) => r matches Ok(x) && x.secs == d.0 && x.nanos == d.1,
            Err(e) => r matches Err(x) && x@ == e,
        },
        r matches Ok(x) ==> x.wf(),
{
    match humantime::parse_duration(s) {
        Ok(d) => Ok(Duration { secs: d.as_secs(), nanos: d.subsec_nanos() }),
        Err(e) => Err(e.to_string()),
    }
}

/// A time limit, given how its text was read: an empty span is refused.
pub fn nonzero_timeout(read: Result<Duration, String>) -> (r: Result<Duration, String>)
    ensures
        match read {
            Err(e) => r matches Err(x) && x@ == e@,
            Ok(d) => if d.total_nanos() == 0 {
                r matches Err(x) && x@ == "timeout must be greater than 0 (e.g., 5sec, 30s)"@
            } else {
                r matches Ok(x) && x == d
            },
        },
{
    match read {
        Err(e) => Err(e),
        Ok(d) => if d.is_zero() {
            Err(String::from_str("timeout must be greater than 0 (e.g., 5sec, 30s)"))
        } else {
            Ok(d)
        },
    }
}

/// Parse a duration string (e.g., "30s", "5m", "1h").
pub fn parse_duration(s: &str) -> (r: Result<Duration, String>)
    requires
        is_bounded_span(s@),
    ensures
        match human_duration(s@) {
            Err(e) => r matches Err(x) && x@ == e,
            Ok((secs, nanos)) => if secs == 0 && nanos == 0 {
                r matches Err(x) && x@ == "timeout must be greater than 0 (e.g., 5sec, 30s)"@
            } else {
                r matches Ok(x) && x == (Duration { secs, nanos })
            },
        },
        r matches Ok(x) ==> x.wf() && x.total_nanos() > 0,
{
    nonzero_timeout(parse_human_duration(s))
}

// ---------------------------------------------------------------------------
// Numbers and variables
// ---------------------------------------------------------------------------

/// Parse and validate `--gpu-vram <MiB>`. Rejects 0 at parse time so the user gets
/// a clear error instead of an opaque allocation failure later.
pub fn parse_gpu_vram_mib(s: &str) -> (r: Result<u32, String>)
    ensures
        match parsed_nat(s@, u32::MAX as nat) {
            None => r matches Err(e) && e@ == "'"@ + s@ + "' is not a valid MiB value"@,
            Some(n) => if n == 0 {
                r matches Err(e) && e@ == GPU_VRAM_ZERO@
            } else {
                r == Ok::<u32, String>(n as u32)
            },
        },
{
    match parse_unsigned(s, u32::MAX as u64) {
        None => Err(String::from_str("'").concat(s).concat("' is not a valid MiB value")),
        Some(n) => match validate_gpu_vram_mib(Some(n as u32)) {
            Err(e) => Err(e.to_owned()),
            Ok(_) => Ok(n as u32),
        },
    }
}

/// The variable that a `KEY=VALUE` text sets, where it has a key.
pub open spec fn env_pair(spec_text: Seq<char>) -> Option<(Seq<char>, Seq<char>)> {
    match split_first(spec_text, '=') {
        Some((k, v)) => if k.len() > 0 {
            Some((k, v))
        } else {
            None
        },
        None => None,
    }
}

/// The variables that a list of texts sets; texts that set none are left out.
pub open spec fn env_pairs(specs: Seq<Seq<char>>) -> Seq<(Seq<char>, Seq<char>)>
    decreases specs.len(),
{
    if specs.len() == 0 {
        Seq::empty()
    } else {
        match env_pair(specs.last()) {
            Some(p) => env_pairs(specs.drop_last()).push(p),
            None => env_pairs(specs.drop_last()),
        }
    }
}

/// Parse a `KEY=VALUE` text.
pub fn parse_env_spec(spec_text: &str) -> (r: Option<(String, String)>)
    ensures
        r.deep_view() == env_pair(spec_text@),
{
    match split_once(spec_text, '=') {
        Some((k, v)) => if k.as_str().is_empty() {
            None
        } else {
            Some((k, v))
        },
        None => None,
    }
}

/// Parse a list of `KEY=VALUE` texts; texts that set no variable are left out.
pub fn parse_env_list(specs: &Vec<String>) -> (r: Vec<(String, String)>)
    ensures
        r.deep_view() == env_pairs(specs.deep_view()),
{
    let ghost all = specs.deep_view();
    let mut r: Vec<(String, String)> = Vec::new();
    proof {
        assert(all.take(0) =~= Seq::empty());
        assert(r.deep_view() =~= Seq::empty());
    }
    for i in 0..specs.len()
        invariant
            all == specs.deep_view(),
            r.deep_view() == env_pairs(all.take(i as int)),
    {
        let ghost before = r.deep_view();
        proof {
            assert(all.take(i + 1).drop_last() =~= all.take(i as int));
            assert(all.take(i + 1).last() == specs@[i as int]@);
        }
        match parse_env_spec(specs[i].as_str()) {
            Some(p) => {
                r.push(p);
                proof {
                    assert(r.deep_view() =~= before.push(p.deep_view()));
                }
            },
            None => {},
        }
    }
    proof {
        assert(all.take(all.len() as int) =~= all);
    }
    r
}

// ---------------------------------------------------------------------------
// Virtiofs bindings
// ---------------------------------------------------------------------------

/// Assign positional virtiofs tags to a list of (guest_target, read_only) pairs.
///
/// The tag format is `smolvm{index}` and matches the virtiofs device exposed at VM
/// start in the same order. Order in equals order out.
pub fn assign_virtiofs_tags(items: Vec<(String, bool)>) -> (r: Vec<(String, String, bool)>)
    ensures
        r.deep_view() == tagged(items.deep_view()),
{
    let mut r: Vec<(String, String, bool)> = Vec::new();
    for i in 0..items.len()
        invariant
            r@.len() == i,
            forall|j: int|
                0 <= j < i ==> (#[trigger] r@[j]).deep_view() == (
                    mount_tag_text(j),
                    items@[j].0@,
                    items@[j].1,
                ),
    {
        r.push((HostMount::mount_tag(i), items[i].0.clone(), items[i].1));
    }
    proof {
        assert(r.deep_view() =~= tagged(items.deep_view()));
    }
    r
}

/// Convert a parsed mount list to virtiofs binding format for the agent.
pub fn mounts_to_virtiofs_bindings(mounts: &Vec<HostMount>) -> (r: Vec<(String, String, bool)>)
    ensures
        r.deep_view() == tagged(guest_sides(mounts.deep_view())),
{
    let mut items: Vec<(String, bool)> = Vec::new();
    for i in 0..mounts.len()
        invariant
            items@.len() == i,
            forall|j: int|
                0 <= j < i ==> (#[trigger] items@[j]).deep_view() == (
                    mounts@[j].target@,
                    mounts@[j].read_only,
                ),
    {
        items.push((mounts[i].target.clone(), mounts[i].read_only));
    }
    proof {
        assert(items.deep_view() =~= guest_sides(mounts.deep_view()));
    }
    assign_virtiofs_tags(items)
}

/// Convert a stored mount list to virtiofs binding format.
///
/// The host source is dropped: the agent only needs the guest-facing target and
/// the tag.
pub fn record_mounts_to_runconfig_bindings(mounts: &Vec<(String, String, bool)>) -> (r: Vec<
    (String, String, bool),
>)
    ensures
        r.deep_view() == tagged(guest_sides(mounts.deep_view())),
{
    let mut items: Vec<(String, bool)> = Vec::new();
    for i in 0..mounts.len()
        invariant
            items@.len() == i,
            forall|j: int|
                0 <= j < i ==> (#[trigger] items@[j]).deep_view() == (mounts@[j].1@, mounts@[j].2),
    {
        items.push((mounts[i].1.clone(), mounts[i].2));
    }
    proof {
        assert(items.deep_view() =~= guest_sides(mounts.deep_view()));
    }
    assign_virtiofs_tags(items)
}

/// Tags are positional: binding `i` carries tag `smolvm{i}` and the target and flag
/// of mount `i`, and there are as many bindings as mounts.
pub proof fn bindings_keep_order(mounts: Seq<(Seq<char>, Seq<char>, bool)>, i: int)
    requires
        0 <= i < mounts.len(),
    ensures
        tagged(guest_sides(mounts)).len() == mounts.len(),
        tagged(guest_sides(mounts))[i] == (mount_tag_text(i), mounts[i].1, mounts[i].2),
{
}

/// Two positions never share a tag.
pub proof fn mount_tags_are_distinct(i: nat, j: nat)
    requires
        i != j,
    ensures
        mount_tag_text(i as int) != mount_tag_text(j as int),
{
    if mount_tag_text(i as int) == mount_tag_text(j as int) {
        let n = "smolvm"@.len() as int;
        assert(mount_tag_text(i as int).skip(n) =~= decimal(i));
        assert(mount_tag_text(j as int).skip(n) =~= decimal(j));
        lemma_decimal_value(i);
        lemma_decimal_value(j);
    }
}

/// A variable is named by what stands before the first `=` of its text and holds all that
/// stands behind it, further `=` included. A text without `=`, and one without a name, sets
/// nothing.
pub proof fn variables_are_cut_at_the_first_equals(key: Seq<char>, value: Seq<char>)
    requires
        !key.contains('='),
    ensures
        key.len() > 0 ==> env_pair(key + seq!['='] + value) == Some((key, value)),
        env_pair(key) is None,
        env_pair(seq!['='] + value) is None,
{
    let text = key + seq!['='] + value;
    assert forall|j: int| 0 <= j < key.len() implies text[j] != '=' by {
        assert(key.contains(key[j]));
    }
    lemma_first_of(text, '=', key.len() as int);
    assert(text.take(key.len() as int) == key);
    assert(text.skip((key.len() + 1) as int) == value);
    lemma_first_of_facts(key, '=');
    let bare = seq!['='] + value;
    lemma_first_of(bare, '=', 0);
}

/// A list of variables is read text by text, in order: each text that sets a variable adds
/// that variable, and no other text adds anything.
pub proof fn variable_lists_are_read_in_order(a: Seq<Seq<char>>, b: Seq<Seq<char>>, text: Seq<char>)
    ensures
        env_pairs(a + b) == env_pairs(a) + env_pairs(b),
        env_pairs(seq![text]) == (match env_pair(text) {
            Some(p) => seq![p],
            None => Seq::empty(),
        }),
    decreases b.len(),
{
    assert(seq![text].drop_last() == Seq::<Seq<char>>::empty());
    assert(env_pairs(seq![text].drop_last()) == Seq::<(Seq<char>, Seq<char>)>::empty());
    if b.len() == 0 {
        assert(a + b == a);
        assert(env_pairs(a + b) == env_pairs(a) + env_pairs(b));
    } else {
        variable_lists_are_read_in_order(a, b.drop_last(), text);
        assert((a + b).drop_last() == a + b.drop_last());
        assert((a + b).last() == b.last());
        assert(env_pairs(a + b) == env_pairs(a) + env_pairs(b));
    }
}

} // verus!
