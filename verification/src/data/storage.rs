//! Host mounts and default disk sizes.
use vstd::prelude::*;
use vstd::string::*;

use crate::error::{Error, ErrorView};
use crate::scan::{lemma_split_cons, lemma_split_single, split, split_all};
use crate::text::{decimal, decimal_text, same};

verus! {

/// Default size of the storage disk, in GiB.
pub const DEFAULT_STORAGE_SIZE_GIB: u64 = 20;

/// Default size of the overlay disk, in GiB.
pub const DEFAULT_OVERLAY_SIZE_GIB: u64 = 10;

/// File name of the storage disk.
pub const STORAGE_DISK_FILENAME: &'static str = "storage.raw";

/// File name of the overlay disk.
pub const OVERLAY_DISK_FILENAME: &'static str = "overlay.raw";

/// A host directory that is mounted in the guest.
#[derive(Debug, PartialEq, Eq)]
pub struct HostMount {
    /// Directory on the host.
    pub source: String,
    /// Path in the guest.
    pub target: String,
    /// Whether the guest may only read it.
    pub read_only: bool,
}

/// The mathematical value of a [`HostMount`]: source, target and read-only flag.
pub type MountView = (Seq<char>, Seq<char>, bool);

impl View for HostMount {
    type V = MountView;

    open spec fn view(&self) -> MountView {
        (self.source@, self.target@, self.read_only)
    }
}

impl DeepView for HostMount {
    type V = MountView;

    open spec fn deep_view(&self) -> MountView {
        self@
    }
}

/// The virtiofs tag of the mount at a position.
pub open spec fn mount_tag_text(i: int) -> Seq<char> {
    "smolvm"@ + decimal(i as nat)
}

impl Clone for HostMount {
    fn clone(&self) -> (r: HostMount)
        ensures
            r@ == self@,
    {
        HostMount {
            source: self.source.clone(),
            target: self.target.clone(),
            read_only: self.read_only,
        }
    }
}

/// What a mount given as text asks for: `HOST:GUEST`, or `HOST:GUEST:ro` for one that
/// is read-only, with neither path empty.
pub open spec fn mount_spec(text: Seq<char>) -> Option<MountView> {
    let parts = split_all(text, ':');
    if parts.len() < 2 || parts[0].len() == 0 || parts[1].len() == 0 {
        None
    } else if parts.len() == 2 {
        Some((parts[0], parts[1], false))
    } else if parts.len() == 3 && parts[2] == "ro"@ {
        Some((parts[0], parts[1], true))
    } else {
        None
    }
}

impl HostMount {
    /// Parse a mount given as text; the host path is taken as it stands.
    pub fn parse_spec(text: &str) -> (r: Result<HostMount, Error>)
        ensures
            match mount_spec(text@) {
                Some(m) => r matches Ok(x) && x@ == m,
                None => r matches Err(e) && e@ == (ErrorView::Mount {
                    operation: "parse mount"@,
                    reason: "invalid mount '"@ + text@ + "': expected HOST:GUEST[:ro]"@,
                }),
            },
    {
        let parts = split(text, ':');
        proof {
            assert forall|i: int| 0 <= i < parts@.len() implies parts.deep_view()[i]
                == #[trigger] parts@[i]@ by {}
        }
        if parts.len() >= 2 && !parts[0].as_str().is_empty() && !parts[1].as_str().is_empty() {
            let source = parts[0].clone();
            let target = parts[1].clone();
            if parts.len() == 2 {
                return Ok(HostMount { source, target, read_only: false });
            }
            if parts.len() == 3 && same(parts[2].as_str(), "ro") {
                return Ok(HostMount { source, target, read_only: true });
            }
        }
        Err(
            Error::mount(
                "parse mount",
                String::from_str("invalid mount '").concat(text).concat(
                    "': expected HOST:GUEST[:ro]",
                ),
            ),
        )
    }

    /// The mount with its host path made absolute, or why that could not be done. Only
    /// directories can be mounted.
    pub fn resolved(self, absolute: Result<String, String>, is_directory: bool) -> (r: Result<
        HostMount,
        Error,
    >)
        ensures
            match absolute {
                Err(e) => r matches Err(x) && x@ == (ErrorView::Mount {
                    operation: "resolve host path"@,
                    reason: self.source@ + ": "@ + e@,
                }),
                Ok(path) => if is_directory {
                    r matches Ok(m) && m@ == (path@, self.target@, self.read_only)
                } else {
                    r matches Err(x) && x@ == (ErrorView::Mount {
                        operation: "resolve host path"@,
                        reason: self.source@ + ": not a directory"@,
                    })
                },
            },
    {
        match absolute {
            Err(e) => Err(
                Error::mount("resolve host path", self.source.concat(": ").concat(e.as_str())),
            ),
            Ok(path) => if is_directory {
                Ok(HostMount { source: path, target: self.target, read_only: self.read_only })
            } else {
                Err(Error::mount("resolve host path", self.source.concat(": not a directory")))
            },
        }
    }

    /// The virtiofs tag of the mount at a position.
    pub fn mount_tag(i: usize) -> (r: String)
        ensures
            r@ == mount_tag_text(i as int),
    {
        String::from_str("smolvm").concat(decimal_text(i as u64).as_str())
    }

    /// The stored form: host path, guest path, read-only flag.
    pub fn to_storage_tuple(&self) -> (r: (String, String, bool))
        ensures
            r.deep_view() == self@,
    {
        (self.source.clone(), self.target.clone(), self.read_only)
    }

    /// The mount that a stored triple stands for.
    pub fn from_storage_tuple(t: &(String, String, bool)) -> (r: HostMount)
        ensures
            r@ == t.deep_view(),
    {
        HostMount { source: t.0.clone(), target: t.1.clone(), read_only: t.2 }
    }
}

/// Stored forms of a list of mounts, in order.
pub fn to_storage_tuples(mounts: &Vec<HostMount>) -> (r: Vec<(String, String, bool)>)
    ensures
        r.deep_view() == mounts.deep_view(),
{
    let mut r: Vec<(String, String, bool)> = Vec::new();
    for i in 0..mounts.len()
        invariant
            r@.len() == i,
            forall|j: int| 0 <= j < i ==> (#[trigger] r@[j]).deep_view() == mounts@[j]@,
    {
        r.push(mounts[i].to_storage_tuple());
    }
    assert(r.deep_view() =~= mounts.deep_view());
    r
}

/// Mounts of a list of stored triples, in order.
pub fn from_storage_tuples(stored: &Vec<(String, String, bool)>) -> (r: Vec<HostMount>)
    ensures
        r.deep_view() == stored.deep_view(),
{
    let mut r: Vec<HostMount> = Vec::new();
    for i in 0..stored.len()
        invariant
            r@.len() == i,
            forall|j: int| 0 <= j < i ==> (#[trigger] r@[j])@ == stored@[j].deep_view(),
    {
        r.push(HostMount::from_storage_tuple(&stored[i]));
    }
    assert(r.deep_view() =~= stored.deep_view());
    r
}

/// The bindings that a list of guest targets gets: positional tags, same order,
/// same targets and flags.
pub open spec fn tagged(items: Seq<(Seq<char>, bool)>) -> Seq<(Seq<char>, Seq<char>, bool)> {
    Seq::new(items.len(), |i: int| (mount_tag_text(i), items[i].0, items[i].1))
}

/// The guest targets and flags of a list of mounts.
pub open spec fn guest_sides(mounts: Seq<MountView>) -> Seq<(Seq<char>, bool)> {
    Seq::new(mounts.len(), |i: int| (mounts[i].1, mounts[i].2))
}

/// A mount is written as the host path, a colon and the guest path, and `:ro` behind them
/// where the guest may only read it. Without both paths, and with anything else behind
/// them, it is refused.
pub proof fn mounts_are_source_then_target(source: Seq<char>, target: Seq<char>, rest: Seq<char>)
    requires
        !source.contains(':'),
        !target.contains(':'),
        !rest.contains(':'),
    ensures
        ({
            let given = source.len() > 0 && target.len() > 0;
            let plain = source + seq![':'] + target;
            let more = source + seq![':'] + (target + seq![':'] + rest);
            &&& mount_spec(source) is None
            &&& mount_spec(plain) == (if given {
                Some((source, target, false))
            } else {
                None
            })
            &&& mount_spec(more) == (if given && rest == "ro"@ {
                Some((source, target, true))
            } else {
                None
            })
        }),
{
    lemma_split_single(source, ':');
    lemma_split_single(target, ':');
    lemma_split_single(rest, ':');
    lemma_split_cons(source, ':', target);
    lemma_split_cons(target, ':', rest);
    lemma_split_cons(source, ':', target + seq![':'] + rest);
    assert(split_all(source + seq![':'] + target, ':') == seq![source, target]);
    assert(split_all(target + seq![':'] + rest, ':') == seq![target, rest]);
    assert(split_all(source + seq![':'] + (target + seq![':'] + rest), ':') == seq![
        source,
        target,
        rest,
    ]);
}

/// What the guest sees of a mount is its target and its flag, in its place.
pub proof fn guests_see_the_targets(mounts: Seq<MountView>, i: int)
    requires
        0 <= i < mounts.len(),
    ensures
        guest_sides(mounts).len() == mounts.len(),
        guest_sides(mounts)[i] == (mounts[i].1, mounts[i].2),
        tagged(guest_sides(mounts))[i] == ("smolvm"@ + decimal(i as nat), mounts[i].1, mounts[i].2),
{
}

} // verus!
