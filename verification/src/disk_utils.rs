//! Rules for creating, expanding and formatting disk images.
use vstd::prelude::*;
use vstd::string::*;

use crate::data::consts::{gib_in_bytes_fit, BYTES_PER_GIB};
use crate::data::disk::DiskType;
use crate::error::{outcome, Error, ErrorView};
use crate::storage::MAX_DISK_GIB;
use crate::text::{decimal, decimal_text};

verus! {

/// The position of the last byte of a disk image: writing it gives a sparse image
/// its size.
pub fn last_byte_offset(size_bytes: u64) -> (r: u64)
    requires
        size_bytes > 0,
    ensures
        r + 1 == size_bytes,
{
    size_bytes - 1
}

/// The size to which a copied template is extended, if it has to be.
pub fn template_extension(copied_size: u64, wanted_size: u64) -> (r: Option<u64>)
    ensures
        r == (if copied_size < wanted_size {
            Some(wanted_size)
        } else {
            None::<u64>
        }),
{
    if copied_size < wanted_size {
        Some(wanted_size)
    } else {
        None
    }
}

/// The size in bytes of an expanded image, or the error for one that would not grow.
pub open spec fn expanded_size(current_size: u64, new_size_gb: u64) -> Result<u64, ErrorView> {
    if new_size_gb * BYTES_PER_GIB <= current_size {
        Err(
            ErrorView::Storage {
                operation: "expand disk"@,
                reason: "new size ("@ + decimal(new_size_gb as nat)
                    + " GiB) must be larger than current size ("@ + decimal(
                    (current_size / BYTES_PER_GIB) as nat,
                ) + " GiB)"@,
            },
        )
    } else {
        Ok((new_size_gb * BYTES_PER_GIB) as u64)
    }
}

/// Plan the expansion of a sparse disk image: the size in bytes that it gets.
pub fn expand_sparse_disk(current_size: u64, new_size_gb: u64) -> (r: Result<u64, Error>)
    requires
        new_size_gb <= MAX_DISK_GIB,
    ensures
        outcome(r) == expanded_size(current_size, new_size_gb),
{
    proof {
        gib_in_bytes_fit(new_size_gb);
    }
    let new_size_bytes: u64 = new_size_gb * BYTES_PER_GIB;
    if new_size_bytes <= current_size {
        return Err(
            Error::storage(
                "expand disk",
                String::from_str("new size (").concat(decimal_text(new_size_gb).as_str()).concat(
                    " GiB) must be larger than current size (",
                ).concat(decimal_text(current_size / BYTES_PER_GIB).as_str()).concat(" GiB)"),
            ),
        );
    }
    Ok(new_size_bytes)
}

/// An expansion never shrinks an image and never leaves it as it is.
pub proof fn expansion_grows(current_size: u64, new_size_gb: u64)
    requires
        new_size_gb <= MAX_DISK_GIB,
    ensures
        expanded_size(current_size, new_size_gb) matches Ok(n) ==> n > current_size,
        expanded_size(current_size, new_size_gb) is Err <==> new_size_gb * BYTES_PER_GIB
            <= current_size,
{
    gib_in_bytes_fit(new_size_gb);
}

/// The directories in which e2fsprogs tools are looked up, in order.
pub open spec fn tool_dirs() -> Seq<Seq<char>> {
    seq![
        "/opt/homebrew/opt/e2fsprogs/sbin"@,
        "/usr/local/opt/e2fsprogs/sbin"@,
        "/opt/homebrew/sbin"@,
        "/usr/local/sbin"@,
        "/sbin"@,
        "/usr/sbin"@,
    ]
}

/// The paths at which a tool is looked up.
pub open spec fn tool_paths(name: Seq<char>) -> Seq<Seq<char>> {
    Seq::new(tool_dirs().len(), |i: int| tool_dirs()[i] + "/"@ + name)
}

/// The paths at which an e2fsprogs tool is looked up, in order.
pub fn e2fsprogs_candidates(name: &str) -> (r: Vec<String>)
    ensures
        r.deep_view() == tool_paths(name@),
{
    let mut r: Vec<String> = Vec::new();
    r.push(String::from_str("/opt/homebrew/opt/e2fsprogs/sbin").concat("/").concat(name));
    r.push(String::from_str("/usr/local/opt/e2fsprogs/sbin").concat("/").concat(name));
    r.push(String::from_str("/opt/homebrew/sbin").concat("/").concat(name));
    r.push(String::from_str("/usr/local/sbin").concat("/").concat(name));
    r.push(String::from_str("/sbin").concat("/").concat(name));
    r.push(String::from_str("/usr/sbin").concat("/").concat(name));
    proof {
        assert(r.deep_view() =~= tool_paths(name@));
    }
    r
}

/// The first of some paths, from position `i` on, that exists.
pub open spec fn first_found(paths: Seq<Seq<char>>, exists_at: Seq<bool>, i: int) -> Option<Seq<char>>
    decreases paths.len() - i,
{
    if i >= paths.len() {
        None
    } else if exists_at[i] {
        Some(paths[i])
    } else {
        first_found(paths, exists_at, i + 1)
    }
}

/// The tool that is used: the first candidate that exists, else the tool by its name where
/// it answers on the search path.
pub open spec fn chosen_tool(
    name: Seq<char>,
    candidates: Seq<Seq<char>>,
    exists_at: Seq<bool>,
    on_path: bool,
) -> Option<Seq<char>> {
    match first_found(candidates, exists_at, 0) {
        Some(p) => Some(p),
        None => if on_path {
            Some(name)
        } else {
            None
        },
    }
}

/// A candidate that exists comes before the search path, which is used only where none does;
/// there is no tool only where neither has it.
pub proof fn existing_tools_come_before_the_search_path(
    name: Seq<char>,
    candidates: Seq<Seq<char>>,
    exists_at: Seq<bool>,
    on_path: bool,
)
    requires
        exists_at.len() == candidates.len(),
    ensures
        match chosen_tool(name, candidates, exists_at, on_path) {
            Some(p) => (exists|k: int|
                0 <= k < candidates.len() && #[trigger] exists_at[k] && candidates[k] == p) || (
            on_path && p == name && (forall|j: int|
                0 <= j < candidates.len() ==> !#[trigger] exists_at[j])),
            None => !on_path && (forall|j: int|
                0 <= j < candidates.len() ==> !#[trigger] exists_at[j]),
        },
{
    the_first_existing_path_is_found(candidates, exists_at, 0);
}

/// Choose an e2fsprogs tool: the first candidate that exists, else the tool by its
/// name where it answers on the search path.
pub fn find_e2fsprogs_tool(name: &str, candidates: &Vec<String>, exists_at: &Vec<bool>, on_path: bool) -> (r:
    Option<String>)
    requires
        exists_at@.len() == candidates@.len(),
    ensures
        r.deep_view() == chosen_tool(name@, candidates.deep_view(), exists_at@, on_path),
{
    let mut i: usize = 0;
    while i < candidates.len()
        invariant
            i <= candidates@.len(),
            exists_at@.len() == candidates@.len(),
            first_found(candidates.deep_view(), exists_at@, 0) == first_found(
                candidates.deep_view(),
                exists_at@,
                i as int,
            ),
        decreases candidates@.len() - i,
    {
        if exists_at[i] {
            return Some(candidates[i].clone());
        }
        i = i + 1;
    }
    if on_path {
        Some(name.to_owned())
    } else {
        None
    }
}

/// The arguments that format an image as ext4 without a journal and without reserved
/// blocks, under a disk type's label.
pub open spec fn mkfs_arguments(label: Seq<char>, path: Seq<char>) -> Seq<Seq<char>> {
    seq!["-F"@, "-q"@, "-m"@, "0"@, "-O"@, "^has_journal"@, "-L"@, label, path]
}

/// The arguments of `mkfs.ext4` for a disk image of a type.
pub fn mkfs_args<D: DiskType>(path: &str) -> (r: Vec<String>)
    ensures
        r.deep_view() == mkfs_arguments(D::VOLUME_LABEL@, path@),
{
    let mut r: Vec<String> = Vec::new();
    r.push("-F".to_owned());
    r.push("-q".to_owned());
    r.push("-m".to_owned());
    r.push("0".to_owned());
    r.push("-O".to_owned());
    r.push("^has_journal".to_owned());
    r.push("-L".to_owned());
    r.push(D::VOLUME_LABEL.to_owned());
    r.push(path.to_owned());
    proof {
        assert(r.deep_view() =~= mkfs_arguments(D::VOLUME_LABEL@, path@));
    }
    r
}

/// The error for a missing `mkfs.ext4`, with a hint how to install it.
pub fn mkfs_missing_error<D: DiskType>(macos: bool) -> (r: Error)
    ensures
        r@ == (ErrorView::Storage {
            operation: "find mkfs.ext4"@,
            reason: "mkfs.ext4 not found - required for "@ + D::NAME@ + " disk formatting.\n  "@ + (
            if macos {
                "On macOS, install with: brew install e2fsprogs"@
            } else {
                "On Linux, install with: apt install e2fsprogs (or equivalent)"@
            }),
        }),
{
    let hint = if macos {
        "On macOS, install with: brew install e2fsprogs"
    } else {
        "On Linux, install with: apt install e2fsprogs (or equivalent)"
    };
    Error::storage(
        "find mkfs.ext4",
        String::from_str("mkfs.ext4 not found - required for ").concat(D::NAME).concat(
            " disk formatting.\n  ",
        ).concat(hint),
    )
}

/// An expanded image has the size that was asked for, at 2^30 bytes a GiB.
pub proof fn expansions_reach_the_size_asked_for(current_size: u64, new_size_gb: u64)
    requires
        new_size_gb <= MAX_DISK_GIB,
        new_size_gb * 1_073_741_824 > current_size,
    ensures
        expanded_size(current_size, new_size_gb) matches Ok(n) && n == new_size_gb * 1_073_741_824,
{
    gib_in_bytes_fit(new_size_gb);
}

/// The path that is found exists and none before it does; nothing is found only where none
/// exists.
pub proof fn the_first_existing_path_is_found(paths: Seq<Seq<char>>, exists_at: Seq<bool>, i: int)
    requires
        exists_at.len() == paths.len(),
        0 <= i <= paths.len(),
    ensures
        match first_found(paths, exists_at, i) {
            Some(p) => exists|k: int|
                i <= k < paths.len() && #[trigger] exists_at[k] && paths[k] == p && (forall|j: int|
                    i <= j < k ==> !#[trigger] exists_at[j]),
            None => forall|j: int| i <= j < paths.len() ==> !#[trigger] exists_at[j],
        },
    decreases paths.len() - i,
{
    if i < paths.len() && !exists_at[i] {
        the_first_existing_path_is_found(paths, exists_at, i + 1);
    }
}

/// A tool is looked up by its name in each of the directories, in their order.
pub proof fn tools_are_looked_up_in_every_directory(name: Seq<char>, i: int)
    requires
        0 <= i < tool_dirs().len(),
    ensures
        tool_paths(name).len() == tool_dirs().len(),
        tool_paths(name)[i] == tool_dirs()[i] + "/"@ + name,
{
}

/// Formatting is about the image at the end of the arguments, which gets the label.
pub proof fn images_are_formatted_under_their_label(label: Seq<char>, path: Seq<char>)
    ensures
        mkfs_arguments(label, path).last() == path,
        exists|i: int|
            0 <= i && i + 2 < mkfs_arguments(label, path).len() && #[trigger] mkfs_arguments(
                label,
                path,
            )[i] == "-L"@ && mkfs_arguments(label, path)[i + 1] == label,
{
    assert(mkfs_arguments(label, path)[6] == "-L"@);
    assert(mkfs_arguments(label, path)[7] == label);
}

/// An image that would not grow is refused, with both sizes in GiB.
pub proof fn refused_expansions_name_both_sizes(current_size: u64, new_size_gb: u64)
    requires
        new_size_gb * 1_073_741_824 <= current_size,
    ensures
        expanded_size(current_size, new_size_gb) == Err::<u64, ErrorView>(
            ErrorView::Storage {
                operation: "expand disk"@,
                reason: "new size ("@ + decimal(new_size_gb as nat)
                    + " GiB) must be larger than current size ("@ + decimal(
                    (current_size / 1_073_741_824) as nat,
                ) + " GiB)"@,
            },
        ),
{
}

} // verus!
