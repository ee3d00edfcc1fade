//! Disk images of machines.
use vstd::prelude::*;
use vstd::string::*;

use crate::data::consts::{gib_in_bytes_fit, BYTES_PER_GIB};
use crate::data::disk::{DiskType, Storage};
use crate::error::{config_error, outcome, Error, ErrorView};
use crate::path::{join_path, joined_path, path_with_extension, with_extension};
use crate::util::{current_timestamp, is_timestamp};

verus! {

/// Disk format version info (stored at `/.smolvm/version.json` in the disk).
#[derive(Debug)]
pub struct DiskVersion {
    /// Format version (currently: 1).
    pub format_version: u32,
    /// Timestamp when the disk was created.
    pub created_at: String,
    /// Digest of the base rootfs image.
    pub base_digest: String,
    /// smolvm version that created this disk.
    pub smolvm_version: String,
}

/// Current disk format version.
pub const CURRENT_VERSION: u32 = 1;

impl DiskVersion {
    /// Create a new disk version with current settings.
    pub fn new(base_digest: &str) -> (r: DiskVersion)
        ensures
            r.format_version == CURRENT_VERSION,
            is_timestamp(r.created_at@),
            r.base_digest@ == base_digest@,
            r.smolvm_version@ == crate::VERSION@,
    {
        DiskVersion {
            format_version: CURRENT_VERSION,
            created_at: current_timestamp(),
            base_digest: base_digest.to_owned(),
            smolvm_version: crate::VERSION.to_owned(),
        }
    }

    /// Check if this version is compatible with the current smolvm: a disk of a
    /// later format is not.
    pub fn is_compatible(&self) -> (r: bool)
        ensures
            r == (self.format_version <= CURRENT_VERSION),
    {
        self.format_version <= CURRENT_VERSION
    }
}

/// Shared disk implementation for storage and overlay disks.
#[derive(Debug)]
pub struct VmDisk<K> {
    path: String,
    size_bytes: u64,
    _kind: core::marker::PhantomData<K>,
}

/// How a disk comes to be formatted.
#[derive(Debug)]
pub enum FormatAction {
    /// It is formatted already.
    Nothing,
    /// Copy this template and extend it to so many bytes.
    CopyTemplate {
        /// Path of the template.
        template: String,
        /// Size of the disk.
        size_bytes: u64,
    },
    /// Run mkfs.
    Mkfs,
}

/// The largest disk size in GiB whose size in bytes fits 64 bits.
pub const MAX_DISK_GIB: u64 = 0x3_ffff_ffff;

/// Whether a disk needs to be formatted, given whether its marker and its image exist.
pub open spec fn unformatted(marker_exists: bool, disk_exists: bool) -> bool {
    !(marker_exists && disk_exists)
}

/// The mathematical value of a [`FormatAction`].
pub enum FormatActionView {
    /// See [`FormatAction::Nothing`].
    Nothing,
    /// See [`FormatAction::CopyTemplate`].
    CopyTemplate { template: Seq<char>, size_bytes: u64 },
    /// See [`FormatAction::Mkfs`].
    Mkfs,
}

/// The value of an action.
pub open spec fn format_view(a: FormatAction) -> FormatActionView {
    match a {
        FormatAction::Nothing => FormatActionView::Nothing,
        FormatAction::CopyTemplate { template, size_bytes } => FormatActionView::CopyTemplate {
            template: template@,
            size_bytes,
        },
        FormatAction::Mkfs => FormatActionView::Mkfs,
    }
}

/// How a disk comes to be formatted, where it needs to be: by a copy of a template, else
/// by mkfs.
pub open spec fn format_plan(needs_format: bool, template: Option<Seq<char>>, size_bytes: u64) -> FormatActionView {
    if !needs_format {
        FormatActionView::Nothing
    } else {
        match template {
            Some(t) => FormatActionView::CopyTemplate { template: t, size_bytes },
            None => FormatActionView::Mkfs,
        }
    }
}

/// Whether marker and image exist after an action succeeded: a copy and mkfs leave an
/// image, and the marker is written behind them.
pub open spec fn after_format(a: FormatActionView, marker_exists: bool, disk_exists: bool) -> (bool, bool) {
    match a {
        FormatActionView::Nothing => (marker_exists, disk_exists),
        _ => (true, true),
    }
}

/// Once a disk was formatted, it needs no format, and formatting it again does nothing.
pub proof fn formatting_is_done_once(
    marker_exists: bool,
    disk_exists: bool,
    template: Option<Seq<char>>,
    later_template: Option<Seq<char>>,
    size_bytes: u64,
)
    ensures
        ({
            let first = format_plan(unformatted(marker_exists, disk_exists), template, size_bytes);
            let (marker, disk) = after_format(first, marker_exists, disk_exists);
            &&& !unformatted(marker, disk)
            &&& format_plan(unformatted(marker, disk), later_template, size_bytes)
                == FormatActionView::Nothing
            &&& after_format(FormatActionView::Nothing, marker, disk) == (marker, disk)
        }),
{
}

/// Only a disk whose marker and image both exist is left as it is. Any other is formatted,
/// from the template where there is one, at its own size, and else by mkfs.
pub proof fn disks_are_formatted_where_they_need_it(
    marker_exists: bool,
    disk_exists: bool,
    template: Option<Seq<char>>,
    size_bytes: u64,
)
    ensures
        ({
            let plan = format_plan(unformatted(marker_exists, disk_exists), template, size_bytes);
            &&& plan is Nothing <==> marker_exists && disk_exists
            &&& !(plan is Nothing) ==> (template matches Some(t) ==> plan == (
            FormatActionView::CopyTemplate { template: t, size_bytes }))
            &&& !(plan is Nothing) && template is None ==> plan is Mkfs
        }),
{
}

/// The size of a disk that is opened or made: an image that exists keeps its length, and a
/// new one gets the size asked for, in GiB.
pub open spec fn disk_len(existing_len: Option<u64>, size_gb: u64) -> int {
    match existing_len {
        Some(n) => n as int,
        None => size_gb * BYTES_PER_GIB,
    }
}

/// Opening a disk never changes its length, and a new disk has 2^30 bytes for each GiB.
pub proof fn disks_keep_or_get_their_size(len: u64, size_gb: u64)
    ensures
        disk_len(Some(len), size_gb) == len,
        disk_len(None, size_gb) == size_gb * 1_073_741_824,
{
}

impl<K: DiskType> VmDisk<K> {
    /// The path of the disk image.
    pub closed spec fn spec_path(&self) -> Seq<char> {
        self.path@
    }

    /// The size of the disk in bytes.
    pub closed spec fn spec_size(&self) -> u64 {
        self.size_bytes
    }

    /// Get the default path for the disk, below the user's data directory.
    pub fn default_path(data_dir: Option<String>) -> (r: Result<String, Error>)
        ensures
            match data_dir {
                Some(d) => r matches Ok(p) && p@ == joined_path(
                    joined_path(d@, "smolvm"@),
                    K::DEFAULT_FILENAME@,
                ),
                None => r matches Err(e) && e@ == (ErrorView::Storage {
                    operation: "resolve "@ + K::NAME@ + " path"@,
                    reason: "could not determine data directory"@,
                }),
            },
    {
        match data_dir {
            Some(d) => Ok(
                join_path(join_path(d.as_str(), "smolvm").as_str(), K::DEFAULT_FILENAME),
            ),
            None => {
                let operation = String::from_str("resolve ").concat(K::NAME).concat(" path");
                Err(
                    Error::storage(
                        operation.as_str(),
                        String::from_str("could not determine data directory"),
                    ),
                )
            },
        }
    }

    /// Open the disk at a path, or plan its creation: an image that exists keeps its
    /// length; a new one gets the size asked for. The flag says whether the image
    /// has to be created. A size of zero is refused.
    pub fn open_or_create_at(path: &str, size_gb: u64, existing_len: Option<u64>) -> (r: Result<
        (VmDisk<K>, bool),
        Error,
    >)
        requires
            size_gb <= MAX_DISK_GIB,
        ensures
            if size_gb == 0 {
                r matches Err(e) && e@ == config_error(
                    "validate "@ + K::NAME@ + " size"@,
                    "disk size must be greater than 0 GiB"@,
                )
            } else {
                r matches Ok(d) && d.0.spec_path() == path@ && d.1 == (existing_len is None)
                    && d.0.spec_size() == disk_len(existing_len, size_gb)
            },
    {
        if size_gb == 0 {
            let operation = String::from_str("validate ").concat(K::NAME).concat(" size");
            return Err(
                Error::config(
                    operation.as_str(),
                    String::from_str("disk size must be greater than 0 GiB"),
                ),
            );
        }
        proof {
            gib_in_bytes_fit(size_gb);
        }
        let size_bytes: u64 = size_gb * BYTES_PER_GIB;
        match existing_len {
            Some(n) => Ok(
                (
                    VmDisk {
                        path: path.to_owned(),
                        size_bytes: n,
                        _kind: core::marker::PhantomData,
                    },
                    false,
                ),
            ),
            None => Ok(
                (
                    VmDisk { path: path.to_owned(), size_bytes, _kind: core::marker::PhantomData },
                    true,
                ),
            ),
        }
    }

    /// Open or plan the disk of the default size at a path.
    pub fn open_or_create(path: &str, existing_len: Option<u64>) -> (r: Result<
        (VmDisk<K>, bool),
        Error,
    >)
        requires
            0 < K::DEFAULT_SIZE_GIB <= MAX_DISK_GIB,
        ensures
            r matches Ok(d) && d.0.spec_path() == path@ && d.1 == (existing_len is None)
                && d.0.spec_size() == disk_len(existing_len, K::DEFAULT_SIZE_GIB),
    {
        VmDisk::open_or_create_at(path, K::DEFAULT_SIZE_GIB, existing_len)
    }

    /// Say how the disk comes to be formatted: by a copy of a template, which needs
    /// no tools, else by mkfs.
    pub fn ensure_formatted(&self, needs_format: bool, template: Option<String>) -> (r: FormatAction)
        ensures
            format_view(r) == format_plan(needs_format, template.deep_view(), self.spec_size() as u64),
    {
        if !needs_format {
            return FormatAction::Nothing;
        }
        match template {
            Some(t) => FormatAction::CopyTemplate { template: t, size_bytes: self.size_bytes },
            None => FormatAction::Mkfs,
        }
    }

    /// Get the path to the disk image.
    pub fn path(&self) -> (r: &str)
        ensures
            r@ == self.spec_path(),
    {
        self.path.as_str()
    }

    /// Get the disk size in bytes.
    pub fn size_bytes(&self) -> (r: u64)
        ensures
            r == self.spec_size(),
    {
        self.size_bytes
    }

    /// Get the disk size in GiB.
    pub fn size_gib(&self) -> (r: u64)
        ensures
            r == self.spec_size() as int / BYTES_PER_GIB as int,
    {
        self.size_bytes / BYTES_PER_GIB
    }

    /// Check if the disk needs to be formatted, given whether its marker and its
    /// image exist: it does not where both do. The second flag says whether a marker
    /// is left over and has to be removed.
    pub fn needs_format(&self, marker_exists: bool, disk_exists: bool) -> (r: (bool, bool))
        ensures
            r.0 == unformatted(marker_exists, disk_exists),
            r.1 == (marker_exists && !disk_exists),
    {
        if !marker_exists {
            return (true, false);
        }
        if !disk_exists {
            return (true, true);
        }
        (false, false)
    }

    /// The path of the marker file that says that the disk is formatted.
    pub fn marker_path(&self) -> (r: String)
        ensures
            r@ == path_with_extension(self.spec_path(), "formatted"@),
    {
        proof {
            reveal_strlit("formatted");
        }
        with_extension(self.path.as_str(), "formatted")
    }
}

impl VmDisk<Storage> {
    /// Open or plan the storage disk with a custom size.
    pub fn open_or_create_with_size(path: &str, size_gb: u64, existing_len: Option<u64>) -> (r: Result<
        (VmDisk<Storage>, bool),
        Error,
    >)
        requires
            size_gb <= MAX_DISK_GIB,
        ensures
            r is Err <==> size_gb == 0,
            r matches Ok(d) ==> d.0.spec_path() == path@ && d.1 == (existing_len is None)
                && d.0.spec_size() == disk_len(existing_len, size_gb),
    {
        VmDisk::open_or_create_at(path, size_gb, existing_len)
    }
}

/// Shared storage disk for OCI layers.
pub type StorageDisk = VmDisk<Storage>;

/// Persistent rootfs overlay disk.
pub type OverlayDisk = VmDisk<crate::data::disk::Overlay>;

/// Plan the expansion of a disk image of a type: the size in bytes that it gets.
pub fn expand_disk<D: DiskType>(current_size: u64, new_size_gb: u64) -> (r: Result<u64, Error>)
    requires
        new_size_gb <= MAX_DISK_GIB,
    ensures
        outcome(r) == crate::disk_utils::expanded_size(current_size, new_size_gb),
{
    crate::disk_utils::expand_sparse_disk(current_size, new_size_gb)
}

} // verus!
