//! Disk images and rotated logs.
use std::collections::BTreeMap;

use smolvm::data::consts::BYTES_PER_GIB;
use smolvm::data::disk::{Overlay, Storage};
use smolvm::data::storage::{OVERLAY_DISK_FILENAME, STORAGE_DISK_FILENAME};
use smolvm::disk_utils::{
    e2fsprogs_candidates, expand_sparse_disk, find_e2fsprogs_tool, last_byte_offset, mkfs_args,
    mkfs_missing_error, template_extension,
};
use smolvm::error::Error;
use smolvm::log_rotation::{
    log_files, rotate, rotate_if_needed, total_log_size, FileOp, MAX_LOG_SIZE,
};
use smolvm::storage::{expand_disk, DiskVersion, FormatAction, OverlayDisk, StorageDisk};

fn reason(e: &Error) -> String {
    match e {
        Error::Config { reason, .. }
        | Error::Agent { reason, .. }
        | Error::Storage { reason, .. }
        | Error::Mount { reason, .. } => reason.clone(),
        other => panic!("unexpected error {:?}", other),
    }
}

#[test]
fn test_disk_version_compatibility() {
    let version = DiskVersion::new("sha256:abc123");
    assert!(version.is_compatible());

    let future_version = DiskVersion {
        format_version: 999,
        created_at: "0".to_string(),
        base_digest: "sha256:abc123".to_string(),
        smolvm_version: "99.0.0".to_string(),
    };
    assert!(!future_version.is_compatible());
}

#[test]
fn test_storage_disk_create_and_delete() {
    let (disk, create) = StorageDisk::open_or_create_at("/d/test_storage.raw", 1, None).unwrap();

    assert!(create);
    assert_eq!(disk.size_gib(), 1);
    assert_eq!(disk.path(), "/d/test_storage.raw");
    assert_eq!(disk.marker_path(), "/d/test_storage.formatted");
    assert_eq!(disk.needs_format(false, true), (true, false));
    assert_eq!(disk.needs_format(true, true), (false, false));
}

#[test]
fn test_default_paths_use_expected_filenames() {
    let data_dir = Some("/home/u/.local/share".to_string());
    assert_eq!(
        StorageDisk::default_path(data_dir.clone())
            .unwrap()
            .rsplit('/')
            .next()
            .unwrap(),
        STORAGE_DISK_FILENAME
    );
    assert_eq!(
        OverlayDisk::default_path(data_dir)
            .unwrap()
            .rsplit('/')
            .next()
            .unwrap(),
        OVERLAY_DISK_FILENAME
    );
    assert!(StorageDisk::default_path(None).is_err());
}

#[test]
fn test_corruption_detection() {
    let len = Some(BYTES_PER_GIB);
    let (disk, create) =
        StorageDisk::open_or_create_at("/d/corrupt_storage.raw", 1, len).unwrap();
    assert!(!create);
    assert_eq!(disk.needs_format(true, true), (false, false));
    // A marker without its disk is stale: it goes, and the disk is formatted.
    assert_eq!(disk.needs_format(true, false), (true, true));
}

#[test]
fn test_overlay_disk_create_and_delete() {
    let (disk, create) = OverlayDisk::open_or_create_at("/d/test_overlay.raw", 1, None).unwrap();
    assert!(create);
    assert_eq!(disk.needs_format(false, true), (true, false));
    assert_eq!(disk.needs_format(true, true), (false, false));
}

#[test]
fn test_overlay_disk_zero_size_rejected() {
    assert!(OverlayDisk::open_or_create_at("/d/zero_overlay.raw", 0, None).is_err());
}

#[test]
fn test_overlay_disk_ensure_formatted() {
    let (disk, _) = OverlayDisk::open_or_create_at("/d/fmt_overlay.raw", 1, None).unwrap();
    assert!(matches!(disk.ensure_formatted(true, None), FormatAction::Mkfs));
    assert!(matches!(
        disk.ensure_formatted(false, None),
        FormatAction::Nothing
    ));
    match disk.ensure_formatted(true, Some("/t/overlay.ext4".to_string())) {
        FormatAction::CopyTemplate {
            template,
            size_bytes,
        } => {
            assert_eq!(template, "/t/overlay.ext4");
            assert_eq!(size_bytes, BYTES_PER_GIB);
        }
        other => panic!("unexpected action {:?}", other),
    }
}

#[test]
fn test_typed_expand_updates_cached_size() {
    let (_disk, _) = StorageDisk::open_or_create_at("/d/typed_expand_test.raw", 1, None).unwrap();
    let len = expand_disk::<Storage>(BYTES_PER_GIB, 2).unwrap();

    let (disk, _) =
        StorageDisk::open_or_create_at("/d/typed_expand_test.raw", 2, Some(len)).unwrap();
    assert_eq!(disk.size_gib(), 2);
    assert_eq!(len, 2 * BYTES_PER_GIB);
}

#[test]
fn test_expand_disk_basic() {
    let initial_size = BYTES_PER_GIB;
    assert_eq!(
        expand_disk::<Storage>(initial_size, 2).unwrap(),
        2 * BYTES_PER_GIB
    );
}

#[test]
fn test_expand_disk_reject_shrink() {
    let initial_size = 10 * BYTES_PER_GIB;
    let result = expand_disk::<Storage>(initial_size, 5);
    assert!(result.is_err());
    let err = result.unwrap_err();
    assert!(reason(&err).contains("must be larger"));
}

#[test]
fn test_expand_disk_same_size_rejected() {
    let initial_size = 10 * BYTES_PER_GIB;
    let result = expand_disk::<Storage>(initial_size, 10);
    assert!(result.is_err());
}

#[test]
fn existing_disk_keeps_its_size() {
    let (disk, create) =
        StorageDisk::open_or_create_with_size("/d/a.raw", 5, Some(7 * BYTES_PER_GIB)).unwrap();
    assert!(!create);
    assert_eq!(disk.size_bytes(), 7 * BYTES_PER_GIB);
    let (disk, create) = OverlayDisk::open_or_create("/d/b.raw", None).unwrap();
    assert!(create);
    assert_eq!(disk.size_gib(), 10);
}

#[test]
fn sparse_files_end_with_their_last_byte() {
    assert_eq!(last_byte_offset(10), 9);
    assert_eq!(template_extension(5, 10), Some(10));
    assert_eq!(template_extension(10, 10), None);
    assert_eq!(
        expand_sparse_disk(BYTES_PER_GIB, 3).unwrap(),
        3 * BYTES_PER_GIB
    );
    assert!(expand_sparse_disk(BYTES_PER_GIB, 1).is_err());
}

#[test]
fn tools_are_found_in_order() {
    let candidates = e2fsprogs_candidates("mkfs.ext4");
    assert!(candidates.iter().all(|c| c.ends_with("/mkfs.ext4")));
    let mut exists = vec![false; candidates.len()];
    assert_eq!(
        find_e2fsprogs_tool("mkfs.ext4", &candidates, &exists, false),
        None
    );
    assert_eq!(
        find_e2fsprogs_tool("mkfs.ext4", &candidates, &exists, true).unwrap(),
        "mkfs.ext4"
    );
    let last = exists.len() - 1;
    exists[last] = true;
    assert_eq!(
        find_e2fsprogs_tool("mkfs.ext4", &candidates, &exists, false).unwrap(),
        candidates[last]
    );
    let args = mkfs_args::<Overlay>("/d/o.raw");
    assert_eq!(args.last().unwrap(), "/d/o.raw");
    assert_ne!(
        reason(&mkfs_missing_error::<Storage>(true)),
        reason(&mkfs_missing_error::<Storage>(false))
    );
}

/// Files by path; the operations are applied to it one after the other.
fn apply(files: &mut BTreeMap<String, String>, ops: Vec<FileOp>) {
    for op in ops {
        match op {
            FileOp::Remove(path) => {
                files.remove(&path).unwrap();
            }
            FileOp::Rename(from, to) => {
                let content = files.remove(&from).unwrap();
                assert!(files.insert(to, content).is_none());
            }
        }
    }
}

fn rotated(files: &mut BTreeMap<String, String>) {
    let has = |n: &str| files.contains_key(n);
    let ops = rotate(
        "test.log",
        has("test.log.1"),
        has("test.log.2"),
        has("test.log.3"),
    );
    apply(files, ops);
}

fn files(list: &[(&str, &str)]) -> BTreeMap<String, String> {
    list.iter()
        .map(|(p, c)| (p.to_string(), c.to_string()))
        .collect()
}

#[test]
fn test_no_rotation_needed() {
    assert!(!rotate_if_needed(Some(1000)));
}

#[test]
fn test_rotation_when_size_exceeded() {
    let mut dir = files(&[("test.log", "x")]);
    rotated(&mut dir);
    assert!(!dir.contains_key("test.log"));
    assert!(dir.contains_key("test.log.1"));
}

#[test]
fn test_rotation_chain() {
    let mut dir = files(&[
        ("test.log.1", "old1"),
        ("test.log.2", "old2"),
        ("test.log", "current"),
    ]);
    rotated(&mut dir);
    assert!(!dir.contains_key("test.log"));
    assert_eq!(dir["test.log.1"], "current");
    assert_eq!(dir["test.log.2"], "old1");
    assert_eq!(dir["test.log.3"], "old2");
}

#[test]
fn test_oldest_file_deleted() {
    let mut dir = files(&[
        ("test.log", "current"),
        ("test.log.1", "old1"),
        ("test.log.2", "old2"),
        ("test.log.3", "old3"),
    ]);
    rotated(&mut dir);
    assert_eq!(dir["test.log.3"], "old2");
    assert_eq!(dir.len(), 3);
}

#[test]
fn test_total_log_size() {
    assert_eq!(total_log_size(Some(5), Some(3), Some(2), None), 10);
}

#[test]
fn test_cleanup_logs() {
    assert_eq!(
        log_files("test.log"),
        vec!["test.log", "test.log.1", "test.log.2", "test.log.3"]
    );
}

#[test]
fn test_rotate_nonexistent_file() {
    assert!(!rotate_if_needed(None));
}

#[test]
fn logs_are_rotated_beyond_the_limit() {
    assert!(!rotate_if_needed(Some(MAX_LOG_SIZE)));
    assert!(rotate_if_needed(Some(MAX_LOG_SIZE + 1)));
}

#[test]
fn formatted_disks_are_left_alone() {
    let (disk, _) = OverlayDisk::open_or_create_at("/d/o.raw", 1, None).unwrap();
    let (needs, _) = disk.needs_format(false, true);
    assert!(matches!(
        disk.ensure_formatted(needs, None),
        FormatAction::Mkfs
    ));
    let (needs, stale) = disk.needs_format(true, true);
    assert!(!needs && !stale);
    assert!(matches!(
        disk.ensure_formatted(needs, Some("/t".to_string())),
        FormatAction::Nothing
    ));
}
