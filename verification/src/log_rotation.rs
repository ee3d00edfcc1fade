//! Log rotation for machine console logs.
//!
//! Rotated logs follow the pattern: `filename.1`, `filename.2`, etc.
use vstd::prelude::*;
use vstd::string::*;

use crate::data::consts::BYTES_PER_MIB;

verus! {

/// Maximum log file size before rotation (10 MB).
pub const MAX_LOG_SIZE: u64 = 10 * BYTES_PER_MIB;

/// Maximum number of rotated log files to keep.
pub const MAX_LOG_FILES: usize = 3;

/// The path of a rotated log.
pub open spec fn rotated_path(log: Seq<char>, i: int) -> Seq<char> {
    log + (if i == 1 {
        ".1"@
    } else if i == 2 {
        ".2"@
    } else {
        ".3"@
    })
}

/// Whether a log has outgrown the limit.
pub open spec fn outgrown(size: Option<u64>) -> bool {
    size matches Some(n) && n > MAX_LOG_SIZE
}

/// A log is rotated once it holds more than ten mebibytes; a missing one never is.
pub proof fn large_logs_are_rotated(n: u64)
    ensures
        outgrown(Some(n)) <==> n > 10_485_760,
        !outgrown(None),
{
}

/// Whether a log is rotated, given its size where it exists: when it is larger than
/// the limit.
pub fn rotate_if_needed(size: Option<u64>) -> (r: bool)
    ensures
        r == outgrown(size),
{
    match size {
        Some(n) => n > MAX_LOG_SIZE,
        None => false,
    }
}

/// One operation on files.
#[derive(Debug)]
pub enum FileOp {
    /// Remove a file.
    Remove(String),
    /// Rename a file.
    Rename(String, String),
}

/// The mathematical value of a [`FileOp`].
pub enum FileOpView {
    /// See [`FileOp::Remove`].
    Remove(Seq<char>),
    /// See [`FileOp::Rename`].
    Rename(Seq<char>, Seq<char>),
}

impl View for FileOp {
    type V = FileOpView;

    open spec fn view(&self) -> FileOpView {
        match self {
            FileOp::Remove(p) => FileOpView::Remove(p@),
            FileOp::Rename(a, b) => FileOpView::Rename(a@, b@),
        }
    }
}

impl DeepView for FileOp {
    type V = FileOpView;

    open spec fn deep_view(&self) -> FileOpView {
        self@
    }
}

/// Files by path.
pub type Files = Map<Seq<char>, Seq<u8>>;

/// Files after an operation.
pub open spec fn after_op(files: Files, op: FileOpView) -> Files {
    match op {
        FileOpView::Remove(p) => files.remove(p),
        FileOpView::Rename(a, b) => files.remove(a).insert(b, files[a]),
    }
}

/// Files after a list of operations.
pub open spec fn after_ops(files: Files, ops: Seq<FileOpView>) -> Files
    decreases ops.len(),
{
    if ops.len() == 0 {
        files
    } else {
        after_op(after_ops(files, ops.drop_last()), ops.last())
    }
}

/// A list of one operation, or none.
pub open spec fn op_if(on: bool, op: FileOpView) -> Seq<FileOpView> {
    if on {
        seq![op]
    } else {
        Seq::empty()
    }
}

/// The operations that rotate a log, given which rotated logs exist: the oldest is
/// removed, the others move up by one, and the log becomes the first.
pub open spec fn rotation(log: Seq<char>, has1: bool, has2: bool, has3: bool) -> Seq<FileOpView> {
    op_if(has3, FileOpView::Remove(rotated_path(log, 3))) + op_if(
        has2,
        FileOpView::Rename(rotated_path(log, 2), rotated_path(log, 3)),
    ) + op_if(has1, FileOpView::Rename(rotated_path(log, 1), rotated_path(log, 2))) + seq![
        FileOpView::Rename(log, rotated_path(log, 1)),
    ]
}

fn rotated(log: &str, suffix: &str) -> (r: String)
    ensures
        r@ == log@ + suffix@,
{
    log.to_owned().concat(suffix)
}

/// The operations that rotate a log, given which rotated logs exist.
pub fn rotate(log: &str, has1: bool, has2: bool, has3: bool) -> (r: Vec<FileOp>)
    ensures
        r.deep_view() == rotation(log@, has1, has2, has3),
{
    let mut r: Vec<FileOp> = Vec::new();
    if has3 {
        r.push(FileOp::Remove(rotated(log, ".3")));
    }
    proof {
        assert(r.deep_view() =~= op_if(has3, FileOpView::Remove(rotated_path(log@, 3))));
    }
    let ghost a = r.deep_view();
    if has2 {
        r.push(FileOp::Rename(rotated(log, ".2"), rotated(log, ".3")));
    }
    proof {
        assert(r.deep_view() =~= a + op_if(
            has2,
            FileOpView::Rename(rotated_path(log@, 2), rotated_path(log@, 3)),
        ));
    }
    let ghost b = r.deep_view();
    if has1 {
        r.push(FileOp::Rename(rotated(log, ".1"), rotated(log, ".2")));
    }
    proof {
        assert(r.deep_view() =~= b + op_if(
            has1,
            FileOpView::Rename(rotated_path(log@, 1), rotated_path(log@, 2)),
        ));
    }
    r.push(FileOp::Rename(log.to_owned(), rotated(log, ".1")));
    proof {
        assert(r.deep_view() =~= rotation(log@, has1, has2, has3));
    }
    r
}

/// The paths of a log and its rotated logs differ.
pub proof fn log_paths_differ(log: Seq<char>)
    ensures
        log != rotated_path(log, 1),
        log != rotated_path(log, 2),
        log != rotated_path(log, 3),
        rotated_path(log, 1) != rotated_path(log, 2),
        rotated_path(log, 1) != rotated_path(log, 3),
        rotated_path(log, 2) != rotated_path(log, 3),
{
    reveal_strlit(".1");
    reveal_strlit(".2");
    reveal_strlit(".3");
    let n = log.len() as int;
    assert(rotated_path(log, 1)[n + 1] == '1');
    assert(rotated_path(log, 2)[n + 1] == '2');
    assert(rotated_path(log, 3)[n + 1] == '3');
    assert(rotated_path(log, 1).len() == n + 2);
    assert(rotated_path(log, 2).len() == n + 2);
    assert(rotated_path(log, 3).len() == n + 2);
}

/// Rotation moves the log to `.1`, `.1` to `.2` and `.2` to `.3`, drops what was in
/// `.3`, and touches no other file.
pub proof fn rotation_shifts_logs(files: Files, log: Seq<char>, other: Seq<char>)
    requires
        files.dom().contains(log),
    ensures
        ({
            let p1 = rotated_path(log, 1);
            let p2 = rotated_path(log, 2);
            let p3 = rotated_path(log, 3);
            let has1 = files.dom().contains(p1);
            let has2 = files.dom().contains(p2);
            let has3 = files.dom().contains(p3);
            let after = after_ops(files, rotation(log, has1, has2, has3));
            &&& !after.dom().contains(log)
            &&& after.dom().contains(p1) && after[p1] == files[log]
            &&& after.dom().contains(p2) == has1 && (has1 ==> after[p2] == files[p1])
            &&& after.dom().contains(p3) == has2 && (has2 ==> after[p3] == files[p2])
            &&& other != log && other != p1 && other != p2 && other != p3 ==> (
            after.dom().contains(other) == files.dom().contains(other) && (files.dom().contains(
                other,
            ) ==> after[other] == files[other]))
        }),
{
    let p1 = rotated_path(log, 1);
    let p2 = rotated_path(log, 2);
    let p3 = rotated_path(log, 3);
    let has1 = files.dom().contains(p1);
    let has2 = files.dom().contains(p2);
    let has3 = files.dom().contains(p3);
    log_paths_differ(log);
    let a = op_if(has3, FileOpView::Remove(p3));
    let b = op_if(has2, FileOpView::Rename(p2, p3));
    let c = op_if(has1, FileOpView::Rename(p1, p2));
    let d = FileOpView::Rename(log, p1);
    let fa = if has3 {
        files.remove(p3)
    } else {
        files
    };
    let fb = if has2 {
        after_op(fa, FileOpView::Rename(p2, p3))
    } else {
        fa
    };
    let fc = if has1 {
        after_op(fb, FileOpView::Rename(p1, p2))
    } else {
        fb
    };
    reveal_with_fuel(after_ops, 2);
    assert(Seq::<FileOpView>::empty() =~= a.drop_last() || !has3);
    assert(after_ops(files, a) == fa);
    assert(after_ops(files, a + b) == fb) by {
        if has2 {
            assert((a + b).drop_last() =~= a);
            assert((a + b).last() == FileOpView::Rename(p2, p3));
        } else {
            assert(a + b =~= a);
        }
    }
    assert(after_ops(files, a + b + c) == fc) by {
        if has1 {
            assert((a + b + c).drop_last() =~= a + b);
            assert((a + b + c).last() == FileOpView::Rename(p1, p2));
        } else {
            assert(a + b + c =~= a + b);
        }
    }
    let all = rotation(log, has1, has2, has3);
    assert(all.drop_last() =~= a + b + c);
    assert(all.last() == d);
}

/// The files of a log: the current one and the rotated ones.
pub open spec fn log_file_paths(log: Seq<char>) -> Seq<Seq<char>> {
    seq![log, rotated_path(log, 1), rotated_path(log, 2), rotated_path(log, 3)]
}

/// The files of a log: the current one and the rotated ones. These are what a
/// clean-up removes, where they exist.
pub fn log_files(log: &str) -> (r: Vec<String>)
    ensures
        r.deep_view() == log_file_paths(log@),
{
    let mut r: Vec<String> = Vec::new();
    r.push(log.to_owned());
    r.push(rotated(log, ".1"));
    r.push(rotated(log, ".2"));
    r.push(rotated(log, ".3"));
    proof {
        assert(r.deep_view() =~= log_file_paths(log@));
    }
    r
}

/// The size of a file, or nothing for one that is missing.
pub open spec fn size_of_file(size: Option<u64>) -> nat {
    match size {
        Some(n) => n as nat,
        None => 0,
    }
}

/// Get the total size of all log files (current + rotated), given the sizes of those
/// that exist.
pub fn total_log_size(current: Option<u64>, first: Option<u64>, second: Option<u64>, third: Option<u64>) -> (r:
    u64)
    requires
        size_of_file(current) + size_of_file(first) + size_of_file(second) + size_of_file(third)
            <= u64::MAX,
    ensures
        r == size_of_file(current) + size_of_file(first) + size_of_file(second) + size_of_file(
            third,
        ),
{
    current.unwrap_or(0) + first.unwrap_or(0) + second.unwrap_or(0) + third.unwrap_or(0)
}

/// The files of a log are the log itself and the three rotated ones, each once, named by
/// the log, a dot and a number.
pub proof fn log_files_are_all_of_them(log: Seq<char>)
    ensures
        log_file_paths(log).len() == 4,
        log_file_paths(log)[0] == log,
        log_file_paths(log)[1] == log + ".1"@,
        log_file_paths(log)[2] == log + ".2"@,
        log_file_paths(log)[3] == log + ".3"@,
{
}

} // verus!
