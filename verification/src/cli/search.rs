//! Where the files that packing needs are looked for.
use vstd::prelude::*;
use vstd::string::*;

use crate::cli::pack::first_existing;
use crate::error::{Error, ErrorView};
use crate::path::{join_path, joined_path};

verus! {

/// A directory's entry, where the directory is known.
pub open spec fn entry_of(dir: Option<Seq<char>>, name: Seq<char>) -> Seq<Seq<char>> {
    match dir {
        Some(d) => seq![joined_path(d, name)],
        None => Seq::empty(),
    }
}

/// A path, where it is known.
pub open spec fn known(path: Option<Seq<char>>) -> Seq<Seq<char>> {
    match path {
        Some(p) => seq![p],
        None => Seq::empty(),
    }
}

fn push_entry(list: &mut Vec<String>, dir: &Option<String>, name: &str)
    ensures
        final(list).deep_view() == old(list).deep_view() + entry_of(dir.deep_view(), name@),
{
    match dir {
        Some(d) => {
            list.push(join_path(d.as_str(), name));
            proof {
                assert(list.deep_view() =~= old(list).deep_view() + entry_of(dir.deep_view(), name@));
            }
        },
        None => {
            proof {
                assert(list.deep_view() =~= old(list).deep_view() + entry_of(dir.deep_view(), name@));
            }
        },
    }
}

fn push_known(list: &mut Vec<String>, path: &Option<String>)
    ensures
        final(list).deep_view() == old(list).deep_view() + known(path.deep_view()),
{
    match path {
        Some(p) => {
            list.push(p.clone());
            proof {
                assert(list.deep_view() =~= old(list).deep_view() + known(path.deep_view()));
            }
        },
        None => {
            proof {
                assert(list.deep_view() =~= old(list).deep_view() + known(path.deep_view()));
            }
        },
    }
}

fn push_path(list: &mut Vec<String>, path: &str)
    ensures
        final(list).deep_view() == old(list).deep_view() + seq![path@],
{
    list.push(path.to_owned());
    proof {
        assert(list.deep_view() =~= old(list).deep_view() + seq![path@]);
    }
}

/// The directories that may hold the hypervisor's library, in the order of search:
/// beside the executable, in the source tree, then where package managers put it.
pub open spec fn library_places(
    exe_dir: Option<Seq<char>>,
    exe_parent: Option<Seq<char>>,
    arch: Seq<char>,
) -> Seq<Seq<char>> {
    let platform_lib = "lib/linux-"@ + arch;
    entry_of(exe_dir, "lib"@) + entry_of(exe_parent, "lib"@) + entry_of(exe_parent, platform_lib)
        + seq!["lib"@] + seq!["./lib"@] + seq![platform_lib] + seq!["/opt/homebrew/lib"@]
        + seq!["/usr/local/lib"@]
}

/// List the directories that may hold the hypervisor's library, given the
/// executable's directory, the directory above it, and the machine architecture.
pub fn lib_dir_candidates(exe_dir: &Option<String>, exe_parent: &Option<String>, arch: &str) -> (r:
    Vec<String>)
    ensures
        r.deep_view() == library_places(exe_dir.deep_view(), exe_parent.deep_view(), arch@),
{
    let platform_lib = String::from_str("lib/linux-").concat(arch);
    let mut list: Vec<String> = Vec::new();
    push_entry(&mut list, exe_dir, "lib");
    proof {
        assert(list.deep_view() =~= entry_of(exe_dir.deep_view(), "lib"@));
    }
    push_entry(&mut list, exe_parent, "lib");
    push_entry(&mut list, exe_parent, platform_lib.as_str());
    push_path(&mut list, "lib");
    push_path(&mut list, "./lib");
    push_path(&mut list, platform_lib.as_str());
    push_path(&mut list, "/opt/homebrew/lib");
    push_path(&mut list, "/usr/local/lib");
    list
}

/// The places of the agent's root filesystem, in the order of search: the
/// environment's choice, the installed one, then beside the executable.
pub open spec fn rootfs_places(
    variable: Option<Seq<char>>,
    data_dir: Option<Seq<char>>,
    exe_dir: Option<Seq<char>>,
) -> Seq<Seq<char>> {
    known(variable) + entry_of(data_dir, "smolvm/agent-rootfs"@) + entry_of(
        exe_dir,
        "agent-rootfs"@,
    )
}

/// List the places of the agent's root filesystem.
pub fn rootfs_candidates(variable: &Option<String>, data_dir: &Option<String>, exe_dir: &Option<String>) -> (r:
    Vec<String>)
    ensures
        r.deep_view() == rootfs_places(
            variable.deep_view(),
            data_dir.deep_view(),
            exe_dir.deep_view(),
        ),
{
    let mut list: Vec<String> = Vec::new();
    push_known(&mut list, variable);
    proof {
        assert(list.deep_view() =~= known(variable.deep_view()));
    }
    push_entry(&mut list, data_dir, "smolvm/agent-rootfs");
    push_entry(&mut list, exe_dir, "agent-rootfs");
    list
}

/// The places of the program to embed, in the order of search: build outputs, the
/// distribution layout, the running program, then the user's data directory.
pub open spec fn program_places(
    exe_dir: Option<Seq<char>>,
    exe: Option<Seq<char>>,
    data_dir: Option<Seq<char>>,
) -> Seq<Seq<char>> {
    seq!["target/release/smolvm"@] + seq!["target/debug/smolvm"@] + entry_of(exe_dir, "smolvm-bin"@)
        + known(exe) + entry_of(data_dir, "smolvm/smolvm-bin"@)
}

/// List the places of the program to embed.
pub fn program_candidates(exe_dir: &Option<String>, exe: &Option<String>, data_dir: &Option<String>) -> (r:
    Vec<String>)
    ensures
        r.deep_view() == program_places(exe_dir.deep_view(), exe.deep_view(), data_dir.deep_view()),
{
    let mut list: Vec<String> = Vec::new();
    push_path(&mut list, "target/release/smolvm");
    proof {
        assert(list.deep_view() =~= seq!["target/release/smolvm"@]);
    }
    push_path(&mut list, "target/debug/smolvm");
    push_entry(&mut list, exe_dir, "smolvm-bin");
    push_known(&mut list, exe);
    push_entry(&mut list, data_dir, "smolvm/smolvm-bin");
    list
}

/// The places of a disk template, in the order of search: the user's installation,
/// then beside the executable.
pub fn template_candidates(home: &Option<String>, exe_dir: &Option<String>, filename: &str) -> (r: Vec<
    String,
>)
    ensures
        r.deep_view() == (match home.deep_view() {
            Some(h) => seq![joined_path(joined_path(h, ".smolvm"@), filename@)],
            None => Seq::empty(),
        }) + entry_of(exe_dir.deep_view(), filename@),
{
    let mut list: Vec<String> = Vec::new();
    let installed = match home {
        Some(h) => Some(join_path(join_path(h.as_str(), ".smolvm").as_str(), filename)),
        None => None,
    };
    push_known(&mut list, &installed);
    proof {
        assert(list.deep_view() =~= known(installed.deep_view()));
    }
    push_entry(&mut list, exe_dir, filename);
    list
}

/// The places of the guest's first program, in the order of search: the user's data
/// directories, then those of the system and of a package manager.
pub open spec fn init_krun_places(data_local_dir: Option<Seq<char>>, home: Option<Seq<char>>) -> Seq<Seq<char>> {
    entry_of(data_local_dir, "smolvm/init.krun"@) + entry_of(
        home,
        ".local/share/smolvm/init.krun"@,
    ) + seq!["/usr/local/share/smolvm/init.krun"@, "/opt/homebrew/share/smolvm/init.krun"@]
}

/// List the places of the guest's first program.
pub fn init_krun_candidates(data_local_dir: &Option<String>, home: &Option<String>) -> (r: Vec<String>)
    ensures
        r.deep_view() == init_krun_places(data_local_dir.deep_view(), home.deep_view()),
{
    let mut list: Vec<String> = Vec::new();
    push_entry(&mut list, data_local_dir, "smolvm/init.krun");
    proof {
        assert(list.deep_view() =~= entry_of(data_local_dir.deep_view(), "smolvm/init.krun"@));
    }
    push_entry(&mut list, home, ".local/share/smolvm/init.krun");
    let ghost before = list.deep_view();
    push_path(&mut list, "/usr/local/share/smolvm/init.krun");
    push_path(&mut list, "/opt/homebrew/share/smolvm/init.krun");
    proof {
        assert(list.deep_view() =~= before + seq![
            "/usr/local/share/smolvm/init.krun"@,
            "/opt/homebrew/share/smolvm/init.krun"@,
        ]);
    }
    list
}

/// How the guest's first program comes into a root filesystem.
#[derive(Debug)]
pub enum InitInjection {
    /// It is there already.
    Present,
    /// Copy it from here, and make it executable.
    CopyFrom(String),
}

/// The message for a first program that is nowhere to be found.
pub const NO_INIT_KRUN: &'static str = "init.krun not found. Please install smolvm-init or build from source. See https://github.com/smolvm/smolvm#init-krun for details.";

/// Decide how the guest's first program comes into a root filesystem: it is left alone
/// where it is there, else copied from the first candidate that exists; where none
/// does, that is an error.
pub fn inject_init_krun(present: bool, candidates: &Vec<(String, bool)>) -> (r: Result<
    InitInjection,
    Error,
>)
    ensures
        if present {
            r matches Ok(i) && i is Present
        } else {
            match first_existing(candidates.deep_view(), 0) {
                Some(p) => r matches Ok(InitInjection::CopyFrom(x)) && x@ == p,
                None => r matches Err(e) && e@ == (ErrorView::VmCreation { reason: NO_INIT_KRUN@ }),
            }
        },
{
    if present {
        return Ok(InitInjection::Present);
    }
    let mut i: usize = 0;
    while i < candidates.len()
        invariant
            i <= candidates@.len(),
            !present,
            first_existing(candidates.deep_view(), 0) == first_existing(
                candidates.deep_view(),
                i as int,
            ),
        decreases candidates@.len() - i,
    {
        if candidates[i].1 {
            return Ok(InitInjection::CopyFrom(candidates[i].0.clone()));
        }
        i = i + 1;
    }
    Err(Error::vm_creation(NO_INIT_KRUN))
}

/// What the environment names comes before what is installed, and that before what lies
/// beside the executable; a place that is not known is not looked at.
pub proof fn chosen_places_come_first(variable: Seq<char>, data_dir: Seq<char>, exe_dir: Seq<char>)
    ensures
        rootfs_places(Some(variable), Some(data_dir), Some(exe_dir)) == seq![
            variable,
            joined_path(data_dir, "smolvm/agent-rootfs"@),
            joined_path(exe_dir, "agent-rootfs"@),
        ],
        rootfs_places(None, Some(data_dir), Some(exe_dir)) == seq![
            joined_path(data_dir, "smolvm/agent-rootfs"@),
            joined_path(exe_dir, "agent-rootfs"@),
        ],
        rootfs_places(None, None, Some(exe_dir)) == seq![joined_path(exe_dir, "agent-rootfs"@)],
        rootfs_places(None, None, None).len() == 0,
{
}

/// The libraries beside the executable are found before those above it, and these before
/// any that are installed on the host.
pub proof fn nearest_libraries_come_first(exe_dir: Seq<char>, exe_parent: Seq<char>, arch: Seq<char>)
    ensures
        library_places(Some(exe_dir), Some(exe_parent), arch) == seq![
            joined_path(exe_dir, "lib"@),
            joined_path(exe_parent, "lib"@),
            joined_path(exe_parent, "lib/linux-"@ + arch),
            "lib"@,
            "./lib"@,
            "lib/linux-"@ + arch,
            "/opt/homebrew/lib"@,
            "/usr/local/lib"@,
        ],
{
}

/// The running program is embedded only where no build output and no distributed program is
/// found before it.
pub proof fn built_programs_come_first(exe_dir: Seq<char>, exe: Seq<char>, data_dir: Seq<char>)
    ensures
        program_places(Some(exe_dir), Some(exe), Some(data_dir)) == seq![
            "target/release/smolvm"@,
            "target/debug/smolvm"@,
            joined_path(exe_dir, "smolvm-bin"@),
            exe,
            joined_path(data_dir, "smolvm/smolvm-bin"@),
        ],
{
}

/// The user's first program comes before that of the host.
pub proof fn own_first_programs_come_first(data_local_dir: Seq<char>, home: Seq<char>)
    ensures
        init_krun_places(Some(data_local_dir), Some(home)) == seq![
            joined_path(data_local_dir, "smolvm/init.krun"@),
            joined_path(home, ".local/share/smolvm/init.krun"@),
            "/usr/local/share/smolvm/init.krun"@,
            "/opt/homebrew/share/smolvm/init.krun"@,
        ],
{
}

} // verus!
