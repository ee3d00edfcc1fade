//! Container commands and the mounts of containers.
use vstd::prelude::*;
use vstd::string::*;

use crate::agent::{default_idle_cmd, default_shell_cmd, idle_command};
use crate::cli::parsers::record_mounts_to_runconfig_bindings;
use crate::cli::smolfile::prefer;
use crate::data::storage::{guest_sides, mount_tag_text, tagged, HostMount, MountView};
use crate::duration::Duration;
use crate::error::{Error, ErrorView};
use crate::lists::clone_strings;
use crate::text::same;

verus! {

/// Manage containers inside a machine
#[derive(Debug)]
pub enum ContainerCmd {
    /// Create a container from an image (does not start it)
    Create(ContainerCreateCmd),
    /// Start a stopped container
    Start(ContainerStartCmd),
    /// Stop a running container
    Stop(ContainerStopCmd),
    /// Remove a container
    Remove(ContainerRemoveCmd),
    /// List containers in a machine
    List(ContainerListCmd),
    /// Run a command inside a container
    Exec(ContainerExecCmd),
}

/// Create a container from an image.
#[derive(Debug)]
pub struct ContainerCreateCmd {
    /// Target machine name.
    pub machine: String,
    /// Container image.
    pub image: String,
    /// Command to run (default: sleep infinity).
    pub command: Vec<String>,
    /// Working directory inside container.
    pub workdir: Option<String>,
    /// Environment variables.
    pub env: Vec<String>,
    /// Host directories to mount.
    pub volume: Vec<String>,
}

/// Start a stopped container.
#[derive(Debug)]
pub struct ContainerStartCmd {
    /// Target machine name.
    pub machine: String,
    /// Container ID (full or prefix).
    pub container_id: String,
}

/// Stop a running container.
#[derive(Debug)]
pub struct ContainerStopCmd {
    /// Target machine name.
    pub machine: String,
    /// Container ID (full or prefix).
    pub container_id: String,
    /// Time to wait before force kill.
    pub timeout: Option<Duration>,
}

/// Remove a container.
#[derive(Debug)]
pub struct ContainerRemoveCmd {
    /// Target machine name.
    pub machine: String,
    /// Container ID (full or prefix).
    pub container_id: String,
    /// Force remove even if running.
    pub force: bool,
}

/// List containers in a machine.
#[derive(Debug)]
pub struct ContainerListCmd {
    /// Target machine name.
    pub machine: String,
    /// Show all containers including stopped.
    pub all: bool,
    /// Only show container IDs.
    pub quiet: bool,
}

/// Execute a command in a running container.
#[derive(Debug)]
pub struct ContainerExecCmd {
    /// Target machine name.
    pub machine: String,
    /// Container ID (full or prefix).
    pub container_id: String,
    /// Command to execute (default: /bin/sh).
    pub command: Vec<String>,
    /// Working directory inside container.
    pub workdir: Option<String>,
    /// Environment variables.
    pub env: Vec<String>,
    /// Kill command after duration.
    pub timeout: Option<Duration>,
}

impl ContainerCreateCmd {
    /// The command of the container: by default one that keeps it running.
    pub fn effective_command(&self) -> (r: Vec<String>)
        ensures
            r.deep_view() == prefer(self.command.deep_view(), idle_command()),
    {
        if self.command.len() == 0 {
            default_idle_cmd()
        } else {
            clone_strings(&self.command)
        }
    }
}

impl ContainerStopCmd {
    /// The whole seconds to wait before a force kill, where a time is given.
    pub fn timeout_secs(&self) -> (r: Option<u64>)
        ensures
            r == (match self.timeout {
                Some(d) => Some(d.secs),
                None => None::<u64>,
            }),
    {
        match self.timeout {
            Some(d) => Some(d.as_secs()),
            None => None,
        }
    }
}

impl ContainerExecCmd {
    /// The command to execute: by default a shell.
    pub fn effective_command(&self) -> (r: Vec<String>)
        ensures
            r.deep_view() == prefer(self.command.deep_view(), seq![crate::DEFAULT_SHELL_CMD@]),
    {
        if self.command.len() == 0 {
            default_shell_cmd()
        } else {
            clone_strings(&self.command)
        }
    }
}

impl ContainerListCmd {
    /// The line for a machine that does not run, where one is printed.
    pub fn not_running_line(&self) -> (r: Option<String>)
        ensures
            self.quiet <==> r is None,
            r matches Some(l) ==> l@ == "No containers (machine '"@ + self.machine@
                + "' not running)"@,
    {
        if self.quiet {
            None
        } else {
            Some(
                String::from_str("No containers (machine '").concat(self.machine.as_str()).concat(
                    "' not running)",
                ),
            )
        }
    }
}

// ---------------------------------------------------------------------------
// Mount resolution
// ---------------------------------------------------------------------------

/// The position of the first mount of a host path from `i` on, or the length.
pub open spec fn host_position(vm_mounts: Seq<MountView>, host: Seq<char>, i: int) -> int
    decreases vm_mounts.len() - i,
{
    if i >= vm_mounts.len() {
        vm_mounts.len() as int
    } else if vm_mounts[i].0 == host {
        i
    } else {
        host_position(vm_mounts, host, i + 1)
    }
}

/// The message for a host path that the machine does not mount.
pub open spec fn not_mounted_text(machine: Seq<char>, m: MountView) -> Seq<char> {
    "host path '"@ + m.0 + "' is not mounted in machine '"@ + machine
        + "'. Add it when creating the machine: smolvm machine create "@ + machine + " -v "@ + m.0
        + ":"@ + m.1
}

/// The bindings of a container after the first `n` explicit mounts: every mount of
/// the machine, with its tag; an explicit mount replaces the target and flag of the
/// machine's mount of the same host path, and is an error where there is none.
pub open spec fn container_mounts(
    machine: Seq<char>,
    vm_mounts: Seq<MountView>,
    explicit: Seq<MountView>,
    n: int,
) -> Result<Seq<(Seq<char>, Seq<char>, bool)>, ErrorView>
    decreases n,
{
    if n <= 0 {
        Ok(tagged(guest_sides(vm_mounts)))
    } else {
        match container_mounts(machine, vm_mounts, explicit, n - 1) {
            Err(e) => Err(e),
            Ok(bindings) => {
                let m = explicit[n - 1];
                let i = host_position(vm_mounts, m.0, 0);
                if i < vm_mounts.len() {
                    Ok(bindings.update(i, (mount_tag_text(i), m.1, m.2)))
                } else {
                    Err(
                        ErrorView::Mount {
                            operation: "resolve volume"@,
                            reason: not_mounted_text(machine, m),
                        },
                    )
                }
            },
        }
    }
}

proof fn lemma_mount_error_stays(
    machine: Seq<char>,
    vm_mounts: Seq<MountView>,
    explicit: Seq<MountView>,
    k: int,
    n: int,
)
    requires
        0 <= k <= n,
        container_mounts(machine, vm_mounts, explicit, k) is Err,
    ensures
        container_mounts(machine, vm_mounts, explicit, n) == container_mounts(
            machine,
            vm_mounts,
            explicit,
            k,
        ),
    decreases n,
{
    if k < n {
        lemma_mount_error_stays(machine, vm_mounts, explicit, k, n - 1);
    }
}

proof fn lemma_host_position(vm_mounts: Seq<MountView>, host: Seq<char>, i: int)
    requires
        0 <= i <= vm_mounts.len(),
    ensures
        i <= host_position(vm_mounts, host, i) <= vm_mounts.len(),
        host_position(vm_mounts, host, i) < vm_mounts.len() ==> vm_mounts[host_position(
            vm_mounts,
            host,
            i,
        )].0 == host,
        forall|j: int|
            i <= j < host_position(vm_mounts, host, i) ==> (#[trigger] vm_mounts[j]).0 != host,
    decreases vm_mounts.len() - i,
{
    if i < vm_mounts.len() && vm_mounts[i].0 != host {
        lemma_host_position(vm_mounts, host, i + 1);
    }
}

fn find_host(vm_mounts: &Vec<(String, String, bool)>, host: &str) -> (r: usize)
    ensures
        r == host_position(vm_mounts.deep_view(), host@, 0),
        r <= vm_mounts@.len(),
{
    let mut i: usize = 0;
    while i < vm_mounts.len()
        invariant
            i <= vm_mounts@.len(),
            host_position(vm_mounts.deep_view(), host@, 0) == host_position(
                vm_mounts.deep_view(),
                host@,
                i as int,
            ),
        decreases vm_mounts@.len() - i,
    {
        if same(vm_mounts[i].0.as_str(), host) {
            return i;
        }
        i = i + 1;
    }
    i
}

/// Resolve container volume mounts against a machine's virtiofs devices.
///
/// Virtiofs devices are registered at VM launch and cannot be added later. Their
/// tags (`smolvm0`, `smolvm1`, ...) correspond 1:1 to the VM's mount list order.
///
/// - All VM mounts are passed on by default.
/// - Explicit mounts are matched by host path to find the correct tag, allowing
///   guest-path remapping.
/// - An explicit mount of a host path not in the VM is an error.
pub fn resolve_container_mounts(
    machine_name: &str,
    vm_mounts: &Vec<(String, String, bool)>,
    explicit: &Vec<HostMount>,
) -> (r: Result<Vec<(String, String, bool)>, Error>)
    ensures
        match container_mounts(
            machine_name@,
            vm_mounts.deep_view(),
            explicit.deep_view(),
            explicit@.len() as int,
        ) {
            Ok(b) => r matches Ok(v) && v.deep_view() == b,
            Err(e) => r matches Err(x) && x@ == e,
        },
{
    let mut mounts = record_mounts_to_runconfig_bindings(vm_mounts);
    let ghost vm = vm_mounts.deep_view();
    let ghost ex = explicit.deep_view();
    proof {
        assert(mounts.deep_view().len() == vm.len());
    }
    for k in 0..explicit.len()
        invariant
            vm == vm_mounts.deep_view(),
            ex == explicit.deep_view(),
            mounts@.len() == vm_mounts@.len(),
            container_mounts(machine_name@, vm, ex, k as int) == Ok::<
                Seq<(Seq<char>, Seq<char>, bool)>,
                ErrorView,
            >(mounts.deep_view()),
    {
        let m = &explicit[k];
        let i: usize = find_host(vm_mounts, m.source.as_str());
        let ghost before = mounts.deep_view();
        proof {
            assert(ex[k as int] == m@);
        }
        if i < vm_mounts.len() {
            let binding = (HostMount::mount_tag(i), m.target.clone(), m.read_only);
            mounts.set(i, binding);
            proof {
                assert(mounts.deep_view() =~= before.update(i as int, binding.deep_view()));
            }
        } else {
            proof {
                lemma_mount_error_stays(machine_name@, vm, ex, k + 1, ex.len() as int);
            }
            return Err(
                Error::mount(
                    "resolve volume",
                    String::from_str("host path '").concat(m.source.as_str()).concat(
                        "' is not mounted in machine '",
                    ).concat(machine_name).concat(
                        "'. Add it when creating the machine: smolvm machine create ",
                    ).concat(machine_name).concat(" -v ").concat(m.source.as_str()).concat(
                        ":",
                    ).concat(m.target.as_str()),
                ),
            );
        }
    }
    Ok(mounts)
}

/// Where mounts resolve, there is one binding for each mount of the machine, in
/// order and with its own tag; a mount whose host path no explicit mount names is
/// passed on unchanged.
pub proof fn container_keeps_machine_mounts(
    machine: Seq<char>,
    vm_mounts: Seq<MountView>,
    explicit: Seq<MountView>,
    n: int,
    i: int,
)
    requires
        0 <= n <= explicit.len(),
        container_mounts(machine, vm_mounts, explicit, n) is Ok,
        0 <= i < vm_mounts.len(),
    ensures
        ({
            let b = container_mounts(machine, vm_mounts, explicit, n)->Ok_0;
            &&& b.len() == vm_mounts.len()
            &&& b[i].0 == mount_tag_text(i)
            &&& (forall|k: int| 0 <= k < n ==> (#[trigger] explicit[k]).0 != vm_mounts[i].0)
                ==> b[i] == (mount_tag_text(i), vm_mounts[i].1, vm_mounts[i].2)
        }),
    decreases n,
{
    if n > 0 {
        container_keeps_machine_mounts(machine, vm_mounts, explicit, n - 1, i);
        lemma_host_position(vm_mounts, explicit[n - 1].0, 0);
    }
}

/// Mounts resolve exactly when every explicit mount names a host path that the
/// machine mounts.
pub proof fn container_mounts_resolve_iff_mounted(
    machine: Seq<char>,
    vm_mounts: Seq<MountView>,
    explicit: Seq<MountView>,
    n: int,
)
    requires
        0 <= n <= explicit.len(),
    ensures
        container_mounts(machine, vm_mounts, explicit, n) is Ok <==> (forall|k: int|
            0 <= k < n ==> host_position(vm_mounts, (#[trigger] explicit[k]).0, 0)
                < vm_mounts.len()),
    decreases n,
{
    if n > 0 {
        container_mounts_resolve_iff_mounted(machine, vm_mounts, explicit, n - 1);
        lemma_host_position(vm_mounts, explicit[n - 1].0, 0);
        if container_mounts(machine, vm_mounts, explicit, n) is Ok {
            assert forall|k: int| 0 <= k < n implies host_position(
                vm_mounts,
                (#[trigger] explicit[k]).0,
                0,
            ) < vm_mounts.len() by {}
        } else {
            if forall|k: int|
                0 <= k < n ==> host_position(vm_mounts, (#[trigger] explicit[k]).0, 0)
                    < vm_mounts.len() {
                assert(host_position(vm_mounts, explicit[n - 1].0, 0) < vm_mounts.len());
            }
        }
    }
}

/// A host path is found exactly where the machine mounts it, at its first mount.
pub proof fn mounted_paths_are_found(vm_mounts: Seq<MountView>, host: Seq<char>, i: int)
    requires
        0 <= i < vm_mounts.len(),
        vm_mounts[i].0 == host,
    ensures
        0 <= host_position(vm_mounts, host, 0) <= i,
        vm_mounts[host_position(vm_mounts, host, 0)].0 == host,
{
    lemma_host_position(vm_mounts, host, 0);
}

/// A path that the machine does not mount is not found.
pub proof fn other_paths_are_not_found(vm_mounts: Seq<MountView>, host: Seq<char>)
    requires
        forall|j: int| 0 <= j < vm_mounts.len() ==> (#[trigger] vm_mounts[j]).0 != host,
    ensures
        host_position(vm_mounts, host, 0) == vm_mounts.len(),
{
    lemma_host_position(vm_mounts, host, 0);
}

/// The last explicit mount of a host path decides where the container sees it and whether it
/// may write there, under the tag of the machine's first mount of that path.
pub proof fn explicit_mounts_take_effect(
    machine: Seq<char>,
    vm_mounts: Seq<MountView>,
    explicit: Seq<MountView>,
    n: int,
    i: int,
    k: int,
)
    requires
        0 <= k < n <= explicit.len(),
        container_mounts(machine, vm_mounts, explicit, n) is Ok,
        0 <= i < vm_mounts.len(),
        vm_mounts[i].0 == explicit[k].0,
        forall|j: int| 0 <= j < i ==> (#[trigger] vm_mounts[j]).0 != explicit[k].0,
        forall|j: int| k < j < n ==> (#[trigger] explicit[j]).0 != explicit[k].0,
    ensures
        container_mounts(machine, vm_mounts, explicit, n)->Ok_0[i] == (
            mount_tag_text(i),
            explicit[k].1,
            explicit[k].2,
        ),
    decreases n,
{
    let m = explicit[n - 1];
    lemma_host_position(vm_mounts, m.0, 0);
    container_keeps_machine_mounts(machine, vm_mounts, explicit, n - 1, i);
    let p = host_position(vm_mounts, m.0, 0);
    if k < n - 1 {
        explicit_mounts_take_effect(machine, vm_mounts, explicit, n - 1, i, k);
        assert(m.0 != explicit[k].0);
        assert(p != i);
    } else {
        assert(p == i);
    }
}

/// The mount that is refused is the first whose host path the machine does not mount, and
/// the error says which it is.
pub proof fn the_first_unmounted_path_is_refused(
    machine: Seq<char>,
    vm_mounts: Seq<MountView>,
    explicit: Seq<MountView>,
    n: int,
    k: int,
)
    requires
        0 <= k < n <= explicit.len(),
        forall|j: int|
            0 <= j < k ==> host_position(vm_mounts, (#[trigger] explicit[j]).0, 0)
                < vm_mounts.len(),
        forall|j: int| 0 <= j < vm_mounts.len() ==> (#[trigger] vm_mounts[j]).0 != explicit[k].0,
    ensures
        container_mounts(machine, vm_mounts, explicit, n) == Err::<
            Seq<(Seq<char>, Seq<char>, bool)>,
            ErrorView,
        >(
            ErrorView::Mount {
                operation: "resolve volume"@,
                reason: not_mounted_text(machine, explicit[k]),
            },
        ),
{
    other_paths_are_not_found(vm_mounts, explicit[k].0);
    container_mounts_resolve_iff_mounted(machine, vm_mounts, explicit, k);
    assert(container_mounts(machine, vm_mounts, explicit, k + 1) is Err);
    lemma_mount_error_stays(machine, vm_mounts, explicit, k + 1, n);
}

} // verus!
