//! Process-local registry of embedded machines.
use vstd::prelude::*;
use vstd::string::*;

use crate::config::{observed_state, RecordState, RecordUpdate};
use crate::data::vm_name_error;
use crate::db::{SmolvmDb, VmMap};
use crate::embedded::control::{
    create_vm, data_removal_error, delete_vm, exists_error, mark_running, mark_stopped,
    update_result, MachineSpec,
};
use crate::embedded::handle::{VmHandle, VmHandleView};
use crate::error::{config_error, Error, ErrorView};
use crate::process::ProcessProbe;
use crate::table::Table;
use crate::util::is_timestamp;

verus! {

/// What serialises the operations on one machine.
#[derive(Debug, Clone, Copy)]
pub struct NameLock;

impl View for NameLock {
    type V = NameLock;

    open spec fn view(&self) -> NameLock {
        *self
    }
}

/// Stateful runtime shared by all embedded machine objects in a process.
#[derive(Debug)]
pub struct EmbeddedRuntime {
    /// The persisted records.
    pub db: SmolvmDb,
    /// Handles of machines that this process started or connected to, by name.
    pub registry: Table<VmHandle>,
    /// Locks of machines that were operated on, by name.
    pub name_locks: Table<NameLock>,
}

/// Handles by machine name.
pub type HandleMap = Map<Seq<char>, VmHandleView>;

/// What the start of, or the connection to, a machine comes to.
#[derive(Debug, Clone, Copy, PartialEq, Eq, Structural)]
pub enum StartChoice {
    /// It runs already.
    AlreadyRunning,
    /// It has to be started or connected to.
    Proceed,
}

/// The process id of a machine: that of its handle, else the recorded one.
pub open spec fn machine_pid(registry: HandleMap, vms: VmMap, name: Seq<char>) -> Option<i32> {
    if registry.dom().contains(name) && registry[name].pid is Some {
        registry[name].pid
    } else if vms.dom().contains(name) {
        vms[name].pid
    } else {
        None
    }
}

/// Whether a machine runs: what is found of its handle's process, else what is observed of
/// the recorded one.
pub open spec fn machine_runs(
    registry: HandleMap,
    vms: VmMap,
    name: Seq<char>,
    cached_alive: bool,
    probe: ProcessProbe,
) -> bool {
    if registry.dom().contains(name) {
        cached_alive
    } else {
        vms.dom().contains(name) && observed_state(vms[name], probe) == RecordState::Running
    }
}

/// The state of a machine as a word.
pub open spec fn machine_state(
    registry: HandleMap,
    vms: VmMap,
    name: Seq<char>,
    cached_state: Seq<char>,
    probe: ProcessProbe,
) -> Seq<char> {
    if registry.dom().contains(name) {
        cached_state
    } else if vms.dom().contains(name) {
        match observed_state(vms[name], probe) {
            RecordState::Running => "running"@,
            RecordState::Failed => "failed"@,
            _ => "stopped"@,
        }
    } else {
        "stopped"@
    }
}

/// A machine that this process did not start is said to run exactly where its record and
/// the host say so, and is called running exactly then; one without a record never runs. Of
/// one that it did start, its handle decides.
pub proof fn states_agree_with_what_runs(
    registry: HandleMap,
    vms: VmMap,
    name: Seq<char>,
    cached_alive: bool,
    cached_state: Seq<char>,
    probe: ProcessProbe,
)
    ensures
        registry.dom().contains(name) ==> machine_runs(registry, vms, name, cached_alive, probe)
            == cached_alive && machine_state(registry, vms, name, cached_state, probe)
            == cached_state,
        !registry.dom().contains(name) ==> (machine_state(registry, vms, name, cached_state, probe)
            == "running"@ <==> machine_runs(registry, vms, name, cached_alive, probe)),
        !registry.dom().contains(name) && vms.dom().contains(name) ==> (machine_state(
            registry,
            vms,
            name,
            cached_state,
            probe,
        ) == "failed"@ <==> observed_state(vms[name], probe) is Failed),
        !registry.dom().contains(name) && !vms.dom().contains(name) ==> !machine_runs(
            registry,
            vms,
            name,
            cached_alive,
            probe,
        ) && machine_pid(registry, vms, name) is None,
        !registry.dom().contains(name) && machine_runs(registry, vms, name, cached_alive, probe)
            ==> probe.alive,
{
    reveal_strlit("running");
    reveal_strlit("failed");
    reveal_strlit("stopped");
    assert("running"@[0] == 'r' && "failed"@[0] == 'f' && "stopped"@[0] == 's');
}

/// The process of a handle comes before the recorded one.
pub proof fn handles_know_their_process(
    registry: HandleMap,
    vms: VmMap,
    name: Seq<char>,
    pid: i32,
)
    requires
        registry.dom().contains(name) ==> registry[name].pid is None || registry[name].pid == Some(
            pid,
        ),
    ensures
        registry.dom().contains(name) && registry[name].pid is Some ==> machine_pid(
            registry,
            vms,
            name,
        ) == Some(pid),
        (registry.dom().contains(name) ==> registry[name].pid is None) && vms.dom().contains(name)
            ==> machine_pid(registry, vms, name) == vms[name].pid,
{
}

impl EmbeddedRuntime {
    /// Create a runtime backed by a database.
    pub fn with_db(db: SmolvmDb) -> (r: EmbeddedRuntime)
        ensures
            r.db == db,
            r.registry@ == HandleMap::empty(),
            r.name_locks@ == Map::<Seq<char>, NameLock>::empty(),
    {
        EmbeddedRuntime { db, registry: Table::new(), name_locks: Table::new() }
    }

    /// Make sure that a machine has its lock.
    pub fn lock_for_name(&mut self, name: &str)
        ensures
            final(self).db == old(self).db,
            final(self).registry == old(self).registry,
            final(self).name_locks@.dom() == old(self).name_locks@.dom().insert(name@),
    {
        let _old = self.name_locks.insert(name.to_owned(), NameLock);
        proof {
            assert(self.name_locks@.dom() =~= old(self).name_locks@.dom().insert(name@));
        }
    }

    /// Forget a machine's lock.
    pub fn remove_name_lock(&mut self, name: &str)
        ensures
            final(self).db == old(self).db,
            final(self).registry == old(self).registry,
            final(self).name_locks@ == old(self).name_locks@.remove(name@),
    {
        let _old = self.name_locks.remove(name);
    }

    /// Create a persisted machine record.
    pub fn create_machine(&mut self, spec_of: &MachineSpec) -> (r: Result<(), Error>)
        ensures
            final(self).db.config == old(self).db.config,
            final(self).registry == old(self).registry,
            final(self).name_locks@.dom() == old(self).name_locks@.dom().insert(spec_of.name@),
            match vm_name_error(spec_of.name@, "name"@) {
                Some(reason) => {
                    &&& r matches Err(e) && e@ == config_error("validate machine name"@, reason)
                    &&& final(self).db.vms@ == old(self).db.vms@
                },
                None => if old(self).db.vms@.dom().contains(spec_of.name@) {
                    &&& r matches Err(e) && e@ == exists_error(spec_of.name@)
                    &&& final(self).db.vms@ == old(self).db.vms@
                } else {
                    &&& r is Ok
                    &&& exists|t: Seq<char>| #[trigger]
                        is_timestamp(t) && final(self).db.vms@ == old(self).db.vms@.insert(
                            spec_of.name@,
                            spec_of.record_at(t),
                        )
                },
            },
    {
        self.lock_for_name(spec_of.name.as_str());
        create_vm(&mut self.db, spec_of)
    }

    /// Begin to start, or to connect to, a machine, given whether the process behind
    /// a cached handle lives: a live one is all that is needed, a dead one is
    /// forgotten.
    pub fn start_machine(&mut self, name: &str, cached_alive: bool) -> (r: StartChoice)
        ensures
            final(self).db == old(self).db,
            final(self).name_locks@.dom() == old(self).name_locks@.dom().insert(name@),
            if old(self).registry@.dom().contains(name@) && cached_alive {
                r is AlreadyRunning && final(self).registry@ == old(self).registry@
            } else {
                r is Proceed && final(self).registry@ == old(self).registry@.remove(name@)
            },
    {
        self.lock_for_name(name);
        if self.registry.contains_key(name) && cached_alive {
            return StartChoice::AlreadyRunning;
        }
        let _dead = self.registry.remove(name);
        StartChoice::Proceed
    }

    /// Finish the start of a machine: it is recorded as running and its handle is
    /// cached. A machine that is not recorded is an error, and no handle is cached.
    pub fn machine_started(&mut self, name: &str, handle: VmHandle, pid_start_time: Option<u64>) -> (r:
        Result<(), Error>)
        ensures
            final(self).db.config == old(self).db.config,
            final(self).name_locks == old(self).name_locks,
            match update_result(
                old(self).db.vms@,
                name@,
                RecordUpdate::Running { pid: handle@.pid, pid_start_time },
            ) {
                Ok(m) => {
                    &&& r is Ok
                    &&& final(self).db.vms@ == m
                    &&& final(self).registry@ == old(self).registry@.insert(name@, handle@)
                },
                Err(e) => {
                    &&& r matches Err(x) && x@ == e
                    &&& final(self).db.vms@ == old(self).db.vms@
                    &&& final(self).registry@ == old(self).registry@
                },
            },
    {
        match mark_running(&mut self.db, name, handle.child_pid(), pid_start_time) {
            Ok(()) => {
                let _old = self.registry.insert(name.to_owned(), handle);
                Ok(())
            },
            Err(e) => Err(e),
        }
    }

    /// Cache the handle of a machine that was connected to.
    pub fn machine_connected(&mut self, name: &str, handle: VmHandle)
        ensures
            final(self).db == old(self).db,
            final(self).name_locks == old(self).name_locks,
            final(self).registry@ == old(self).registry@.insert(name@, handle@),
    {
        let _old = self.registry.insert(name.to_owned(), handle);
    }

    /// Begin to stop a machine: its cached handle is taken, where there is one.
    pub fn stop_machine(&mut self, name: &str) -> (r: Option<VmHandle>)
        ensures
            final(self).db == old(self).db,
            final(self).name_locks@.dom() == old(self).name_locks@.dom().insert(name@),
            final(self).registry@ == old(self).registry@.remove(name@),
            match r {
                Some(h) => old(self).registry@.dom().contains(name@) && h@
                    == old(self).registry@[name@],
                None => !old(self).registry@.dom().contains(name@),
            },
    {
        self.lock_for_name(name);
        self.registry.remove(name)
    }

    /// Finish the stop of a machine: it is recorded as stopped.
    pub fn machine_stopped(&mut self, name: &str) -> (r: Result<(), Error>)
        ensures
            final(self).db.config == old(self).db.config,
            final(self).registry == old(self).registry,
            final(self).name_locks == old(self).name_locks,
            match update_result(old(self).db.vms@, name@, RecordUpdate::Stopped) {
                Ok(m) => r is Ok && final(self).db.vms@ == m,
                Err(e) => r matches Err(x) && x@ == e && final(self).db.vms@ == old(self).db.vms@,
            },
    {
        mark_stopped(&mut self.db, name)
    }

    /// Delete a machine that was stopped: its handle and its record go. A machine
    /// that is not recorded is an error.
    pub fn delete_machine(&mut self, name: &str) -> (r: Result<(), Error>)
        ensures
            final(self).db.vms@ == old(self).db.vms@.remove(name@),
            final(self).db.config == old(self).db.config,
            final(self).registry@ == old(self).registry@.remove(name@),
            final(self).name_locks@.dom() == old(self).name_locks@.dom().insert(name@),
            r is Ok <==> old(self).db.vms@.dom().contains(name@),
            r matches Err(e) ==> e@ == (ErrorView::VmNotFound { name: name@ }),
    {
        self.lock_for_name(name);
        let _handle = self.registry.remove(name);
        delete_vm(&mut self.db, name)
    }

    /// Finish the deletion of a machine, given why its data could not be removed,
    /// where that is so: its lock goes only with its data.
    pub fn machine_deleted(&mut self, name: &str, data_dir: &str, failure: Option<String>) -> (r:
        Result<(), Error>)
        ensures
            final(self).db == old(self).db,
            final(self).registry == old(self).registry,
            match failure {
                None => r is Ok && final(self).name_locks@ == old(self).name_locks@.remove(name@),
                Some(reason) => {
                    &&& r matches Err(e) && e@ == (ErrorView::Storage {
                        operation: "delete machine data"@,
                        reason: data_dir@ + ": "@ + reason@,
                    })
                    &&& final(self).name_locks == old(self).name_locks
                },
            },
    {
        match failure {
            None => {
                self.remove_name_lock(name);
                Ok(())
            },
            Some(reason) => Err(data_removal_error(data_dir, reason.as_str())),
        }
    }

    /// The handle of a machine that was started; it is an error to ask before.
    pub fn started_handle(&self, name: &str) -> (r: Result<VmHandle, Error>)
        ensures
            if self.registry@.dom().contains(name@) {
                r matches Ok(h) && h@ == self.registry@[name@]
            } else {
                r matches Err(e) && e@ == (ErrorView::InvalidState {
                    expected: "started"@,
                    actual: "not started"@,
                })
            },
    {
        match self.registry.get(name) {
            Some(h) => Ok(*h),
            None => Err(
                Error::InvalidState {
                    expected: "started".to_owned(),
                    actual: "not started".to_owned(),
                },
            ),
        }
    }

    /// Get the child PID if the machine is running: that of the cached handle, else
    /// the recorded one.
    pub fn pid(&self, name: &str) -> (r: Option<i32>)
        ensures
            r == machine_pid(self.registry@, self.db.vms@, name@),
    {
        if let Some(h) = self.registry.get(name) {
            let pid = h.child_pid();
            if pid.is_some() {
                return pid;
            }
        }
        match self.db.vms.get(name) {
            Some(v) => v.pid,
            None => None,
        }
    }

    /// Return whether the machine process is currently running, given whether the
    /// process behind a cached handle lives and what the host says of the recorded
    /// one.
    pub fn is_running(&self, name: &str, cached_alive: bool, probe: &ProcessProbe) -> (r: bool)
        ensures
            r == machine_runs(self.registry@, self.db.vms@, name@, cached_alive, *probe),
    {
        if self.registry.contains_key(name) {
            return cached_alive;
        }
        match self.db.vms.get(name) {
            Some(v) => match v.actual_state(probe) {
                RecordState::Running => true,
                _ => false,
            },
            None => false,
        }
    }

    /// Get the current machine state as a string, given the state of a cached
    /// handle's manager and what the host says of the recorded process.
    pub fn state(&self, name: &str, cached_state: &str, probe: &ProcessProbe) -> (r: String)
        ensures
            r@ == machine_state(self.registry@, self.db.vms@, name@, cached_state@, *probe),
    {
        if self.registry.contains_key(name) {
            return cached_state.to_owned();
        }
        match self.db.vms.get(name) {
            Some(v) => match v.actual_state(probe) {
                RecordState::Running => "running".to_owned(),
                RecordState::Failed => "failed".to_owned(),
                _ => "stopped".to_owned(),
            },
            None => "stopped".to_owned(),
        }
    }
}

} // verus!
