//! Record-backed machine lifecycle for embedded backends.
use vstd::prelude::*;
use vstd::string::*;

use crate::config::{
    default_restart, fresh_record, updated, RecordState, RecordUpdate, VmRecord, VmRecordView,
};
use crate::data::network::{port_pairs, PortMapping};
use crate::data::resources::{VmResources, VmResourcesView};
use crate::data::storage::{to_storage_tuples, HostMount, MountView};
use crate::data::{validate_vm_name, vm_name_error};
use crate::db::{SmolvmDb, VmMap};
use crate::error::{config_error, AgentErrorKind, Error, ErrorView};
use crate::lists::clone_opt_strings;
use crate::util::is_timestamp;

verus! {

/// Runtime configuration supplied by an embedding program.
#[derive(Debug)]
pub struct MachineSpec {
    /// Unique machine name.
    pub name: String,
    /// Host directory mounts to expose in the guest.
    pub mounts: Vec<HostMount>,
    /// Host-to-guest port mappings.
    pub ports: Vec<PortMapping>,
    /// VM resources for this machine.
    pub resources: VmResources,
    /// Whether the machine should persist across stop/start.
    pub persistent: bool,
}

/// The record of an embedded machine.
pub open spec fn embedded_record(
    name: Seq<char>,
    mounts: Seq<MountView>,
    ports: Seq<PortMapping>,
    res: VmResourcesView,
    persistent: bool,
    created_at: Seq<char>,
) -> VmRecordView {
    VmRecordView {
        storage_gb: res.storage_gib,
        overlay_gb: res.overlay_gib,
        allowed_cidrs: res.allowed_cidrs,
        ephemeral: !persistent,
        ..fresh_record(
            name,
            created_at,
            res.cpus,
            res.memory_mib,
            mounts,
            port_pairs(ports),
            res.network,
            default_restart(),
        )
    }
}

impl MachineSpec {
    /// The record of the machine, made at a time.
    pub open spec fn record_at(&self, created_at: Seq<char>) -> VmRecordView {
        embedded_record(
            self.name@,
            self.mounts.deep_view(),
            self.ports@,
            self.resources@,
            self.persistent,
            created_at,
        )
    }

    /// Convert the embedded-machine spec into the canonical record.
    pub fn to_record(&self) -> (r: VmRecord)
        ensures
            r@ == self.record_at(r@.created_at),
            is_timestamp(r@.created_at),
    {
        let mut record = VmRecord::new(
            self.name.clone(),
            self.resources.cpus,
            self.resources.memory_mib,
            to_storage_tuples(&self.mounts),
            PortMapping::to_tuples(&self.ports),
            self.resources.network,
        );
        record.storage_gb = self.resources.storage_gib;
        record.overlay_gb = self.resources.overlay_gib;
        record.allowed_cidrs = clone_opt_strings(&self.resources.allowed_cidrs);
        record.ephemeral = !self.persistent;
        record
    }
}

/// The error for a machine that exists already.
pub open spec fn exists_error(name: Seq<char>) -> ErrorView {
    ErrorView::Agent {
        operation: "create machine"@,
        reason: "machine '"@ + name + "' already exists"@,
        kind: AgentErrorKind::Conflict,
    }
}

/// Create a record for a new machine: the name must be valid and free.
pub fn create_vm(db: &mut SmolvmDb, spec_of: &MachineSpec) -> (r: Result<(), Error>)
    ensures
        final(db).config == old(db).config,
        match vm_name_error(spec_of.name@, "name"@) {
            Some(reason) => {
                &&& r matches Err(e) && e@ == config_error("validate machine name"@, reason)
                &&& final(db).vms@ == old(db).vms@
            },
            None => if old(db).vms@.dom().contains(spec_of.name@) {
                &&& r matches Err(e) && e@ == exists_error(spec_of.name@)
                &&& final(db).vms@ == old(db).vms@
            } else {
                &&& r is Ok
                &&& exists|t: Seq<char>| #[trigger]
                    is_timestamp(t) && final(db).vms@ == old(db).vms@.insert(
                        spec_of.name@,
                        spec_of.record_at(t),
                    )
            },
        },
{
    match validate_vm_name(spec_of.name.as_str(), "name") {
        Ok(()) => {},
        Err(reason) => {
            return Err(Error::config("validate machine name", reason));
        },
    }
    let record = spec_of.to_record();
    proof {
        assert(is_timestamp(record@.created_at));
    }
    if db.insert_vm_if_not_exists(spec_of.name.as_str(), &record) {
        Ok(())
    } else {
        Err(
            Error::agent_conflict(
                "create machine",
                String::from_str("machine '").concat(spec_of.name.as_str()).concat(
                    "' already exists",
                ),
            ),
        )
    }
}

/// Load a persisted VM record.
pub fn get_record(db: &SmolvmDb, name: &str) -> (r: Result<VmRecord, Error>)
    ensures
        if db.vms@.dom().contains(name@) {
            r matches Ok(v) && v@ == db.vms@[name@]
        } else {
            r matches Err(e) && e@ == (ErrorView::VmNotFound { name: name@ })
        },
{
    match db.get_vm(name) {
        Some(v) => Ok(v),
        None => Err(Error::vm_not_found(name)),
    }
}

/// The records after an update of one of them; a machine that is not recorded is an
/// error and changes nothing.
pub open spec fn update_result(before: VmMap, name: Seq<char>, u: RecordUpdate) -> Result<VmMap, ErrorView> {
    if before.dom().contains(name) {
        Ok(before.insert(name, updated(before[name], u)))
    } else {
        Err(ErrorView::VmNotFound { name })
    }
}

fn update_record(db: &mut SmolvmDb, name: &str, u: RecordUpdate) -> (r: Result<(), Error>)
    ensures
        final(db).config == old(db).config,
        match update_result(old(db).vms@, name@, u) {
            Ok(m) => r is Ok && final(db).vms@ == m,
            Err(e) => r matches Err(x) && x@ == e && final(db).vms@ == old(db).vms@,
        },
{
    match db.update_vm(name, u) {
        Some(_) => Ok(()),
        None => Err(Error::vm_not_found(name)),
    }
}

/// Mark a machine record as running.
pub fn mark_running(
    db: &mut SmolvmDb,
    name: &str,
    pid: Option<i32>,
    pid_start_time: Option<u64>,
) -> (r: Result<(), Error>)
    ensures
        final(db).config == old(db).config,
        match update_result(
            old(db).vms@,
            name@,
            RecordUpdate::Running { pid, pid_start_time },
        ) {
            Ok(m) => r is Ok && final(db).vms@ == m,
            Err(e) => r matches Err(x) && x@ == e && final(db).vms@ == old(db).vms@,
        },
{
    update_record(db, name, RecordUpdate::Running { pid, pid_start_time })
}

/// Mark a machine record as stopped.
pub fn mark_stopped(db: &mut SmolvmDb, name: &str) -> (r: Result<(), Error>)
    ensures
        final(db).config == old(db).config,
        match update_result(old(db).vms@, name@, RecordUpdate::Stopped) {
            Ok(m) => r is Ok && final(db).vms@ == m,
            Err(e) => r matches Err(x) && x@ == e && final(db).vms@ == old(db).vms@,
        },
{
    update_record(db, name, RecordUpdate::Stopped)
}

/// Remove a VM record; a machine that is not recorded is an error.
pub fn delete_vm(db: &mut SmolvmDb, name: &str) -> (r: Result<(), Error>)
    ensures
        final(db).config == old(db).config,
        final(db).vms@ == old(db).vms@.remove(name@),
        r is Ok <==> old(db).vms@.dom().contains(name@),
        r matches Err(e) ==> e@ == (ErrorView::VmNotFound { name: name@ }),
{
    match db.remove_vm(name) {
        Some(_) => Ok(()),
        None => Err(Error::vm_not_found(name)),
    }
}

/// The error for machine data that could not be deleted.
pub fn data_removal_error(data_dir: &str, reason: &str) -> (r: Error)
    ensures
        r@ == (ErrorView::Storage {
            operation: "delete machine data"@,
            reason: data_dir@ + ": "@ + reason@,
        }),
{
    Error::storage("delete machine data", data_dir.to_owned().concat(": ").concat(reason))
}

/// The error for a machine that does not run.
pub fn not_running_error(name: &str) -> (r: Error)
    ensures
        r@ == (ErrorView::Agent {
            operation: "connect machine"@,
            reason: "machine '"@ + name@ + "' is not running"@,
            kind: AgentErrorKind::NotFound,
        }),
{
    Error::agent_not_found(
        "connect machine",
        String::from_str("machine '").concat(name).concat("' is not running"),
    )
}

/// An ephemeral machine is recorded as such, a persistent one is not, and neither
/// runs when it is made.
pub proof fn ephemeral_follows_persistent(s: MachineSpec, created_at: Seq<char>)
    ensures
        s.record_at(created_at).ephemeral == !s.persistent,
        s.record_at(created_at).state == RecordState::Created,
        s.record_at(created_at).name == s.name@,
{
}

/// Creating a machine and deleting it again leaves the records as they were.
pub proof fn delete_undoes_create(m: VmMap, s: MachineSpec, t: Seq<char>)
    requires
        !m.dom().contains(s.name@),
    ensures
        m.insert(s.name@, s.record_at(t)).remove(s.name@) == m,
{
    assert(m.insert(s.name@, s.record_at(t)).remove(s.name@) =~= m);
}

/// The record of an embedded machine holds all that was asked for.
pub proof fn embedded_machines_get_what_they_ask_for(s: MachineSpec, created_at: Seq<char>)
    ensures
        ({
            let r = s.record_at(created_at);
            &&& r.name == s.name@ && r.created_at == created_at
            &&& r.mounts == s.mounts.deep_view()
            &&& r.ports.len() == s.ports@.len()
            &&& forall|i: int|
                0 <= i < s.ports@.len() ==> #[trigger] r.ports[i] == (
                    s.ports@[i].host,
                    s.ports@[i].guest,
                )
            &&& r.cpus == s.resources.cpus && r.mem == s.resources.memory_mib
            &&& r.network == s.resources.network
            &&& r.storage_gb == s.resources.storage_gib && r.overlay_gb == s.resources.overlay_gib
            &&& r.allowed_cidrs == s.resources.allowed_cidrs.deep_view()
            &&& r.ephemeral == !s.persistent
            &&& r.pid is None && r.pid_start_time is None && r.last_exit_code is None
            &&& r.image is None && r.init.len() == 0 && r.env.len() == 0 && r.entrypoint.len() == 0
            &&& !r.ssh_agent && r.dns_filter_hosts is None && r.source_smolmachine is None
        }),
{
}

/// An update touches the record that it names and no other, and neither adds nor removes a
/// record; a machine without a record cannot be updated.
pub proof fn updates_touch_one_record(before: VmMap, name: Seq<char>, u: RecordUpdate, other: Seq<char>)
    ensures
        update_result(before, name, u) is Ok <==> before.dom().contains(name),
        update_result(before, name, u) matches Ok(after) ==> {
            &&& after.dom() == before.dom()
            &&& after[name] == updated(before[name], u)
            &&& other != name && before.dom().contains(other) ==> after[other] == before[other]
        },
        update_result(before, name, u) matches Err(e) ==> e == (ErrorView::VmNotFound { name }),
{
    if before.dom().contains(name) {
        assert(before.insert(name, updated(before[name], u)).dom() =~= before.dom());
    }
}

/// A name that is taken is reported as a conflict, and the report names it.
pub proof fn taken_names_are_conflicts(name: Seq<char>)
    ensures
        exists_error(name) matches ErrorView::Agent { operation, reason, kind } && kind is Conflict
            && operation == "create machine"@ && reason == "machine '"@ + name
            + "' already exists"@,
{
}

} // verus!
