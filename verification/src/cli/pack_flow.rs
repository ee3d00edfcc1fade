//! The course of packing an image, of running a packed artifact, and of starting its
//! daemon.
use vstd::prelude::*;

use crate::cli::pack_run::{IdentityStep, START_TIME_RETRIES};

verus! {

// ---------------------------------------------------------------------------
// Packing an image
// ---------------------------------------------------------------------------

/// Where the packing of an image stands.
#[derive(Debug, Clone, Copy, PartialEq, Eq, Structural)]
pub enum PackPhase {
    /// Asked to start the temporary machine.
    Starting,
    /// Asked to connect to its agent.
    Connecting,
    /// Asked to pull the image.
    Pulling,
    /// Collecting libraries, root filesystem and disk template.
    Collecting {
        /// Whether the image has several layers.
        merge: bool,
    },
    /// Exporting the only layer.
    Exporting,
    /// Merging several layers in the machine.
    Merging,
    /// Fetching the merged layers.
    Fetching,
    /// Registering the exported layer.
    Registering,
    /// Stopping the temporary machine.
    Stopping {
        /// Whether something failed before.
        failed: bool,
    },
    /// Removing its data.
    Removing {
        /// Whether something failed before.
        failed: bool,
    },
    /// Assembling the packed binary.
    Finalizing,
    /// Over.
    Finished,
}

/// What the caller is asked to do next.
#[derive(Debug, Clone, Copy, PartialEq, Eq, Structural)]
pub enum PackAction {
    /// Start the temporary machine.
    Start,
    /// Connect to its agent.
    Connect,
    /// Pull the image.
    Pull,
    /// Collect libraries, root filesystem and disk template.
    Collect,
    /// Export the only layer.
    Export,
    /// Merge the layers.
    Merge,
    /// Fetch the merged layers.
    Fetch,
    /// Register the exported layer.
    Register,
    /// Stop the temporary machine.
    Stop,
    /// Remove the temporary machine's data.
    RemoveData,
    /// Assemble the packed binary.
    Finalize,
    /// The packing succeeded.
    Succeed,
    /// Report the error that came up.
    Fail,
}

/// What the caller reports.
#[derive(Debug, Clone, Copy, PartialEq, Eq, Structural)]
pub enum PackEvent {
    /// What was asked for was done.
    Done,
    /// What was asked for failed.
    Failed,
    /// The image was pulled.
    Pulled {
        /// Whether it has several layers.
        merge: bool,
    },
}

/// What follows a failure while the temporary machine may run: it is stopped.
pub open spec fn abandon() -> (PackPhase, PackAction) {
    (PackPhase::Stopping { failed: true }, PackAction::Stop)
}

/// The next phase where something was done, else the machine is stopped.
pub open spec fn pack_go(event: PackEvent, phase: PackPhase, action: PackAction) -> (
    PackPhase,
    PackAction,
) {
    if event is Done {
        (phase, action)
    } else {
        abandon()
    }
}

/// Whether an event answers what a phase asked.
pub open spec fn pack_answers(phase: PackPhase, event: PackEvent) -> bool {
    match phase {
        PackPhase::Pulling => event is Pulled || event is Failed,
        PackPhase::Finished => false,
        _ => event is Done || event is Failed,
    }
}

/// The next phase of the packing and what is to be done.
pub open spec fn pack_next(phase: PackPhase, event: PackEvent) -> (PackPhase, PackAction) {
    match phase {
        PackPhase::Starting => if event is Done {
            (PackPhase::Connecting, PackAction::Connect)
        } else {
            (PackPhase::Finished, PackAction::Fail)
        },
        PackPhase::Connecting => pack_go(event, PackPhase::Pulling, PackAction::Pull),
        PackPhase::Pulling => match event {
            PackEvent::Pulled { merge } => (PackPhase::Collecting { merge }, PackAction::Collect),
            _ => abandon(),
        },
        PackPhase::Collecting { merge } => if merge {
            pack_go(event, PackPhase::Merging, PackAction::Merge)
        } else {
            pack_go(event, PackPhase::Exporting, PackAction::Export)
        },
        PackPhase::Exporting => pack_go(event, PackPhase::Registering, PackAction::Register),
        PackPhase::Merging => pack_go(event, PackPhase::Fetching, PackAction::Fetch),
        PackPhase::Fetching => pack_go(event, PackPhase::Registering, PackAction::Register),
        PackPhase::Registering => pack_go(
            event,
            PackPhase::Stopping { failed: false },
            PackAction::Stop,
        ),
        PackPhase::Stopping { failed } => if event is Done {
            (PackPhase::Removing { failed }, PackAction::RemoveData)
        } else if failed {
            (PackPhase::Finished, PackAction::Fail)
        } else {
            abandon()
        },
        PackPhase::Removing { failed } => if failed {
            (PackPhase::Finished, PackAction::Fail)
        } else {
            (PackPhase::Finalizing, PackAction::Finalize)
        },
        PackPhase::Finalizing => if event is Done {
            (PackPhase::Finished, PackAction::Succeed)
        } else {
            (PackPhase::Finished, PackAction::Fail)
        },
        PackPhase::Finished => (PackPhase::Finished, PackAction::Fail),
    }
}

impl PackPhase {
    fn go(event: PackEvent, phase: PackPhase, action: PackAction) -> (r: (PackPhase, PackAction))
        ensures
            r == pack_go(event, phase, action),
    {
        match event {
            PackEvent::Done => (phase, action),
            _ => (PackPhase::Stopping { failed: true }, PackAction::Stop),
        }
    }

    /// Take what the caller reports and say what is to be done next.
    pub fn step(self, event: PackEvent) -> (r: (PackPhase, PackAction))
        requires
            pack_answers(self, event),
        ensures
            r == pack_next(self, event),
    {
        let done = match event {
            PackEvent::Done => true,
            _ => false,
        };
        match self {
            PackPhase::Starting => if done {
                (PackPhase::Connecting, PackAction::Connect)
            } else {
                (PackPhase::Finished, PackAction::Fail)
            },
            PackPhase::Connecting => PackPhase::go(event, PackPhase::Pulling, PackAction::Pull),
            PackPhase::Pulling => match event {
                PackEvent::Pulled { merge } => (
                    PackPhase::Collecting { merge },
                    PackAction::Collect,
                ),
                _ => (PackPhase::Stopping { failed: true }, PackAction::Stop),
            },
            PackPhase::Collecting { merge } => if merge {
                PackPhase::go(event, PackPhase::Merging, PackAction::Merge)
            } else {
                PackPhase::go(event, PackPhase::Exporting, PackAction::Export)
            },
            PackPhase::Exporting => PackPhase::go(
                event,
                PackPhase::Registering,
                PackAction::Register,
            ),
            PackPhase::Merging => PackPhase::go(event, PackPhase::Fetching, PackAction::Fetch),
            PackPhase::Fetching => PackPhase::go(
                event,
                PackPhase::Registering,
                PackAction::Register,
            ),
            PackPhase::Registering => PackPhase::go(
                event,
                PackPhase::Stopping { failed: false },
                PackAction::Stop,
            ),
            PackPhase::Stopping { failed } => if done {
                (PackPhase::Removing { failed }, PackAction::RemoveData)
            } else if failed {
                (PackPhase::Finished, PackAction::Fail)
            } else {
                (PackPhase::Stopping { failed: true }, PackAction::Stop)
            },
            PackPhase::Removing { failed } => if failed {
                (PackPhase::Finished, PackAction::Fail)
            } else {
                (PackPhase::Finalizing, PackAction::Finalize)
            },
            PackPhase::Finalizing => if done {
                (PackPhase::Finished, PackAction::Succeed)
            } else {
                (PackPhase::Finished, PackAction::Fail)
            },
            PackPhase::Finished => (PackPhase::Finished, PackAction::Fail),
        }
    }
}

/// Whether the temporary machine may be running in a phase.
pub open spec fn machine_may_run(phase: PackPhase) -> bool {
    match phase {
        PackPhase::Connecting | PackPhase::Pulling | PackPhase::Collecting { .. }
        | PackPhase::Exporting | PackPhase::Merging | PackPhase::Fetching
        | PackPhase::Registering | PackPhase::Stopping { .. } => true,
        _ => false,
    }
}

/// The temporary machine's data is removed only right after the machine was
/// confirmed to be stopped, never while it may still be running.
pub proof fn data_is_removed_after_confirmed_stop(phase: PackPhase, event: PackEvent)
    requires
        pack_answers(phase, event),
        pack_next(phase, event).1 is RemoveData,
    ensures
        phase is Stopping,
        event is Done,
        !machine_may_run(pack_next(phase, event).0),
{
}

/// Once the temporary machine runs, the packing ends only after an attempt to stop
/// it: every failure leads to a stop.
pub proof fn packing_always_stops_its_machine(phase: PackPhase, event: PackEvent)
    requires
        pack_answers(phase, event),
        machine_may_run(phase),
    ensures
        pack_next(phase, event).0 is Finished ==> phase == (PackPhase::Stopping { failed: true }),
        !(phase is Stopping) && event is Failed ==> pack_next(phase, event).1 is Stop,
        !(pack_next(phase, event).1 is Succeed),
{
}

/// The packed binary is assembled only when everything before succeeded.
pub proof fn binary_is_assembled_last(phase: PackPhase, event: PackEvent)
    requires
        pack_answers(phase, event),
        pack_next(phase, event).1 is Finalize,
    ensures
        phase == (PackPhase::Removing { failed: false }),
{
}

/// The phase of a packing after its first `n` events.
pub open spec fn pack_after(events: Seq<PackEvent>, n: int) -> PackPhase
    decreases n,
{
    if n <= 0 {
        PackPhase::Starting
    } else {
        pack_next(pack_after(events, n - 1), events[n - 1]).0
    }
}

/// Whether events are those of a packing: each answers the phase before it.
pub open spec fn is_packing(events: Seq<PackEvent>) -> bool {
    forall|k: int|
        0 <= k < events.len() ==> pack_answers(#[trigger] pack_after(events, k), events[k])
}

/// How far a packing has come: it grows with every step.
pub open spec fn pack_rank(phase: PackPhase) -> int {
    match phase {
        PackPhase::Starting => 0,
        PackPhase::Connecting => 1,
        PackPhase::Pulling => 2,
        PackPhase::Collecting { .. } => 3,
        PackPhase::Merging => 4,
        PackPhase::Exporting => 5,
        PackPhase::Fetching => 5,
        PackPhase::Registering => 6,
        PackPhase::Stopping { failed } => if failed {
            8
        } else {
            7
        },
        PackPhase::Removing { .. } => 9,
        PackPhase::Finalizing => 10,
        PackPhase::Finished => 11,
    }
}

/// Every packing comes to an end, after eleven events at most.
pub proof fn packings_come_to_an_end(events: Seq<PackEvent>)
    requires
        is_packing(events),
    ensures
        events.len() <= 11,
{
    lemma_packing_advances(events, events.len() as int);
}

proof fn lemma_packing_advances(events: Seq<PackEvent>, n: int)
    requires
        is_packing(events),
        0 <= n <= events.len(),
    ensures
        n <= pack_rank(pack_after(events, n)) <= 11,
    decreases n,
{
    if n > 0 {
        lemma_packing_advances(events, n - 1);
        assert(pack_answers(pack_after(events, n - 1), events[n - 1]));
    }
}

/// A packing whose temporary machine was started, has asked for a stop of that
/// machine by the time it is over.
pub proof fn finished_packing_stopped_its_machine(events: Seq<PackEvent>, n: int)
    requires
        is_packing(events),
        0 < n <= events.len(),
        events[0] is Done,
        !machine_may_run(pack_after(events, n)) || pack_after(events, n) is Stopping,
    ensures
        exists|k: int| 0 <= k < n && pack_next(#[trigger] pack_after(events, k), events[k]).1 is Stop,
    decreases n,
{
    assert(pack_answers(pack_after(events, 0), events[0]));
    let before = pack_after(events, n - 1);
    assert(pack_answers(before, events[n - 1]));
    if pack_next(before, events[n - 1]).1 is Stop {
    } else {
        assert(n > 1);
        finished_packing_stopped_its_machine(events, n - 1);
    }
}

/// What the packing of an image calls for, given whether the image has several layers: they
/// are merged and fetched, and a single one is exported as it is.
pub open spec fn pack_calls_for(merge: bool, phase: PackPhase) -> bool {
    match phase {
        PackPhase::Starting
        | PackPhase::Connecting
        | PackPhase::Pulling
        | PackPhase::Registering
        | PackPhase::Finalizing => true,
        PackPhase::Collecting { merge: m } => m == merge,
        PackPhase::Exporting => !merge,
        PackPhase::Merging | PackPhase::Fetching => merge,
        PackPhase::Stopping { failed } => !failed,
        PackPhase::Removing { failed } => !failed,
        PackPhase::Finished => false,
    }
}

/// What the caller of a packing is asked for in a phase.
pub open spec fn pack_asked_in(phase: PackPhase) -> PackAction {
    match phase {
        PackPhase::Starting => PackAction::Start,
        PackPhase::Connecting => PackAction::Connect,
        PackPhase::Pulling => PackAction::Pull,
        PackPhase::Collecting { .. } => PackAction::Collect,
        PackPhase::Exporting => PackAction::Export,
        PackPhase::Merging => PackAction::Merge,
        PackPhase::Fetching => PackAction::Fetch,
        PackPhase::Registering => PackAction::Register,
        PackPhase::Stopping { .. } => PackAction::Stop,
        PackPhase::Removing { .. } => PackAction::RemoveData,
        PackPhase::Finalizing => PackAction::Finalize,
        PackPhase::Finished => PackAction::Fail,
    }
}

/// Whether an event lets a packing go on in its phase. Data that could not be removed holds
/// nothing up.
pub open spec fn pack_goes_on(phase: PackPhase, event: PackEvent) -> bool {
    match phase {
        PackPhase::Stopping { failed } => !failed && event is Done,
        PackPhase::Removing { failed } => !failed,
        PackPhase::Finalizing | PackPhase::Finished => false,
        _ => !(event is Failed),
    }
}

/// Whether a phase and an event agree with what is known of the image's layers.
pub open spec fn pack_known(merge: bool, phase: PackPhase, event: PackEvent) -> bool {
    &&& event matches PackEvent::Pulled { merge: m } ==> m == merge
    &&& phase matches PackPhase::Collecting { merge: m } ==> m == merge
    &&& phase is Exporting ==> !merge
    &&& phase is Merging || phase is Fetching ==> merge
}

/// A packing asks for what its phase is about, goes to the next thing that it calls for and
/// skips nothing. It succeeds exactly when the binary was assembled; every failure before
/// that ends it, through a stop of the temporary machine and, once that is confirmed, the
/// removal of its data.
pub proof fn packings_skip_nothing(merge: bool, phase: PackPhase, event: PackEvent, other: PackPhase)
    requires
        pack_answers(phase, event),
        pack_known(merge, phase, event),
    ensures
        ({
            let (next, action) = pack_next(phase, event);
            &&& !(next is Finished) ==> action == pack_asked_in(next)
            &&& next is Finished ==> action is Succeed || action is Fail
            &&& action is Succeed <==> phase is Finalizing && event is Done
            &&& if pack_goes_on(phase, event) {
                &&& pack_calls_for(merge, next)
                &&& pack_calls_for(merge, other) && pack_rank(phase) < pack_rank(other)
                    ==> pack_rank(next) <= pack_rank(other)
            } else if phase == (PackPhase::Stopping { failed: true }) && event is Done {
                next == (PackPhase::Removing { failed: true })
            } else if machine_may_run(phase) && phase != (PackPhase::Stopping { failed: true }) {
                next == (PackPhase::Stopping { failed: true })
            } else {
                next is Finished
            }
        }),
{
}

proof fn lemma_pack_known(events: Seq<PackEvent>, merge: bool, n: int)
    requires
        is_packing(events),
        forall|k: int|
            0 <= k < events.len() ==> ((#[trigger] events[k]) matches PackEvent::Pulled {
                merge: m,
            } ==> m == merge),
        0 <= n < events.len(),
    ensures
        pack_known(merge, pack_after(events, n), events[n]),
    decreases n,
{
    if n > 0 {
        lemma_pack_known(events, merge, n - 1);
        assert(pack_answers(pack_after(events, n - 1), events[n - 1]));
    }
}

/// A binary is assembled only from everything that the packing calls for: by then each of
/// these things was done, with success.
pub proof fn assembled_binaries_are_complete(
    events: Seq<PackEvent>,
    merge: bool,
    n: int,
    wanted: PackPhase,
)
    requires
        is_packing(events),
        forall|k: int|
            0 <= k < events.len() ==> ((#[trigger] events[k]) matches PackEvent::Pulled {
                merge: m,
            } ==> m == merge),
        0 <= n < events.len(),
        !(pack_after(events, n) is Finished),
        pack_after(events, n) != (PackPhase::Stopping { failed: true }),
        pack_after(events, n) != (PackPhase::Removing { failed: true }),
        pack_calls_for(merge, wanted),
        pack_rank(wanted) < pack_rank(pack_after(events, n)),
    ensures
        exists|k: int|
            0 <= k < n && #[trigger] pack_after(events, k) == wanted && pack_goes_on(
                wanted,
                events[k],
            ),
    decreases n,
{
    if n > 0 {
        lemma_pack_known(events, merge, n - 1);
        let before = pack_after(events, n - 1);
        assert(pack_answers(before, events[n - 1]));
        packings_skip_nothing(merge, before, events[n - 1], wanted);
        if before == wanted {
            assert(pack_goes_on(wanted, events[n - 1]));
        } else {
            assembled_binaries_are_complete(events, merge, n - 1, wanted);
        }
    }
}

// ---------------------------------------------------------------------------
// Running a packed artifact
// ---------------------------------------------------------------------------

/// Where the run of a packed artifact stands.
#[derive(Debug, Clone, Copy, PartialEq, Eq, Structural)]
pub enum PackedPhase {
    /// Locating the sidecar.
    Locating,
    /// Reading its footer.
    ReadingFooter,
    /// Verifying its checksum.
    Verifying,
    /// Reading its manifest.
    ReadingManifest,
    /// Extracting its assets.
    Extracting,
    /// Locating the native libraries.
    FindingLibs,
    /// Acquiring the lease on its layers.
    Leasing,
    /// Making the directory of this run.
    MakingRuntimeDir,
    /// Making the storage disk.
    MakingStorage,
    /// Making the overlay disk.
    MakingOverlay,
    /// Resolving the mounts.
    ResolvingMounts,
    /// Checking the network backend.
    CheckingBackend,
    /// Forking the process.
    Forking,
    /// Asking for the start time of the process, after so many retries.
    Identifying(u32),
    /// Killing a process that cannot be identified.
    Discarding,
    /// Waiting for the agent.
    AwaitingAgent,
    /// Executing the command.
    Executing,
    /// Cleaning up; the run then ends with this code, or fails.
    CleaningUp(Option<i32>),
    /// Over.
    Finished,
}

/// What the caller is asked to do next.
#[derive(Debug, Clone, Copy, PartialEq, Eq, Structural)]
pub enum PackedAction {
    /// Locate the sidecar.
    Locate,
    /// Read its footer.
    ReadFooter,
    /// Verify its checksum.
    Verify,
    /// Read its manifest.
    ReadManifest,
    /// Show the manifest; the run is over.
    ShowInfo,
    /// Extract its assets.
    Extract,
    /// Locate the native libraries.
    FindLibs,
    /// Acquire the lease on its layers.
    Lease,
    /// Make the directory of this run.
    MakeRuntimeDir,
    /// Make the storage disk.
    MakeStorage,
    /// Make the overlay disk.
    MakeOverlay,
    /// Resolve the mounts.
    ResolveMounts,
    /// Check the network backend.
    CheckBackend,
    /// Fork the process.
    Fork,
    /// Ask for the start time of the process.
    Identify,
    /// Kill the process and remove the directory of this run.
    Discard,
    /// Wait for the agent.
    AwaitAgent,
    /// Execute the command.
    Execute,
    /// Stop the process, if it is surely ours, remove the directory of this run and
    /// release the lease.
    CleanUp,
    /// End with this exit code.
    Exit(i32),
    /// Report the error that came up.
    Fail,
}

/// What the caller reports.
#[derive(Debug, Clone, Copy, PartialEq, Eq, Structural)]
pub enum PackedEvent {
    /// What was asked for was done.
    Done,
    /// What was asked for failed.
    Failed,
    /// What is done about the new process.
    Identity(IdentityStep),
    /// The command ended with this code.
    Exited(i32),
}

/// The next phase where something was done, else the run fails.
pub open spec fn packed_go(event: PackedEvent, phase: PackedPhase, action: PackedAction) -> (
    PackedPhase,
    PackedAction,
) {
    if event is Done {
        (phase, action)
    } else {
        (PackedPhase::Finished, PackedAction::Fail)
    }
}

/// Whether an event answers what a phase asked.
pub open spec fn packed_answers(phase: PackedPhase, event: PackedEvent) -> bool {
    match phase {
        PackedPhase::Identifying(n) => event matches PackedEvent::Identity(s) && (s is Retry ==> n
            < START_TIME_RETRIES),
        PackedPhase::Executing => event is Exited || event is Failed,
        PackedPhase::Finished => false,
        _ => event is Done || event is Failed,
    }
}

/// The next phase of a packed run and what is to be done.
pub open spec fn packed_next(info: bool, phase: PackedPhase, event: PackedEvent) -> (
    PackedPhase,
    PackedAction,
) {
    match phase {
        PackedPhase::Locating => packed_go(
            event,
            PackedPhase::ReadingFooter,
            PackedAction::ReadFooter,
        ),
        PackedPhase::ReadingFooter => packed_go(
            event,
            PackedPhase::Verifying,
            PackedAction::Verify,
        ),
        PackedPhase::Verifying => packed_go(
            event,
            PackedPhase::ReadingManifest,
            PackedAction::ReadManifest,
        ),
        PackedPhase::ReadingManifest => if info {
            packed_go(event, PackedPhase::Finished, PackedAction::ShowInfo)
        } else {
            packed_go(event, PackedPhase::Extracting, PackedAction::Extract)
        },
        PackedPhase::Extracting => packed_go(
            event,
            PackedPhase::FindingLibs,
            PackedAction::FindLibs,
        ),
        PackedPhase::FindingLibs => packed_go(event, PackedPhase::Leasing, PackedAction::Lease),
        PackedPhase::Leasing => packed_go(
            event,
            PackedPhase::MakingRuntimeDir,
            PackedAction::MakeRuntimeDir,
        ),
        PackedPhase::MakingRuntimeDir => packed_go(
            event,
            PackedPhase::MakingStorage,
            PackedAction::MakeStorage,
        ),
        PackedPhase::MakingStorage => packed_go(
            event,
            PackedPhase::MakingOverlay,
            PackedAction::MakeOverlay,
        ),
        PackedPhase::MakingOverlay => packed_go(
            event,
            PackedPhase::ResolvingMounts,
            PackedAction::ResolveMounts,
        ),
        PackedPhase::ResolvingMounts => packed_go(
            event,
            PackedPhase::CheckingBackend,
            PackedAction::CheckBackend,
        ),
        PackedPhase::CheckingBackend => packed_go(
            event,
            PackedPhase::Forking,
            PackedAction::Fork,
        ),
        PackedPhase::Forking => packed_go(
            event,
            PackedPhase::Identifying(0),
            PackedAction::Identify,
        ),
        PackedPhase::Identifying(n) => match event {
            PackedEvent::Identity(IdentityStep::Retry) => (
                PackedPhase::Identifying((n + 1) as u32),
                PackedAction::Identify,
            ),
            PackedEvent::Identity(IdentityStep::Proceed(_)) => (
                PackedPhase::AwaitingAgent,
                PackedAction::AwaitAgent,
            ),
            _ => (PackedPhase::Discarding, PackedAction::Discard),
        },
        PackedPhase::Discarding => (PackedPhase::Finished, PackedAction::Fail),
        PackedPhase::AwaitingAgent => if event is Done {
            (PackedPhase::Executing, PackedAction::Execute)
        } else {
            (PackedPhase::CleaningUp(None), PackedAction::CleanUp)
        },
        PackedPhase::Executing => match event {
            PackedEvent::Exited(code) => (
                PackedPhase::CleaningUp(Some(code)),
                PackedAction::CleanUp,
            ),
            _ => (PackedPhase::CleaningUp(None), PackedAction::CleanUp),
        },
        PackedPhase::CleaningUp(code) => (
            PackedPhase::Finished,
            match code {
                Some(c) => PackedAction::Exit(c),
                None => PackedAction::Fail,
            },
        ),
        PackedPhase::Finished => (PackedPhase::Finished, PackedAction::Fail),
    }
}

impl PackedPhase {
    /// Begin the run of a sidecar.
    pub fn of_sidecar() -> (r: (PackedPhase, PackedAction))
        ensures
            r == (PackedPhase::Locating, PackedAction::Locate),
    {
        (PackedPhase::Locating, PackedAction::Locate)
    }

    /// Begin the run of assets that are extracted already.
    pub fn of_cache() -> (r: (PackedPhase, PackedAction))
        ensures
            r == (PackedPhase::FindingLibs, PackedAction::FindLibs),
    {
        (PackedPhase::FindingLibs, PackedAction::FindLibs)
    }

    fn go(event: PackedEvent, phase: PackedPhase, action: PackedAction) -> (r: (
        PackedPhase,
        PackedAction,
    ))
        ensures
            r == packed_go(event, phase, action),
    {
        match event {
            PackedEvent::Done => (phase, action),
            _ => (PackedPhase::Finished, PackedAction::Fail),
        }
    }

    /// Take what the caller reports and say what is to be done next.
    pub fn step(self, info: bool, event: PackedEvent) -> (r: (PackedPhase, PackedAction))
        requires
            packed_answers(self, event),
        ensures
            r == packed_next(info, self, event),
    {
        match self {
            PackedPhase::Locating => PackedPhase::go(
                event,
                PackedPhase::ReadingFooter,
                PackedAction::ReadFooter,
            ),
            PackedPhase::ReadingFooter => PackedPhase::go(
                event,
                PackedPhase::Verifying,
                PackedAction::Verify,
            ),
            PackedPhase::Verifying => PackedPhase::go(
                event,
                PackedPhase::ReadingManifest,
                PackedAction::ReadManifest,
            ),
            PackedPhase::ReadingManifest => if info {
                PackedPhase::go(event, PackedPhase::Finished, PackedAction::ShowInfo)
            } else {
                PackedPhase::go(event, PackedPhase::Extracting, PackedAction::Extract)
            },
            PackedPhase::Extracting => PackedPhase::go(
                event,
                PackedPhase::FindingLibs,
                PackedAction::FindLibs,
            ),
            PackedPhase::FindingLibs => PackedPhase::go(
                event,
                PackedPhase::Leasing,
                PackedAction::Lease,
            ),
            PackedPhase::Leasing => PackedPhase::go(
                event,
                PackedPhase::MakingRuntimeDir,
                PackedAction::MakeRuntimeDir,
            ),
            PackedPhase::MakingRuntimeDir => PackedPhase::go(
                event,
                PackedPhase::MakingStorage,
                PackedAction::MakeStorage,
            ),
            PackedPhase::MakingStorage => PackedPhase::go(
                event,
                PackedPhase::MakingOverlay,
                PackedAction::MakeOverlay,
            ),
            PackedPhase::MakingOverlay => PackedPhase::go(
                event,
                PackedPhase::ResolvingMounts,
                PackedAction::ResolveMounts,
            ),
            PackedPhase::ResolvingMounts => PackedPhase::go(
                event,
                PackedPhase::CheckingBackend,
                PackedAction::CheckBackend,
            ),
            PackedPhase::CheckingBackend => PackedPhase::go(
                event,
                PackedPhase::Forking,
                PackedAction::Fork,
            ),
            PackedPhase::Forking => PackedPhase::go(
                event,
                PackedPhase::Identifying(0),
                PackedAction::Identify,
            ),
            PackedPhase::Identifying(n) => match event {
                PackedEvent::Identity(IdentityStep::Retry) => (
                    PackedPhase::Identifying(n + 1),
                    PackedAction::Identify,
                ),
                PackedEvent::Identity(IdentityStep::Proceed(_)) => (
                    PackedPhase::AwaitingAgent,
                    PackedAction::AwaitAgent,
                ),
                _ => (PackedPhase::Discarding, PackedAction::Discard),
            },
            PackedPhase::Discarding => (PackedPhase::Finished, PackedAction::Fail),
            PackedPhase::AwaitingAgent => match event {
                PackedEvent::Done => (PackedPhase::Executing, PackedAction::Execute),
                _ => (PackedPhase::CleaningUp(None), PackedAction::CleanUp),
            },
            PackedPhase::Executing => match event {
                PackedEvent::Exited(code) => (
                    PackedPhase::CleaningUp(Some(code)),
                    PackedAction::CleanUp,
                ),
                _ => (PackedPhase::CleaningUp(None), PackedAction::CleanUp),
            },
            PackedPhase::CleaningUp(code) => (
                PackedPhase::Finished,
                match code {
                    Some(c) => PackedAction::Exit(c),
                    None => PackedAction::Fail,
                },
            ),
            PackedPhase::Finished => (PackedPhase::Finished, PackedAction::Fail),
        }
    }
}

/// Nothing but the footer of a sidecar is read before its checksum was verified.
pub proof fn manifest_is_read_after_verification(info: bool, phase: PackedPhase, event: PackedEvent)
    requires
        packed_answers(phase, event),
    ensures
        packed_next(info, phase, event).1 is ReadManifest ==> phase is Verifying && event is Done,
        packed_next(info, phase, event).1 is Extract ==> phase is ReadingManifest && event is Done,
{
}

/// Once the process of a packed run is identified, the run ends only after a
/// clean-up, and with the exit code of the command where it ran.
pub proof fn packed_run_is_cleaned_up(info: bool, phase: PackedPhase, event: PackedEvent)
    requires
        packed_answers(phase, event),
        phase is AwaitingAgent || phase is Executing,
    ensures
        !(packed_next(info, phase, event).0 is Finished),
        event is Failed ==> packed_next(info, phase, event) == (
            PackedPhase::CleaningUp(None),
            PackedAction::CleanUp,
        ),
        event matches PackedEvent::Exited(code) ==> packed_next(info, phase, event).0
            == PackedPhase::CleaningUp(Some(code)) || phase is AwaitingAgent,
{
}

/// A process that cannot be identified is killed at once, and the run fails.
pub proof fn unidentified_process_is_killed(info: bool, n: u32, after: PackedEvent)
    ensures
        packed_next(
            info,
            PackedPhase::Identifying(n),
            PackedEvent::Identity(IdentityStep::KillAndFail),
        ) == (PackedPhase::Discarding, PackedAction::Discard),
        packed_next(info, PackedPhase::Discarding, after) == (
            PackedPhase::Finished,
            PackedAction::Fail,
        ),
{
}

/// The phase of a packed run after its first `n` events, from a phase on.
pub open spec fn packed_after(info: bool, from: PackedPhase, events: Seq<PackedEvent>, n: int) -> PackedPhase
    decreases n,
{
    if n <= 0 {
        from
    } else {
        packed_next(info, packed_after(info, from, events, n - 1), events[n - 1]).0
    }
}

/// Whether events are those of a packed run: each answers the phase before it.
pub open spec fn is_packed_run(info: bool, from: PackedPhase, events: Seq<PackedEvent>) -> bool {
    forall|k: int|
        0 <= k < events.len() ==> packed_answers(
            #[trigger] packed_after(info, from, events, k),
            events[k],
        )
}

/// A packed run that forked its process is over only after that process was discarded
/// or cleaned up: there is a step at which one of the two was asked for.
pub proof fn forked_process_is_accounted_for(info: bool, events: Seq<PackedEvent>, n: int)
    requires
        is_packed_run(info, PackedPhase::Identifying(0), events),
        0 < n <= events.len(),
        ({
            let phase = packed_after(info, PackedPhase::Identifying(0), events, n);
            phase is Finished || phase is Discarding || phase is CleaningUp
        }),
    ensures
        exists|k: int|
            0 <= k < n && ({
                let asked = packed_next(
                    info,
                    #[trigger] packed_after(info, PackedPhase::Identifying(0), events, k),
                    events[k],
                ).1;
                asked is Discard || asked is CleanUp
            }),
    decreases n,
{
    let from = PackedPhase::Identifying(0);
    let before = packed_after(info, from, events, n - 1);
    assert(packed_answers(before, events[n - 1]));
    lemma_forked_phases(info, events, n - 1);
    let asked = packed_next(info, before, events[n - 1]).1;
    if asked is Discard || asked is CleanUp {
    } else {
        assert(n > 1);
        forked_process_is_accounted_for(info, events, n - 1);
    }
}

proof fn lemma_forked_phases(info: bool, events: Seq<PackedEvent>, n: int)
    requires
        is_packed_run(info, PackedPhase::Identifying(0), events),
        0 <= n <= events.len(),
    ensures
        ({
            let phase = packed_after(info, PackedPhase::Identifying(0), events, n);
            phase is Identifying || phase is Discarding || phase is AwaitingAgent
                || phase is Executing || phase is CleaningUp || phase is Finished
        }),
    decreases n,
{
    if n > 0 {
        lemma_forked_phases(info, events, n - 1);
        assert(packed_answers(
            packed_after(info, PackedPhase::Identifying(0), events, n - 1),
            events[n - 1],
        ));
    }
}

/// The position of a phase in a run of a packed artifact.
pub open spec fn packed_rank(phase: PackedPhase) -> int {
    match phase {
        PackedPhase::Locating => 0,
        PackedPhase::ReadingFooter => 1,
        PackedPhase::Verifying => 2,
        PackedPhase::ReadingManifest => 3,
        PackedPhase::Extracting => 4,
        PackedPhase::FindingLibs => 5,
        PackedPhase::Leasing => 6,
        PackedPhase::MakingRuntimeDir => 7,
        PackedPhase::MakingStorage => 8,
        PackedPhase::MakingOverlay => 9,
        PackedPhase::ResolvingMounts => 10,
        PackedPhase::CheckingBackend => 11,
        PackedPhase::Forking => 12,
        PackedPhase::Identifying(_) => 13,
        PackedPhase::AwaitingAgent => 14,
        PackedPhase::Executing => 15,
        PackedPhase::CleaningUp(_) => 16,
        PackedPhase::Discarding => 17,
        PackedPhase::Finished => 18,
    }
}

/// What the run of a packed artifact calls for: a look at it ends with its manifest.
pub open spec fn packed_calls_for(info: bool, phase: PackedPhase) -> bool {
    match phase {
        PackedPhase::Locating
        | PackedPhase::ReadingFooter
        | PackedPhase::Verifying
        | PackedPhase::ReadingManifest => true,
        PackedPhase::CleaningUp(code) => !info && code is Some,
        PackedPhase::Discarding | PackedPhase::Finished => false,
        _ => !info,
    }
}

/// What the caller of a packed run is asked for in a phase.
pub open spec fn packed_asked_in(phase: PackedPhase) -> PackedAction {
    match phase {
        PackedPhase::Locating => PackedAction::Locate,
        PackedPhase::ReadingFooter => PackedAction::ReadFooter,
        PackedPhase::Verifying => PackedAction::Verify,
        PackedPhase::ReadingManifest => PackedAction::ReadManifest,
        PackedPhase::Extracting => PackedAction::Extract,
        PackedPhase::FindingLibs => PackedAction::FindLibs,
        PackedPhase::Leasing => PackedAction::Lease,
        PackedPhase::MakingRuntimeDir => PackedAction::MakeRuntimeDir,
        PackedPhase::MakingStorage => PackedAction::MakeStorage,
        PackedPhase::MakingOverlay => PackedAction::MakeOverlay,
        PackedPhase::ResolvingMounts => PackedAction::ResolveMounts,
        PackedPhase::CheckingBackend => PackedAction::CheckBackend,
        PackedPhase::Forking => PackedAction::Fork,
        PackedPhase::Identifying(_) => PackedAction::Identify,
        PackedPhase::Discarding => PackedAction::Discard,
        PackedPhase::AwaitingAgent => PackedAction::AwaitAgent,
        PackedPhase::Executing => PackedAction::Execute,
        PackedPhase::CleaningUp(_) => PackedAction::CleanUp,
        PackedPhase::Finished => PackedAction::Fail,
    }
}

/// A packed run asks for what its phase is about, goes to the next thing that it calls for
/// and skips nothing; a process is asked for its start time as often as it takes. The run
/// ends with the exit code of its command, with its manifest where only that was asked for,
/// and with an error where something failed, after a process that was forked was brought
/// down.
pub proof fn packed_runs_skip_nothing(
    info: bool,
    phase: PackedPhase,
    event: PackedEvent,
    other: PackedPhase,
)
    requires
        packed_answers(phase, event),
        packed_calls_for(info, phase) || phase is Discarding || phase == PackedPhase::CleaningUp(
            None,
        ),
    ensures
        ({
            let (next, action) = packed_next(info, phase, event);
            let good = !(event is Failed) && !(event matches PackedEvent::Identity(s)
                && s is KillAndFail);
            &&& !(next is Finished) ==> action == packed_asked_in(next)
            &&& action is ShowInfo <==> info && phase is ReadingManifest && event is Done
            &&& phase is Executing ==> (event matches PackedEvent::Exited(code) ==> next
                == PackedPhase::CleaningUp(Some(code)))
            &&& phase is Forking && good ==> next == PackedPhase::Identifying(0)
            &&& match phase {
                PackedPhase::CleaningUp(Some(code)) => action == PackedAction::Exit(code),
                PackedPhase::CleaningUp(None) | PackedPhase::Discarding => action is Fail,
                PackedPhase::Identifying(k) => match event {
                    PackedEvent::Identity(IdentityStep::Retry) => next == PackedPhase::Identifying(
                        (k + 1) as u32,
                    ),
                    PackedEvent::Identity(IdentityStep::KillAndFail) => next is Discarding,
                    _ => next is AwaitingAgent,
                },
                _ => if good && !(action is ShowInfo) {
                    &&& packed_calls_for(info, next)
                    &&& packed_rank(phase) < packed_rank(next)
                    &&& packed_calls_for(info, other) && packed_rank(phase) < packed_rank(other)
                        ==> packed_rank(next) <= packed_rank(other)
                } else if phase is AwaitingAgent || phase is Executing {
                    next == PackedPhase::CleaningUp(None)
                } else {
                    next is Finished && (action is ShowInfo || action is Fail)
                },
            }
        }),
{
}

// ---------------------------------------------------------------------------
// Starting a daemon
// ---------------------------------------------------------------------------

/// Where the start of a daemon stands.
#[derive(Debug, Clone, Copy, PartialEq, Eq, Structural)]
pub enum DaemonPhase {
    /// Reading the manifest.
    ReadingManifest,
    /// Extracting the assets.
    Extracting,
    /// Making the daemon's directory.
    MakingDir,
    /// Asked whether the daemon runs.
    CheckingRunning,
    /// Removing files of earlier runs.
    RemovingStale,
    /// Asked which disks exist.
    CheckingDisks,
    /// Making the storage disk.
    MakingStorage {
        /// Whether the overlay disk exists.
        has_overlay: bool,
    },
    /// Making the overlay disk.
    MakingOverlay,
    /// Resolving the mounts.
    ResolvingMounts,
    /// Checking the network backend.
    CheckingBackend,
    /// Locating the native libraries.
    FindingLibs,
    /// Acquiring the lease on the layers.
    Leasing,
    /// Forking the process.
    Forking,
    /// Asking for the start time of the process, after so many retries.
    Identifying(u32),
    /// Killing a process that cannot be identified.
    Discarding,
    /// Writing the process file.
    WritingPid,
    /// Acquiring the lease that outlives this process.
    LeasingForDaemon,
    /// Waiting for the agent.
    AwaitingAgent,
    /// Over.
    Finished,
}

/// What the caller is asked to do next.
#[derive(Debug, Clone, Copy, PartialEq, Eq, Structural)]
pub enum DaemonAction {
    /// Read the manifest.
    ReadManifest,
    /// Extract the assets.
    Extract,
    /// Make the daemon's directory.
    MakeDir,
    /// Find out whether the daemon runs.
    CheckRunning,
    /// Say that the daemon runs already; the start is over.
    AlreadyRunning,
    /// Remove the process file and the socket of earlier runs.
    RemoveStale,
    /// Find out which disks exist.
    CheckDisks,
    /// Make the storage disk.
    MakeStorage,
    /// Make the overlay disk.
    MakeOverlay,
    /// Resolve the mounts.
    ResolveMounts,
    /// Check the network backend.
    CheckBackend,
    /// Locate the native libraries.
    FindLibs,
    /// Acquire the lease on the layers.
    Lease,
    /// Fork the process.
    Fork,
    /// Ask for the start time of the process.
    Identify,
    /// Kill the process.
    Discard,
    /// Write the process file.
    WritePid,
    /// Acquire the lease that outlives this process.
    LeaseForDaemon,
    /// Wait for the agent.
    AwaitAgent,
    /// Say that the daemon was started; the start is over.
    Started,
    /// Report the error that came up.
    Fail,
}

/// What the caller reports.
#[derive(Debug, Clone, Copy, PartialEq, Eq, Structural)]
pub enum DaemonEvent {
    /// What was asked for was done.
    Done,
    /// What was asked for failed.
    Failed,
    /// Whether the daemon runs.
    Running(bool),
    /// Which disks exist.
    Disks {
        /// Whether the storage disk exists.
        storage: bool,
        /// Whether the overlay disk exists.
        overlay: bool,
    },
    /// What is done about the new process.
    Identity(IdentityStep),
}

/// The next phase where something was done, else the start fails.
pub open spec fn daemon_go(event: DaemonEvent, phase: DaemonPhase, action: DaemonAction) -> (
    DaemonPhase,
    DaemonAction,
) {
    if event is Done {
        (phase, action)
    } else {
        (DaemonPhase::Finished, DaemonAction::Fail)
    }
}

/// What follows once the storage disk is there: an overlay disk that exists is kept.
pub open spec fn after_storage(has_overlay: bool) -> (DaemonPhase, DaemonAction) {
    if has_overlay {
        (DaemonPhase::ResolvingMounts, DaemonAction::ResolveMounts)
    } else {
        (DaemonPhase::MakingOverlay, DaemonAction::MakeOverlay)
    }
}

/// Whether an event answers what a phase asked.
pub open spec fn daemon_answers(phase: DaemonPhase, event: DaemonEvent) -> bool {
    match phase {
        DaemonPhase::CheckingRunning => event is Running,
        DaemonPhase::CheckingDisks => event is Disks,
        DaemonPhase::Identifying(n) => event matches DaemonEvent::Identity(s) && (s is Retry ==> n
            < START_TIME_RETRIES),
        DaemonPhase::Finished => false,
        _ => event is Done || event is Failed,
    }
}

/// The next phase of the start of a daemon and what is to be done.
pub open spec fn daemon_next(phase: DaemonPhase, event: DaemonEvent) -> (DaemonPhase, DaemonAction) {
    match phase {
        DaemonPhase::ReadingManifest => daemon_go(
            event,
            DaemonPhase::Extracting,
            DaemonAction::Extract,
        ),
        DaemonPhase::Extracting => daemon_go(event, DaemonPhase::MakingDir, DaemonAction::MakeDir),
        DaemonPhase::MakingDir => daemon_go(
            event,
            DaemonPhase::CheckingRunning,
            DaemonAction::CheckRunning,
        ),
        DaemonPhase::CheckingRunning => if event == DaemonEvent::Running(true) {
            (DaemonPhase::Finished, DaemonAction::AlreadyRunning)
        } else {
            (DaemonPhase::RemovingStale, DaemonAction::RemoveStale)
        },
        DaemonPhase::RemovingStale => (DaemonPhase::CheckingDisks, DaemonAction::CheckDisks),
        DaemonPhase::CheckingDisks => match event {
            DaemonEvent::Disks { storage, overlay } => if storage {
                after_storage(overlay)
            } else {
                (
                    DaemonPhase::MakingStorage { has_overlay: overlay },
                    DaemonAction::MakeStorage,
                )
            },
            _ => (DaemonPhase::Finished, DaemonAction::Fail),
        },
        DaemonPhase::MakingStorage { has_overlay } => if event is Done {
            after_storage(has_overlay)
        } else {
            (DaemonPhase::Finished, DaemonAction::Fail)
        },
        DaemonPhase::MakingOverlay => daemon_go(
            event,
            DaemonPhase::ResolvingMounts,
            DaemonAction::ResolveMounts,
        ),
        DaemonPhase::ResolvingMounts => daemon_go(
            event,
            DaemonPhase::CheckingBackend,
            DaemonAction::CheckBackend,
        ),
        DaemonPhase::CheckingBackend => daemon_go(
            event,
            DaemonPhase::FindingLibs,
            DaemonAction::FindLibs,
        ),
        DaemonPhase::FindingLibs => daemon_go(event, DaemonPhase::Leasing, DaemonAction::Lease),
        DaemonPhase::Leasing => daemon_go(event, DaemonPhase::Forking, DaemonAction::Fork),
        DaemonPhase::Forking => daemon_go(
            event,
            DaemonPhase::Identifying(0),
            DaemonAction::Identify,
        ),
        DaemonPhase::Identifying(n) => match event {
            DaemonEvent::Identity(IdentityStep::Retry) => (
                DaemonPhase::Identifying((n + 1) as u32),
                DaemonAction::Identify,
            ),
            DaemonEvent::Identity(IdentityStep::Proceed(_)) => (
                DaemonPhase::WritingPid,
                DaemonAction::WritePid,
            ),
            _ => (DaemonPhase::Discarding, DaemonAction::Discard),
        },
        DaemonPhase::Discarding => (DaemonPhase::Finished, DaemonAction::Fail),
        DaemonPhase::WritingPid => daemon_go(
            event,
            DaemonPhase::LeasingForDaemon,
            DaemonAction::LeaseForDaemon,
        ),
        DaemonPhase::LeasingForDaemon => daemon_go(
            event,
            DaemonPhase::AwaitingAgent,
            DaemonAction::AwaitAgent,
        ),
        DaemonPhase::AwaitingAgent => daemon_go(
            event,
            DaemonPhase::Finished,
            DaemonAction::Started,
        ),
        DaemonPhase::Finished => (DaemonPhase::Finished, DaemonAction::Fail),
    }
}

impl DaemonPhase {
    /// Begin the start of a daemon.
    pub fn begin() -> (r: (DaemonPhase, DaemonAction))
        ensures
            r == (DaemonPhase::ReadingManifest, DaemonAction::ReadManifest),
    {
        (DaemonPhase::ReadingManifest, DaemonAction::ReadManifest)
    }

    fn go(event: DaemonEvent, phase: DaemonPhase, action: DaemonAction) -> (r: (
        DaemonPhase,
        DaemonAction,
    ))
        ensures
            r == daemon_go(event, phase, action),
    {
        match event {
            DaemonEvent::Done => (phase, action),
            _ => (DaemonPhase::Finished, DaemonAction::Fail),
        }
    }

    fn storage_made(has_overlay: bool) -> (r: (DaemonPhase, DaemonAction))
        ensures
            r == after_storage(has_overlay),
    {
        if has_overlay {
            (DaemonPhase::ResolvingMounts, DaemonAction::ResolveMounts)
        } else {
            (DaemonPhase::MakingOverlay, DaemonAction::MakeOverlay)
        }
    }

    /// Take what the caller reports and say what is to be done next.
    pub fn step(self, event: DaemonEvent) -> (r: (DaemonPhase, DaemonAction))
        requires
            daemon_answers(self, event),
        ensures
            r == daemon_next(self, event),
    {
        match self {
            DaemonPhase::ReadingManifest => DaemonPhase::go(
                event,
                DaemonPhase::Extracting,
                DaemonAction::Extract,
            ),
            DaemonPhase::Extracting => DaemonPhase::go(
                event,
                DaemonPhase::MakingDir,
                DaemonAction::MakeDir,
            ),
            DaemonPhase::MakingDir => DaemonPhase::go(
                event,
                DaemonPhase::CheckingRunning,
                DaemonAction::CheckRunning,
            ),
            DaemonPhase::CheckingRunning => match event {
                DaemonEvent::Running(true) => (
                    DaemonPhase::Finished,
                    DaemonAction::AlreadyRunning,
                ),
                _ => (DaemonPhase::RemovingStale, DaemonAction::RemoveStale),
            },
            DaemonPhase::RemovingStale => (DaemonPhase::CheckingDisks, DaemonAction::CheckDisks),
            DaemonPhase::CheckingDisks => match event {
                DaemonEvent::Disks { storage, overlay } => if storage {
                    DaemonPhase::storage_made(overlay)
                } else {
                    (
                        DaemonPhase::MakingStorage { has_overlay: overlay },
                        DaemonAction::MakeStorage,
                    )
                },
                _ => (DaemonPhase::Finished, DaemonAction::Fail),
            },
            DaemonPhase::MakingStorage { has_overlay } => match event {
                DaemonEvent::Done => DaemonPhase::storage_made(has_overlay),
                _ => (DaemonPhase::Finished, DaemonAction::Fail),
            },
            DaemonPhase::MakingOverlay => DaemonPhase::go(
                event,
                DaemonPhase::ResolvingMounts,
                DaemonAction::ResolveMounts,
            ),
            DaemonPhase::ResolvingMounts => DaemonPhase::go(
                event,
                DaemonPhase::CheckingBackend,
                DaemonAction::CheckBackend,
            ),
            DaemonPhase::CheckingBackend => DaemonPhase::go(
                event,
                DaemonPhase::FindingLibs,
                DaemonAction::FindLibs,
            ),
            DaemonPhase::FindingLibs => DaemonPhase::go(
                event,
                DaemonPhase::Leasing,
                DaemonAction::Lease,
            ),
            DaemonPhase::Leasing => DaemonPhase::go(
                event,
                DaemonPhase::Forking,
                DaemonAction::Fork,
            ),
            DaemonPhase::Forking => DaemonPhase::go(
                event,
                DaemonPhase::Identifying(0),
                DaemonAction::Identify,
            ),
            DaemonPhase::Identifying(n) => match event {
                DaemonEvent::Identity(IdentityStep::Retry) => (
                    DaemonPhase::Identifying(n + 1),
                    DaemonAction::Identify,
                ),
                DaemonEvent::Identity(IdentityStep::Proceed(_)) => (
                    DaemonPhase::WritingPid,
                    DaemonAction::WritePid,
                ),
                _ => (DaemonPhase::Discarding, DaemonAction::Discard),
            },
            DaemonPhase::Discarding => (DaemonPhase::Finished, DaemonAction::Fail),
            DaemonPhase::WritingPid => DaemonPhase::go(
                event,
                DaemonPhase::LeasingForDaemon,
                DaemonAction::LeaseForDaemon,
            ),
            DaemonPhase::LeasingForDaemon => DaemonPhase::go(
                event,
                DaemonPhase::AwaitingAgent,
                DaemonAction::AwaitAgent,
            ),
            DaemonPhase::AwaitingAgent => DaemonPhase::go(
                event,
                DaemonPhase::Finished,
                DaemonAction::Started,
            ),
            DaemonPhase::Finished => (DaemonPhase::Finished, DaemonAction::Fail),
        }
    }
}

/// Disks of an earlier run are preserved: a disk is made only where none exists.
pub proof fn daemon_preserves_disks(storage: bool, overlay: bool)
    ensures
        ({
            let first = daemon_next(
                DaemonPhase::CheckingDisks,
                DaemonEvent::Disks { storage, overlay },
            );
            &&& storage ==> !(first.1 is MakeStorage)
            &&& storage && overlay ==> first.1 is ResolveMounts
            &&& !storage ==> first == (
                DaemonPhase::MakingStorage { has_overlay: overlay },
                DaemonAction::MakeStorage,
            )
            &&& overlay ==> !(daemon_next(
                DaemonPhase::MakingStorage { has_overlay: overlay },
                DaemonEvent::Done,
            ).1 is MakeOverlay)
        }),
{
}

/// A daemon that runs is left alone, and the process file is written only for a
/// process that was identified or is gone.
pub proof fn daemon_pid_is_written_once_known(phase: DaemonPhase, event: DaemonEvent)
    requires
        daemon_answers(phase, event),
    ensures
        phase is CheckingRunning && event == DaemonEvent::Running(true) ==> daemon_next(phase, event).1
            is AlreadyRunning,
        daemon_next(phase, event).1 is WritePid ==> phase is Identifying && event
            matches DaemonEvent::Identity(IdentityStep::Proceed(_)),
{
}

/// The position of a phase in the start of a daemon.
pub open spec fn daemon_rank(phase: DaemonPhase) -> int {
    match phase {
        DaemonPhase::ReadingManifest => 0,
        DaemonPhase::Extracting => 1,
        DaemonPhase::MakingDir => 2,
        DaemonPhase::CheckingRunning => 3,
        DaemonPhase::RemovingStale => 4,
        DaemonPhase::CheckingDisks => 5,
        DaemonPhase::MakingStorage { .. } => 6,
        DaemonPhase::MakingOverlay => 7,
        DaemonPhase::ResolvingMounts => 8,
        DaemonPhase::CheckingBackend => 9,
        DaemonPhase::FindingLibs => 10,
        DaemonPhase::Leasing => 11,
        DaemonPhase::Forking => 12,
        DaemonPhase::Identifying(_) => 13,
        DaemonPhase::WritingPid => 14,
        DaemonPhase::LeasingForDaemon => 15,
        DaemonPhase::AwaitingAgent => 16,
        DaemonPhase::Discarding => 17,
        DaemonPhase::Finished => 18,
    }
}

/// What the start of a daemon calls for, given which of its disks exist: a disk is made
/// where there is none.
pub open spec fn daemon_calls_for(storage: bool, overlay: bool, phase: DaemonPhase) -> bool {
    match phase {
        DaemonPhase::MakingStorage { has_overlay } => !storage && has_overlay == overlay,
        DaemonPhase::MakingOverlay => !overlay,
        DaemonPhase::Discarding | DaemonPhase::Finished => false,
        _ => true,
    }
}

/// What the caller of a daemon's start is asked for in a phase.
pub open spec fn daemon_asked_in(phase: DaemonPhase) -> DaemonAction {
    match phase {
        DaemonPhase::ReadingManifest => DaemonAction::ReadManifest,
        DaemonPhase::Extracting => DaemonAction::Extract,
        DaemonPhase::MakingDir => DaemonAction::MakeDir,
        DaemonPhase::CheckingRunning => DaemonAction::CheckRunning,
        DaemonPhase::RemovingStale => DaemonAction::RemoveStale,
        DaemonPhase::CheckingDisks => DaemonAction::CheckDisks,
        DaemonPhase::MakingStorage { .. } => DaemonAction::MakeStorage,
        DaemonPhase::MakingOverlay => DaemonAction::MakeOverlay,
        DaemonPhase::ResolvingMounts => DaemonAction::ResolveMounts,
        DaemonPhase::CheckingBackend => DaemonAction::CheckBackend,
        DaemonPhase::FindingLibs => DaemonAction::FindLibs,
        DaemonPhase::Leasing => DaemonAction::Lease,
        DaemonPhase::Forking => DaemonAction::Fork,
        DaemonPhase::Identifying(_) => DaemonAction::Identify,
        DaemonPhase::Discarding => DaemonAction::Discard,
        DaemonPhase::WritingPid => DaemonAction::WritePid,
        DaemonPhase::LeasingForDaemon => DaemonAction::LeaseForDaemon,
        DaemonPhase::AwaitingAgent => DaemonAction::AwaitAgent,
        DaemonPhase::Finished => DaemonAction::Fail,
    }
}

/// The start of a daemon asks for what its phase is about, goes to the next thing that it
/// calls for and skips nothing. It says that the daemon was started exactly when its agent
/// became ready, and that it was running only where it was; every failure but that of
/// removing old files ends it.
pub proof fn daemon_starts_skip_nothing(
    storage: bool,
    overlay: bool,
    phase: DaemonPhase,
    event: DaemonEvent,
    other: DaemonPhase,
)
    requires
        daemon_answers(phase, event),
        event matches DaemonEvent::Disks { storage: s, overlay: o } ==> s == storage && o
            == overlay,
        phase matches DaemonPhase::MakingStorage { has_overlay } ==> has_overlay == overlay,
    ensures
        ({
            let (next, action) = daemon_next(phase, event);
            &&& !(next is Finished) ==> action == daemon_asked_in(next)
            &&& action is Started <==> phase is AwaitingAgent && event is Done
            &&& action is AlreadyRunning <==> event == DaemonEvent::Running(true)
            &&& phase is Forking && !(event is Failed) ==> next == DaemonPhase::Identifying(0)
            &&& match phase {
                DaemonPhase::Identifying(k) => match event {
                    DaemonEvent::Identity(IdentityStep::Retry) => next == DaemonPhase::Identifying(
                        (k + 1) as u32,
                    ),
                    DaemonEvent::Identity(IdentityStep::KillAndFail) => next is Discarding,
                    _ => next is WritingPid,
                },
                DaemonPhase::Discarding => action is Fail,
                DaemonPhase::AwaitingAgent => next is Finished,
                _ => if action is AlreadyRunning {
                    next is Finished
                } else if event is Failed && !(phase is RemovingStale) {
                    next is Finished && action is Fail
                } else {
                    &&& daemon_calls_for(storage, overlay, next)
                    &&& daemon_rank(phase) < daemon_rank(next)
                    &&& daemon_calls_for(storage, overlay, other) && daemon_rank(phase)
                        < daemon_rank(other) ==> daemon_rank(next) <= daemon_rank(other)
                },
            }
        }),
{
}

} // verus!
