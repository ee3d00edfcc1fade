//! Packing a stopped machine, and assembling a packed binary, step by step.
use vstd::prelude::*;

verus! {

// ---------------------------------------------------------------------------
// Packing a machine
// ---------------------------------------------------------------------------

/// Where the packing of a machine stands.
#[derive(Debug, Clone, Copy, PartialEq, Eq, Structural)]
pub enum SnapshotPhase {
    /// Collecting libraries, root filesystem and disk template.
    Collecting,
    /// Asked to start the temporary machine.
    Starting,
    /// Asked to connect to its agent.
    Connecting,
    /// Mounting the packed machine's storage disk.
    Mounting,
    /// Asked to pull the image.
    Pulling,
    /// Exporting the layer at this position, of so many.
    Exporting(usize, usize),
    /// Registering the layer at this position, of so many.
    Registering(usize, usize),
    /// Archiving the container overlay.
    ArchivingOverlay,
    /// Fetching the archive.
    FetchingOverlay,
    /// Keeping the archive as a layer.
    KeepingOverlay,
    /// Stopping the temporary machine.
    Stopping {
        /// Whether something failed before.
        failed: bool,
    },
    /// Removing its data.
    Removing {
        /// Whether something failed before.
        failed: bool,
    },
    /// Adding the overlay disk.
    AddingOverlay,
    /// Assembling the packed binary.
    Finalizing,
    /// Over.
    Finished,
}

/// What the caller is asked to do next.
#[derive(Debug, Clone, Copy, PartialEq, Eq, Structural)]
pub enum SnapshotAction {
    /// Collect libraries, root filesystem and disk template.
    Collect,
    /// Start the temporary machine, with the storage disk attached.
    Start,
    /// Connect to its agent.
    Connect,
    /// Mount the storage disk.
    Mount,
    /// Pull the image.
    Pull,
    /// Export the layer at this position.
    Export(usize),
    /// Register the layer at this position.
    Register(usize),
    /// Archive the container overlay.
    ArchiveOverlay,
    /// Fetch the archive.
    FetchOverlay,
    /// Keep the archive as a layer.
    KeepOverlay,
    /// Stop the temporary machine.
    Stop,
    /// Remove its data.
    RemoveData,
    /// Add the overlay disk.
    AddOverlay,
    /// Assemble the packed binary.
    Finalize,
    /// The packing is over.
    Succeed,
    /// Report the error that came up; the packing is over.
    Fail,
}

/// What the caller reports.
#[derive(Debug, Clone, Copy, PartialEq, Eq, Structural)]
pub enum SnapshotEvent {
    /// What was asked for was done.
    Done,
    /// What was asked for failed.
    Failed,
    /// The image was pulled; it has so many layers.
    Pulled(usize),
    /// The command ended with this code.
    Exited(i32),
    /// The archive has so many bytes.
    Fetched(usize),
}

/// Whether an event answers what a phase asked.
pub open spec fn snapshot_answers(phase: SnapshotPhase, event: SnapshotEvent) -> bool {
    match phase {
        SnapshotPhase::Mounting | SnapshotPhase::ArchivingOverlay => event is Exited
            || event is Failed,
        SnapshotPhase::Pulling => event is Pulled || event is Failed,
        SnapshotPhase::FetchingOverlay => event is Fetched || event is Failed,
        SnapshotPhase::Finished => false,
        _ => event is Done || event is Failed,
    }
}

/// The end of a packing that failed before, or without, its temporary machine.
pub open spec fn snapshot_failed() -> (SnapshotPhase, SnapshotAction) {
    (SnapshotPhase::Finished, SnapshotAction::Fail)
}

/// The stop of the temporary machine.
pub open spec fn snapshot_stop(failed: bool) -> (SnapshotPhase, SnapshotAction) {
    (SnapshotPhase::Stopping { failed }, SnapshotAction::Stop)
}

/// What follows once the layers before position `i` of `n` are registered.
pub open spec fn snapshot_layer(i: int, n: int) -> (SnapshotPhase, SnapshotAction) {
    if i < n {
        (SnapshotPhase::Exporting(i as usize, n as usize), SnapshotAction::Export(i as usize))
    } else {
        (SnapshotPhase::ArchivingOverlay, SnapshotAction::ArchiveOverlay)
    }
}

/// What follows in the temporary machine: the next step, or a stop after a failure.
pub open spec fn snapshot_go(
    event: SnapshotEvent,
    phase: SnapshotPhase,
    action: SnapshotAction,
) -> (SnapshotPhase, SnapshotAction) {
    if event is Done {
        (phase, action)
    } else {
        snapshot_stop(true)
    }
}

/// The next phase of the packing of a machine, which has an image or not, and what is
/// to be done.
pub open spec fn snapshot_next(has_image: bool, phase: SnapshotPhase, event: SnapshotEvent) -> (
    SnapshotPhase,
    SnapshotAction,
) {
    match phase {
        SnapshotPhase::Collecting => if !(event is Done) {
            snapshot_failed()
        } else if has_image {
            (SnapshotPhase::Starting, SnapshotAction::Start)
        } else {
            (SnapshotPhase::AddingOverlay, SnapshotAction::AddOverlay)
        },
        SnapshotPhase::Starting => if event is Done {
            (SnapshotPhase::Connecting, SnapshotAction::Connect)
        } else {
            snapshot_failed()
        },
        SnapshotPhase::Connecting => snapshot_go(
            event,
            SnapshotPhase::Mounting,
            SnapshotAction::Mount,
        ),
        SnapshotPhase::Mounting => if event == SnapshotEvent::Exited(0) {
            (SnapshotPhase::Pulling, SnapshotAction::Pull)
        } else {
            snapshot_stop(true)
        },
        SnapshotPhase::Pulling => match event {
            SnapshotEvent::Pulled(n) => snapshot_layer(0, n as int),
            _ => snapshot_stop(true),
        },
        SnapshotPhase::Exporting(i, n) => snapshot_go(
            event,
            SnapshotPhase::Registering(i, n),
            SnapshotAction::Register(i),
        ),
        SnapshotPhase::Registering(i, n) => if event is Done {
            snapshot_layer(i + 1, n as int)
        } else {
            snapshot_stop(true)
        },
        SnapshotPhase::ArchivingOverlay => match event {
            SnapshotEvent::Exited(code) => if code == 0 {
                (SnapshotPhase::FetchingOverlay, SnapshotAction::FetchOverlay)
            } else {
                snapshot_stop(false)
            },
            _ => snapshot_stop(true),
        },
        SnapshotPhase::FetchingOverlay => match event {
            SnapshotEvent::Fetched(len) => if len > 0 {
                (SnapshotPhase::KeepingOverlay, SnapshotAction::KeepOverlay)
            } else {
                snapshot_stop(false)
            },
            _ => snapshot_stop(true),
        },
        SnapshotPhase::KeepingOverlay => snapshot_stop(!(event is Done)),
        SnapshotPhase::Stopping { failed } => (
            SnapshotPhase::Removing { failed },
            SnapshotAction::RemoveData,
        ),
        SnapshotPhase::Removing { failed } => if failed {
            snapshot_failed()
        } else {
            (SnapshotPhase::AddingOverlay, SnapshotAction::AddOverlay)
        },
        SnapshotPhase::AddingOverlay => if event is Done {
            (SnapshotPhase::Finalizing, SnapshotAction::Finalize)
        } else {
            snapshot_failed()
        },
        SnapshotPhase::Finalizing => if event is Done {
            (SnapshotPhase::Finished, SnapshotAction::Succeed)
        } else {
            snapshot_failed()
        },
        SnapshotPhase::Finished => snapshot_failed(),
    }
}

impl SnapshotPhase {
    /// What holds in every phase that a packing reaches: a layer that is handled is one
    /// of the image's.
    pub open spec fn wf(self) -> bool {
        match self {
            SnapshotPhase::Exporting(i, n) => i < n,
            SnapshotPhase::Registering(i, n) => i < n,
            _ => true,
        }
    }

    /// Begin the packing of a machine.
    pub fn begin() -> (r: (SnapshotPhase, SnapshotAction))
        ensures
            r == (SnapshotPhase::Collecting, SnapshotAction::Collect),
    {
        (SnapshotPhase::Collecting, SnapshotAction::Collect)
    }

    fn layer(i: usize, n: usize) -> (r: (SnapshotPhase, SnapshotAction))
        ensures
            r == snapshot_layer(i as int, n as int),
    {
        if i < n {
            (SnapshotPhase::Exporting(i, n), SnapshotAction::Export(i))
        } else {
            (SnapshotPhase::ArchivingOverlay, SnapshotAction::ArchiveOverlay)
        }
    }

    fn stop(failed: bool) -> (r: (SnapshotPhase, SnapshotAction))
        ensures
            r == snapshot_stop(failed),
    {
        (SnapshotPhase::Stopping { failed }, SnapshotAction::Stop)
    }

    /// Take what the caller reports and say what is to be done next.
    pub fn step(self, has_image: bool, event: SnapshotEvent) -> (r: (SnapshotPhase, SnapshotAction))
        requires
            self.wf(),
            snapshot_answers(self, event),
        ensures
            r == snapshot_next(has_image, self, event),
            r.0.wf(),
    {
        let done = match event {
            SnapshotEvent::Done => true,
            _ => false,
        };
        match self {
            SnapshotPhase::Collecting if done => if has_image {
                (SnapshotPhase::Starting, SnapshotAction::Start)
            } else {
                (SnapshotPhase::AddingOverlay, SnapshotAction::AddOverlay)
            },
            SnapshotPhase::Starting if done => (
                SnapshotPhase::Connecting,
                SnapshotAction::Connect,
            ),
            SnapshotPhase::Connecting => if done {
                (SnapshotPhase::Mounting, SnapshotAction::Mount)
            } else {
                SnapshotPhase::stop(true)
            },
            SnapshotPhase::Mounting => match event {
                SnapshotEvent::Exited(0) => (SnapshotPhase::Pulling, SnapshotAction::Pull),
                _ => SnapshotPhase::stop(true),
            },
            SnapshotPhase::Pulling => match event {
                SnapshotEvent::Pulled(n) => SnapshotPhase::layer(0, n),
                _ => SnapshotPhase::stop(true),
            },
            SnapshotPhase::Exporting(i, n) => if done {
                (SnapshotPhase::Registering(i, n), SnapshotAction::Register(i))
            } else {
                SnapshotPhase::stop(true)
            },
            SnapshotPhase::Registering(i, n) => if done {
                SnapshotPhase::layer(i + 1, n)
            } else {
                SnapshotPhase::stop(true)
            },
            SnapshotPhase::ArchivingOverlay => match event {
                SnapshotEvent::Exited(0) => (
                    SnapshotPhase::FetchingOverlay,
                    SnapshotAction::FetchOverlay,
                ),
                SnapshotEvent::Exited(_) => SnapshotPhase::stop(false),
                _ => SnapshotPhase::stop(true),
            },
            SnapshotPhase::FetchingOverlay => match event {
                SnapshotEvent::Fetched(len) => if len > 0 {
                    (SnapshotPhase::KeepingOverlay, SnapshotAction::KeepOverlay)
                } else {
                    SnapshotPhase::stop(false)
                },
                _ => SnapshotPhase::stop(true),
            },
            SnapshotPhase::KeepingOverlay => SnapshotPhase::stop(!done),
            SnapshotPhase::Stopping { failed } => (
                SnapshotPhase::Removing { failed },
                SnapshotAction::RemoveData,
            ),
            SnapshotPhase::Removing { failed: false } => (
                SnapshotPhase::AddingOverlay,
                SnapshotAction::AddOverlay,
            ),
            SnapshotPhase::AddingOverlay if done => (
                SnapshotPhase::Finalizing,
                SnapshotAction::Finalize,
            ),
            SnapshotPhase::Finalizing if done => (
                SnapshotPhase::Finished,
                SnapshotAction::Succeed,
            ),
            _ => (SnapshotPhase::Finished, SnapshotAction::Fail),
        }
    }
}

/// The phase of a packing after its first `n` events.
pub open spec fn snapshot_after(has_image: bool, events: Seq<SnapshotEvent>, n: int) -> SnapshotPhase
    decreases n,
{
    if n <= 0 {
        SnapshotPhase::Collecting
    } else {
        snapshot_next(has_image, snapshot_after(has_image, events, n - 1), events[n - 1]).0
    }
}

/// Whether events are those of a packing: each answers the phase before it.
pub open spec fn is_snapshot(has_image: bool, events: Seq<SnapshotEvent>) -> bool {
    forall|k: int|
        0 <= k < events.len() ==> snapshot_answers(
            #[trigger] snapshot_after(has_image, events, k),
            events[k],
        )
}

/// Whether the temporary machine was started and not yet asked to stop.
pub open spec fn snapshot_machine_runs(phase: SnapshotPhase) -> bool {
    match phase {
        SnapshotPhase::Connecting | SnapshotPhase::Mounting | SnapshotPhase::Pulling
        | SnapshotPhase::Exporting(_, _) | SnapshotPhase::Registering(_, _)
        | SnapshotPhase::ArchivingOverlay | SnapshotPhase::FetchingOverlay
        | SnapshotPhase::KeepingOverlay => true,
        _ => false,
    }
}

/// The temporary machine is stopped on every path: what follows a phase in which it
/// runs is another such phase, or its stop.
pub proof fn temporary_machine_is_stopped(has_image: bool, phase: SnapshotPhase, event: SnapshotEvent)
    requires
        snapshot_machine_runs(phase),
        snapshot_answers(phase, event),
    ensures
        snapshot_machine_runs(snapshot_next(has_image, phase, event).0) || snapshot_next(
            has_image,
            phase,
            event,
        ).1 is Stop,
        event is Failed ==> snapshot_next(has_image, phase, event) == snapshot_stop(true),
{
}

/// A machine without an image is packed without a temporary machine.
pub proof fn bare_machines_are_copied(events: Seq<SnapshotEvent>, n: int)
    requires
        is_snapshot(false, events),
        0 <= n <= events.len(),
    ensures
        ({
            let phase = snapshot_after(false, events, n);
            phase is Collecting || phase is AddingOverlay || phase is Finalizing
                || phase is Finished
        }),
    decreases n,
{
    if n > 0 {
        bare_machines_are_copied(events, n - 1);
        assert(snapshot_answers(snapshot_after(false, events, n - 1), events[n - 1]));
    }
}

/// The overlay disk is added, and the binary assembled, only after nothing failed:
/// in a packing that has come so far, no event so far is a failure, but for that of the
/// stop and of the removal of data.
pub proof fn packed_machine_is_complete(has_image: bool, events: Seq<SnapshotEvent>, n: int, k: int)
    requires
        is_snapshot(has_image, events),
        0 <= k < n <= events.len(),
        ({
            let phase = snapshot_after(has_image, events, n);
            &&& !(phase is Finished)
            &&& !(phase matches SnapshotPhase::Stopping { failed } && failed)
            &&& !(phase matches SnapshotPhase::Removing { failed } && failed)
        }),
        events[k] is Failed,
    ensures
        ({
            let phase = snapshot_after(has_image, events, k);
            phase is Stopping || phase is Removing
        }),
    decreases n,
{
    assert(snapshot_answers(snapshot_after(has_image, events, n - 1), events[n - 1]));
    if k < n - 1 {
        packed_machine_is_complete(has_image, events, n - 1, k);
    }
}

/// Every layer of the image is registered before the container overlay is archived.
pub proof fn every_layer_is_registered(
    has_image: bool,
    events: Seq<SnapshotEvent>,
    m: int,
    n: int,
    i: usize,
)
    requires
        is_snapshot(has_image, events),
        0 <= m < n <= events.len(),
        events[m] is Pulled,
        i < (match snapshot_after(has_image, events, n) {
            SnapshotPhase::Exporting(j, _) => j,
            SnapshotPhase::Registering(j, _) => j,
            SnapshotPhase::ArchivingOverlay => events[m]->Pulled_0,
            _ => 0,
        }),
    ensures
        exists|k: int|
            m < k < n && #[trigger] snapshot_after(has_image, events, k)
                == SnapshotPhase::Registering(i, events[m]->Pulled_0) && events[k] is Done,
    decreases n,
{
    lemma_layer_count_is_kept(has_image, events, m, n - 1);
    let before = snapshot_after(has_image, events, n - 1);
    assert(snapshot_answers(before, events[n - 1]));
    assert(snapshot_answers(snapshot_after(has_image, events, m), events[m]));
    assert(m < n - 1);
    if before == SnapshotPhase::Registering(i, events[m]->Pulled_0) {
        assert(events[n - 1] is Done);
    } else {
        every_layer_is_registered(has_image, events, m, n - 1, i);
    }
}

proof fn lemma_layer_count_is_kept(has_image: bool, events: Seq<SnapshotEvent>, m: int, n: int)
    requires
        is_snapshot(has_image, events),
        0 <= m <= n <= events.len(),
        m < events.len(),
        events[m] is Pulled,
    ensures
        snapshot_after(has_image, events, m) is Pulling,
        match snapshot_after(has_image, events, n) {
            SnapshotPhase::Exporting(j, c) => c == events[m]->Pulled_0 && j < c,
            SnapshotPhase::Registering(j, c) => c == events[m]->Pulled_0 && j < c,
            SnapshotPhase::Collecting | SnapshotPhase::Starting | SnapshotPhase::Connecting
            | SnapshotPhase::Mounting => false,
            SnapshotPhase::Pulling => n == m,
            _ => true,
        },
    decreases n,
{
    assert(snapshot_answers(snapshot_after(has_image, events, m), events[m]));
    if n > m {
        lemma_layer_count_is_kept(has_image, events, m, n - 1);
        assert(snapshot_answers(snapshot_after(has_image, events, n - 1), events[n - 1]));
    }
}

/// What is known of a packing of a machine: how many layers its image has, whether the
/// container overlay was archived, and whether the archive holds anything.
pub struct SnapshotFacts {
    /// Whether the machine has an image.
    pub has_image: bool,
    /// The layers of the image.
    pub layers: int,
    /// Whether the container overlay was archived.
    pub archived: bool,
    /// Whether the archive holds anything.
    pub nonempty: bool,
}

/// The position of a phase in the packing of a machine.
pub open spec fn snapshot_rank(f: SnapshotFacts, phase: SnapshotPhase) -> int {
    let last = 5 + 2 * f.layers;
    match phase {
        SnapshotPhase::Collecting => 0,
        SnapshotPhase::Starting => 1,
        SnapshotPhase::Connecting => 2,
        SnapshotPhase::Mounting => 3,
        SnapshotPhase::Pulling => 4,
        SnapshotPhase::Exporting(i, _) => 5 + 2 * i,
        SnapshotPhase::Registering(i, _) => 6 + 2 * i,
        SnapshotPhase::ArchivingOverlay => last,
        SnapshotPhase::FetchingOverlay => last + 1,
        SnapshotPhase::KeepingOverlay => last + 2,
        SnapshotPhase::Stopping { .. } => last + 3,
        SnapshotPhase::Removing { .. } => last + 4,
        SnapshotPhase::AddingOverlay => last + 5,
        SnapshotPhase::Finalizing => last + 6,
        SnapshotPhase::Finished => last + 7,
    }
}

/// What the packing of a machine calls for. Without an image that is its files and its
/// overlay disk; with one also each layer of the image, and the container overlay where it
/// holds anything, all of it by way of a temporary machine.
pub open spec fn snapshot_calls_for(f: SnapshotFacts, phase: SnapshotPhase) -> bool {
    match phase {
        SnapshotPhase::Collecting | SnapshotPhase::AddingOverlay | SnapshotPhase::Finalizing => true,
        SnapshotPhase::Starting
        | SnapshotPhase::Connecting
        | SnapshotPhase::Mounting
        | SnapshotPhase::Pulling
        | SnapshotPhase::ArchivingOverlay => f.has_image,
        SnapshotPhase::Exporting(i, n) => f.has_image && n == f.layers && i < f.layers,
        SnapshotPhase::Registering(i, n) => f.has_image && n == f.layers && i < f.layers,
        SnapshotPhase::FetchingOverlay => f.has_image && f.archived,
        SnapshotPhase::KeepingOverlay => f.has_image && f.archived && f.nonempty,
        SnapshotPhase::Stopping { failed } => f.has_image && !failed,
        SnapshotPhase::Removing { failed } => f.has_image && !failed,
        SnapshotPhase::Finished => false,
    }
}

/// What the caller of such a packing is asked for in a phase.
pub open spec fn snapshot_asked_in(phase: SnapshotPhase) -> SnapshotAction {
    match phase {
        SnapshotPhase::Collecting => SnapshotAction::Collect,
        SnapshotPhase::Starting => SnapshotAction::Start,
        SnapshotPhase::Connecting => SnapshotAction::Connect,
        SnapshotPhase::Mounting => SnapshotAction::Mount,
        SnapshotPhase::Pulling => SnapshotAction::Pull,
        SnapshotPhase::Exporting(i, _) => SnapshotAction::Export(i),
        SnapshotPhase::Registering(i, _) => SnapshotAction::Register(i),
        SnapshotPhase::ArchivingOverlay => SnapshotAction::ArchiveOverlay,
        SnapshotPhase::FetchingOverlay => SnapshotAction::FetchOverlay,
        SnapshotPhase::KeepingOverlay => SnapshotAction::KeepOverlay,
        SnapshotPhase::Stopping { .. } => SnapshotAction::Stop,
        SnapshotPhase::Removing { .. } => SnapshotAction::RemoveData,
        SnapshotPhase::AddingOverlay => SnapshotAction::AddOverlay,
        SnapshotPhase::Finalizing => SnapshotAction::Finalize,
        SnapshotPhase::Finished => SnapshotAction::Fail,
    }
}

/// Whether a phase and an event agree with what is known.
pub open spec fn snapshot_known(f: SnapshotFacts, phase: SnapshotPhase, event: SnapshotEvent) -> bool {
    &&& f.layers >= 0
    &&& event matches SnapshotEvent::Pulled(n) ==> n == f.layers
    &&& event matches SnapshotEvent::Fetched(len) ==> f.nonempty == (len > 0)
    &&& phase is ArchivingOverlay ==> (event matches SnapshotEvent::Exited(code) ==> f.archived == (
    code == 0))
    &&& snapshot_calls_for(f, phase) || phase == (SnapshotPhase::Stopping { failed: true })
        || phase == (SnapshotPhase::Removing { failed: true })
}

/// Whether an event lets such a packing go on in its phase. An overlay that could not be
/// archived holds nothing up, nor does a machine that could not be stopped or removed.
pub open spec fn snapshot_goes_on(phase: SnapshotPhase, event: SnapshotEvent) -> bool {
    match phase {
        SnapshotPhase::Mounting => event == SnapshotEvent::Exited(0),
        SnapshotPhase::Stopping { failed } => !failed,
        SnapshotPhase::Removing { failed } => !failed,
        SnapshotPhase::Finalizing | SnapshotPhase::Finished => false,
        _ => !(event is Failed),
    }
}

/// The packing of a machine asks for what its phase is about, goes to the next thing that
/// it calls for and skips nothing: every layer of the image, in order, and all that the
/// machine itself wrote. It succeeds exactly when the binary was assembled, and a failure
/// ends it, after the temporary machine was brought down where there is one.
pub proof fn packed_machines_are_complete(
    f: SnapshotFacts,
    phase: SnapshotPhase,
    event: SnapshotEvent,
    other: SnapshotPhase,
)
    requires
        phase.wf(),
        snapshot_answers(phase, event),
        snapshot_known(f, phase, event),
    ensures
        ({
            let (next, action) = snapshot_next(f.has_image, phase, event);
            &&& !(next is Finished) ==> action == snapshot_asked_in(next)
            &&& next is Finished ==> action is Succeed || action is Fail
            &&& action is Succeed <==> phase is Finalizing && event is Done
            &&& if snapshot_goes_on(phase, event) {
                &&& snapshot_calls_for(f, next)
                &&& snapshot_rank(f, phase) < snapshot_rank(f, next)
                &&& snapshot_calls_for(f, other) && snapshot_rank(f, phase) < snapshot_rank(
                    f,
                    other,
                ) ==> snapshot_rank(f, next) <= snapshot_rank(f, other)
            } else if snapshot_machine_runs(phase) {
                next == (SnapshotPhase::Stopping { failed: true })
            } else if phase == (SnapshotPhase::Stopping { failed: true }) {
                next == (SnapshotPhase::Removing { failed: true })
            } else {
                next is Finished
            }
        }),
{
}

// ---------------------------------------------------------------------------
// Assembling a packed binary
// ---------------------------------------------------------------------------

/// Where the assembly of a packed binary stands.
#[derive(Debug, Clone, Copy, PartialEq, Eq, Structural)]
pub enum AssemblyPhase {
    /// Locating the program to embed.
    Locating,
    /// Assembling the binary.
    Assembling,
    /// Signing it.
    Signing,
    /// Embedding the libraries.
    Embedding,
    /// Over.
    Finished,
}

/// What the caller is asked to do next.
#[derive(Debug, Clone, Copy, PartialEq, Eq, Structural)]
pub enum AssemblyAction {
    /// Locate the program to embed.
    Locate,
    /// Assemble the binary.
    Assemble,
    /// Sign the binary.
    Sign,
    /// Embed the libraries.
    EmbedLibs,
    /// The assembly is over.
    Succeed,
    /// Report the error that came up; the assembly is over.
    Fail,
}

/// What the assembly depends on.
#[derive(Debug, Clone, Copy, PartialEq, Eq, Structural)]
pub struct AssemblyFacts {
    /// Whether one file without a sidecar is made.
    pub single_file: bool,
    /// Whether the host runs signed binaries only.
    pub macos: bool,
    /// Whether signing is skipped.
    pub no_sign: bool,
}

/// What follows once the binary is signed, or need not be: the libraries are embedded
/// last, as they must stand at the end of the file.
pub open spec fn assembly_embed(facts: AssemblyFacts) -> (AssemblyPhase, AssemblyAction) {
    if facts.single_file {
        (AssemblyPhase::Finished, AssemblyAction::Succeed)
    } else {
        (AssemblyPhase::Embedding, AssemblyAction::EmbedLibs)
    }
}

/// The next phase of an assembly and what is to be done; a binary that could not be
/// signed is kept.
pub open spec fn assembly_next(facts: AssemblyFacts, phase: AssemblyPhase, done: bool) -> (
    AssemblyPhase,
    AssemblyAction,
) {
    match phase {
        AssemblyPhase::Signing => assembly_embed(facts),
        AssemblyPhase::Finished => (AssemblyPhase::Finished, AssemblyAction::Fail),
        _ => if !done {
            (AssemblyPhase::Finished, AssemblyAction::Fail)
        } else if phase is Locating {
            (AssemblyPhase::Assembling, AssemblyAction::Assemble)
        } else if phase is Assembling {
            if facts.macos && !facts.no_sign {
                (AssemblyPhase::Signing, AssemblyAction::Sign)
            } else {
                assembly_embed(facts)
            }
        } else {
            (AssemblyPhase::Finished, AssemblyAction::Succeed)
        },
    }
}

impl AssemblyPhase {
    /// Take whether the last action was done and say what is to be done next.
    pub fn step(self, facts: AssemblyFacts, done: bool) -> (r: (AssemblyPhase, AssemblyAction))
        requires
            !(self is Finished),
        ensures
            r == assembly_next(facts, self, done),
    {
        let embed = if facts.single_file {
            (AssemblyPhase::Finished, AssemblyAction::Succeed)
        } else {
            (AssemblyPhase::Embedding, AssemblyAction::EmbedLibs)
        };
        match self {
            AssemblyPhase::Signing => embed,
            AssemblyPhase::Locating if done => (AssemblyPhase::Assembling, AssemblyAction::Assemble),
            AssemblyPhase::Assembling if done => if facts.macos && !facts.no_sign {
                (AssemblyPhase::Signing, AssemblyAction::Sign)
            } else {
                embed
            },
            AssemblyPhase::Embedding if done => (AssemblyPhase::Finished, AssemblyAction::Succeed),
            _ => (AssemblyPhase::Finished, AssemblyAction::Fail),
        }
    }
}

/// Libraries are embedded after the signature, and only in a binary with a sidecar;
/// a signature that fails does not fail the assembly.
pub proof fn libraries_follow_the_signature(facts: AssemblyFacts, phase: AssemblyPhase, done: bool)
    ensures
        assembly_next(facts, phase, done).1 is EmbedLibs ==> !facts.single_file,
        assembly_next(facts, phase, done).1 is EmbedLibs && facts.macos && !facts.no_sign
            ==> phase is Signing,
        phase is Signing ==> !(assembly_next(facts, phase, done).1 is Fail),
        assembly_next(facts, phase, done).1 is Sign ==> phase is Assembling,
{
}

/// The position of a phase in an assembly.
pub open spec fn assembly_rank(phase: AssemblyPhase) -> int {
    match phase {
        AssemblyPhase::Locating => 0,
        AssemblyPhase::Assembling => 1,
        AssemblyPhase::Signing => 2,
        AssemblyPhase::Embedding => 3,
        AssemblyPhase::Finished => 4,
    }
}

/// What an assembly calls for: a signature where the host wants one and nobody waived it,
/// and the libraries where they do not come in a single file.
pub open spec fn assembly_calls_for(facts: AssemblyFacts, phase: AssemblyPhase) -> bool {
    match phase {
        AssemblyPhase::Signing => facts.macos && !facts.no_sign,
        AssemblyPhase::Embedding => !facts.single_file,
        _ => true,
    }
}

/// An assembly goes to the next thing that it calls for and skips nothing; it succeeds once
/// nothing is left, and fails where anything but the signature does.
pub proof fn assemblies_skip_nothing(
    facts: AssemblyFacts,
    phase: AssemblyPhase,
    done: bool,
    other: AssemblyPhase,
)
    requires
        !(phase is Finished),
    ensures
        ({
            let (next, action) = assembly_next(facts, phase, done);
            &&& match next {
                AssemblyPhase::Locating => action is Locate,
                AssemblyPhase::Assembling => action is Assemble,
                AssemblyPhase::Signing => action is Sign,
                AssemblyPhase::Embedding => action is EmbedLibs,
                AssemblyPhase::Finished => action is Succeed || action is Fail,
            }
            &&& if done || phase is Signing {
                &&& !(action is Fail)
                &&& assembly_calls_for(facts, next)
                &&& assembly_rank(phase) < assembly_rank(next)
                &&& assembly_calls_for(facts, other) && assembly_rank(phase) < assembly_rank(other)
                    ==> assembly_rank(next) <= assembly_rank(other)
            } else {
                action is Fail
            }
        }),
{
}

} // verus!
