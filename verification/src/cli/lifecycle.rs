//! Starting, stopping and deleting machines.
use vstd::prelude::*;
use vstd::string::*;
use vstd::utf8::*;

use crate::agent::{LaunchFeatures, LaunchFeaturesView};
use crate::cli::{format_pid_suffix, pid_suffix};
use crate::config::{RecordState, VmRecord, VmRecordView};
use crate::error::{agent_error, config_error, outcome, Error, ErrorView};
use crate::lists::{clone_opt_strings, clone_strings, joined};
use crate::scan::{trim, trimmed};
use crate::text::{
    ascii_lowercase, decimal, decimal_text, int_text, same, signed_text, to_lowercase,
    unicode_lowercase,
};

verus! {

// ---------------------------------------------------------------------------
// Start
// ---------------------------------------------------------------------------

/// What the start of a machine depends on.
#[derive(Debug, Clone, Copy, PartialEq, Eq, Structural)]
pub struct StartFacts {
    /// Whether host ports are mapped.
    pub has_ports: bool,
    /// Whether the SSH agent is forwarded.
    pub ssh_agent: bool,
    /// Whether the machine was created from a packed artifact.
    pub from_sidecar: bool,
    /// Whether the machine has an image.
    pub has_image: bool,
    /// Number of init commands.
    pub init_len: usize,
    /// Whether an entrypoint or command is configured.
    pub has_command: bool,
}

/// What the start of a recorded machine depends on.
pub open spec fn facts_of(r: VmRecordView) -> StartFacts {
    StartFacts {
        has_ports: r.ports.len() > 0,
        ssh_agent: r.ssh_agent,
        from_sidecar: r.source_smolmachine is Some,
        has_image: r.image is Some,
        init_len: r.init.len() as usize,
        has_command: r.entrypoint.len() + r.cmd.len() > 0,
    }
}

/// Where a start stands.
#[derive(Debug, Clone, Copy, PartialEq, Eq, Structural)]
pub enum StartPhase {
    /// Asked for the machine's state.
    Probing,
    /// Tearing down a process whose agent does not answer.
    Recovering,
    /// Asked whether the host ports are free.
    CheckingPorts,
    /// Asked for a process manager.
    Preparing,
    /// Asked for the SSH agent's socket.
    FindingSshAgent,
    /// Asked to extract the packed artifact.
    Extracting,
    /// Asked to launch the process.
    Launching,
    /// Asked to connect to the agent.
    Connecting,
    /// Asked to pull the image.
    Pulling,
    /// Running the init command at this position.
    Initializing(usize),
    /// Stopping the machine after a failed init command.
    Aborting,
    /// Running the configured command.
    Working,
    /// Reporting that the machine runs.
    Reporting,
    /// Recording that the machine runs.
    Recording,
    /// Over.
    Finished,
}

/// What the caller is asked to do next.
#[derive(Debug, Clone, Copy, PartialEq, Eq, Structural)]
pub enum StartAction {
    /// Determine the machine's state.
    ProbeState,
    /// Kill the process and clear the record.
    Recover,
    /// Compare the host ports with those of running machines.
    CheckPorts,
    /// Create the process manager with the recorded disk sizes.
    Prepare,
    /// Read the path of the SSH agent's socket.
    FindSshAgent,
    /// Extract the packed artifact's layers.
    Extract,
    /// Launch the process.
    Launch,
    /// Connect to the agent.
    Connect,
    /// Pull the image.
    Pull,
    /// Run the init command at this position.
    RunInit(usize),
    /// Stop the machine.
    Stop,
    /// Run the configured command in the bare machine.
    RunCommand,
    /// Say that the machine runs.
    Report,
    /// Record that the machine runs.
    Record,
    /// Leave the machine running; the start is over.
    Detach,
    /// Say that the machine was running already; the start is over.
    AlreadyRunning,
    /// Report the error that came up; the start is over.
    Fail,
}

/// What the caller reports.
#[derive(Debug, Clone, Copy, PartialEq, Eq, Structural)]
pub enum StartEvent {
    /// The machine's state.
    State(RecordState),
    /// What was asked for was done.
    Done,
    /// What was asked for failed.
    Failed,
    /// The command ended with this code.
    Exited(i32),
}

/// What follows once the machine is connected and its image is there.
pub open spec fn enter_init(facts: StartFacts, i: int) -> (StartPhase, StartAction) {
    if i < facts.init_len {
        (StartPhase::Initializing(i as usize), StartAction::RunInit(i as usize))
    } else if !facts.has_image && facts.has_command {
        (StartPhase::Working, StartAction::RunCommand)
    } else {
        (StartPhase::Reporting, StartAction::Report)
    }
}

/// What follows once the artifact is extracted or there is none.
pub open spec fn enter_launch() -> (StartPhase, StartAction) {
    (StartPhase::Launching, StartAction::Launch)
}

/// What follows once the SSH agent is found or not wanted.
pub open spec fn enter_extract(facts: StartFacts) -> (StartPhase, StartAction) {
    if facts.from_sidecar {
        (StartPhase::Extracting, StartAction::Extract)
    } else {
        enter_launch()
    }
}

/// What follows once the ports are free.
pub open spec fn enter_prepare() -> (StartPhase, StartAction) {
    (StartPhase::Preparing, StartAction::Prepare)
}

/// What follows once nothing of the machine runs.
pub open spec fn enter_ports(facts: StartFacts) -> (StartPhase, StartAction) {
    if facts.has_ports {
        (StartPhase::CheckingPorts, StartAction::CheckPorts)
    } else {
        enter_prepare()
    }
}

/// The end of a failed start.
pub open spec fn start_failed() -> (StartPhase, StartAction) {
    (StartPhase::Finished, StartAction::Fail)
}

/// Whether an event answers what a phase asked.
pub open spec fn start_answers(phase: StartPhase, event: StartEvent) -> bool {
    match phase {
        StartPhase::Probing => event is State,
        StartPhase::Initializing(_) | StartPhase::Working => event is Exited || event is Failed,
        StartPhase::Finished => false,
        _ => event is Done || event is Failed,
    }
}

/// The next phase of a start and what is to be done.
pub open spec fn start_next(facts: StartFacts, phase: StartPhase, event: StartEvent) -> (
    StartPhase,
    StartAction,
) {
    match phase {
        StartPhase::Probing => match event {
            StartEvent::State(RecordState::Running) => (
                StartPhase::Finished,
                StartAction::AlreadyRunning,
            ),
            StartEvent::State(RecordState::Unreachable) => (
                StartPhase::Recovering,
                StartAction::Recover,
            ),
            _ => enter_ports(facts),
        },
        StartPhase::Recovering => enter_ports(facts),
        StartPhase::CheckingPorts => if event is Done {
            enter_prepare()
        } else {
            start_failed()
        },
        StartPhase::Preparing => if event is Done {
            if facts.ssh_agent {
                (StartPhase::FindingSshAgent, StartAction::FindSshAgent)
            } else {
                enter_extract(facts)
            }
        } else {
            start_failed()
        },
        StartPhase::FindingSshAgent => if event is Done {
            enter_extract(facts)
        } else {
            start_failed()
        },
        StartPhase::Extracting => if event is Done {
            enter_launch()
        } else {
            start_failed()
        },
        StartPhase::Launching => if event is Done {
            (StartPhase::Connecting, StartAction::Connect)
        } else {
            start_failed()
        },
        StartPhase::Connecting => if event is Done {
            if facts.has_image && !facts.from_sidecar {
                (StartPhase::Pulling, StartAction::Pull)
            } else {
                enter_init(facts, 0)
            }
        } else {
            start_failed()
        },
        StartPhase::Pulling => if event is Done {
            enter_init(facts, 0)
        } else {
            start_failed()
        },
        StartPhase::Initializing(i) => if event == StartEvent::Exited(0) {
            enter_init(facts, i + 1)
        } else {
            (StartPhase::Aborting, StartAction::Stop)
        },
        StartPhase::Aborting => start_failed(),
        StartPhase::Working => if event is Exited {
            (StartPhase::Reporting, StartAction::Report)
        } else {
            start_failed()
        },
        StartPhase::Reporting => (StartPhase::Recording, StartAction::Record),
        StartPhase::Recording => (StartPhase::Finished, StartAction::Detach),
        StartPhase::Finished => start_failed(),
    }
}

/// Whether a phase belongs to a start with these facts.
pub open spec fn start_phase_ok(facts: StartFacts, phase: StartPhase) -> bool {
    phase matches StartPhase::Initializing(i) ==> i < facts.init_len
}

/// The start of a recorded machine.
#[derive(Debug, Clone, Copy, PartialEq, Eq, Structural)]
pub struct StartFlow {
    /// What the start depends on.
    pub facts: StartFacts,
    /// Where the start stands.
    pub phase: StartPhase,
}

impl StartFlow {
    /// Begin the start of a recorded machine: its state is probed first.
    pub fn begin(record: &VmRecord) -> (r: (StartFlow, StartAction))
        ensures
            r.0 == (StartFlow { facts: facts_of(record@), phase: StartPhase::Probing }),
            r.1 == StartAction::ProbeState,
    {
        let facts = StartFacts {
            has_ports: record.ports.len() > 0,
            ssh_agent: record.ssh_agent,
            from_sidecar: record.source_smolmachine.is_some(),
            has_image: record.image.is_some(),
            init_len: record.init.len(),
            has_command: record.entrypoint.len() > 0 || record.cmd.len() > 0,
        };
        (StartFlow { facts, phase: StartPhase::Probing }, StartAction::ProbeState)
    }

    /// Take what the caller reports and say what is to be done next.
    pub fn step(&self, event: StartEvent) -> (r: (StartFlow, StartAction))
        requires
            start_phase_ok(self.facts, self.phase),
            start_answers(self.phase, event),
        ensures
            (r.0.phase, r.1) == start_next(self.facts, self.phase, event),
            r.0.facts == self.facts,
            start_phase_ok(r.0.facts, r.0.phase),
    {
        let done = match event {
            StartEvent::Done => true,
            _ => false,
        };
        let (phase, action) = match self.phase {
            StartPhase::Probing => match event {
                StartEvent::State(RecordState::Running) => (
                    StartPhase::Finished,
                    StartAction::AlreadyRunning,
                ),
                StartEvent::State(RecordState::Unreachable) => (
                    StartPhase::Recovering,
                    StartAction::Recover,
                ),
                _ => self.to_ports(),
            },
            StartPhase::Recovering => self.to_ports(),
            StartPhase::CheckingPorts => if done {
                (StartPhase::Preparing, StartAction::Prepare)
            } else {
                (StartPhase::Finished, StartAction::Fail)
            },
            StartPhase::Preparing => if done {
                if self.facts.ssh_agent {
                    (StartPhase::FindingSshAgent, StartAction::FindSshAgent)
                } else {
                    self.to_extract()
                }
            } else {
                (StartPhase::Finished, StartAction::Fail)
            },
            StartPhase::FindingSshAgent => if done {
                self.to_extract()
            } else {
                (StartPhase::Finished, StartAction::Fail)
            },
            StartPhase::Extracting => if done {
                (StartPhase::Launching, StartAction::Launch)
            } else {
                (StartPhase::Finished, StartAction::Fail)
            },
            StartPhase::Launching => if done {
                (StartPhase::Connecting, StartAction::Connect)
            } else {
                (StartPhase::Finished, StartAction::Fail)
            },
            StartPhase::Connecting => if done {
                if self.facts.has_image && !self.facts.from_sidecar {
                    (StartPhase::Pulling, StartAction::Pull)
                } else {
                    self.to_init(0)
                }
            } else {
                (StartPhase::Finished, StartAction::Fail)
            },
            StartPhase::Pulling => if done {
                self.to_init(0)
            } else {
                (StartPhase::Finished, StartAction::Fail)
            },
            StartPhase::Initializing(i) => match event {
                StartEvent::Exited(0) => self.to_init(i + 1),
                _ => (StartPhase::Aborting, StartAction::Stop),
            },
            StartPhase::Aborting => (StartPhase::Finished, StartAction::Fail),
            StartPhase::Working => match event {
                StartEvent::Exited(_) => (StartPhase::Reporting, StartAction::Report),
                _ => (StartPhase::Finished, StartAction::Fail),
            },
            StartPhase::Reporting => (StartPhase::Recording, StartAction::Record),
            StartPhase::Recording => (StartPhase::Finished, StartAction::Detach),
            StartPhase::Finished => (StartPhase::Finished, StartAction::Fail),
        };
        (StartFlow { facts: self.facts, phase }, action)
    }

    fn to_ports(&self) -> (r: (StartPhase, StartAction))
        ensures
            r == enter_ports(self.facts),
    {
        if self.facts.has_ports {
            (StartPhase::CheckingPorts, StartAction::CheckPorts)
        } else {
            (StartPhase::Preparing, StartAction::Prepare)
        }
    }

    fn to_extract(&self) -> (r: (StartPhase, StartAction))
        ensures
            r == enter_extract(self.facts),
    {
        if self.facts.from_sidecar {
            (StartPhase::Extracting, StartAction::Extract)
        } else {
            (StartPhase::Launching, StartAction::Launch)
        }
    }

    fn to_init(&self, i: usize) -> (r: (StartPhase, StartAction))
        ensures
            r == enter_init(self.facts, i as int),
            start_phase_ok(self.facts, r.0),
    {
        if i < self.facts.init_len {
            (StartPhase::Initializing(i), StartAction::RunInit(i))
        } else if !self.facts.has_image && self.facts.has_command {
            (StartPhase::Working, StartAction::RunCommand)
        } else {
            (StartPhase::Reporting, StartAction::Report)
        }
    }
}

/// How far a start has come: it grows with every step.
pub open spec fn start_rank(facts: StartFacts, phase: StartPhase) -> int {
    match phase {
        StartPhase::Probing => 0,
        StartPhase::Recovering => 1,
        StartPhase::CheckingPorts => 2,
        StartPhase::Preparing => 3,
        StartPhase::FindingSshAgent => 4,
        StartPhase::Extracting => 5,
        StartPhase::Launching => 6,
        StartPhase::Connecting => 7,
        StartPhase::Pulling => 8,
        StartPhase::Initializing(i) => 9 + i,
        StartPhase::Aborting => 9 + facts.init_len,
        StartPhase::Working => 9 + facts.init_len,
        StartPhase::Reporting => 10 + facts.init_len,
        StartPhase::Recording => 11 + facts.init_len,
        StartPhase::Finished => 12 + facts.init_len,
    }
}

/// A start never goes back and so comes to an end: every step advances it.
pub proof fn start_advances(facts: StartFacts, phase: StartPhase, event: StartEvent)
    requires
        start_phase_ok(facts, phase),
        start_answers(phase, event),
    ensures
        start_rank(facts, phase) < start_rank(facts, start_next(facts, phase, event).0),
        start_rank(facts, phase) <= 12 + facts.init_len,
        start_phase_ok(facts, start_next(facts, phase, event).0),
{
}

/// A failed init command stops the machine, and then the start fails; nothing is
/// recorded as running.
pub proof fn failed_init_stops_the_machine(facts: StartFacts, i: usize, event: StartEvent, after: StartEvent)
    requires
        i < facts.init_len,
        start_answers(StartPhase::Initializing(i), event),
        event != StartEvent::Exited(0),
    ensures
        start_next(facts, StartPhase::Initializing(i), event) == (
            StartPhase::Aborting,
            StartAction::Stop,
        ),
        start_next(facts, StartPhase::Aborting, after) == (StartPhase::Finished, StartAction::Fail),
{
}

/// Init commands run only after the image was pulled, where it has to be, and one
/// after the other.
pub proof fn init_follows_pull(facts: StartFacts, phase: StartPhase, event: StartEvent, i: usize)
    requires
        start_phase_ok(facts, phase),
        start_answers(phase, event),
        start_next(facts, phase, event).1 == StartAction::RunInit(i),
    ensures
        i == 0 ==> (phase is Pulling && event is Done) || (phase is Connecting && (!facts.has_image
            || facts.from_sidecar)),
        i > 0 ==> phase == StartPhase::Initializing((i - 1) as usize) && event
            == StartEvent::Exited(0),
        i < facts.init_len,
{
}

/// A machine is recorded as running only after every init command succeeded.
pub proof fn running_is_recorded_last(facts: StartFacts, phase: StartPhase, event: StartEvent)
    requires
        start_phase_ok(facts, phase),
        start_answers(phase, event),
    ensures
        start_next(facts, phase, event).1 is Record ==> phase is Reporting,
        start_next(facts, phase, event).0 is Reporting ==> (phase is Working && event is Exited) || (
        facts.init_len == 0 && (phase is Connecting || phase is Pulling) && event is Done) || (
        facts.init_len > 0 && phase == StartPhase::Initializing((facts.init_len - 1) as usize)
            && event == StartEvent::Exited(0)),
{
}

/// A machine that runs already is left alone.
pub proof fn running_machine_is_left_alone(facts: StartFacts)
    ensures
        start_next(facts, StartPhase::Probing, StartEvent::State(RecordState::Running)) == (
            StartPhase::Finished,
            StartAction::AlreadyRunning,
        ),
{
}

/// The phase of a start after its first `n` events.
pub open spec fn start_after(facts: StartFacts, events: Seq<StartEvent>, n: int) -> StartPhase
    decreases n,
{
    if n <= 0 {
        StartPhase::Probing
    } else {
        start_next(facts, start_after(facts, events, n - 1), events[n - 1]).0
    }
}

/// Whether events are those of a start: each answers the phase before it.
pub open spec fn is_start(facts: StartFacts, events: Seq<StartEvent>) -> bool {
    forall|k: int|
        0 <= k < events.len() ==> start_answers(#[trigger] start_after(facts, events, k), events[k])
}

proof fn lemma_start_phase_ok(facts: StartFacts, events: Seq<StartEvent>, n: int)
    requires
        is_start(facts, events),
        0 <= n <= events.len(),
    ensures
        start_phase_ok(facts, start_after(facts, events, n)),
        n <= start_rank(facts, start_after(facts, events, n)) <= 12 + facts.init_len,
    decreases n,
{
    if n > 0 {
        lemma_start_phase_ok(facts, events, n - 1);
        start_advances(facts, start_after(facts, events, n - 1), events[n - 1]);
        let phase = start_after(facts, events, n);
        if phase is Initializing {
            assert(phase->Initializing_0 < facts.init_len);
        }
    }
}

/// Every start comes to an end: it takes at most twelve events and one for each init
/// command.
pub proof fn starts_come_to_an_end(facts: StartFacts, events: Seq<StartEvent>)
    requires
        is_start(facts, events),
    ensures
        events.len() <= 12 + facts.init_len,
{
    lemma_start_phase_ok(facts, events, events.len() as int);
}

/// A start in which the machine was reported as running, has run every init command,
/// with success.
pub proof fn running_machine_was_initialized(
    facts: StartFacts,
    events: Seq<StartEvent>,
    n: int,
    i: usize,
)
    requires
        is_start(facts, events),
        0 <= n <= events.len(),
        i < (match start_after(facts, events, n) {
            StartPhase::Initializing(j) => j,
            StartPhase::Working | StartPhase::Reporting | StartPhase::Recording => facts.init_len,
            _ => 0,
        }),
    ensures
        exists|k: int|
            0 <= k < n && #[trigger] start_after(facts, events, k) == StartPhase::Initializing(i)
                && events[k] == StartEvent::Exited(0),
    decreases n,
{
    if n > 0 {
        lemma_start_phase_ok(facts, events, n - 1);
        let before = start_after(facts, events, n - 1);
        assert(start_answers(before, events[n - 1]));
        if before == StartPhase::Initializing(i) {
            assert(events[n - 1] == StartEvent::Exited(0));
        } else {
            running_machine_was_initialized(facts, events, n - 1, i);
        }
    }
}

/// What a recorded machine calls for on its way to running, whatever comes of it: ports
/// that have to be free, an SSH agent that is forwarded, layers of an artifact, an image
/// that is not packed, each init command, and the workload of a machine without an image.
pub open spec fn start_calls_for(r: VmRecordView, phase: StartPhase) -> bool {
    match phase {
        StartPhase::CheckingPorts => r.ports.len() != 0,
        StartPhase::FindingSshAgent => r.ssh_agent,
        StartPhase::Extracting => r.source_smolmachine is Some,
        StartPhase::Pulling => r.image is Some && r.source_smolmachine is None,
        StartPhase::Initializing(i) => i < r.init.len(),
        StartPhase::Working => r.image is None && !(r.entrypoint.len() == 0 && r.cmd.len() == 0),
        StartPhase::Preparing
        | StartPhase::Launching
        | StartPhase::Connecting
        | StartPhase::Reporting
        | StartPhase::Recording => true,
        _ => false,
    }
}

/// What the caller is asked for in a phase.
pub open spec fn asked_in(phase: StartPhase) -> StartAction {
    match phase {
        StartPhase::Probing => StartAction::ProbeState,
        StartPhase::Recovering => StartAction::Recover,
        StartPhase::CheckingPorts => StartAction::CheckPorts,
        StartPhase::Preparing => StartAction::Prepare,
        StartPhase::FindingSshAgent => StartAction::FindSshAgent,
        StartPhase::Extracting => StartAction::Extract,
        StartPhase::Launching => StartAction::Launch,
        StartPhase::Connecting => StartAction::Connect,
        StartPhase::Pulling => StartAction::Pull,
        StartPhase::Initializing(i) => StartAction::RunInit(i),
        StartPhase::Aborting => StartAction::Stop,
        StartPhase::Working => StartAction::RunCommand,
        StartPhase::Reporting => StartAction::Report,
        StartPhase::Recording => StartAction::Record,
        StartPhase::Finished => StartAction::Fail,
    }
}

/// A start asks for what its phase is about. It ends in one of three ways: the machine is
/// left running once that was recorded, it was running when the start began, or the start
/// failed.
pub proof fn starts_ask_for_what_they_are_at(facts: StartFacts, phase: StartPhase, event: StartEvent)
    requires
        start_phase_ok(facts, phase),
        start_answers(phase, event),
    ensures
        ({
            let (next, action) = start_next(facts, phase, event);
            &&& !(next is Finished) ==> action == asked_in(next)
            &&& action is Detach <==> phase is Recording
            &&& action is AlreadyRunning <==> event == StartEvent::State(RecordState::Running)
            &&& next is Finished ==> action is Detach || action is AlreadyRunning || action is Fail
            &&& action is Recover <==> event == StartEvent::State(RecordState::Unreachable)
        }),
{
}

/// Whether an event lets a start go on in its phase: what was asked for was done. The
/// workload of a machine without an image may end with any code, and a process that could
/// not be torn down, or a report that could not be written, holds nothing up.
pub open spec fn start_goes_on(phase: StartPhase, event: StartEvent) -> bool {
    match phase {
        StartPhase::Probing => event != StartEvent::State(RecordState::Running),
        StartPhase::Initializing(_) => event == StartEvent::Exited(0),
        StartPhase::Recovering | StartPhase::Reporting => true,
        StartPhase::Aborting | StartPhase::Recording | StartPhase::Finished => false,
        _ => !(event is Failed),
    }
}

/// A start that goes on goes to the next thing that the machine calls for and skips
/// nothing; one that does not go on comes to its end, through a stop where an init command
/// failed.
pub proof fn starts_skip_nothing(
    r: VmRecordView,
    phase: StartPhase,
    event: StartEvent,
    other: StartPhase,
)
    requires
        r.init.len() <= usize::MAX,
        start_phase_ok(facts_of(r), phase),
        start_answers(phase, event),
    ensures
        ({
            let facts = facts_of(r);
            let next = start_next(facts, phase, event).0;
            if event == StartEvent::State(RecordState::Unreachable) {
                next is Recovering
            } else if start_goes_on(phase, event) {
                &&& start_calls_for(r, next)
                &&& start_rank(facts, phase) < start_rank(facts, next)
                &&& start_calls_for(r, other) && start_rank(facts, phase) < start_rank(facts, other)
                    ==> start_rank(facts, next) <= start_rank(facts, other)
            } else if phase is Initializing {
                next is Aborting
            } else {
                next is Finished
            }
        }),
{
}

/// A machine that is reported as running was given everything that it calls for, one thing
/// after the other: among them, without an image, a run of its configured workload to its
/// end.
pub proof fn running_machine_has_what_it_calls_for(
    r: VmRecordView,
    events: Seq<StartEvent>,
    n: int,
    wanted: StartPhase,
)
    requires
        r.init.len() <= usize::MAX,
        is_start(facts_of(r), events),
        0 <= n <= events.len(),
        !(start_after(facts_of(r), events, n) is Finished),
        !(start_after(facts_of(r), events, n) is Aborting),
        start_calls_for(r, wanted),
        !(wanted is Reporting),
        start_rank(facts_of(r), wanted) < start_rank(
            facts_of(r),
            start_after(facts_of(r), events, n),
        ),
    ensures
        exists|k: int|
            0 <= k < n && #[trigger] start_after(facts_of(r), events, k) == wanted
                && start_goes_on(wanted, events[k]),
    decreases n,
{
    let facts = facts_of(r);
    if n > 0 {
        lemma_start_phase_ok(facts, events, n - 1);
        let before = start_after(facts, events, n - 1);
        assert(start_answers(before, events[n - 1]));
        starts_skip_nothing(r, before, events[n - 1], wanted);
        if before == wanted {
            assert(start_goes_on(wanted, events[n - 1]));
        } else {
            running_machine_has_what_it_calls_for(r, events, n - 1, wanted);
        }
    }
}

/// A start does nothing that the machine does not call for.
pub proof fn starts_do_only_what_is_called_for(r: VmRecordView, events: Seq<StartEvent>, n: int)
    requires
        r.init.len() <= usize::MAX,
        is_start(facts_of(r), events),
        0 < n <= events.len(),
    ensures
        ({
            let phase = start_after(facts_of(r), events, n);
            start_calls_for(r, phase) || phase is Recovering || phase is Aborting || phase
                is Finished
        }),
{
    lemma_start_phase_ok(facts_of(r), events, n - 1);
    let before = start_after(facts_of(r), events, n - 1);
    assert(start_answers(before, events[n - 1]));
    starts_skip_nothing(r, before, events[n - 1], before);
}

// ---------------------------------------------------------------------------
// Start of the default machine
// ---------------------------------------------------------------------------

/// Where the start of the default machine stands.
#[derive(Debug, Clone, Copy, PartialEq, Eq, Structural)]
pub enum DefaultPhase {
    /// Asked whether the agent answers.
    Probing,
    /// Clearing up a process whose agent does not answer.
    Recovering,
    /// Asked to launch the process.
    Launching,
    /// Recording that the machine runs; the record is reported.
    Recording,
    /// Asked to connect to the agent, for an image and so many init commands.
    Connecting(bool, usize),
    /// Asked to pull the image, with so many init commands to follow.
    Pulling(usize),
    /// Running the init command at this position, of so many.
    Initializing(usize, usize),
    /// Stopping the machine after a failed init command.
    Aborting,
    /// Reporting that the machine runs.
    Reporting,
    /// Over.
    Finished,
}

/// What the caller reports of the default machine's start.
#[derive(Debug, Clone, Copy, PartialEq, Eq, Structural)]
pub enum DefaultEvent {
    /// Whether the agent answers.
    Answers(bool),
    /// What the record asks for: whether an image, and how many init commands.
    Recorded(bool, usize),
    /// What was asked for was done.
    Done,
    /// What was asked for failed.
    Failed,
    /// The init command ended with this code.
    Exited(i32),
}

/// Whether an event answers what a phase asked.
pub open spec fn default_answers(phase: DefaultPhase, event: DefaultEvent) -> bool {
    match phase {
        DefaultPhase::Probing => event is Answers,
        DefaultPhase::Recording => event is Recorded || event is Failed,
        DefaultPhase::Initializing(_, _) => event is Exited || event is Failed,
        DefaultPhase::Finished => false,
        _ => event is Done || event is Failed,
    }
}

/// Whether a phase is one that a start of the default machine can be in.
pub open spec fn default_phase_ok(phase: DefaultPhase) -> bool {
    phase matches DefaultPhase::Initializing(i, n) ==> i < n
}

/// What follows once the init commands before position `i` of `n` are done.
pub open spec fn default_init(i: int, n: int) -> (DefaultPhase, StartAction) {
    if i < n {
        (DefaultPhase::Initializing(i as usize, n as usize), StartAction::RunInit(i as usize))
    } else {
        (DefaultPhase::Reporting, StartAction::Report)
    }
}

/// The end of a failed start.
pub open spec fn default_failed() -> (DefaultPhase, StartAction) {
    (DefaultPhase::Finished, StartAction::Fail)
}

/// The next phase of the default machine's start and what is to be done.
pub open spec fn default_next(phase: DefaultPhase, event: DefaultEvent) -> (DefaultPhase, StartAction) {
    match phase {
        DefaultPhase::Probing => if event == DefaultEvent::Answers(true) {
            (DefaultPhase::Finished, StartAction::AlreadyRunning)
        } else {
            (DefaultPhase::Recovering, StartAction::Recover)
        },
        DefaultPhase::Recovering => (DefaultPhase::Launching, StartAction::Launch),
        DefaultPhase::Launching => if event is Done {
            (DefaultPhase::Recording, StartAction::Record)
        } else {
            default_failed()
        },
        DefaultPhase::Recording => match event {
            DefaultEvent::Recorded(image, init) => if image || init > 0 {
                (DefaultPhase::Connecting(image, init), StartAction::Connect)
            } else {
                (DefaultPhase::Reporting, StartAction::Report)
            },
            _ => default_failed(),
        },
        DefaultPhase::Connecting(image, init) => if event is Done {
            if image {
                (DefaultPhase::Pulling(init), StartAction::Pull)
            } else {
                default_init(0, init as int)
            }
        } else {
            default_failed()
        },
        DefaultPhase::Pulling(init) => if event is Done {
            default_init(0, init as int)
        } else {
            default_failed()
        },
        DefaultPhase::Initializing(i, n) => if event == DefaultEvent::Exited(0) {
            default_init(i + 1, n as int)
        } else {
            (DefaultPhase::Aborting, StartAction::Stop)
        },
        DefaultPhase::Aborting => default_failed(),
        DefaultPhase::Reporting => (DefaultPhase::Finished, StartAction::Detach),
        DefaultPhase::Finished => default_failed(),
    }
}

fn to_default_init(i: usize, n: usize) -> (r: (DefaultPhase, StartAction))
    ensures
        r == default_init(i as int, n as int),
{
    if i < n {
        (DefaultPhase::Initializing(i, n), StartAction::RunInit(i))
    } else {
        (DefaultPhase::Reporting, StartAction::Report)
    }
}

/// Start the default machine, step by step: take what the caller reports and say
/// what is to be done next. It begins in [`DefaultPhase::Probing`].
pub fn start_vm_default(phase: DefaultPhase, event: DefaultEvent) -> (r: (DefaultPhase, StartAction))
    requires
        default_phase_ok(phase),
        default_answers(phase, event),
    ensures
        r == default_next(phase, event),
        default_phase_ok(r.0),
{
    let done = match event {
        DefaultEvent::Done => true,
        _ => false,
    };
    match phase {
        DefaultPhase::Probing => match event {
            DefaultEvent::Answers(true) => (DefaultPhase::Finished, StartAction::AlreadyRunning),
            _ => (DefaultPhase::Recovering, StartAction::Recover),
        },
        DefaultPhase::Recovering => (DefaultPhase::Launching, StartAction::Launch),
        DefaultPhase::Launching if done => (DefaultPhase::Recording, StartAction::Record),
        DefaultPhase::Recording => match event {
            DefaultEvent::Recorded(image, init) => if image || init > 0 {
                (DefaultPhase::Connecting(image, init), StartAction::Connect)
            } else {
                (DefaultPhase::Reporting, StartAction::Report)
            },
            _ => (DefaultPhase::Finished, StartAction::Fail),
        },
        DefaultPhase::Connecting(image, init) if done => if image {
            (DefaultPhase::Pulling(init), StartAction::Pull)
        } else {
            to_default_init(0, init)
        },
        DefaultPhase::Pulling(init) if done => to_default_init(0, init),
        DefaultPhase::Initializing(i, n) => match event {
            DefaultEvent::Exited(0) => to_default_init(i + 1, n),
            _ => (DefaultPhase::Aborting, StartAction::Stop),
        },
        DefaultPhase::Reporting => (DefaultPhase::Finished, StartAction::Detach),
        _ => (DefaultPhase::Finished, StartAction::Fail),
    }
}

/// The default machine is recorded as running as soon as its process is launched,
/// whatever its init commands do; a failed init command still stops it.
pub proof fn default_machine_is_recorded_at_launch(phase: DefaultPhase, event: DefaultEvent)
    requires
        default_phase_ok(phase),
        default_answers(phase, event),
    ensures
        default_next(phase, event).1 is Record <==> phase is Launching && event is Done,
        default_next(phase, event).1 is Stop <==> phase is Initializing && event
            != DefaultEvent::Exited(0),
        phase is Aborting ==> default_next(phase, event).1 is Fail,
{
}

/// The phase of the default machine's start after its first `n` events.
pub open spec fn default_after(events: Seq<DefaultEvent>, n: int) -> DefaultPhase
    decreases n,
{
    if n <= 0 {
        DefaultPhase::Probing
    } else {
        default_next(default_after(events, n - 1), events[n - 1]).0
    }
}

/// Whether events are those of a start of the default machine.
pub open spec fn is_default_start(events: Seq<DefaultEvent>) -> bool {
    forall|k: int|
        0 <= k < events.len() ==> default_answers(#[trigger] default_after(events, k), events[k])
}

/// Whether something was done in a phase, with this result, among the first `n` events.
pub open spec fn default_did(
    events: Seq<DefaultEvent>,
    n: int,
    phase: DefaultPhase,
    event: DefaultEvent,
) -> bool {
    exists|k: int|
        0 <= k < n && #[trigger] default_after(events, k) == phase && events[k] == event
}

proof fn lemma_default_did_grows(
    events: Seq<DefaultEvent>,
    n: int,
    phase: DefaultPhase,
    event: DefaultEvent,
)
    requires
        0 < n <= events.len(),
    ensures
        default_did(events, n - 1, phase, event) ==> default_did(events, n, phase, event),
        default_after(events, n - 1) == phase && events[n - 1] == event ==> default_did(
            events,
            n,
            phase,
            event,
        ),
{
    if default_did(events, n - 1, phase, event) {
        let k = choose|k: int|
            0 <= k < n - 1 && #[trigger] default_after(events, k) == phase && events[k] == event;
        assert(default_after(events, k) == phase);
    }
}

/// Whether every init command before position `m` of `init` succeeded.
pub open spec fn default_initialized(events: Seq<DefaultEvent>, n: int, m: int, init: usize) -> bool {
    forall|j: usize|
        j < m ==> #[trigger] default_did(
            events,
            n,
            DefaultPhase::Initializing(j, init),
            DefaultEvent::Exited(0),
        )
}

proof fn lemma_default_history(events: Seq<DefaultEvent>, n: int) -> (r: (bool, usize))
    requires
        is_default_start(events),
        0 <= n <= events.len(),
    ensures
        ({
            let recorded = default_did(
                events,
                n,
                DefaultPhase::Recording,
                DefaultEvent::Recorded(r.0, r.1),
            );
            let pulled = r.0 ==> default_did(
                events,
                n,
                DefaultPhase::Pulling(r.1),
                DefaultEvent::Done,
            );
            match default_after(events, n) {
                DefaultPhase::Connecting(a, m) => recorded && a == r.0 && m == r.1,
                DefaultPhase::Pulling(m) => recorded && r.0 && m == r.1,
                DefaultPhase::Initializing(i, m) => recorded && pulled && m == r.1 && i < m
                    && default_initialized(events, n, i as int, m),
                DefaultPhase::Reporting => recorded && pulled && default_initialized(
                    events,
                    n,
                    r.1 as int,
                    r.1,
                ),
                _ => true,
            }
        }),
    decreases n,
{
    if n <= 0 {
        (false, 0)
    } else {
        let old_pair = lemma_default_history(events, n - 1);
        let before = default_after(events, n - 1);
        let event = events[n - 1];
        assert(default_answers(before, event));
        let r = match event {
            DefaultEvent::Recorded(image, init) => (image, init),
            _ => old_pair,
        };
        let first = DefaultPhase::Recording;
        lemma_default_did_grows(events, n, first, DefaultEvent::Recorded(r.0, r.1));
        lemma_default_did_grows(events, n, DefaultPhase::Pulling(r.1), DefaultEvent::Done);
        assert forall|j: usize|
            #[trigger] default_did(
                events,
                n - 1,
                DefaultPhase::Initializing(j, r.1),
                DefaultEvent::Exited(0),
            ) implies default_did(
            events,
            n,
            DefaultPhase::Initializing(j, r.1),
            DefaultEvent::Exited(0),
        ) by {
            lemma_default_did_grows(
                events,
                n,
                DefaultPhase::Initializing(j, r.1),
                DefaultEvent::Exited(0),
            );
        }
        if let DefaultPhase::Initializing(i, m) = before {
            lemma_default_did_grows(events, n, before, DefaultEvent::Exited(0));
            assert forall|j: usize| j < i + 1 && event == DefaultEvent::Exited(0) implies
                #[trigger] default_did(
                events,
                n,
                DefaultPhase::Initializing(j, m),
                DefaultEvent::Exited(0),
            ) by {
                if j < i {
                    assert(default_did(
                        events,
                        n - 1,
                        DefaultPhase::Initializing(j, m),
                        DefaultEvent::Exited(0),
                    ));
                }
            }
        }
        r
    }
}

/// The default machine is reported as running only once it was given what its record asks
/// for: its image was pulled, where it has one, and each of its init commands succeeded.
pub proof fn default_machine_has_what_it_asks_for(events: Seq<DefaultEvent>, n: int) -> (r: (
    bool,
    usize,
))
    requires
        is_default_start(events),
        0 <= n <= events.len(),
        default_after(events, n) is Reporting,
    ensures
        default_did(events, n, DefaultPhase::Recording, DefaultEvent::Recorded(r.0, r.1)),
        r.0 ==> default_did(events, n, DefaultPhase::Pulling(r.1), DefaultEvent::Done),
        default_initialized(events, n, r.1 as int, r.1),
{
    lemma_default_history(events, n)
}

/// What the default machine's start asks for is what its phase is about: a process whose
/// agent does not answer is torn down before another is launched, and every failure but
/// that of tearing down ends the start, after a stop where an init command failed.
pub proof fn default_start_asks_for_what_it_is_at(phase: DefaultPhase, event: DefaultEvent)
    requires
        default_phase_ok(phase),
        default_answers(phase, event),
    ensures
        ({
            let (next, action) = default_next(phase, event);
            &&& action is AlreadyRunning <==> event == DefaultEvent::Answers(true)
            &&& action is Recover <==> event == DefaultEvent::Answers(false)
            &&& action is Recover <==> next is Recovering
            &&& action is Launch <==> phase is Recovering
            &&& action is Launch <==> next is Launching
            &&& action is Record <==> next is Recording
            &&& action is Connect <==> next is Connecting
            &&& action is Connect <==> (event matches DefaultEvent::Recorded(image, init) && (image
                || init > 0))
            &&& action is Pull <==> next is Pulling
            &&& action is Pull <==> (phase matches DefaultPhase::Connecting(image, _) && image
                && event is Done)
            &&& action matches StartAction::RunInit(i) ==> (next matches DefaultPhase::Initializing(
                j,
                _,
            ) && j == i)
            &&& next is Initializing ==> action is RunInit
            &&& action is Stop <==> next is Aborting
            &&& action is Report <==> next is Reporting
            &&& action is Detach <==> phase is Reporting
            &&& event is Failed && !(phase is Recovering) && !(phase is Reporting) && !(phase
                is Initializing) ==> action is Fail
        }),
{
}

/// The line that announces a start.
pub open spec fn starting_text(name: Seq<char>, mounts: nat, ports: nat) -> Seq<char> {
    "Starting machine '"@ + name + "'"@ + (if mounts > 0 {
        " with "@ + decimal(mounts) + " mount(s)"@
    } else {
        Seq::empty()
    }) + (if ports > 0 {
        " and "@ + decimal(ports) + " port mapping(s)"@
    } else {
        Seq::empty()
    }) + "..."@
}

/// The line that announces a start.
pub fn starting_line(name: &str, record: &VmRecord) -> (r: String)
    ensures
        r@ == starting_text(name@, record@.mounts.len(), record@.ports.len()),
{
    let mounts = if record.mounts.len() > 0 {
        String::from_str(" with ").concat(
            decimal_text(record.mounts.len() as u64).as_str(),
        ).concat(" mount(s)")
    } else {
        String::new()
    };
    let ports = if record.ports.len() > 0 {
        String::from_str(" and ").concat(
            decimal_text(record.ports.len() as u64).as_str(),
        ).concat(" port mapping(s)")
    } else {
        String::new()
    };
    String::from_str("Starting machine '").concat(name).concat("'").concat(mounts.as_str()).concat(
        ports.as_str(),
    ).concat("...")
}

/// The line for a machine that was running already.
pub fn already_running_line(name: &str, pid: Option<i32>) -> (r: String)
    ensures
        r@ == "Machine '"@ + name@ + "' already running"@ + pid_suffix(pid),
{
    String::from_str("Machine '").concat(name).concat("' already running").concat(
        format_pid_suffix(pid).as_str(),
    )
}

/// The line for a machine that runs now.
pub fn running_line(name: &str, pid: Option<i32>) -> (r: String)
    ensures
        r@ == "Machine '"@ + name@ + "' running (PID: "@ + int_text(match pid {
            Some(p) => p as int,
            None => 0,
        }) + ")"@,
{
    let shown: i32 = match pid {
        Some(p) => p,
        None => 0,
    };
    String::from_str("Machine '").concat(name).concat("' running (PID: ").concat(
        signed_text(shown as i64).as_str(),
    ).concat(")")
}

/// The notice that a process whose agent does not answer was torn down.
pub fn recovered_line(name: &str, pid: Option<i32>) -> (r: String)
    ensures
        r@ == "Machine '"@ + name@ + "' is unreachable (PID "@ + int_text(match pid {
            Some(p) => p as int,
            None => 0,
        }) + " alive but agent unresponsive); cleaning up."@,
{
    let shown: i32 = match pid {
        Some(p) => p,
        None => 0,
    };
    String::from_str("Machine '").concat(name).concat("' is unreachable (PID ").concat(
        signed_text(shown as i64).as_str(),
    ).concat(" alive but agent unresponsive); cleaning up.")
}

/// The message for a missing SSH agent.
pub const NO_SSH_AGENT: &'static str = "SSH_AUTH_SOCK is not set. Start an SSH agent with: eval $(ssh-agent) && ssh-add";

/// The launch features of a recorded machine, or the error for a missing SSH agent.
pub open spec fn launch_plan(
    r: VmRecordView,
    ssh_auth_sock: Option<Seq<char>>,
    layers_dir: Option<Seq<char>>,
) -> Result<LaunchFeaturesView, ErrorView> {
    if r.ssh_agent && ssh_auth_sock is None {
        Err(config_error("ssh-agent"@, NO_SSH_AGENT@))
    } else {
        Ok(
            LaunchFeaturesView {
                ssh_agent_socket: if r.ssh_agent {
                    ssh_auth_sock
                } else {
                    None
                },
                dns_filter_hosts: r.dns_filter_hosts,
                packed_layers_dir: layers_dir,
                extra_disks: Seq::empty(),
            },
        )
    }
}

/// The SSH agent reaches a machine exactly where its record wants that, and a launch fails
/// only for want of that agent. The recorded hosts still limit name resolution, and the
/// layers of an artifact are handed on.
pub proof fn launched_machines_get_what_is_recorded(
    r: VmRecordView,
    ssh_auth_sock: Option<Seq<char>>,
    layers_dir: Option<Seq<char>>,
)
    ensures
        match launch_plan(r, ssh_auth_sock, layers_dir) {
            Ok(f) => {
                &&& f.ssh_agent_socket is Some <==> r.ssh_agent
                &&& r.ssh_agent ==> f.ssh_agent_socket == ssh_auth_sock
                &&& f.dns_filter_hosts == r.dns_filter_hosts
                &&& f.packed_layers_dir == layers_dir
                &&& f.extra_disks.len() == 0
            },
            Err(e) => r.ssh_agent && ssh_auth_sock is None && e is Config,
        },
{
}

/// The launch features of a recorded machine, or the error for a missing SSH agent,
/// given the path of the agent's socket and the directory of extracted layers.
pub fn launch_features(
    record: &VmRecord,
    ssh_auth_sock: Option<String>,
    layers_dir: Option<String>,
) -> (r: Result<LaunchFeatures, Error>)
    ensures
        outcome(r) == launch_plan(record@, ssh_auth_sock.deep_view(), layers_dir.deep_view()),
{
    let ssh_agent_socket = if record.ssh_agent {
        match ssh_auth_sock {
            Some(path) => Some(path),
            None => {
                return Err(Error::config("ssh-agent", NO_SSH_AGENT.to_owned()));
            },
        }
    } else {
        None
    };
    let extra_disks: Vec<(String, bool)> = Vec::new();
    proof {
        assert(extra_disks.deep_view() =~= Seq::empty());
    }
    Ok(
        LaunchFeatures {
            ssh_agent_socket,
            dns_filter_hosts: clone_opt_strings(&record.dns_filter_hosts),
            packed_layers_dir: layers_dir,
            extra_disks,
        },
    )
}

/// The error for a packed artifact that is gone.
pub fn missing_sidecar_error(path: &str) -> (r: Error)
    ensures
        r@ == agent_error(
            "start machine"@,
            "source .smolmachine not found: "@ + path@ + "\nThe file may have been moved or deleted."@,
        ),
{
    Error::agent(
        "start machine",
        String::from_str("source .smolmachine not found: ").concat(path).concat(
            "\nThe file may have been moved or deleted.",
        ),
    )
}

/// The command of a bare machine.
pub open spec fn bare_words(r: VmRecordView) -> Seq<Seq<char>> {
    r.entrypoint + r.cmd
}

/// The workload of a machine is its entrypoint, word by word, then its arguments; a machine
/// without an image is given it exactly where there is a word.
pub proof fn workload_is_entrypoint_then_arguments(r: VmRecordView, i: int)
    requires
        0 <= i < bare_words(r).len(),
    ensures
        bare_words(r).len() == r.entrypoint.len() + r.cmd.len(),
        i < r.entrypoint.len() ==> bare_words(r)[i] == r.entrypoint[i],
        i >= r.entrypoint.len() ==> bare_words(r)[i] == r.cmd[i - r.entrypoint.len()],
        r.image is None ==> start_calls_for(r, StartPhase::Working),
{
}

/// The command of a bare machine: entrypoint, then arguments.
pub fn bare_command(record: &VmRecord) -> (r: Vec<String>)
    ensures
        r.deep_view() == bare_words(record@),
{
    joined(clone_strings(&record.entrypoint), clone_strings(&record.cmd))
}

/// Whether a start that failed falls back to the default machine: only where no
/// name was given and no such machine is recorded.
pub fn falls_back_to_default(explicit_name: bool, e: &Error) -> (r: bool)
    ensures
        r == (!explicit_name && e@ is VmNotFound),
{
    match e {
        Error::VmNotFound { name: _ } => !explicit_name,
        _ => false,
    }
}

// ---------------------------------------------------------------------------
// Stop
// ---------------------------------------------------------------------------

/// What the stop of a named machine comes to.
#[derive(Debug, Clone, Copy, PartialEq, Eq, Structural)]
pub enum StopDecision {
    /// Not recorded but running: stop it.
    StopUnrecorded,
    /// Neither recorded nor running.
    NotFound,
    /// The agent does not answer: tear the process down.
    Recover,
    /// Stop it and record that.
    StopRecorded,
    /// Not running.
    NotRunning(RecordState),
}

/// What the stop of a named machine comes to, given its state where it is recorded,
/// and whether its agent answers where it is not.
pub open spec fn stop_decision(recorded: Option<RecordState>, agent_answers: bool) -> StopDecision {
    match recorded {
        None => if agent_answers {
            StopDecision::StopUnrecorded
        } else {
            StopDecision::NotFound
        },
        Some(RecordState::Unreachable) => StopDecision::Recover,
        Some(RecordState::Running) => StopDecision::StopRecorded,
        Some(other) => StopDecision::NotRunning(other),
    }
}

/// Decide what the stop of a named machine comes to.
pub fn stop_vm_named(recorded: Option<RecordState>, agent_answers: bool) -> (r: StopDecision)
    ensures
        r == stop_decision(recorded, agent_answers),
{
    match recorded {
        None => if agent_answers {
            StopDecision::StopUnrecorded
        } else {
            StopDecision::NotFound
        },
        Some(RecordState::Unreachable) => StopDecision::Recover,
        Some(RecordState::Running) => StopDecision::StopRecorded,
        Some(other) => StopDecision::NotRunning(other),
    }
}

/// The last line that a stop prints.
pub fn stop_line(name: &str, d: StopDecision) -> (r: String)
    ensures
        r@ == (match d {
            StopDecision::StopUnrecorded => "Machine '"@ + name@ + "' stopped"@,
            StopDecision::NotFound => "Machine '"@ + name@ + "' not found or not running"@,
            StopDecision::Recover => "Stopped machine: "@ + name@,
            StopDecision::StopRecorded => "Stopped machine: "@ + name@,
            StopDecision::NotRunning(s) => "Machine '"@ + name@ + "' is not running (state: "@
                + s.word() + ")"@,
        }),
{
    match d {
        StopDecision::StopUnrecorded => String::from_str("Machine '").concat(name).concat(
            "' stopped",
        ),
        StopDecision::NotFound => String::from_str("Machine '").concat(name).concat(
            "' not found or not running",
        ),
        StopDecision::Recover => String::from_str("Stopped machine: ").concat(name),
        StopDecision::StopRecorded => String::from_str("Stopped machine: ").concat(name),
        StopDecision::NotRunning(s) => String::from_str("Machine '").concat(name).concat(
            "' is not running (state: ",
        ).concat(s.to_string().as_str()).concat(")"),
    }
}

/// A recorded machine whose process lives is always brought down, whether its agent
/// answers or not.
pub proof fn live_machines_are_stopped(state: RecordState, agent_answers: bool)
    ensures
        state == RecordState::Running ==> stop_decision(Some(state), agent_answers)
            == StopDecision::StopRecorded,
        state == RecordState::Unreachable ==> stop_decision(Some(state), agent_answers)
            == StopDecision::Recover,
{
}

/// A stop reaches every machine that runs and none that does not: an unrecorded machine
/// runs where its agent answers, a recorded one where its state says so, and whoever asks
/// is told the state of a machine that does not.
pub proof fn stops_reach_what_runs(recorded: Option<RecordState>, agent_answers: bool)
    ensures
        ({
            let d = stop_decision(recorded, agent_answers);
            let live = match recorded {
                None => agent_answers,
                Some(s) => s is Running || s is Unreachable,
            };
            &&& live <==> d is StopUnrecorded || d is Recover || d is StopRecorded
            &&& recorded is None ==> d is StopUnrecorded || d is NotFound
            &&& !live && recorded is Some ==> d == StopDecision::NotRunning(recorded->0)
            &&& d is Recover <==> recorded == Some(RecordState::Unreachable)
        }),
{
}

// ---------------------------------------------------------------------------
// Delete
// ---------------------------------------------------------------------------

/// Options for machine delete behavior.
#[derive(Debug, Clone, Copy)]
pub struct DeleteVmOptions {
    /// If true, stop the VM before deleting when it is running.
    pub stop_if_running: bool,
}

/// What comes before a deletion.
#[derive(Debug, Clone, Copy, PartialEq, Eq, Structural)]
pub enum DeletePreparation {
    /// Nothing.
    Nothing,
    /// Stop the machine.
    Stop,
    /// Tear down a process whose agent does not answer.
    Recover,
}

/// What has to be done before a recorded machine is deleted.
pub open spec fn before_delete(state: RecordState, stop_if_running: bool) -> DeletePreparation {
    if stop_if_running && state == RecordState::Running {
        DeletePreparation::Stop
    } else if stop_if_running && state == RecordState::Unreachable {
        DeletePreparation::Recover
    } else {
        DeletePreparation::Nothing
    }
}

/// Where a deletion may stop machines, it brings down exactly those that a stop would bring
/// down, in the same way; else it leaves every machine as it is.
pub proof fn deletions_stop_as_stops_do(state: RecordState, agent_answers: bool)
    ensures
        ({
            let p = before_delete(state, true);
            let d = stop_decision(Some(state), agent_answers);
            &&& p is Stop <==> d is StopRecorded
            &&& p is Recover <==> d is Recover
            &&& p is Nothing <==> d is NotRunning
            &&& before_delete(state, false) is Nothing
        }),
{
}

/// What has to be done before a recorded machine is deleted; a machine that is not
/// recorded is an error.
pub fn prepare_delete(
    name: &str,
    recorded: Option<RecordState>,
    options: DeleteVmOptions,
) -> (r: Result<DeletePreparation, Error>)
    ensures
        match recorded {
            None => r matches Err(e) && e@ == (ErrorView::VmNotFound { name: name@ }),
            Some(s) => r matches Ok(p) && p == before_delete(s, options.stop_if_running),
        },
{
    match recorded {
        None => Err(Error::vm_not_found(name)),
        Some(state) => {
            if !options.stop_if_running {
                return Ok(DeletePreparation::Nothing);
            }
            match state {
                RecordState::Running => Ok(DeletePreparation::Stop),
                RecordState::Unreachable => Ok(DeletePreparation::Recover),
                _ => Ok(DeletePreparation::Nothing),
            }
        },
    }
}

/// Whether a deletion goes on: with `--force`, or when the question was answered
/// with "y" or "yes", in any case.
pub open spec fn delete_confirmed(force: bool, answer: Option<Seq<char>>) -> bool {
    force || match answer {
        Some(a) => {
            let word = unicode_lowercase(trimmed(a));
            word == "y"@ || word == "yes"@
        },
        None => false,
    }
}

/// Whether a word means yes.
pub fn means_yes(word: &str) -> (r: bool)
    ensures
        r == (word@ == "y"@ || word@ == "yes"@),
{
    same(word, "y") || same(word, "yes")
}

/// Whether a deletion goes on, given the answer to the question, where one could be
/// read.
pub fn confirm_delete(force: bool, answer: Option<&str>) -> (r: bool)
    ensures
        r == delete_confirmed(
            force,
            match answer {
                Some(a) => Some(a@),
                None => None,
            },
        ),
        answer matches Some(a) ==> (is_ascii_chars(trimmed(a@)) ==> r == (force
            || ascii_lowercase(trimmed(a@)) == "y"@ || ascii_lowercase(trimmed(a@)) == "yes"@)),
{
    if force {
        return true;
    }
    match answer {
        Some(a) => means_yes(to_lowercase(trim(a)).as_str()),
        None => false,
    }
}

/// The status line of a machine.
pub fn status_line(label: &str, running: bool, pid: Option<i32>) -> (r: String)
    ensures
        r@ == (if running {
            "Machine '"@ + label@ + "': running"@ + pid_suffix(pid)
        } else {
            "Machine '"@ + label@ + "': not running"@
        }),
{
    if running {
        String::from_str("Machine '").concat(label).concat("': running").concat(
            format_pid_suffix(pid).as_str(),
        )
    } else {
        String::from_str("Machine '").concat(label).concat("': not running")
    }
}

/// Without `--force` nothing is deleted unless the question was answered with yes; with it
/// nothing is asked.
pub proof fn deletions_need_a_yes(answer: Seq<char>, word: Seq<char>)
    requires
        unicode_lowercase(trimmed(answer)) == word,
    ensures
        delete_confirmed(false, Some(answer)) <==> word == "y"@ || word == "yes"@,
        !delete_confirmed(false, None),
        delete_confirmed(true, None) && delete_confirmed(true, Some(answer)),
{
}

/// The line that announces a start counts the mounts and the ports, each where there are
/// any.
pub proof fn starts_are_announced_with_their_counts(name: Seq<char>, mounts: nat, ports: nat)
    requires
        mounts > 0,
        ports > 0,
    ensures
        starting_text(name, 0, 0) == "Starting machine '"@ + name + "'"@ + "..."@,
        starting_text(name, mounts, 0) == "Starting machine '"@ + name + "'"@ + (" with "@
            + decimal(mounts) + " mount(s)"@) + "..."@,
        starting_text(name, 0, ports) == "Starting machine '"@ + name + "'"@ + (" and "@
            + decimal(ports) + " port mapping(s)"@) + "..."@,
        starting_text(name, mounts, ports) == "Starting machine '"@ + name + "'"@ + (" with "@
            + decimal(mounts) + " mount(s)"@) + (" and "@ + decimal(ports) + " port mapping(s)"@)
            + "..."@,
{
    let none = Seq::<char>::empty();
    let head = "Starting machine '"@ + name + "'"@;
    let with_mounts = head + (" with "@ + decimal(mounts) + " mount(s)"@);
    assert(head + none == head);
    assert(with_mounts + none == with_mounts);
}

} // verus!
