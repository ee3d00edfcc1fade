//! The course of `machine run`.
use vstd::prelude::*;

verus! {

/// What the course of a run depends on.
#[derive(Debug, Clone, Copy, PartialEq, Eq, Structural)]
pub struct RunFacts {
    /// Whether the machine is kept running.
    pub detach: bool,
    /// Whether the command is attached to the terminal.
    pub attached: bool,
    /// Whether there is an image.
    pub has_image: bool,
    /// Whether the SSH agent is forwarded.
    pub ssh_agent: bool,
    /// Number of init commands.
    pub init_len: usize,
}

/// Where a run stands.
#[derive(Debug, Clone, Copy, PartialEq, Eq, Structural)]
pub enum RunPhase {
    /// Asked for a process manager.
    Preparing,
    /// Asked for the SSH agent's socket.
    FindingSshAgent,
    /// Asked to launch the process.
    Launching,
    /// Registering the machine for tracking.
    Registering {
        /// Whether the process was started by this run.
        fresh: bool,
    },
    /// Asked to connect to the agent.
    Connecting {
        /// Whether the process was started by this run.
        fresh: bool,
    },
    /// Asked to pull the image.
    Pulling {
        /// Whether the process was started by this run.
        fresh: bool,
    },
    /// Running the init command at this position.
    Initializing(usize),
    /// Asked for the command to run.
    Resolving,
    /// Pulling the image again, so that later commands find it.
    Caching,
    /// Starting the command in the background.
    StartingBackground,
    /// Recording the machine.
    Persisting,
    /// Running the command.
    Executing,
    /// Removing the tracking record; the run then ends with this code, or fails.
    Deregistering(Option<i32>),
    /// Killing the machine; the run then ends with this code, or fails.
    Killing(Option<i32>),
    /// Over.
    Finished,
}

/// What the caller is asked to do next.
#[derive(Debug, Clone, Copy, PartialEq, Eq, Structural)]
pub enum RunAction {
    /// Create the process manager.
    Prepare,
    /// Read the path of the SSH agent's socket.
    FindSshAgent,
    /// Make sure that the process runs.
    Launch,
    /// Register the machine for tracking.
    Register,
    /// Connect to the agent.
    Connect,
    /// Pull the image.
    Pull,
    /// Run the init command at this position.
    RunInit(usize),
    /// Resolve the command to run.
    Resolve,
    /// Start the command in the background of the bare machine.
    StartBackground,
    /// Record the machine as running.
    Persist,
    /// Run the command and report its exit code.
    Execute {
        /// Inside the image, or in the bare machine.
        in_image: bool,
        /// Attached to the terminal, or with output collected.
        attached: bool,
    },
    /// Remove the tracking record.
    Deregister,
    /// Kill the machine.
    Kill,
    /// Leave the machine running; the run is over.
    Detach,
    /// End with this exit code.
    Exit(i32),
    /// Report the error that came up; the run is over.
    Fail,
}

/// What the caller reports.
#[derive(Debug, Clone, Copy, PartialEq, Eq, Structural)]
pub enum RunEvent {
    /// What was asked for was done.
    Done,
    /// What was asked for failed.
    Failed,
    /// The process runs.
    Launched {
        /// Whether it was started just now.
        fresh: bool,
    },
    /// The command was resolved.
    Resolved {
        /// Whether it only keeps the machine idle.
        idle: bool,
    },
    /// The command ended with this code.
    Exited(i32),
}

/// The end of a failed run.
pub open spec fn run_failed() -> (RunPhase, RunAction) {
    (RunPhase::Finished, RunAction::Fail)
}

/// What follows once the image is there: init commands run only in a machine that
/// was just started.
pub open spec fn after_pull(facts: RunFacts, fresh: bool) -> (RunPhase, RunAction) {
    if fresh && facts.init_len > 0 {
        (RunPhase::Initializing(0), RunAction::RunInit(0))
    } else {
        (RunPhase::Resolving, RunAction::Resolve)
    }
}

/// What follows once the command is known.
pub open spec fn after_resolve(facts: RunFacts, idle: bool) -> (RunPhase, RunAction) {
    if facts.detach {
        if facts.has_image {
            (RunPhase::Caching, RunAction::Pull)
        } else if !idle {
            (RunPhase::StartingBackground, RunAction::StartBackground)
        } else {
            (RunPhase::Persisting, RunAction::Persist)
        }
    } else {
        (
            RunPhase::Executing,
            RunAction::Execute { in_image: facts.has_image, attached: facts.attached },
        )
    }
}

/// Whether an event answers what a phase asked.
pub open spec fn run_answers(phase: RunPhase, event: RunEvent) -> bool {
    match phase {
        RunPhase::Launching => event is Launched || event is Failed,
        RunPhase::Initializing(_) | RunPhase::Executing => event is Exited || event is Failed,
        RunPhase::Resolving => event is Resolved,
        RunPhase::Finished => false,
        _ => event is Done || event is Failed,
    }
}

/// The next phase of a run and what is to be done.
pub open spec fn run_next(facts: RunFacts, phase: RunPhase, event: RunEvent) -> (RunPhase, RunAction) {
    match phase {
        RunPhase::Preparing => if event is Done {
            if facts.ssh_agent {
                (RunPhase::FindingSshAgent, RunAction::FindSshAgent)
            } else {
                (RunPhase::Launching, RunAction::Launch)
            }
        } else {
            run_failed()
        },
        RunPhase::FindingSshAgent => if event is Done {
            (RunPhase::Launching, RunAction::Launch)
        } else {
            run_failed()
        },
        RunPhase::Launching => match event {
            RunEvent::Launched { fresh } => (RunPhase::Registering { fresh }, RunAction::Register),
            _ => run_failed(),
        },
        RunPhase::Registering { fresh } => (RunPhase::Connecting { fresh }, RunAction::Connect),
        RunPhase::Connecting { fresh } => if event is Done {
            if facts.has_image {
                (RunPhase::Pulling { fresh }, RunAction::Pull)
            } else {
                after_pull(facts, fresh)
            }
        } else {
            run_failed()
        },
        RunPhase::Pulling { fresh } => if event is Done {
            after_pull(facts, fresh)
        } else {
            run_failed()
        },
        RunPhase::Initializing(i) => if event == RunEvent::Exited(0) {
            if i + 1 < facts.init_len {
                (RunPhase::Initializing((i + 1) as usize), RunAction::RunInit((i + 1) as usize))
            } else {
                (RunPhase::Resolving, RunAction::Resolve)
            }
        } else {
            (RunPhase::Deregistering(None), RunAction::Deregister)
        },
        RunPhase::Resolving => match event {
            RunEvent::Resolved { idle } => after_resolve(facts, idle),
            _ => run_failed(),
        },
        RunPhase::Caching | RunPhase::StartingBackground => if event is Done {
            (RunPhase::Persisting, RunAction::Persist)
        } else {
            run_failed()
        },
        RunPhase::Persisting => (RunPhase::Finished, RunAction::Detach),
        RunPhase::Executing => match event {
            RunEvent::Exited(code) => (RunPhase::Deregistering(Some(code)), RunAction::Deregister),
            _ => run_failed(),
        },
        RunPhase::Deregistering(code) => (RunPhase::Killing(code), RunAction::Kill),
        RunPhase::Killing(code) => (
            RunPhase::Finished,
            match code {
                Some(c) => RunAction::Exit(c),
                None => RunAction::Fail,
            },
        ),
        RunPhase::Finished => run_failed(),
    }
}

/// A run in progress.
#[derive(Debug, Clone, Copy, PartialEq, Eq, Structural)]
pub struct RunFlow {
    /// What the run depends on.
    pub facts: RunFacts,
    /// Where the run stands.
    pub phase: RunPhase,
}

impl RunFlow {
    /// What holds in every state that a run reaches: init commands are counted, and
    /// the phases of an ephemeral and of a detached run do not mix.
    pub open spec fn wf(&self) -> bool {
        &&& self.phase matches RunPhase::Initializing(i) ==> i < self.facts.init_len
        &&& (self.phase is Caching || self.phase is StartingBackground || self.phase is Persisting)
            ==> self.facts.detach
        &&& self.phase is Executing ==> !self.facts.detach
        &&& self.phase matches RunPhase::Deregistering(Some(_)) ==> !self.facts.detach
        &&& self.phase matches RunPhase::Killing(Some(_)) ==> !self.facts.detach
    }

    /// Begin a run.
    pub fn begin(facts: RunFacts) -> (r: (RunFlow, RunAction))
        ensures
            r.0 == (RunFlow { facts, phase: RunPhase::Preparing }),
            r.1 == RunAction::Prepare,
            r.0.wf(),
    {
        (RunFlow { facts, phase: RunPhase::Preparing }, RunAction::Prepare)
    }

    fn pulled(&self, fresh: bool) -> (r: (RunPhase, RunAction))
        ensures
            r == after_pull(self.facts, fresh),
    {
        if fresh && self.facts.init_len > 0 {
            (RunPhase::Initializing(0), RunAction::RunInit(0))
        } else {
            (RunPhase::Resolving, RunAction::Resolve)
        }
    }

    fn resolved(&self, idle: bool) -> (r: (RunPhase, RunAction))
        ensures
            r == after_resolve(self.facts, idle),
    {
        if self.facts.detach {
            if self.facts.has_image {
                (RunPhase::Caching, RunAction::Pull)
            } else if !idle {
                (RunPhase::StartingBackground, RunAction::StartBackground)
            } else {
                (RunPhase::Persisting, RunAction::Persist)
            }
        } else {
            (
                RunPhase::Executing,
                RunAction::Execute {
                    in_image: self.facts.has_image,
                    attached: self.facts.attached,
                },
            )
        }
    }

    /// Take what the caller reports and say what is to be done next.
    pub fn step(&self, event: RunEvent) -> (r: (RunFlow, RunAction))
        requires
            self.wf(),
            run_answers(self.phase, event),
        ensures
            (r.0.phase, r.1) == run_next(self.facts, self.phase, event),
            r.0.facts == self.facts,
            r.0.wf(),
    {
        let done = match event {
            RunEvent::Done => true,
            _ => false,
        };
        let failed = (RunPhase::Finished, RunAction::Fail);
        let (phase, action) = match self.phase {
            RunPhase::Preparing => if done {
                if self.facts.ssh_agent {
                    (RunPhase::FindingSshAgent, RunAction::FindSshAgent)
                } else {
                    (RunPhase::Launching, RunAction::Launch)
                }
            } else {
                failed
            },
            RunPhase::FindingSshAgent => if done {
                (RunPhase::Launching, RunAction::Launch)
            } else {
                failed
            },
            RunPhase::Launching => match event {
                RunEvent::Launched { fresh } => (
                    RunPhase::Registering { fresh },
                    RunAction::Register,
                ),
                _ => failed,
            },
            RunPhase::Registering { fresh } => (RunPhase::Connecting { fresh }, RunAction::Connect),
            RunPhase::Connecting { fresh } => if done {
                if self.facts.has_image {
                    (RunPhase::Pulling { fresh }, RunAction::Pull)
                } else {
                    self.pulled(fresh)
                }
            } else {
                failed
            },
            RunPhase::Pulling { fresh } => if done {
                self.pulled(fresh)
            } else {
                failed
            },
            RunPhase::Initializing(i) => match event {
                RunEvent::Exited(0) => if i + 1 < self.facts.init_len {
                    (RunPhase::Initializing(i + 1), RunAction::RunInit(i + 1))
                } else {
                    (RunPhase::Resolving, RunAction::Resolve)
                },
                _ => (RunPhase::Deregistering(None), RunAction::Deregister),
            },
            RunPhase::Resolving => match event {
                RunEvent::Resolved { idle } => self.resolved(idle),
                _ => failed,
            },
            RunPhase::Caching | RunPhase::StartingBackground => if done {
                (RunPhase::Persisting, RunAction::Persist)
            } else {
                failed
            },
            RunPhase::Persisting => (RunPhase::Finished, RunAction::Detach),
            RunPhase::Executing => match event {
                RunEvent::Exited(code) => (
                    RunPhase::Deregistering(Some(code)),
                    RunAction::Deregister,
                ),
                _ => failed,
            },
            RunPhase::Deregistering(code) => (RunPhase::Killing(code), RunAction::Kill),
            RunPhase::Killing(code) => (
                RunPhase::Finished,
                match code {
                    Some(c) => RunAction::Exit(c),
                    None => RunAction::Fail,
                },
            ),
            RunPhase::Finished => failed,
        };
        (RunFlow { facts: self.facts, phase }, action)
    }
}

/// When the command of an ephemeral run ends, its tracking record is removed, its
/// machine is killed, and the run ends with the command's exit code, whatever comes
/// of the removal and the kill.
pub proof fn ephemeral_run_is_cleaned_up(facts: RunFacts, code: i32, a: RunEvent, b: RunEvent)
    requires
        !facts.detach,
    ensures
        run_next(facts, RunPhase::Executing, RunEvent::Exited(code)) == (
            RunPhase::Deregistering(Some(code)),
            RunAction::Deregister,
        ),
        run_next(facts, RunPhase::Deregistering(Some(code)), a) == (
            RunPhase::Killing(Some(code)),
            RunAction::Kill,
        ),
        run_next(facts, RunPhase::Killing(Some(code)), b) == (
            RunPhase::Finished,
            RunAction::Exit(code),
        ),
{
}

/// When an init command fails, the tracking record is removed, the machine is
/// killed, and the run fails.
pub proof fn failed_init_kills_the_machine(facts: RunFacts, i: usize, event: RunEvent, a: RunEvent, b: RunEvent)
    requires
        event != RunEvent::Exited(0),
    ensures
        run_next(facts, RunPhase::Initializing(i), event) == (
            RunPhase::Deregistering(None),
            RunAction::Deregister,
        ),
        run_next(facts, RunPhase::Deregistering(None), a) == (
            RunPhase::Killing(None),
            RunAction::Kill,
        ),
        run_next(facts, RunPhase::Killing(None), b) == (RunPhase::Finished, RunAction::Fail),
{
}

/// A detached run kills its machine only after a failed init command, and never
/// ends with an exit code; an ephemeral run never leaves its machine running on
/// purpose.
pub proof fn detached_and_ephemeral_runs_differ(f: RunFlow, event: RunEvent)
    requires
        f.wf(),
        run_answers(f.phase, event),
    ensures
        f.facts.detach && run_next(f.facts, f.phase, event).1 is Kill ==> f.phase
            == RunPhase::Deregistering(None),
        f.facts.detach ==> !(run_next(f.facts, f.phase, event).1 is Exit),
        !f.facts.detach ==> !(run_next(f.facts, f.phase, event).1 is Detach),
        !f.facts.detach ==> !(run_next(f.facts, f.phase, event).1 is Persist),
{
}

/// Init commands never run in a machine that was running before.
pub proof fn init_needs_a_fresh_machine(facts: RunFacts, phase: RunPhase, event: RunEvent)
    requires
        run_answers(phase, event),
        run_next(facts, phase, event).1 == RunAction::RunInit(0),
    ensures
        phase == (RunPhase::Connecting { fresh: true }) || phase == (RunPhase::Pulling { fresh: true }),
{
}

/// How far a run has come: it grows with every step.
pub open spec fn run_rank(facts: RunFacts, phase: RunPhase) -> int {
    match phase {
        RunPhase::Preparing => 0,
        RunPhase::FindingSshAgent => 1,
        RunPhase::Launching => 2,
        RunPhase::Registering { .. } => 3,
        RunPhase::Connecting { .. } => 4,
        RunPhase::Pulling { .. } => 5,
        RunPhase::Initializing(i) => 6 + i,
        RunPhase::Resolving => 6 + facts.init_len,
        RunPhase::Caching => 7 + facts.init_len,
        RunPhase::StartingBackground => 7 + facts.init_len,
        RunPhase::Executing => 7 + facts.init_len,
        RunPhase::Persisting => 8 + facts.init_len,
        RunPhase::Deregistering(_) => 8 + facts.init_len,
        RunPhase::Killing(_) => 9 + facts.init_len,
        RunPhase::Finished => 10 + facts.init_len,
    }
}

/// A run never goes back and so comes to an end.
pub proof fn run_advances(f: RunFlow, event: RunEvent)
    requires
        f.wf(),
        run_answers(f.phase, event),
    ensures
        run_rank(f.facts, f.phase) < run_rank(f.facts, run_next(f.facts, f.phase, event).0),
        run_rank(f.facts, f.phase) <= 10 + f.facts.init_len,
{
}

/// The phase of a run after its first `n` events.
pub open spec fn run_after(facts: RunFacts, events: Seq<RunEvent>, n: int) -> RunPhase
    decreases n,
{
    if n <= 0 {
        RunPhase::Preparing
    } else {
        run_next(facts, run_after(facts, events, n - 1), events[n - 1]).0
    }
}

/// Whether events are those of a run: each answers the phase before it.
pub open spec fn is_run(facts: RunFacts, events: Seq<RunEvent>) -> bool {
    forall|k: int|
        0 <= k < events.len() ==> run_answers(#[trigger] run_after(facts, events, k), events[k])
}

proof fn lemma_run_reaches(facts: RunFacts, events: Seq<RunEvent>, n: int)
    requires
        is_run(facts, events),
        0 <= n <= events.len(),
    ensures
        (RunFlow { facts, phase: run_after(facts, events, n) }).wf(),
        n <= run_rank(facts, run_after(facts, events, n)) <= 10 + facts.init_len,
    decreases n,
{
    if n > 0 {
        lemma_run_reaches(facts, events, n - 1);
        let before = RunFlow { facts, phase: run_after(facts, events, n - 1) };
        assert(run_answers(before.phase, events[n - 1]));
        run_advances(before, events[n - 1]);
        let phase = run_after(facts, events, n);
        assert(phase == run_next(facts, before.phase, events[n - 1]).0);
    }
}

/// Every run comes to an end: it takes at most ten events and one for each init
/// command.
pub proof fn runs_come_to_an_end(facts: RunFacts, events: Seq<RunEvent>)
    requires
        is_run(facts, events),
    ensures
        events.len() <= 10 + facts.init_len,
{
    lemma_run_reaches(facts, events, events.len() as int);
}

/// A run of which the command ended has killed its machine by the time it is over:
/// there is a step at which it was asked to.
pub proof fn finished_run_killed_its_machine(
    facts: RunFacts,
    events: Seq<RunEvent>,
    m: int,
    n: int,
)
    requires
        is_run(facts, events),
        0 <= m < n <= events.len(),
        run_after(facts, events, m) is Executing,
        events[m] is Exited,
        run_after(facts, events, n) is Finished,
    ensures
        exists|k: int|
            m < k < n && run_next(facts, #[trigger] run_after(facts, events, k), events[k]).1
                is Kill,
{
    let code = events[m]->Exited_0;
    assert(run_after(facts, events, m + 1) == RunPhase::Deregistering(Some(code)));
    assert(m + 1 < n);
    assert(run_next(facts, run_after(facts, events, m + 1), events[m + 1]).1 is Kill);
}

/// A command is executed in a machine that was just started only after every init
/// command succeeded there.
pub proof fn executed_machine_was_initialized(
    facts: RunFacts,
    events: Seq<RunEvent>,
    m: int,
    n: int,
    i: usize,
)
    requires
        is_run(facts, events),
        0 <= m < n <= events.len(),
        events[m] == (RunEvent::Launched { fresh: true }),
        i < (match run_after(facts, events, n) {
            RunPhase::Initializing(j) => j,
            RunPhase::Resolving | RunPhase::Caching | RunPhase::StartingBackground
            | RunPhase::Executing | RunPhase::Persisting => facts.init_len,
            _ => 0,
        }),
    ensures
        exists|k: int|
            m < k < n && #[trigger] run_after(facts, events, k) == RunPhase::Initializing(i)
                && events[k] == RunEvent::Exited(0),
    decreases n,
{
    lemma_run_reaches(facts, events, n - 1);
    lemma_fresh_is_kept(facts, events, m, n - 1);
    let before = run_after(facts, events, n - 1);
    assert(run_answers(before, events[n - 1]));
    if before == RunPhase::Initializing(i) {
        assert(events[n - 1] == RunEvent::Exited(0));
        assert(run_answers(run_after(facts, events, m), events[m]));
        assert(m < n - 1);
    } else {
        assert(run_answers(run_after(facts, events, m), events[m]));
        assert(m < n - 1);
        executed_machine_was_initialized(facts, events, m, n - 1, i);
    }
}

proof fn lemma_fresh_is_kept(facts: RunFacts, events: Seq<RunEvent>, m: int, n: int)
    requires
        is_run(facts, events),
        0 <= m <= n <= events.len(),
        m < events.len(),
        events[m] == (RunEvent::Launched { fresh: true }),
    ensures
        match run_after(facts, events, n) {
            RunPhase::Registering { fresh } => fresh,
            RunPhase::Connecting { fresh } => fresh,
            RunPhase::Pulling { fresh } => fresh,
            RunPhase::Launching => n == m,
            RunPhase::Preparing | RunPhase::FindingSshAgent => false,
            _ => true,
        },
        run_after(facts, events, m) is Launching,
    decreases n,
{
    assert(run_answers(run_after(facts, events, m), events[m]));
    if n > m {
        lemma_fresh_is_kept(facts, events, m, n - 1);
        assert(run_answers(run_after(facts, events, n - 1), events[n - 1]));
    }
}

/// What a run calls for, given whether its machine was just started and whether its command
/// only keeps the machine idle: an SSH agent that is forwarded, an image, init commands in a
/// machine that is new, and then either a record of the machine, which is kept, or a run of
/// the command and the end of the machine.
pub open spec fn run_calls_for(facts: RunFacts, fresh: bool, idle: bool, phase: RunPhase) -> bool {
    match phase {
        RunPhase::Preparing | RunPhase::Launching | RunPhase::Resolving => true,
        RunPhase::FindingSshAgent => facts.ssh_agent,
        RunPhase::Registering { fresh: f } => f == fresh,
        RunPhase::Connecting { fresh: f } => f == fresh,
        RunPhase::Pulling { fresh: f } => f == fresh && facts.has_image,
        RunPhase::Initializing(i) => fresh && i < facts.init_len,
        RunPhase::Caching => facts.detach && facts.has_image,
        RunPhase::StartingBackground => facts.detach && !facts.has_image && !idle,
        RunPhase::Persisting => facts.detach,
        RunPhase::Executing => !facts.detach,
        RunPhase::Deregistering(code) => !facts.detach && code is Some,
        RunPhase::Killing(code) => !facts.detach && code is Some,
        RunPhase::Finished => false,
    }
}

/// What the caller of a run is asked for in a phase.
pub open spec fn run_asked_in(facts: RunFacts, phase: RunPhase) -> RunAction {
    match phase {
        RunPhase::Preparing => RunAction::Prepare,
        RunPhase::FindingSshAgent => RunAction::FindSshAgent,
        RunPhase::Launching => RunAction::Launch,
        RunPhase::Registering { .. } => RunAction::Register,
        RunPhase::Connecting { .. } => RunAction::Connect,
        RunPhase::Pulling { .. } => RunAction::Pull,
        RunPhase::Initializing(i) => RunAction::RunInit(i),
        RunPhase::Resolving => RunAction::Resolve,
        RunPhase::Caching => RunAction::Pull,
        RunPhase::StartingBackground => RunAction::StartBackground,
        RunPhase::Persisting => RunAction::Persist,
        RunPhase::Executing => RunAction::Execute {
            in_image: facts.has_image,
            attached: facts.attached,
        },
        RunPhase::Deregistering(_) => RunAction::Deregister,
        RunPhase::Killing(_) => RunAction::Kill,
        RunPhase::Finished => RunAction::Fail,
    }
}

/// Whether an event lets a run go on in its phase. A tracking record that could not be
/// written or removed holds nothing up.
pub open spec fn run_goes_on(phase: RunPhase, event: RunEvent) -> bool {
    match phase {
        RunPhase::Registering { .. } => true,
        RunPhase::Initializing(_) => event == RunEvent::Exited(0),
        RunPhase::Deregistering(code) => code is Some,
        RunPhase::Persisting | RunPhase::Killing(_) | RunPhase::Finished => false,
        _ => !(event is Failed),
    }
}

/// Whether a phase and an event agree with what is known of a run: whether its machine was
/// just started, and whether its command only keeps the machine idle.
pub open spec fn run_known(fresh: bool, idle: bool, phase: RunPhase, event: RunEvent) -> bool {
    &&& event matches RunEvent::Launched { fresh: f } ==> f == fresh
    &&& event matches RunEvent::Resolved { idle: i } ==> i == idle
    &&& phase matches RunPhase::Registering { fresh: f } ==> f == fresh
    &&& phase matches RunPhase::Connecting { fresh: f } ==> f == fresh
    &&& phase matches RunPhase::Pulling { fresh: f } ==> f == fresh
    &&& phase is Initializing ==> fresh
}

/// A run asks for what its phase is about. It ends by leaving its machine running once that
/// was recorded, with the exit code of its command once the machine was killed, or with an
/// error.
pub proof fn runs_ask_for_what_they_are_at(f: RunFlow, event: RunEvent)
    requires
        f.wf(),
        run_answers(f.phase, event),
    ensures
        ({
            let (next, action) = run_next(f.facts, f.phase, event);
            &&& !(next is Finished) ==> action == run_asked_in(f.facts, next)
            &&& action is Detach <==> f.phase is Persisting
            &&& action matches RunAction::Exit(code) ==> f.phase == RunPhase::Killing(Some(code))
            &&& f.phase matches RunPhase::Killing(Some(code)) ==> action == RunAction::Exit(code)
            &&& next is Finished ==> action is Detach || action is Exit || action is Fail
            &&& f.phase is Executing ==> (event matches RunEvent::Exited(code) ==> next
                == RunPhase::Deregistering(Some(code)))
            &&& f.phase matches RunPhase::Deregistering(code) ==> next == RunPhase::Killing(code)
        }),
{
}

/// A run that goes on goes to the next thing that it calls for and skips nothing; one that
/// does not go on comes to its end, after it brought its machine down where an init command
/// failed.
pub proof fn runs_skip_nothing(
    f: RunFlow,
    fresh: bool,
    idle: bool,
    event: RunEvent,
    other: RunPhase,
)
    requires
        f.wf(),
        run_answers(f.phase, event),
        run_known(fresh, idle, f.phase, event),
    ensures
        ({
            let next = run_next(f.facts, f.phase, event).0;
            if run_goes_on(f.phase, event) {
                &&& run_calls_for(f.facts, fresh, idle, next)
                &&& run_calls_for(f.facts, fresh, idle, other) && run_rank(f.facts, f.phase)
                    < run_rank(f.facts, other) ==> run_rank(f.facts, next) <= run_rank(
                    f.facts,
                    other,
                )
            } else if f.phase is Initializing {
                next == RunPhase::Deregistering(None)
            } else if f.phase == RunPhase::Deregistering(None) {
                next == RunPhase::Killing(None)
            } else {
                next is Finished
            }
        }),
{
}

/// Whether what a caller reports of a run agrees: whether its machine was just started, and
/// whether its command only keeps the machine idle.
pub open spec fn reports_agree(events: Seq<RunEvent>, fresh: bool, idle: bool) -> bool {
    forall|k: int|
        0 <= k < events.len() ==> {
            &&& (#[trigger] events[k]) matches RunEvent::Launched { fresh: f } ==> f == fresh
            &&& events[k] matches RunEvent::Resolved { idle: i } ==> i == idle
        }
}

proof fn lemma_run_known(
    facts: RunFacts,
    events: Seq<RunEvent>,
    fresh: bool,
    idle: bool,
    n: int,
)
    requires
        is_run(facts, events),
        reports_agree(events, fresh, idle),
        0 <= n < events.len(),
    ensures
        run_known(fresh, idle, run_after(facts, events, n), events[n]),
    decreases n,
{
    if n > 0 {
        lemma_run_known(facts, events, fresh, idle, n - 1);
        assert(run_answers(run_after(facts, events, n - 1), events[n - 1]));
        assert(run_answers(run_after(facts, events, n), events[n]));
    } else {
        assert(run_answers(run_after(facts, events, 0), events[0]));
    }
}

/// By the time a run comes to a phase it has done, with success, everything before it that
/// it calls for: a command is run only in a machine that has its image and its
/// initialisation, and a machine is left running only once its workload was started and the
/// machine was recorded.
pub proof fn runs_did_what_they_call_for(
    facts: RunFacts,
    events: Seq<RunEvent>,
    fresh: bool,
    idle: bool,
    n: int,
    wanted: RunPhase,
)
    requires
        is_run(facts, events),
        reports_agree(events, fresh, idle),
        0 <= n < events.len(),
        !(run_after(facts, events, n) is Finished),
        run_after(facts, events, n) != RunPhase::Deregistering(None),
        run_after(facts, events, n) != RunPhase::Killing(None),
        run_calls_for(facts, fresh, idle, wanted),
        !(wanted is Deregistering),
        run_rank(facts, wanted) < run_rank(facts, run_after(facts, events, n)),
    ensures
        exists|k: int|
            0 <= k < n && #[trigger] run_after(facts, events, k) == wanted && run_goes_on(
                wanted,
                events[k],
            ),
    decreases n,
{
    if n > 0 {
        lemma_run_reaches(facts, events, n - 1);
        lemma_run_known(facts, events, fresh, idle, n - 1);
        let before = RunFlow { facts, phase: run_after(facts, events, n - 1) };
        assert(run_answers(before.phase, events[n - 1]));
        runs_skip_nothing(before, fresh, idle, events[n - 1], wanted);
        if before.phase == wanted {
            assert(run_goes_on(wanted, events[n - 1]));
        } else {
            runs_did_what_they_call_for(facts, events, fresh, idle, n - 1, wanted);
        }
    }
}

} // verus!
