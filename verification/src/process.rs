//! Process identity, exit codes and graceful shutdown.
use vstd::prelude::*;
use vstd::string::*;

use crate::error::{agent_error, Error};
use crate::scan::{
    find_last, last_of, lemma_last_of, lemma_last_of_facts, parse_unsigned, parsed_nat, split_words, words,
};
use crate::text::{char_vec, int_text, signed_text};

verus! {

/// Default timeout for graceful shutdown before SIGKILL, in seconds.
pub const DEFAULT_STOP_TIMEOUT_SECS: u64 = 10;

/// Time given to SIGKILL to take effect, in milliseconds.
pub const SIGKILL_WAIT_MS: u64 = 50;

/// Aggressive poll interval for fast process shutdown, in milliseconds.
pub const FAST_POLL_INTERVAL_MS: u64 = 10;

/// Poll interval after the aggressive phase, in milliseconds.
pub const SLOW_POLL_INTERVAL_MS: u64 = 100;

/// Number of aggressive polls before backing off to slower intervals.
pub const FAST_POLL_COUNT: u32 = 10;

/// Exit code returned when the actual exit status cannot be determined.
pub const UNKNOWN_EXIT_CODE: i32 = -1;

/// Default SIGTERM timeout for VM processes, in seconds.
pub const VM_SIGTERM_TIMEOUT_SECS: u64 = 3;

/// Default SIGKILL timeout for VM processes, in seconds.
pub const VM_SIGKILL_TIMEOUT_SECS: u64 = 3;

// ---------------------------------------------------------------------------
// Process identity
// ---------------------------------------------------------------------------

/// What the host says of a process id at one moment.
#[derive(Debug, Clone, Copy, PartialEq, Eq, Structural)]
pub struct ProcessProbe {
    /// Whether a process with this id exists.
    pub alive: bool,
    /// When that process started, where the host tells.
    pub start_time: Option<u64>,
}

/// The least value that counts as microseconds.
pub const MICROSECOND_EPOCH: u64 = 1_000_000_000_000;

/// Whether a start time matches a recorded one: equal, or recorded in seconds by
/// an old version and equal at second granularity.
pub open spec fn start_times_agree(actual: u64, expected: u64) -> bool {
    ||| actual == expected
    ||| expected < MICROSECOND_EPOCH <= actual && actual as int / 1_000_000 == expected
}

/// Backward-compatible start time comparison.
///
/// Old records stored seconds, new ones hold microseconds. Values below 10^12 are
/// treated as seconds and compared at second granularity.
pub fn start_time_matches(actual: u64, expected: u64) -> (r: bool)
    ensures
        r == start_times_agree(actual, expected),
{
    if actual == expected {
        return true;
    }
    if expected < MICROSECOND_EPOCH && actual >= MICROSECOND_EPOCH {
        return actual / 1_000_000 == expected;
    }
    false
}

/// Whether the probed process is alive and has the recorded start time.
pub open spec fn has_start_time(probe: ProcessProbe, expected: u64) -> bool {
    probe.alive && (probe.start_time matches Some(actual) && start_times_agree(actual, expected))
}

/// Whether the probed process is ours, where a missing record is trusted.
pub open spec fn is_ours(probe: ProcessProbe, expected: Option<u64>) -> bool {
    match expected {
        Some(e) => has_start_time(probe, e),
        None => probe.alive,
    }
}

/// Whether the probed process is ours, where a missing record is not trusted.
pub open spec fn is_surely_ours(probe: ProcessProbe, expected: Option<u64>) -> bool {
    expected matches Some(e) && has_start_time(probe, e)
}

/// Check if a process is ours by verifying its start time.
///
/// Without a recorded start time (legacy records), falls back to liveness alone.
pub fn is_our_process(probe: &ProcessProbe, expected_start_time: Option<u64>) -> (r: bool)
    ensures
        r == is_ours(*probe, expected_start_time),
{
    if !probe.alive {
        return false;
    }
    match expected_start_time {
        Some(expected) => match probe.start_time {
            Some(actual) => start_time_matches(actual, expected),
            None => false,
        },
        None => true,
    }
}

/// Strict version of [`is_our_process`] for signal/kill paths: without a recorded
/// start time no process is ours.
pub fn is_our_process_strict(probe: &ProcessProbe, expected_start_time: Option<u64>) -> (r: bool)
    ensures
        r == is_surely_ours(*probe, expected_start_time),
{
    if !probe.alive {
        return false;
    }
    match expected_start_time {
        Some(expected) => match probe.start_time {
            Some(actual) => start_time_matches(actual, expected),
            None => false,
        },
        None => false,
    }
}

/// The strict check is never laxer than the ordinary one, and the two differ only
/// where no start time was recorded.
pub proof fn strict_identity_implies_identity(probe: ProcessProbe, expected: Option<u64>)
    ensures
        is_surely_ours(probe, expected) ==> is_ours(probe, expected),
        expected is Some ==> is_surely_ours(probe, expected) == is_ours(probe, expected),
        expected is None ==> !is_surely_ours(probe, expected),
{
}

/// A process id that was given to another process is not taken for ours, unless
/// the two start times agree.
pub proof fn reused_pid_is_not_ours(actual: u64, expected: u64)
    requires
        !start_times_agree(actual, expected),
    ensures
        !is_ours(ProcessProbe { alive: true, start_time: Some(actual) }, Some(expected)),
        !is_surely_ours(ProcessProbe { alive: true, start_time: Some(actual) }, Some(expected)),
{
}

/// The start time in the text of `/proc/<pid>/stat`: the twentieth field behind
/// the command name, which ends at the last closing parenthesis and is followed by
/// one blank.
pub open spec fn stat_start_time(stat: Seq<char>) -> Option<u64> {
    let close = last_of(stat, ')');
    if close < 0 || close + 1 >= stat.len() || stat[close + 1] as u32 >= 128 {
        None
    } else {
        let fields = words(stat.skip(close + 2));
        if fields.len() <= 19 {
            None
        } else {
            match parsed_nat(fields[19], u64::MAX as nat) {
                Some(n) => Some(n as u64),
                None => None,
            }
        }
    }
}

/// Read the start time of a process (clock ticks since boot) from the text of its
/// `stat` file.
pub fn process_start_time(stat: &str) -> (r: Option<u64>)
    ensures
        r == stat_start_time(stat@),
{
    let chars = char_vec(stat);
    let close: usize = find_last(&chars, ')');
    proof {
        lemma_last_of_facts(stat@, ')');
    }
    if close == 0 || close >= chars.len() || chars[close] as u32 >= 128 {
        return None;
    }
    let rest = stat.substring_char(close + 1, chars.len());
    proof {
        assert(rest@ =~= stat@.skip(close + 1));
    }
    let fields = split_words(rest);
    if fields.len() <= 19 {
        return None;
    }
    proof {
        assert(fields.deep_view()[19] == fields@[19]@);
    }
    parse_unsigned(fields[19].as_str(), u64::MAX)
}

/// A start time that was recorded in microseconds is matched by the same one alone; one that
/// was recorded in seconds is matched by every microsecond of that second, and by no other.
pub proof fn recorded_seconds_match_their_microseconds(actual: u64, expected: u64)
    requires
        actual >= 1_000_000_000_000,
    ensures
        expected >= 1_000_000_000_000 ==> (start_times_agree(actual, expected) <==> actual
            == expected),
        expected < 1_000_000_000_000 ==> (start_times_agree(actual, expected) <==> expected
            * 1_000_000 <= actual < (expected + 1) * 1_000_000),
{
}

/// A process is taken for ours exactly where it lives and its start time is that on record;
/// where nothing is on record, only the check that trusts it takes a live process for ours.
pub proof fn processes_are_told_apart_by_their_start(probe: ProcessProbe, expected: Option<u64>)
    ensures
        !probe.alive ==> !is_ours(probe, expected) && !is_surely_ours(probe, expected),
        probe.alive ==> (expected matches Some(e) ==> (probe.start_time matches Some(actual)
            ==> is_surely_ours(probe, expected) == start_times_agree(actual, e) && is_ours(
            probe,
            expected,
        ) == start_times_agree(actual, e))),
        expected is Some && probe.start_time is None ==> !is_ours(probe, expected),
        probe.alive && expected is None ==> is_ours(probe, expected),
        expected matches Some(e) ==> (probe.alive && probe.start_time == Some(e) ==> is_surely_ours(
            probe,
            expected,
        )),
{
}

/// The start time is the twentieth field behind the last closing parenthesis, whatever the
/// name of the command holds.
pub proof fn start_times_are_the_twentieth_field(head: Seq<char>, tail: Seq<char>)
    requires
        !tail.contains(')'),
    ensures
        ({
            let found = stat_start_time(head + seq![')', ' '] + tail);
            let fields = words(tail);
            if fields.len() < 20 {
                found is None
            } else {
                match parsed_nat(fields[19], u64::MAX as nat) {
                    Some(n) => found matches Some(t) && t == n,
                    None => found is None,
                }
            }
        }),
{
    let stat = head + seq![')', ' '] + tail;
    assert(stat[head.len() as int] == ')' && stat[(head.len() + 1) as int] == ' ');
    assert forall|j: int| head.len() < j < stat.len() implies stat[j] != ')' by {
        if j > head.len() + 1 {
            assert(stat[j] == tail[j - head.len() - 2]);
            assert(tail.contains(tail[j - head.len() - 2]));
        }
    }
    lemma_last_of(stat, ')', head.len() as int);
    assert(stat.skip((head.len() + 2) as int) == tail);
}

// ---------------------------------------------------------------------------
// Exit codes
// ---------------------------------------------------------------------------

/// `libc::WIFEXITED`: the low seven bits of a wait status are zero.
#[verifier::external_body]
fn status_exited(status: i32) -> (r: bool)
    ensures
        r == (status & 0x7f == 0),
{
    libc::WIFEXITED(status)
}

/// `libc::WEXITSTATUS`: bits eight to fifteen of a wait status.
#[verifier::external_body]
fn status_exit_code(status: i32) -> (r: i32)
    ensures
        r == ((status >> 8) & 0xff),
{
    libc::WEXITSTATUS(status)
}

/// `libc::WIFSIGNALED`: the low seven bits of a wait status are a signal number,
/// neither zero nor all ones.
#[verifier::external_body]
fn status_signaled(status: i32) -> (r: bool)
    ensures
        r == (status & 0x7f != 0 && status & 0x7f != 0x7f),
{
    libc::WIFSIGNALED(status)
}

/// `libc::WTERMSIG`: the low seven bits of a wait status.
#[verifier::external_body]
fn status_signal(status: i32) -> (r: i32)
    ensures
        r == status & 0x7f,
{
    libc::WTERMSIG(status)
}

/// The exit code that a wait status stands for: the code of a process that
/// exited, 128 more than the signal that ended it, or unknown.
pub open spec fn exit_code_of(status: i32) -> i32 {
    if status & 0x7f == 0 {
        (status >> 8) & 0xff
    } else if status & 0x7f != 0x7f {
        (128 + (status & 0x7f)) as i32
    } else {
        UNKNOWN_EXIT_CODE
    }
}

/// The exit code that a wait status stands for.
pub fn decode_exit_status(status: i32) -> (r: i32)
    ensures
        r == exit_code_of(status),
{
    if status_exited(status) {
        status_exit_code(status)
    } else if status_signaled(status) {
        let sig: i32 = status_signal(status);
        assert(0 <= status & 0x7f <= 0x7f) by (bit_vector);
        128 + sig
    } else {
        UNKNOWN_EXIT_CODE
    }
}

/// An exit code read from a wait status lies between -1 and 255.
pub proof fn exit_codes_are_small(status: i32)
    ensures
        -1 <= exit_code_of(status) <= 255,
{
    assert(0 <= status & 0x7f <= 0x7f) by (bit_vector);
    assert(0 <= (status >> 8) & 0xff <= 0xff) by (bit_vector);
}

/// A process that exits by itself is reported with the code that it exited with, and one
/// that a signal ended with 128 more than the signal, whether or not it left a core.
pub proof fn exit_codes_are_those_of_the_process(code: i32, signal: i32, core: bool)
    requires
        0 <= code <= 255,
        1 <= signal <= 126,
    ensures
        exit_code_of(code << 8) == code,
        exit_code_of(if core {
            signal | 0x80
        } else {
            signal
        }) == 128 + signal,
{
    assert(0 <= code <= 255 ==> (code << 8) & 0x7f == 0 && ((code << 8) >> 8) & 0xff == code)
        by (bit_vector);
    assert(1 <= signal <= 126 ==> (signal | 0x80) & 0x7f == signal && signal & 0x7f == signal)
        by (bit_vector);
}

/// What one call of `waitpid` leads to.
#[derive(Debug, Clone, Copy, PartialEq, Eq, Structural)]
pub enum WaitStep {
    /// The call was interrupted by a signal: call again.
    Retry,
    /// The process ended with this code.
    Exited(i32),
    /// No exit status is at hand.
    StillRunning,
}

/// What a non-blocking `waitpid` for `pid` leads to.
pub open spec fn polled_step(pid: i32, result: i32, status: i32, interrupted: bool) -> WaitStep {
    if result == pid {
        WaitStep::Exited(exit_code_of(status))
    } else if result < 0 && interrupted {
        WaitStep::Retry
    } else {
        WaitStep::StillRunning
    }
}

/// What a blocking `waitpid` leads to.
pub open spec fn waited_step(result: i32, status: i32, interrupted: bool) -> WaitStep {
    if result >= 0 {
        WaitStep::Exited(exit_code_of(status))
    } else if interrupted {
        WaitStep::Retry
    } else {
        WaitStep::Exited(UNKNOWN_EXIT_CODE)
    }
}

/// Both waits report the exit of the process that they were about, with its own code, and
/// are made again where a signal interrupted them. Only the one that does not block finds a
/// process still running.
pub proof fn waits_report_the_exit_of_their_process(pid: i32, result: i32, status: i32, interrupted: bool)
    requires
        pid > 0,
    ensures
        polled_step(pid, pid, status, interrupted) == WaitStep::Exited(exit_code_of(status)),
        waited_step(pid, status, interrupted) == WaitStep::Exited(exit_code_of(status)),
        result != pid ==> !(polled_step(pid, result, status, interrupted) is Exited),
        polled_step(pid, result, status, interrupted) is Retry <==> result < 0 && interrupted,
        waited_step(result, status, interrupted) is Retry <==> result < 0 && interrupted,
        polled_step(pid, 0, status, interrupted) is StillRunning,
        !(waited_step(result, status, interrupted) is StillRunning),
        result < 0 && !interrupted ==> waited_step(result, status, interrupted)
            == WaitStep::Exited(-1i32),
{
}

/// Read the answer of a non-blocking `waitpid` for `pid`: its result, the status
/// it filled in, and whether an error was an interruption.
///
/// An error that is no interruption means that the process is not our child;
/// callers then fall back to liveness.
pub fn try_wait_step(pid: i32, result: i32, status: i32, interrupted: bool) -> (r: WaitStep)
    ensures
        r == polled_step(pid, result, status, interrupted),
{
    if result == pid {
        WaitStep::Exited(decode_exit_status(status))
    } else if result < 0 && interrupted {
        WaitStep::Retry
    } else {
        WaitStep::StillRunning
    }
}

/// Read the answer of a blocking `waitpid`: its result, the status it filled in,
/// and whether an error was an interruption.
pub fn wait_step(result: i32, status: i32, interrupted: bool) -> (r: WaitStep)
    ensures
        r == waited_step(result, status, interrupted),
{
    if result < 0 {
        if interrupted {
            return WaitStep::Retry;
        }
        return WaitStep::Exited(UNKNOWN_EXIT_CODE);
    }
    WaitStep::Exited(decode_exit_status(status))
}

// ---------------------------------------------------------------------------
// Graceful shutdown
// ---------------------------------------------------------------------------

/// How a process is stopped.
#[derive(Debug, Clone, Copy, PartialEq, Eq, Structural)]
pub enum StopMode {
    /// Even polling; SIGKILL only where it is forced.
    Plain {
        /// Whether SIGKILL may follow a timeout.
        force: bool,
    },
    /// Aggressive polling first; SIGKILL only where it is forced.
    Fast {
        /// Whether SIGKILL may follow a timeout.
        force: bool,
    },
    /// Two polled phases, SIGTERM and then SIGKILL.
    Vm,
}

/// Where a shutdown stands.
#[derive(Debug, Clone, Copy, PartialEq, Eq, Structural)]
pub enum StopPhase {
    /// Asked whether the process is alive at all.
    Probing,
    /// Reaping a process that was dead from the start.
    ReapingDead,
    /// Asked to send SIGTERM.
    Terminating,
    /// Reaping a process that died meanwhile.
    Reaping,
    /// Asked whether the phase's timeout is over.
    Timing,
    /// Asked whether the process has exited.
    Polling,
    /// Asked whether the process is alive.
    Checking,
    /// Pausing between two polls.
    Pausing,
    /// Asked to send SIGKILL.
    Killing,
    /// Pausing after SIGKILL.
    Settling,
    /// Reaping without blocking after SIGKILL.
    ReapingKilled,
    /// Waiting for the process to end.
    Waiting,
    /// Over.
    Finished,
}

/// A shutdown in progress.
#[derive(Debug, Clone, Copy, PartialEq, Eq, Structural)]
pub struct StopFlow {
    /// How the process is stopped.
    pub mode: StopMode,
    /// Where the shutdown stands.
    pub phase: StopPhase,
    /// Polls made in the current phase.
    pub polls: u32,
    /// Whether SIGTERM was delivered.
    pub terminated: bool,
    /// Whether SIGKILL was sent.
    pub killed: bool,
}

/// What the caller is asked to do next.
#[derive(Debug, Clone, Copy, PartialEq, Eq, Structural)]
pub enum StopAction {
    /// Report whether the process exists, as [`StopEvent::Alive`].
    CheckAlive,
    /// Send SIGTERM and report whether it was sent, as [`StopEvent::Signalled`].
    SendTerm,
    /// Send SIGKILL and report whether it was sent, as [`StopEvent::Signalled`].
    SendKill,
    /// Report an exit code if there is one, as [`StopEvent::Waited`].
    TryWait,
    /// Wait for the process and report its exit code, as [`StopEvent::Waited`].
    Wait,
    /// Report whether time is left in the current phase, as [`StopEvent::TimeLeft`].
    CheckTime,
    /// Sleep for so many milliseconds and report [`StopEvent::Slept`].
    Sleep(u64),
    /// The process ended with this code.
    Done(i32),
    /// The process did not end in time.
    TimedOut,
}

/// What the caller reports.
#[derive(Debug, Clone, Copy, PartialEq, Eq, Structural)]
pub enum StopEvent {
    /// Whether the process exists.
    Alive(bool),
    /// Whether a signal was sent.
    Signalled(bool),
    /// The exit code, where there is one.
    Waited(Option<i32>),
    /// Whether time is left.
    TimeLeft(bool),
    /// A pause is over.
    Slept,
}

/// The pause before the next poll.
pub open spec fn poll_pause(mode: StopMode, polls: u32) -> u64 {
    if !(mode is Plain) && polls < FAST_POLL_COUNT {
        FAST_POLL_INTERVAL_MS
    } else {
        SLOW_POLL_INTERVAL_MS
    }
}

/// The exit code to report for a process that is gone: its own, or a stand-in.
pub open spec fn code_or(waited: Option<i32>, stand_in: i32) -> i32 {
    match waited {
        Some(code) => code,
        None => stand_in,
    }
}

/// The exit code of a process that was dead before the first signal and left no
/// status.
pub open spec fn dead_code(mode: StopMode) -> i32 {
    if mode is Vm {
        UNKNOWN_EXIT_CODE
    } else {
        0
    }
}

/// What follows when a phase runs out of time.
pub open spec fn after_timeout(f: StopFlow) -> (StopFlow, StopAction) {
    let escalate = match f.mode {
        StopMode::Plain { force } => force,
        StopMode::Fast { force } => force,
        StopMode::Vm => !f.killed,
    };
    if escalate {
        (StopFlow { phase: StopPhase::Killing, ..f }, StopAction::SendKill)
    } else {
        (StopFlow { phase: StopPhase::Finished, ..f }, StopAction::TimedOut)
    }
}

/// The end of a shutdown, with an exit code.
pub open spec fn finished(f: StopFlow, code: i32) -> (StopFlow, StopAction) {
    (StopFlow { phase: StopPhase::Finished, ..f }, StopAction::Done(code))
}

/// Whether an event answers what the current phase asked.
pub open spec fn answers(phase: StopPhase, event: StopEvent) -> bool {
    match phase {
        StopPhase::Probing | StopPhase::Checking => event is Alive,
        StopPhase::Terminating | StopPhase::Killing => event is Signalled,
        StopPhase::ReapingDead | StopPhase::Reaping | StopPhase::Polling
        | StopPhase::ReapingKilled | StopPhase::Waiting => event is Waited,
        StopPhase::Timing => event is TimeLeft,
        StopPhase::Pausing | StopPhase::Settling => event is Slept,
        StopPhase::Finished => false,
    }
}

/// What follows when SIGKILL was sent: a VM process is polled once more, any other
/// process is given a moment and then waited for.
pub open spec fn after_kill(f: StopFlow) -> (StopFlow, StopAction) {
    let g = StopFlow { killed: true, polls: 0, ..f };
    if f.mode is Vm {
        (StopFlow { phase: StopPhase::Timing, ..g }, StopAction::CheckTime)
    } else {
        (StopFlow { phase: StopPhase::Settling, ..g }, StopAction::Sleep(SIGKILL_WAIT_MS))
    }
}

/// The next state of a shutdown and what is to be done, for an event that answers
/// the current phase.
pub open spec fn stop_next(f: StopFlow, event: StopEvent) -> (StopFlow, StopAction) {
    match (f.phase, event) {
        (StopPhase::Probing, StopEvent::Alive(alive)) => if alive {
            (StopFlow { phase: StopPhase::Terminating, ..f }, StopAction::SendTerm)
        } else {
            (StopFlow { phase: StopPhase::ReapingDead, ..f }, StopAction::TryWait)
        },
        (StopPhase::ReapingDead, StopEvent::Waited(w)) => finished(f, code_or(w, dead_code(f.mode))),
        (StopPhase::Terminating, StopEvent::Signalled(sent)) => if sent {
            (
                StopFlow { phase: StopPhase::Timing, terminated: true, ..f },
                StopAction::CheckTime,
            )
        } else {
            (StopFlow { phase: StopPhase::Reaping, ..f }, StopAction::TryWait)
        },
        (StopPhase::Reaping, StopEvent::Waited(w)) => finished(f, code_or(w, UNKNOWN_EXIT_CODE)),
        (StopPhase::Timing, StopEvent::TimeLeft(left)) => if left {
            (StopFlow { phase: StopPhase::Polling, ..f }, StopAction::TryWait)
        } else {
            after_timeout(f)
        },
        (StopPhase::Polling, StopEvent::Waited(w)) => match w {
            Some(code) => finished(f, code),
            None => (StopFlow { phase: StopPhase::Checking, ..f }, StopAction::CheckAlive),
        },
        (StopPhase::Checking, StopEvent::Alive(alive)) => if alive {
            (
                StopFlow {
                    phase: StopPhase::Pausing,
                    polls: if f.polls < FAST_POLL_COUNT {
                        (f.polls + 1) as u32
                    } else {
                        f.polls
                    },
                    ..f
                },
                StopAction::Sleep(poll_pause(f.mode, f.polls)),
            )
        } else {
            (StopFlow { phase: StopPhase::Reaping, ..f }, StopAction::TryWait)
        },
        (StopPhase::Pausing, StopEvent::Slept) => (
            StopFlow { phase: StopPhase::Timing, ..f },
            StopAction::CheckTime,
        ),
        (StopPhase::Killing, StopEvent::Signalled(_)) => after_kill(f),
        (StopPhase::Settling, StopEvent::Slept) => if f.mode is Fast {
            (StopFlow { phase: StopPhase::ReapingKilled, ..f }, StopAction::TryWait)
        } else {
            (StopFlow { phase: StopPhase::Waiting, ..f }, StopAction::Wait)
        },
        (StopPhase::ReapingKilled, StopEvent::Waited(w)) => match w {
            Some(code) => finished(f, code),
            None => (StopFlow { phase: StopPhase::Waiting, ..f }, StopAction::Wait),
        },
        (StopPhase::Waiting, StopEvent::Waited(w)) => finished(f, code_or(w, UNKNOWN_EXIT_CODE)),
        (_, _) => (f, StopAction::TimedOut),
    }
}

impl StopFlow {
    /// Begin a shutdown: the first thing asked is whether the process is alive.
    pub fn begin(mode: StopMode) -> (r: (StopFlow, StopAction))
        ensures
            r.0 == (StopFlow {
                mode,
                phase: StopPhase::Probing,
                polls: 0,
                terminated: false,
                killed: false,
            }),
            r.1 == StopAction::CheckAlive,
            r.0.wf(),
    {
        (
            StopFlow { mode, phase: StopPhase::Probing, polls: 0, terminated: false, killed: false },
            StopAction::CheckAlive,
        )
    }

    /// What holds in every state that a shutdown reaches: the phases behind
    /// SIGTERM come only after it was delivered, those behind SIGKILL only after
    /// it was sent, and SIGKILL is sent only where the mode allows it.
    pub open spec fn wf(&self) -> bool {
        &&& match self.phase {
            StopPhase::Probing | StopPhase::ReapingDead | StopPhase::Terminating => !self.terminated
                && !self.killed,
            StopPhase::Timing | StopPhase::Polling | StopPhase::Checking | StopPhase::Pausing
            | StopPhase::Killing => self.terminated,
            StopPhase::Settling | StopPhase::ReapingKilled | StopPhase::Waiting => self.terminated
                && self.killed,
            StopPhase::Reaping | StopPhase::Finished => true,
        }
        &&& self.killed ==> self.terminated && self.may_kill()
        &&& self.phase is Killing ==> self.may_kill() && !self.killed
        &&& self.killed && !(self.mode is Vm) ==> !(self.phase is Timing || self.phase is Polling
            || self.phase is Checking || self.phase is Pausing)
    }

    /// Whether the mode allows SIGKILL.
    pub open spec fn may_kill(&self) -> bool {
        match self.mode {
            StopMode::Plain { force } => force,
            StopMode::Fast { force } => force,
            StopMode::Vm => true,
        }
    }

    /// Take what the caller reports and say what is to be done next.
    pub fn step(&self, event: StopEvent) -> (r: (StopFlow, StopAction))
        requires
            self.wf(),
            answers(self.phase, event),
        ensures
            r == stop_next(*self, event),
            r.0.wf(),
    {
        let f = *self;
        match (f.phase, event) {
            (StopPhase::Probing, StopEvent::Alive(alive)) => if alive {
                (StopFlow { phase: StopPhase::Terminating, ..f }, StopAction::SendTerm)
            } else {
                (StopFlow { phase: StopPhase::ReapingDead, ..f }, StopAction::TryWait)
            },
            (StopPhase::ReapingDead, StopEvent::Waited(w)) => {
                let stand_in: i32 = match f.mode {
                    StopMode::Vm => UNKNOWN_EXIT_CODE,
                    _ => 0,
                };
                f.finish(w.unwrap_or(stand_in))
            },
            (StopPhase::Terminating, StopEvent::Signalled(sent)) => if sent {
                (
                    StopFlow { phase: StopPhase::Timing, terminated: true, ..f },
                    StopAction::CheckTime,
                )
            } else {
                (StopFlow { phase: StopPhase::Reaping, ..f }, StopAction::TryWait)
            },
            (StopPhase::Reaping, StopEvent::Waited(w)) => f.finish(w.unwrap_or(UNKNOWN_EXIT_CODE)),
            (StopPhase::Timing, StopEvent::TimeLeft(left)) => if left {
                (StopFlow { phase: StopPhase::Polling, ..f }, StopAction::TryWait)
            } else {
                f.out_of_time()
            },
            (StopPhase::Polling, StopEvent::Waited(w)) => match w {
                Some(code) => f.finish(code),
                None => (StopFlow { phase: StopPhase::Checking, ..f }, StopAction::CheckAlive),
            },
            (StopPhase::Checking, StopEvent::Alive(alive)) => if alive {
                let fast = match f.mode {
                    StopMode::Plain { force: _ } => false,
                    _ => f.polls < FAST_POLL_COUNT,
                };
                let pause: u64 = if fast {
                    FAST_POLL_INTERVAL_MS
                } else {
                    SLOW_POLL_INTERVAL_MS
                };
                let polls: u32 = if f.polls < FAST_POLL_COUNT {
                    f.polls + 1
                } else {
                    f.polls
                };
                (StopFlow { phase: StopPhase::Pausing, polls, ..f }, StopAction::Sleep(pause))
            } else {
                (StopFlow { phase: StopPhase::Reaping, ..f }, StopAction::TryWait)
            },
            (StopPhase::Pausing, StopEvent::Slept) => (
                StopFlow { phase: StopPhase::Timing, ..f },
                StopAction::CheckTime,
            ),
            (StopPhase::Killing, StopEvent::Signalled(_)) => {
                let g = StopFlow { killed: true, polls: 0, ..f };
                match f.mode {
                    StopMode::Vm => (
                        StopFlow { phase: StopPhase::Timing, ..g },
                        StopAction::CheckTime,
                    ),
                    _ => (
                        StopFlow { phase: StopPhase::Settling, ..g },
                        StopAction::Sleep(SIGKILL_WAIT_MS),
                    ),
                }
            },
            (StopPhase::Settling, StopEvent::Slept) => match f.mode {
                StopMode::Fast { force: _ } => (
                    StopFlow { phase: StopPhase::ReapingKilled, ..f },
                    StopAction::TryWait,
                ),
                _ => (StopFlow { phase: StopPhase::Waiting, ..f }, StopAction::Wait),
            },
            (StopPhase::ReapingKilled, StopEvent::Waited(w)) => match w {
                Some(code) => f.finish(code),
                None => (StopFlow { phase: StopPhase::Waiting, ..f }, StopAction::Wait),
            },
            (StopPhase::Waiting, StopEvent::Waited(w)) => f.finish(w.unwrap_or(UNKNOWN_EXIT_CODE)),
            (_, _) => (f, StopAction::TimedOut),
        }
    }

    fn finish(self, code: i32) -> (r: (StopFlow, StopAction))
        ensures
            r == finished(self, code),
    {
        (StopFlow { phase: StopPhase::Finished, ..self }, StopAction::Done(code))
    }

    fn out_of_time(self) -> (r: (StopFlow, StopAction))
        ensures
            r == after_timeout(self),
    {
        let escalate = match self.mode {
            StopMode::Plain { force } => force,
            StopMode::Fast { force } => force,
            StopMode::Vm => !self.killed,
        };
        if escalate {
            (StopFlow { phase: StopPhase::Killing, ..self }, StopAction::SendKill)
        } else {
            (StopFlow { phase: StopPhase::Finished, ..self }, StopAction::TimedOut)
        }
    }

    /// The reason that a shutdown which timed out gives.
    pub fn timeout_reason(&self, pid: i32) -> (r: String)
        ensures
            r@ == (if self.mode is Vm {
                "process "@ + int_text(pid as int) + " still alive after SIGTERM+SIGKILL"@
            } else {
                "timeout waiting for process "@ + int_text(pid as int) + " to stop"@
            }),
    {
        let shown = signed_text(pid as i64);
        match self.mode {
            StopMode::Vm => String::from_str("process ").concat(shown.as_str()).concat(
                " still alive after SIGTERM+SIGKILL",
            ),
            _ => String::from_str("timeout waiting for process ").concat(shown.as_str()).concat(
                " to stop",
            ),
        }
    }
}

/// SIGKILL is asked for only after SIGTERM was delivered, at most once, and only
/// where the mode allows it.
pub proof fn kill_follows_term(f: StopFlow, event: StopEvent)
    requires
        f.wf(),
        answers(f.phase, event),
    ensures
        stop_next(f, event).1 is SendKill ==> f.terminated && f.may_kill() && !f.killed,
        stop_next(f, event).0.wf(),
{
}

/// Without force an ordinary shutdown never asks for SIGKILL, whatever is
/// reported to it.
pub proof fn unforced_stop_never_kills(f: StopFlow, event: StopEvent)
    requires
        f.wf(),
        answers(f.phase, event),
        f.mode == (StopMode::Plain { force: false }) || f.mode == (StopMode::Fast { force: false }),
    ensures
        !(stop_next(f, event).1 is SendKill),
        stop_next(f, event).0.mode == f.mode,
{
}

/// A forced shutdown, and that of a VM process before SIGKILL, never gives up on a
/// timeout; a VM process is given up only after SIGKILL.
pub proof fn gives_up_only_when_allowed(f: StopFlow, event: StopEvent)
    requires
        f.wf(),
        answers(f.phase, event),
        stop_next(f, event).1 is TimedOut,
    ensures
        f.phase is Timing,
        f.mode is Vm ==> f.killed,
        !(f.mode is Vm) ==> !f.may_kill(),
{
}

/// The exit code of a shutdown is one that the host reported, or a stand-in for a
/// process that left none.
pub proof fn exit_code_was_reported(f: StopFlow, event: StopEvent, code: i32)
    requires
        f.wf(),
        answers(f.phase, event),
        stop_next(f, event).1 == StopAction::Done(code),
    ensures
        event == StopEvent::Waited(Some(code)) || (event == StopEvent::Waited(None) && (code == 0
            || code == UNKNOWN_EXIT_CODE)),
{
}

/// What the caller of a shutdown is asked for in a phase.
pub open spec fn stop_asks(phase: StopPhase, action: StopAction) -> bool {
    match phase {
        StopPhase::Probing | StopPhase::Checking => action is CheckAlive,
        StopPhase::Terminating => action is SendTerm,
        StopPhase::Killing => action is SendKill,
        StopPhase::ReapingDead | StopPhase::Reaping | StopPhase::Polling
        | StopPhase::ReapingKilled => action is TryWait,
        StopPhase::Waiting => action is Wait,
        StopPhase::Timing => action is CheckTime,
        StopPhase::Pausing | StopPhase::Settling => action is Sleep,
        StopPhase::Finished => action is Done || action is TimedOut,
    }
}

/// A shutdown does what the reports call for. A live process is sent SIGTERM, and one that
/// is dead no signal. Every exit code that is reported ends the shutdown with that code.
/// While time is left the process is polled; when it is over, SIGKILL follows where it may
/// and was not sent yet, and else the shutdown gives up.
pub proof fn stops_follow_the_reports(f: StopFlow, event: StopEvent)
    requires
        f.wf(),
        answers(f.phase, event),
    ensures
        ({
            let (next, action) = stop_next(f, event);
            &&& stop_asks(next.phase, action)
            &&& next.mode == f.mode
            &&& match event {
                StopEvent::Alive(true) => if f.phase is Probing {
                    action is SendTerm
                } else {
                    action is Sleep
                },
                StopEvent::Alive(false) => action is TryWait && (next.phase is Reaping
                    || next.phase is ReapingDead),
                StopEvent::Waited(Some(code)) => action == StopAction::Done(code),
                StopEvent::Waited(None) => match f.phase {
                    StopPhase::Polling => action is CheckAlive,
                    StopPhase::ReapingKilled => action is Wait,
                    StopPhase::ReapingDead => action == StopAction::Done(
                        if f.mode is Vm {
                            -1i32
                        } else {
                            0
                        },
                    ),
                    _ => action == StopAction::Done(-1i32),
                },
                StopEvent::TimeLeft(true) => action is TryWait && next.phase is Polling,
                StopEvent::TimeLeft(false) => if f.may_kill() && !f.killed {
                    action is SendKill
                } else {
                    action is TimedOut
                },
                StopEvent::Signalled(sent) => if f.phase is Killing {
                    &&& next.killed && next.polls == 0
                    &&& if f.mode is Vm {
                        action is CheckTime
                    } else {
                        action == StopAction::Sleep(50)
                    }
                } else if sent {
                    next.terminated && action is CheckTime
                } else {
                    action is TryWait && next.phase is Reaping
                },
                StopEvent::Slept => if f.phase is Pausing {
                    action is CheckTime
                } else if f.mode is Fast {
                    action is TryWait && next.phase is ReapingKilled
                } else {
                    action is Wait
                },
            }
        }),
{
}

/// A poll is followed by a short pause while the aggressive phase lasts, which is its first
/// ten polls, and by a long one after that and in a plain shutdown.
pub proof fn polls_back_off(f: StopFlow)
    requires
        f.wf(),
        f.phase is Checking,
    ensures
        ({
            let (next, action) = stop_next(f, StopEvent::Alive(true));
            &&& action == StopAction::Sleep(
                if !(f.mode is Plain) && f.polls < 10 {
                    10
                } else {
                    100
                },
            )
            &&& f.polls < 10 ==> next.polls == f.polls + 1
            &&& f.polls >= 10 ==> next.polls == f.polls
        }),
{
}

// ---------------------------------------------------------------------------
// Child processes
// ---------------------------------------------------------------------------

/// The exit code that is known after one more wait: one that is known already stands.
pub open spec fn kept_exit(known: Option<i32>, waited: Option<i32>) -> Option<i32> {
    if known is Some {
        known
    } else {
        waited
    }
}

/// The first exit code that is reported of a process is the one that is kept, whatever is
/// reported later.
pub proof fn the_first_exit_code_is_kept(code: i32, waited: Option<i32>, later: Option<i32>)
    ensures
        kept_exit(None, waited) == waited,
        kept_exit(Some(code), later) == Some(code),
        waited is Some ==> kept_exit(kept_exit(None, waited), later) == waited,
        kept_exit(kept_exit(None, None), later) == later,
{
}

/// A handle to a running child process.
#[derive(Debug)]
pub struct ChildProcess {
    pid: i32,
    start_time: Option<u64>,
    exit_code: Option<i32>,
}

impl ChildProcess {
    /// The process id of the child.
    pub closed spec fn spec_pid(&self) -> i32 {
        self.pid
    }

    /// The start time captured when the handle was made.
    pub closed spec fn spec_start_time(&self) -> Option<u64> {
        self.start_time
    }

    /// The exit code, once it is known.
    pub closed spec fn known_exit(&self) -> Option<i32> {
        self.exit_code
    }

    /// A handle with the start time captured at creation.
    pub fn new(pid: i32, start_time: Option<u64>) -> (r: ChildProcess)
        ensures
            r.spec_pid() == pid,
            r.spec_start_time() == start_time,
            r.known_exit() is None,
    {
        ChildProcess { pid, start_time, exit_code: None }
    }

    /// Get the process ID.
    pub fn pid(&self) -> (r: i32)
        ensures
            r == self.spec_pid(),
    {
        self.pid
    }

    /// Get the start time captured when this handle was created.
    pub fn start_time(&self) -> (r: Option<u64>)
        ensures
            r == self.spec_start_time(),
    {
        self.start_time
    }

    /// Check if the process is still running, given what a non-blocking wait and a
    /// liveness check say of it. An exit code is kept once it is known.
    pub fn is_running(&mut self, waited: Option<i32>, alive: bool) -> (r: bool)
        ensures
            final(self).spec_pid() == old(self).spec_pid(),
            final(self).spec_start_time() == old(self).spec_start_time(),
            final(self).known_exit() == kept_exit(old(self).known_exit(), waited),
            r == (final(self).known_exit() is None && alive),
    {
        if self.exit_code.is_some() {
            return false;
        }
        if waited.is_some() {
            self.exit_code = waited;
            false
        } else {
            alive
        }
    }

    /// Get the exit code if the process has exited, given what a non-blocking wait
    /// says of it.
    pub fn exit_code(&mut self, waited: Option<i32>) -> (r: Option<i32>)
        ensures
            final(self).spec_pid() == old(self).spec_pid(),
            final(self).spec_start_time() == old(self).spec_start_time(),
            r == kept_exit(old(self).known_exit(), waited),
            final(self).known_exit() == r,
    {
        if self.exit_code.is_none() {
            self.exit_code = waited;
        }
        self.exit_code
    }

    /// Record how waiting for the process ended. A code that is
    /// already known stands.
    pub fn wait(&mut self, code: i32) -> (r: i32)
        ensures
            final(self).spec_pid() == old(self).spec_pid(),
            final(self).spec_start_time() == old(self).spec_start_time(),
            r == (match old(self).known_exit() {
                Some(known) => known,
                None => code,
            }),
            final(self).known_exit() == Some(r),
    {
        match self.exit_code {
            Some(known) => known,
            None => {
                self.exit_code = Some(code);
                code
            },
        }
    }

    /// Record how stopping the process ended, or why it did not end in time. A code that
    /// is already known stands, whatever came of the stop.
    pub fn stop(&mut self, outcome: Result<i32, String>) -> (r: Result<i32, Error>)
        ensures
            final(self).spec_pid() == old(self).spec_pid(),
            final(self).spec_start_time() == old(self).spec_start_time(),
            match old(self).known_exit() {
                Some(known) => r == Ok::<i32, Error>(known) && final(self).known_exit() == Some(
                    known,
                ),
                None => match outcome {
                    Ok(code) => r == Ok::<i32, Error>(code) && final(self).known_exit() == Some(
                        code,
                    ),
                    Err(reason) => {
                        &&& r matches Err(e) && e@ == agent_error("stop process"@, reason@)
                        &&& final(self).known_exit() is None
                    },
                },
            },
    {
        match self.exit_code {
            Some(known) => Ok(known),
            None => match outcome {
                Ok(code) => {
                    self.exit_code = Some(code);
                    Ok(code)
                },
                Err(reason) => Err(Error::agent("stop process", reason)),
            },
        }
    }
}

} // verus!
