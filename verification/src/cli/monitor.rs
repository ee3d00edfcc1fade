//! The course of `machine monitor`.
use vstd::prelude::*;
use vstd::string::*;

use crate::cli::machine::MonitorCmd;
use crate::cli::vm_common::{init_argv, shell_words};
use crate::config::{parsed_policy, RestartConfig, RestartPolicy, VmRecord, VmRecordView};
use crate::duration::Duration;
use crate::error::{config_error, Error};
use crate::lists::clone_opt_strings;
use crate::scan::{trim, trimmed};
use crate::text::{decimal, decimal_text, int_text, signed_text};

verus! {

/// How a machine is monitored.
#[derive(Debug)]
pub struct MonitorPlan {
    /// Restart configuration.
    pub restart: RestartConfig,
    /// Health check command, where there is one.
    pub health_cmd: Option<Vec<String>>,
    /// Time limit of a health check.
    pub health_timeout: Duration,
    /// Failures before the machine counts as unhealthy.
    pub health_retries: u32,
    /// Time between two checks.
    pub interval: Duration,
    /// Time after a start without checks.
    pub startup_grace: Duration,
}

/// The seconds that a record gives, else those of a flag.
pub open spec fn recorded_or(recorded: Option<u64>, flag: u64) -> Duration {
    Duration {
        secs: match recorded {
            Some(s) => s,
            None => flag,
        },
        nanos: 0,
    }
}

/// Whether a plan is that of a command for a recorded machine with a restart policy.
pub open spec fn is_plan_of(c: MonitorCmd, r: VmRecordView, p: RestartPolicy, m: MonitorPlan) -> bool {
    &&& m.restart == (RestartConfig { policy: p, ..r.restart })
    &&& m.health_cmd.deep_view() == (match c.health_cmd {
        Some(h) => Some(shell_words(h@)),
        None => r.health_cmd,
    })
    &&& m.health_timeout == recorded_or(r.health_timeout_secs, c.health_timeout)
    &&& m.health_retries == (match r.health_retries {
        Some(n) => n,
        None => c.health_retries,
    })
    &&& m.interval == recorded_or(r.health_interval_secs, c.interval)
    &&& m.startup_grace == recorded_or(r.health_startup_grace_secs, 0)
}

/// A machine is monitored as its record says, but for the policy and the health check that
/// a command gives; the numbers of a command count only where the record has none. A machine
/// without a recorded grace period has none.
pub proof fn monitoring_follows_the_record(
    c: MonitorCmd,
    r: VmRecordView,
    p: RestartPolicy,
    m: MonitorPlan,
)
    requires
        is_plan_of(c, r, p, m),
    ensures
        m.restart.policy == p,
        m.restart.max_retries == r.restart.max_retries,
        m.restart.max_backoff_secs == r.restart.max_backoff_secs,
        m.restart.restart_count == r.restart.restart_count,
        m.restart.user_stopped == r.restart.user_stopped,
        c.health_cmd matches Some(h) ==> m.health_cmd.deep_view() == Some(
            seq!["sh"@, "-c"@, h@],
        ),
        c.health_cmd is None ==> m.health_cmd.deep_view() == r.health_cmd,
        r.health_timeout_secs matches Some(s) ==> m.health_timeout.secs == s,
        r.health_timeout_secs is None ==> m.health_timeout.secs == c.health_timeout,
        r.health_interval_secs matches Some(s) ==> m.interval.secs == s,
        r.health_interval_secs is None ==> m.interval.secs == c.interval,
        r.health_retries matches Some(n) ==> m.health_retries == n,
        r.health_retries is None ==> m.health_retries == c.health_retries,
        r.health_startup_grace_secs matches Some(s) ==> m.startup_grace.secs == s,
        r.health_startup_grace_secs is None ==> m.startup_grace.secs == 0,
        m.health_timeout.nanos == 0 && m.interval.nanos == 0 && m.startup_grace.nanos == 0,
{
}

impl MonitorCmd {
    /// Resolve how a machine is monitored: a restart policy and a health check given
    /// as flags come before the recorded ones; of the numbers, the recorded ones come
    /// first.
    pub fn plan(&self, record: &VmRecord) -> (r: Result<MonitorPlan, Error>)
        ensures
            ({
                let policy = match self.restart {
                    Some(p) => parsed_policy(p@),
                    None => Ok(record@.restart.policy),
                };
                match policy {
                    Err(e) => r matches Err(x) && x@ == config_error("--restart"@, e),
                    Ok(p) => r matches Ok(m) && is_plan_of(*self, record@, p, m),
                }
            }),
    {
        let mut restart = record.restart;
        match &self.restart {
            Some(p) => match RestartPolicy::parse(p.as_str()) {
                Ok(policy) => {
                    restart.policy = policy;
                },
                Err(e) => {
                    return Err(Error::config("--restart", e));
                },
            },
            None => {},
        }
        let health_cmd = match &self.health_cmd {
            Some(c) => Some(init_argv(c.as_str())),
            None => clone_opt_strings(&record.health_cmd),
        };
        Ok(
            MonitorPlan {
                restart,
                health_cmd,
                health_timeout: Duration::from_secs(
                    record.health_timeout_secs.unwrap_or(self.health_timeout),
                ),
                health_retries: record.health_retries.unwrap_or(self.health_retries),
                interval: Duration::from_secs(record.health_interval_secs.unwrap_or(self.interval)),
                startup_grace: Duration::from_secs(record.health_startup_grace_secs.unwrap_or(0)),
            },
        )
    }
}

/// Where the monitoring stands.
#[derive(Debug, Clone, Copy, PartialEq, Eq, Structural)]
pub enum MonitorPhase {
    /// Between two checks.
    Sleeping,
    /// Asked whether the process lives.
    Refreshing,
    /// Asked for a health check.
    Checking,
    /// Stopping an unhealthy machine.
    Stopping,
    /// Asked for the exit code of a process that is gone.
    Reaping,
    /// Recording that the machine exited.
    RecordingExit(Option<i32>),
    /// Recording the restart count and pausing before a restart.
    BackingOff,
    /// Asked to start the machine.
    Restarting,
    /// Recording that the supervision was ended.
    Closing,
    /// Over.
    Finished,
}

/// What the caller is asked to do next.
#[derive(Debug, Clone, Copy, PartialEq, Eq, Structural)]
pub enum MonitorAction {
    /// Sleep for the interval, after a word on a suspension of so many seconds, if
    /// there was one.
    Sleep {
        /// Length of the suspension in seconds.
        suspended_secs: Option<u64>,
    },
    /// Look up whether the process lives.
    Refresh,
    /// Run the health check.
    Check,
    /// Stop the machine, which is unhealthy.
    Stop,
    /// Read the exit code.
    Reap,
    /// Record that the machine exited with this code.
    RecordExit(Option<i32>),
    /// Record the restart count, then pause.
    BackOff {
        /// The number of restarts, with the one to come.
        count: u32,
        /// The pause.
        pause: Duration,
    },
    /// Start the machine.
    Start,
    /// Record that the supervision was ended.
    Close,
    /// The monitoring is over.
    End,
}

/// What the caller reports.
#[derive(Debug, Clone, Copy, PartialEq, Eq, Structural)]
pub enum MonitorEvent {
    /// The interval is over.
    Woke {
        /// Whether the user ended the monitoring.
        stop: bool,
        /// Wall time since the last wake-up.
        elapsed: Duration,
    },
    /// Nothing could be found out.
    Unknown,
    /// The process lives.
    Alive {
        /// Whether it is still within the grace period.
        in_grace: bool,
    },
    /// The process is gone.
    Dead,
    /// The health check passed.
    Passed,
    /// The health check failed.
    Unhealthy,
    /// The agent could not be reached for the health check.
    Unconnected,
    /// The exit code, where it is known.
    Reaped(Option<i32>),
    /// What was asked for was tried.
    Done,
    /// The pause before a restart is over.
    Rested {
        /// Whether the user ended the monitoring.
        stop: bool,
    },
}

/// The monitoring of a machine.
#[derive(Debug, Clone, Copy, PartialEq, Eq, Structural)]
pub struct MonitorFlow {
    /// Time between two checks.
    pub interval: Duration,
    /// Whether there is a health check.
    pub has_health: bool,
    /// Failures before the machine counts as unhealthy.
    pub health_retries: u32,
    /// Restart configuration, with the number of restarts made.
    pub restart: RestartConfig,
    /// Health checks that failed in a row.
    pub failures: u32,
    /// Where the monitoring stands.
    pub phase: MonitorPhase,
}

/// Whether a wake-up came so late that the host was suspended: after more than
/// three intervals.
pub open spec fn was_suspended(elapsed: Duration, interval: Duration) -> bool {
    elapsed.total_nanos() > 3 * interval.total_nanos()
}

/// The next sleep, without a word.
pub open spec fn back_to_sleep(m: MonitorFlow) -> (MonitorFlow, MonitorAction) {
    (
        MonitorFlow { phase: MonitorPhase::Sleeping, ..m },
        MonitorAction::Sleep { suspended_secs: None },
    )
}

/// The end of the monitoring: that the user ended it is recorded.
pub open spec fn closing(m: MonitorFlow) -> (MonitorFlow, MonitorAction) {
    (MonitorFlow { phase: MonitorPhase::Closing, ..m }, MonitorAction::Close)
}

/// After a health check: too many failures in a row stop the machine.
pub open spec fn judged(m: MonitorFlow) -> (MonitorFlow, MonitorAction) {
    if m.failures >= m.health_retries {
        (MonitorFlow { phase: MonitorPhase::Stopping, ..m }, MonitorAction::Stop)
    } else {
        back_to_sleep(m)
    }
}

/// After the exit of a machine was recorded: it is restarted or given up.
pub open spec fn after_exit(m: MonitorFlow, exit_code: Option<i32>) -> (MonitorFlow, MonitorAction) {
    if m.restart.restart_due(exit_code) {
        let count = (m.restart.restart_count + 1) as u32;
        (
            MonitorFlow {
                restart: RestartConfig { restart_count: count, ..m.restart },
                phase: MonitorPhase::BackingOff,
                ..m
            },
            MonitorAction::BackOff {
                count,
                pause: Duration { secs: m.restart.backoff_secs(), nanos: 0 },
            },
        )
    } else {
        closing(m)
    }
}

/// Whether an event answers what a phase asked.
pub open spec fn monitor_answers(phase: MonitorPhase, event: MonitorEvent) -> bool {
    match phase {
        MonitorPhase::Sleeping => event matches MonitorEvent::Woke { elapsed, .. } && elapsed.wf(),
        MonitorPhase::Refreshing => event is Unknown || event is Alive || event is Dead,
        MonitorPhase::Checking => event is Passed || event is Unhealthy || event is Unconnected,
        MonitorPhase::Reaping => event is Reaped,
        MonitorPhase::BackingOff => event is Rested,
        MonitorPhase::Finished => false,
        _ => event is Done,
    }
}

/// The next state of the monitoring and what is to be done.
pub open spec fn monitor_next(m: MonitorFlow, event: MonitorEvent) -> (MonitorFlow, MonitorAction) {
    match (m.phase, event) {
        (MonitorPhase::Sleeping, MonitorEvent::Woke { stop, elapsed }) => if stop {
            closing(m)
        } else if was_suspended(elapsed, m.interval) {
            (
                MonitorFlow { failures: 0, ..m },
                MonitorAction::Sleep {
                    suspended_secs: Some((elapsed.secs - m.interval.secs) as u64),
                },
            )
        } else {
            (MonitorFlow { phase: MonitorPhase::Refreshing, ..m }, MonitorAction::Refresh)
        },
        (MonitorPhase::Refreshing, MonitorEvent::Alive { in_grace }) => if in_grace
            || !m.has_health {
            back_to_sleep(m)
        } else {
            (MonitorFlow { phase: MonitorPhase::Checking, ..m }, MonitorAction::Check)
        },
        (MonitorPhase::Refreshing, MonitorEvent::Dead) => (
            MonitorFlow { failures: 0, phase: MonitorPhase::Reaping, ..m },
            MonitorAction::Reap,
        ),
        (MonitorPhase::Refreshing, _) => back_to_sleep(m),
        (MonitorPhase::Checking, MonitorEvent::Passed) => judged(MonitorFlow { failures: 0, ..m }),
        (MonitorPhase::Checking, MonitorEvent::Unhealthy) => judged(
            MonitorFlow { failures: (m.failures + 1) as u32, ..m },
        ),
        (MonitorPhase::Checking, _) => back_to_sleep(
            MonitorFlow { failures: (m.failures + 1) as u32, ..m },
        ),
        (MonitorPhase::Stopping, _) => back_to_sleep(m),
        (MonitorPhase::Reaping, MonitorEvent::Reaped(code)) => (
            MonitorFlow { phase: MonitorPhase::RecordingExit(code), ..m },
            MonitorAction::RecordExit(code),
        ),
        (MonitorPhase::RecordingExit(code), _) => after_exit(m, code),
        (MonitorPhase::BackingOff, MonitorEvent::Rested { stop }) => if stop {
            closing(m)
        } else {
            (MonitorFlow { phase: MonitorPhase::Restarting, ..m }, MonitorAction::Start)
        },
        (MonitorPhase::Restarting, _) => back_to_sleep(m),
        (_, _) => (MonitorFlow { phase: MonitorPhase::Finished, ..m }, MonitorAction::End),
    }
}

impl MonitorFlow {
    /// Whether the counters have room for an event: a failed check is counted, and so is
    /// a restart that is due.
    pub open spec fn can_take(&self, event: MonitorEvent) -> bool {
        match self.phase {
            MonitorPhase::Checking => event is Passed || self.failures < u32::MAX,
            MonitorPhase::RecordingExit(code) => self.restart.restart_due(code)
                ==> self.restart.restart_count < u32::MAX,
            _ => true,
        }
    }

    /// Whether the counters have room for an event.
    pub fn has_room(&self, event: MonitorEvent) -> (r: bool)
        ensures
            r == self.can_take(event),
    {
        match self.phase {
            MonitorPhase::Checking => match event {
                MonitorEvent::Passed => true,
                _ => self.failures < u32::MAX,
            },
            MonitorPhase::RecordingExit(code) => !self.restart.should_restart(code)
                || self.restart.restart_count < u32::MAX,
            _ => true,
        }
    }

    /// Begin the monitoring: the first thing is a sleep.
    pub fn begin(plan: &MonitorPlan) -> (r: (MonitorFlow, MonitorAction))
        ensures
            r.0 == (MonitorFlow {
                interval: plan.interval,
                has_health: plan.health_cmd is Some,
                health_retries: plan.health_retries,
                restart: plan.restart,
                failures: 0,
                phase: MonitorPhase::Sleeping,
            }),
            r.1 == (MonitorAction::Sleep { suspended_secs: None }),
    {
        (
            MonitorFlow {
                interval: plan.interval,
                has_health: plan.health_cmd.is_some(),
                health_retries: plan.health_retries,
                restart: plan.restart,
                failures: 0,
                phase: MonitorPhase::Sleeping,
            },
            MonitorAction::Sleep { suspended_secs: None },
        )
    }

    fn sleep(self) -> (r: (MonitorFlow, MonitorAction))
        ensures
            r == back_to_sleep(self),
    {
        (
            MonitorFlow { phase: MonitorPhase::Sleeping, ..self },
            MonitorAction::Sleep { suspended_secs: None },
        )
    }

    fn close(self) -> (r: (MonitorFlow, MonitorAction))
        ensures
            r == closing(self),
    {
        (MonitorFlow { phase: MonitorPhase::Closing, ..self }, MonitorAction::Close)
    }

    fn judge(self) -> (r: (MonitorFlow, MonitorAction))
        ensures
            r == judged(self),
    {
        if self.failures >= self.health_retries {
            (MonitorFlow { phase: MonitorPhase::Stopping, ..self }, MonitorAction::Stop)
        } else {
            self.sleep()
        }
    }

    fn exited(self, exit_code: Option<i32>) -> (r: (MonitorFlow, MonitorAction))
        requires
            self.restart.restart_due(exit_code) ==> self.restart.restart_count < u32::MAX,
        ensures
            r == after_exit(self, exit_code),
    {
        if self.restart.should_restart(exit_code) {
            let pause = self.restart.backoff_duration();
            let count: u32 = self.restart.restart_count + 1;
            let restart = RestartConfig { restart_count: count, ..self.restart };
            (
                MonitorFlow { restart, phase: MonitorPhase::BackingOff, ..self },
                MonitorAction::BackOff { count, pause },
            )
        } else {
            self.close()
        }
    }

    /// Take what the caller reports and say what is to be done next.
    pub fn step(&self, event: MonitorEvent) -> (r: (MonitorFlow, MonitorAction))
        requires
            self.can_take(event),
            self.interval.wf(),
            monitor_answers(self.phase, event),
        ensures
            r == monitor_next(*self, event),
    {
        let m = *self;
        match (m.phase, event) {
            (MonitorPhase::Sleeping, MonitorEvent::Woke { stop, elapsed }) => {
                if stop {
                    return m.close();
                }
                let waited: u128 = (elapsed.secs as u128) * 1_000_000_000 + elapsed.nanos as u128;
                let unit: u128 = (m.interval.secs as u128) * 1_000_000_000 + m.interval.nanos as u128;
                if waited > 3 * unit {
                    (
                        MonitorFlow { failures: 0, ..m },
                        MonitorAction::Sleep {
                            suspended_secs: Some(elapsed.secs - m.interval.secs),
                        },
                    )
                } else {
                    (MonitorFlow { phase: MonitorPhase::Refreshing, ..m }, MonitorAction::Refresh)
                }
            },
            (MonitorPhase::Refreshing, MonitorEvent::Alive { in_grace }) => if in_grace
                || !m.has_health {
                m.sleep()
            } else {
                (MonitorFlow { phase: MonitorPhase::Checking, ..m }, MonitorAction::Check)
            },
            (MonitorPhase::Refreshing, MonitorEvent::Dead) => (
                MonitorFlow { failures: 0, phase: MonitorPhase::Reaping, ..m },
                MonitorAction::Reap,
            ),
            (MonitorPhase::Refreshing, _) => m.sleep(),
            (MonitorPhase::Checking, MonitorEvent::Passed) => (MonitorFlow {
                failures: 0,
                ..m
            }).judge(),
            (MonitorPhase::Checking, MonitorEvent::Unhealthy) => (MonitorFlow {
                failures: m.failures + 1,
                ..m
            }).judge(),
            (MonitorPhase::Checking, _) => (MonitorFlow {
                failures: m.failures + 1,
                ..m
            }).sleep(),
            (MonitorPhase::Stopping, _) => m.sleep(),
            (MonitorPhase::Reaping, MonitorEvent::Reaped(code)) => (
                MonitorFlow { phase: MonitorPhase::RecordingExit(code), ..m },
                MonitorAction::RecordExit(code),
            ),
            (MonitorPhase::RecordingExit(code), _) => m.exited(code),
            (MonitorPhase::BackingOff, MonitorEvent::Rested { stop }) => if stop {
                m.close()
            } else {
                (MonitorFlow { phase: MonitorPhase::Restarting, ..m }, MonitorAction::Start)
            },
            (MonitorPhase::Restarting, _) => m.sleep(),
            (_, _) => (MonitorFlow { phase: MonitorPhase::Finished, ..m }, MonitorAction::End),
        }
    }
}

/// Whether a machine that was started so long ago is within its grace period.
pub fn in_grace_period(grace: &Duration, since_start: &Duration) -> (r: bool)
    requires
        grace.wf(),
        since_start.wf(),
    ensures
        r == (since_start.total_nanos() < grace.total_nanos()),
{
    grace.longer_than(since_start)
}

/// A machine is restarted only when its policy asks for it, after the recorded
/// exit, with a count that is one higher and the backoff of the count before.
pub proof fn restarts_follow_the_policy(m: MonitorFlow, event: MonitorEvent)
    requires
        monitor_answers(m.phase, event),
        m.can_take(event),
        monitor_next(m, event).1 is BackOff,
    ensures
        m.phase is RecordingExit,
        m.restart.restart_due(m.phase->RecordingExit_0),
        monitor_next(m, event).0.restart.restart_count == m.restart.restart_count + 1,
        monitor_next(m, event).1->pause.secs == m.restart.backoff_secs(),
        m.restart.max_retries > 0 ==> monitor_next(m, event).0.restart.restart_count
            <= m.restart.max_retries,
{
}

/// The machine is started again only after its pause, and a user who ended the
/// monitoring meanwhile is heard.
pub proof fn start_follows_the_pause(m: MonitorFlow, event: MonitorEvent)
    requires
        monitor_answers(m.phase, event),
        monitor_next(m, event).1 is Start,
    ensures
        m.phase is BackingOff,
        event == (MonitorEvent::Rested { stop: false }),
{
}

/// The machine is stopped as unhealthy only by a health check, and exactly when the
/// failures in a row have reached the limit.
pub proof fn stop_needs_failed_checks(m: MonitorFlow, event: MonitorEvent)
    requires
        monitor_answers(m.phase, event),
        m.can_take(event),
    ensures
        monitor_next(m, event).1 is Stop <==> m.phase is Checking && ((event is Unhealthy
            && m.failures + 1 >= m.health_retries) || (event is Passed && m.health_retries == 0)),
{
}

/// A passed check, a suspension and an exit clear the failures; nothing but a failed
/// check adds one.
pub proof fn failures_are_counted_in_a_row(m: MonitorFlow, event: MonitorEvent)
    requires
        monitor_answers(m.phase, event),
        m.can_take(event),
    ensures
        ({
            let after = monitor_next(m, event).0.failures;
            &&& after == 0 || after == m.failures || after == m.failures + 1
            &&& after == m.failures + 1 ==> m.phase is Checking && !(event is Passed)
            &&& m.phase is Checking && event is Passed ==> after == 0
            &&& m.phase is Refreshing && event is Dead ==> after == 0
        }),
{
}

/// The monitoring ends only after it was recorded that the supervision was ended.
pub proof fn ending_is_recorded(m: MonitorFlow, event: MonitorEvent)
    requires
        monitor_answers(m.phase, event),
    ensures
        monitor_next(m, event).1 is End <==> m.phase is Closing,
{
}

/// Each action of a monitoring is taken exactly where it is due. The user's wish to end is
/// heard at every wake-up and after every pause. A suspended host is given time, a dead
/// machine is looked after, and a live one is checked where there is a check and its grace
/// period is over. The exit code that was found is the one that is recorded and judged.
pub proof fn monitoring_does_what_is_due(m: MonitorFlow, event: MonitorEvent)
    requires
        monitor_answers(m.phase, event),
        m.can_take(event),
    ensures
        ({
            let (next, action) = monitor_next(m, event);
            let awake = m.phase is Sleeping && (event matches MonitorEvent::Woke { stop, .. }
                && !stop);
            let late = event matches MonitorEvent::Woke { elapsed, .. } && elapsed.total_nanos()
                > 3 * m.interval.total_nanos();
            &&& action is Refresh <==> awake && !late
            &&& (action matches MonitorAction::Sleep { suspended_secs } && suspended_secs is Some)
                <==> awake && late
            &&& awake && late ==> next.failures == 0
            &&& action is Check <==> m.phase is Refreshing && m.has_health && event == (
            MonitorEvent::Alive { in_grace: false })
            &&& action is Reap <==> m.phase is Refreshing && event is Dead
            &&& action matches MonitorAction::RecordExit(code) ==> event == MonitorEvent::Reaped(
                code,
            ) && next.phase == MonitorPhase::RecordingExit(code)
            &&& event is Reaped ==> action is RecordExit
            &&& m.phase matches MonitorPhase::RecordingExit(code) ==> (action is BackOff
                <==> m.restart.restart_due(code)) && (action is Close
                <==> !m.restart.restart_due(code))
            &&& action matches MonitorAction::BackOff { count, pause } ==> count
                == m.restart.restart_count + 1 && next.restart.restart_count == count
                && pause.secs == m.restart.backoff_secs() && pause.nanos == 0
            &&& event == (MonitorEvent::Rested { stop: false }) ==> action is Start
            &&& event == (MonitorEvent::Rested { stop: true }) ==> action is Close
            &&& (event matches MonitorEvent::Woke { stop, .. } && stop) ==> action is Close
            &&& m.phase is Stopping || m.phase is Restarting || event is Unknown ==> action == (
            MonitorAction::Sleep { suspended_secs: None })
        }),
{
}

/// What the caller of a monitoring is asked for is what its phase is about, and nothing but
/// a restart changes what the monitoring goes by.
pub proof fn monitoring_keeps_its_plan(m: MonitorFlow, event: MonitorEvent)
    requires
        monitor_answers(m.phase, event),
        m.can_take(event),
    ensures
        ({
            let (next, action) = monitor_next(m, event);
            &&& next.interval == m.interval && next.has_health == m.has_health
                && next.health_retries == m.health_retries
            &&& !(action is BackOff) ==> next.restart == m.restart
            &&& action is BackOff ==> next.restart == (RestartConfig {
                restart_count: next.restart.restart_count,
                ..m.restart
            })
            &&& match next.phase {
                MonitorPhase::Sleeping => action is Sleep,
                MonitorPhase::Refreshing => action is Refresh,
                MonitorPhase::Checking => action is Check,
                MonitorPhase::Stopping => action is Stop,
                MonitorPhase::Reaping => action is Reap,
                MonitorPhase::RecordingExit(_) => action is RecordExit,
                MonitorPhase::BackingOff => action is BackOff,
                MonitorPhase::Restarting => action is Start,
                MonitorPhase::Closing => action is Close,
                MonitorPhase::Finished => action is End,
            }
        }),
{
}

/// The state of a monitoring after its first `n` events.
pub open spec fn monitor_after(m: MonitorFlow, events: Seq<MonitorEvent>, n: int) -> MonitorFlow
    decreases n,
{
    if n <= 0 {
        m
    } else {
        monitor_next(monitor_after(m, events, n - 1), events[n - 1]).0
    }
}

/// Whether events are those of a monitoring: each answers the phase before it, and the
/// counters never run over.
pub open spec fn is_monitoring(m: MonitorFlow, events: Seq<MonitorEvent>) -> bool {
    forall|k: int|
        0 <= k < events.len() ==> {
            let before = #[trigger] monitor_after(m, events, k);
            monitor_answers(before.phase, events[k]) && before.can_take(events[k])
        }
}

/// However long a machine is monitored, it is not restarted more often than its limit
/// allows, its policy stays what it was, and the count of restarts never goes down.
pub proof fn restarts_stay_within_the_limit(m: MonitorFlow, events: Seq<MonitorEvent>, n: int)
    requires
        is_monitoring(m, events),
        0 <= n <= events.len(),
        m.restart.max_retries > 0 ==> m.restart.restart_count <= m.restart.max_retries,
    ensures
        ({
            let r = monitor_after(m, events, n).restart;
            &&& r.max_retries > 0 ==> r.restart_count <= r.max_retries
            &&& r == (RestartConfig { restart_count: r.restart_count, ..m.restart })
            &&& r.restart_count >= m.restart.restart_count
        }),
    decreases n,
{
    if n > 0 {
        restarts_stay_within_the_limit(m, events, n - 1);
        let before = monitor_after(m, events, n - 1);
        assert(monitor_answers(before.phase, events[n - 1]) && before.can_take(events[n - 1]));
    }
}

/// The lines that open the monitoring.
pub fn monitor_banner(name: &str, plan: &MonitorPlan) -> (r: (String, Option<String>))
    ensures
        r.0@ == "Monitoring machine '"@ + name@ + "' (policy: "@ + plan.restart.policy.word()
            + ", interval: "@ + decimal(plan.interval.secs as nat) + "s)"@,
        r.1 is Some <==> plan.health_cmd is Some,
        r.1 matches Some(l) ==> l@ == "  Health check: retries="@ + decimal(
            plan.health_retries as nat,
        ) + ", timeout="@ + decimal(plan.health_timeout.secs as nat) + "s"@,
{
    let first = String::from_str("Monitoring machine '").concat(name).concat("' (policy: ").concat(
        plan.restart.policy.to_string().as_str(),
    ).concat(", interval: ").concat(decimal_text(plan.interval.secs).as_str()).concat("s)");
    let second = if plan.health_cmd.is_some() {
        Some(
            String::from_str("  Health check: retries=").concat(
                decimal_text(plan.health_retries as u64).as_str(),
            ).concat(", timeout=").concat(decimal_text(plan.health_timeout.secs).as_str()).concat(
                "s",
            ),
        )
    } else {
        None
    };
    (first, second)
}

/// The line for a machine that is not restarted.
pub fn given_up_line(restart: &RestartConfig) -> (r: String)
    ensures
        r@ == "  not restarting (policy: "@ + restart.policy.word() + ", count: "@ + decimal(
            restart.restart_count as nat,
        ) + "/"@ + (if restart.max_retries > 0 {
            decimal(restart.max_retries as nat)
        } else {
            "unlimited"@
        }) + ")"@,
{
    let limit = if restart.max_retries > 0 {
        decimal_text(restart.max_retries as u64)
    } else {
        String::from_str("unlimited")
    };
    String::from_str("  not restarting (policy: ").concat(
        restart.policy.to_string().as_str(),
    ).concat(", count: ").concat(decimal_text(restart.restart_count as u64).as_str()).concat(
        "/",
    ).concat(limit.as_str()).concat(")")
}

/// The line for a machine that exited.
pub fn exited_line(exit_code: Option<i32>) -> (r: String)
    ensures
        r@ == "  machine exited (exit code: "@ + (match exit_code {
            Some(c) => int_text(c as int),
            None => "unknown"@,
        }) + ")"@,
{
    let shown = match exit_code {
        Some(c) => signed_text(c as i64),
        None => String::from_str("unknown"),
    };
    String::from_str("  machine exited (exit code: ").concat(shown.as_str()).concat(")")
}

/// What a health check came to.
#[derive(Debug)]
pub enum CheckReport {
    /// It passed.
    Passed,
    /// It ended with another code than zero.
    Exited {
        /// The exit code.
        code: i32,
        /// What it wrote to standard error.
        stderr: String,
    },
    /// It could not be run.
    Error(String),
    /// The agent could not be reached.
    Unconnected,
}

/// The event that a report stands for.
pub open spec fn report_event(c: CheckReport) -> MonitorEvent {
    match c {
        CheckReport::Passed => MonitorEvent::Passed,
        CheckReport::Unconnected => MonitorEvent::Unconnected,
        _ => MonitorEvent::Unhealthy,
    }
}

/// A check that did not pass counts as a failure, whichever way it went wrong; only one that
/// could be run can bring the machine down.
pub proof fn checks_that_do_not_pass_are_counted(m: MonitorFlow, c: CheckReport)
    requires
        m.phase is Checking,
        m.failures < u32::MAX,
    ensures
        monitor_answers(m.phase, report_event(c)),
        monitor_next(m, report_event(c)).0.failures == (if c is Passed {
            0
        } else {
            m.failures + 1
        }),
        c is Unconnected ==> !(monitor_next(m, report_event(c)).1 is Stop),
        (c is Exited || c is Error) && m.failures + 1 >= m.health_retries ==> monitor_next(
            m,
            report_event(c),
        ).1 is Stop,
{
}

impl CheckReport {
    /// The event that the report stands for.
    pub fn event(&self) -> (r: MonitorEvent)
        ensures
            r == report_event(*self),
    {
        match self {
            CheckReport::Passed => MonitorEvent::Passed,
            CheckReport::Unconnected => MonitorEvent::Unconnected,
            _ => MonitorEvent::Unhealthy,
        }
    }

    /// The line that a report prints, given the failures in a row before it: a passed
    /// check is worth a word only after a failed one.
    pub fn line(&self, failures: u32, retries: u32) -> (r: Option<String>)
        ensures
            ({
                let count = decimal((failures + 1) as nat) + "/"@ + decimal(retries as nat);
                match self {
                    CheckReport::Passed => if failures > 0 {
                        r matches Some(l) && l@ == "  health check passed (recovered)"@
                    } else {
                        r is None
                    },
                    CheckReport::Exited { code, stderr } => r matches Some(l) && l@
                        == "  health check failed (exit "@ + int_text(*code as int) + ", "@ + count
                        + "): "@ + trimmed(stderr@),
                    CheckReport::Error(e) => r matches Some(l) && l@ == "  health check error ("@
                        + count + "): "@ + e@,
                    CheckReport::Unconnected => r matches Some(l) && l@
                        == "  cannot connect to agent ("@ + count + ")"@,
                }
            }),
    {
        let count = decimal_text(failures as u64 + 1).concat("/").concat(
            decimal_text(retries as u64).as_str(),
        );
        match self {
            CheckReport::Passed => if failures > 0 {
                Some(String::from_str("  health check passed (recovered)"))
            } else {
                None
            },
            CheckReport::Exited { code, stderr } => Some(
                String::from_str("  health check failed (exit ").concat(
                    signed_text(*code as i64).as_str(),
                ).concat(", ").concat(count.as_str()).concat("): ").concat(trim(stderr.as_str())),
            ),
            CheckReport::Error(e) => Some(
                String::from_str("  health check error (").concat(count.as_str()).concat(
                    "): ",
                ).concat(e.as_str()),
            ),
            CheckReport::Unconnected => Some(
                String::from_str("  cannot connect to agent (").concat(count.as_str()).concat(")"),
            ),
        }
    }
}

/// The line that announces a restart.
pub fn restarting_line(count: u32, pause: &Duration) -> (r: String)
    ensures
        r@ == "  restarting (attempt "@ + decimal(count as nat) + ", backoff "@ + decimal(
            pause.secs as nat,
        ) + "s)..."@,
{
    String::from_str("  restarting (attempt ").concat(decimal_text(count as u64).as_str()).concat(
        ", backoff ",
    ).concat(decimal_text(pause.secs).as_str()).concat("s)...")
}

/// The line for a host that was suspended.
pub fn suspended_line(secs: u64) -> (r: String)
    ensures
        r@ == "  detected suspend (~"@ + decimal(secs as nat)
            + "s) \u{2014} skipping health check for recovery"@,
{
    String::from_str("  detected suspend (~").concat(decimal_text(secs).as_str()).concat(
        "s) \u{2014} skipping health check for recovery",
    )
}

/// An event is refused only where a counter is full.
pub proof fn only_full_counters_refuse_events(m: MonitorFlow, event: MonitorEvent)
    requires
        m.failures < u32::MAX,
        m.restart.restart_count < u32::MAX,
    ensures
        m.can_take(event),
{
}

} // verus!
