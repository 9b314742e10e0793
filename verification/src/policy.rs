//! Restart policies and the supervision of service workers and systems.

use std::time::Duration;
use vstd::prelude::*;

use crate::system::SystemResult;
use crate::time::{at_least, from_secs};
#[allow(unused_imports)]
use crate::time;

verus! {

/// Restart policy for service workers and systems when they fail.
#[derive(Debug, Clone, Copy, PartialEq, Eq)]
pub enum RestartPolicy {
    /// The task ends on its first failure. (Default)
    Never,
    /// Always restart the task immediately.
    Always,
    /// Restart up to `max` times.
    /// If `reset_after` is `Some(duration)` and the task survives that long before it fails,
    /// the attempt counter resets to 0.
    Attempts { max: usize, reset_after: Option<Duration> },
}

impl RestartPolicy {
    /// Default stabilization window of the attempt-based policy, in seconds.
    pub const DEFAULT_RESET_AFTER_SECS: u64 = 60;

    /// The default stabilization window of the attempt-based policy.
    pub fn default_reset_after() -> (window: Duration)
        ensures
            time::duration_nanos(window) == 60_000_000_000,
    {
        from_secs(Self::DEFAULT_RESET_AFTER_SECS)
    }

    /// Restart up to `n` times with the default stabilization window.
    pub fn attempts(n: usize) -> (policy: Self)
        ensures
            policy matches RestartPolicy::Attempts { max, reset_after: Some(window) } && max == n
                && time::duration_nanos(window) == 60_000_000_000,
    {
        RestartPolicy::Attempts { max: n, reset_after: Some(Self::default_reset_after()) }
    }
}

impl Default for RestartPolicy {
    fn default() -> (policy: Self)
        ensures
            policy == RestartPolicy::Never,
    {
        RestartPolicy::Never
    }
}

/// How one run of a service worker ended.
#[derive(Debug, Clone, Copy, PartialEq, Eq, Structural)]
pub enum ServiceExit {
    /// The worker's message loop returned.
    Completed,
    /// The worker panicked.
    Panicked,
    /// The worker's task was cancelled.
    Cancelled,
}

/// How one run of a system ended.
#[derive(Debug)]
pub enum SystemExit {
    /// The system returned.
    Returned(SystemResult),
    /// The system panicked.
    Panicked,
    /// The system's task was cancelled.
    Cancelled,
}

impl ServiceExit {
    /// A worker fails by a panic only.
    pub open spec fn failed(self) -> bool {
        self is Panicked
    }
}

impl SystemExit {
    /// A system fails by a panic or by returning an error.
    pub open spec fn failed(self) -> bool {
        match self {
            SystemExit::Returned(result) => result is Failed,
            SystemExit::Panicked => true,
            SystemExit::Cancelled => false,
        }
    }
}

/// What the supervisor does after one run of its task.
#[derive(Debug, Clone, Copy, PartialEq, Eq, Structural)]
pub enum Verdict {
    /// Run the task again.
    Restart,
    /// The task is over.
    Stop,
    /// The task failed and has used up its restarts.
    GiveUp,
}

/// The supervisor of one task: its policy and the restarts counted against it.
pub struct Supervisor {
    pub restart: RestartPolicy,
    pub attempts: usize,
}

/// The restarts that count against the policy when a run of `elapsed` nanoseconds has failed.
pub open spec fn attempts_counted(
    reset_after: Option<Duration>,
    attempts: nat,
    elapsed: nat,
) -> nat {
    match reset_after {
        Some(window) => if elapsed >= time::duration_nanos(window) {
            0
        } else {
            attempts
        },
        None => attempts,
    }
}

/// The verdict on a run that took `elapsed` nanoseconds, when `attempts` restarts were counted.
pub open spec fn verdict(
    policy: RestartPolicy,
    attempts: nat,
    failed: bool,
    elapsed: nat,
) -> Verdict {
    if !failed {
        Verdict::Stop
    } else {
        match policy {
            RestartPolicy::Never => Verdict::Stop,
            RestartPolicy::Always => Verdict::Restart,
            RestartPolicy::Attempts { max, reset_after } => if attempts_counted(
                reset_after,
                attempts,
                elapsed,
            ) < max {
                Verdict::Restart
            } else {
                Verdict::GiveUp
            },
        }
    }
}

/// The restarts counted after that run.
pub open spec fn attempts_after(
    policy: RestartPolicy,
    attempts: nat,
    failed: bool,
    elapsed: nat,
) -> nat {
    match policy {
        RestartPolicy::Attempts { max, reset_after } if failed => {
            let counted = attempts_counted(reset_after, attempts, elapsed);
            if counted < max {
                counted + 1
            } else {
                counted
            }
        },
        _ => attempts,
    }
}

impl Supervisor {
    /// A supervisor that has restarted nothing yet.
    pub fn new(restart: RestartPolicy) -> (supervisor: Self)
        ensures
            supervisor.restart == restart,
            supervisor.attempts == 0,
    {
        Supervisor { restart, attempts: 0 }
    }

    /// Decides what follows a run that took `elapsed`.
    fn supervise(&mut self, failed: bool, elapsed: Duration) -> (decision: Verdict)
        ensures
            decision == verdict(
                old(self).restart,
                old(self).attempts as nat,
                failed,
                time::duration_nanos(elapsed),
            ),
            final(self).attempts == attempts_after(
                old(self).restart,
                old(self).attempts as nat,
                failed,
                time::duration_nanos(elapsed),
            ),
            final(self).restart == old(self).restart,
    {
        if !failed {
            return Verdict::Stop;
        }
        match self.restart {
            RestartPolicy::Never => Verdict::Stop,
            RestartPolicy::Always => Verdict::Restart,
            RestartPolicy::Attempts { max, reset_after } => {
                if let Some(window) = reset_after {
                    if at_least(elapsed, window) {
                        self.attempts = 0;
                    }
                }
                if self.attempts < max {
                    self.attempts = self.attempts + 1;
                    Verdict::Restart
                } else {
                    Verdict::GiveUp
                }
            },
        }
    }

    /// Decides what follows a run of a service worker: only a panic may restart it.
    pub fn supervise_service(&mut self, exit: ServiceExit, elapsed: Duration) -> (decision: Verdict)
        ensures
            !(exit is Panicked) ==> decision == Verdict::Stop && final(self).attempts == old(self).attempts,
            (exit is Panicked) && old(self).restart is Never ==> decision == Verdict::Stop,
            (exit is Panicked) && old(self).restart is Always ==> decision == Verdict::Restart,
            (exit is Panicked) && old(self).restart is Attempts ==> decision != Verdict::Stop,
            decision == verdict(
                old(self).restart,
                old(self).attempts as nat,
                exit.failed(),
                time::duration_nanos(elapsed),
            ),
            final(self).attempts == attempts_after(
                old(self).restart,
                old(self).attempts as nat,
                exit.failed(),
                time::duration_nanos(elapsed),
            ),
            final(self).restart == old(self).restart,
    {
        let failed: bool = match exit {
            ServiceExit::Completed => false,
            ServiceExit::Panicked => true,
            ServiceExit::Cancelled => false,
        };
        self.supervise(failed, elapsed)
    }

    /// Decides what follows a run of a system: a panic or an error result may restart it.
    pub fn supervise_system(&mut self, exit: &SystemExit, elapsed: Duration) -> (decision: Verdict)
        ensures
            !(exit is Panicked || (exit is Returned && exit->Returned_0 is Failed)) ==> decision == Verdict::Stop && final(self).attempts == old(self).attempts,
            (exit is Panicked || (exit is Returned && exit->Returned_0 is Failed)) && old(self).restart is Never ==> decision == Verdict::Stop,
            (exit is Panicked || (exit is Returned && exit->Returned_0 is Failed)) && old(self).restart is Always ==> decision == Verdict::Restart,
            (exit is Panicked || (exit is Returned && exit->Returned_0 is Failed)) && old(self).restart is Attempts ==> decision != Verdict::Stop,
            decision == verdict(
                old(self).restart,
                old(self).attempts as nat,
                exit.failed(),
                time::duration_nanos(elapsed),
            ),
            final(self).attempts == attempts_after(
                old(self).restart,
                old(self).attempts as nat,
                exit.failed(),
                time::duration_nanos(elapsed),
            ),
            final(self).restart == old(self).restart,
    {
        let failed: bool = match exit {
            SystemExit::Returned(SystemResult::Completed) => false,
            SystemExit::Returned(SystemResult::Failed(_)) => true,
            SystemExit::Panicked => true,
            SystemExit::Cancelled => false,
        };
        self.supervise(failed, elapsed)
    }
}

/// How one run ended, to the policy: whether it failed, and after how many nanoseconds.
pub struct RunEnd {
    pub failed: bool,
    pub elapsed: nat,
}

/// The number of restarts that the policy grants, from `attempts` counted restarts on, when
/// successive runs end as `runs` says.
pub open spec fn restarts(policy: RestartPolicy, attempts: nat, runs: Seq<RunEnd>) -> nat
    decreases runs.len(),
{
    if runs.len() == 0 {
        0
    } else {
        let run = runs[0];
        if verdict(policy, attempts, run.failed, run.elapsed) == Verdict::Restart {
            1 + restarts(
                policy,
                attempts_after(policy, attempts, run.failed, run.elapsed),
                runs.drop_first(),
            )
        } else {
            0
        }
    }
}

/// The number of runs that failed before the first one that did not.
pub open spec fn leading_failures(runs: Seq<RunEnd>) -> nat
    decreases runs.len(),
{
    if runs.len() == 0 || !runs[0].failed {
        0
    } else {
        1 + leading_failures(runs.drop_first())
    }
}

/// Whether no run of `runs` lasts as long as the stabilization window.
pub open spec fn all_unstable(reset_after: Option<Duration>, runs: Seq<RunEnd>) -> bool {
    reset_after matches Some(window) ==> forall|i: int|
        0 <= i < runs.len() ==> (#[trigger] runs[i]).elapsed < time::duration_nanos(window)
}

/// A run that did not fail ends the supervision, whatever the policy.
pub proof fn law_success_stops(policy: RestartPolicy, attempts: nat, elapsed: nat)
    ensures
        verdict(policy, attempts, false, elapsed) == Verdict::Stop,
        attempts_after(policy, attempts, false, elapsed) == attempts,
{
}

/// Under `Never` no failure is ever followed by a restart.
pub proof fn law_never_restarts(attempts: nat, runs: Seq<RunEnd>)
    ensures
        restarts(RestartPolicy::Never, attempts, runs) == 0,
{
}

/// Under `Always` every failure is followed by a restart, until a run does not fail.
pub proof fn law_always_restarts(attempts: nat, runs: Seq<RunEnd>)
    ensures
        restarts(RestartPolicy::Always, attempts, runs) == leading_failures(runs),
    decreases runs.len(),
{
    if runs.len() > 0 && runs[0].failed {
        law_always_restarts(attempts, runs.drop_first());
    }
}

/// A task under `Attempts` that never reaches its stabilization window is restarted after each
/// failure, up to `max` times in all.
pub proof fn law_attempts_restarts(
    max: usize,
    reset_after: Option<Duration>,
    attempts: nat,
    runs: Seq<RunEnd>,
)
    requires
        all_unstable(reset_after, runs),
        attempts <= max,
    ensures
        restarts(RestartPolicy::Attempts { max, reset_after }, attempts, runs) == if leading_failures(
            runs,
        ) <= max - attempts {
            leading_failures(runs) as int
        } else {
            max - attempts
        },
    decreases runs.len(),
{
    if runs.len() > 0 && runs[0].failed && attempts < max {
        let rest = runs.drop_first();
        assert(all_unstable(reset_after, rest)) by {
            if let Some(window) = reset_after {
                assert forall|i: int| 0 <= i < rest.len() implies (#[trigger] rest[i]).elapsed
                    < time::duration_nanos(window) by {
                    assert(rest[i] == runs[i + 1]);
                }
            }
        }
        law_attempts_restarts(max, reset_after, attempts + 1, rest);
    }
}

/// A task that survived its stabilization window is restarted as if it had never failed
/// before: the counter starts over.
pub proof fn law_stable_run_resets(max: usize, window: Duration, attempts: nat, elapsed: nat)
    requires
        elapsed >= time::duration_nanos(window),
    ensures
        verdict(
            RestartPolicy::Attempts { max, reset_after: Some(window) },
            attempts,
            true,
            elapsed,
        ) == verdict(RestartPolicy::Attempts { max, reset_after: None }, 0, true, elapsed),
        attempts_after(
            RestartPolicy::Attempts { max, reset_after: Some(window) },
            attempts,
            true,
            elapsed,
        ) == attempts_after(RestartPolicy::Attempts { max, reset_after: None }, 0, true, elapsed),
{
}

/// The counter of an attempt-based supervisor never passes `max`.
pub proof fn law_attempts_never_exceed_max(
    max: usize,
    reset_after: Option<Duration>,
    attempts: nat,
    failed: bool,
    elapsed: nat,
)
    requires
        attempts <= max,
    ensures
        attempts_after(RestartPolicy::Attempts { max, reset_after }, attempts, failed, elapsed)
            <= max,
{
}

/// A service worker is restarted after a panic only; one that returned or was cancelled is over,
/// whatever its policy, and counts nothing.
pub proof fn law_worker_restarts_on_panic_only(
    exit: ServiceExit,
    policy: RestartPolicy,
    attempts: nat,
    elapsed: nat,
)
    ensures
        exit is Completed || exit is Cancelled ==> {
            &&& verdict(policy, attempts, exit.failed(), elapsed) == Verdict::Stop
            &&& attempts_after(policy, attempts, exit.failed(), elapsed) == attempts
        },
        exit is Panicked ==> {
            &&& policy is Never ==> verdict(policy, attempts, exit.failed(), elapsed)
                == Verdict::Stop
            &&& policy is Always ==> verdict(policy, attempts, exit.failed(), elapsed)
                == Verdict::Restart
            &&& policy is Attempts ==> verdict(policy, attempts, exit.failed(), elapsed)
                != Verdict::Stop
        },
{
}

/// A system is restarted after a panic or an error; one that succeeded or was cancelled is over,
/// whatever its policy, and counts nothing.
pub proof fn law_system_restarts_on_panic_or_error(
    exit: SystemExit,
    policy: RestartPolicy,
    attempts: nat,
    elapsed: nat,
)
    ensures
        exit is Cancelled || exit == SystemExit::Returned(SystemResult::Completed) ==> {
            &&& verdict(policy, attempts, exit.failed(), elapsed) == Verdict::Stop
            &&& attempts_after(policy, attempts, exit.failed(), elapsed) == attempts
        },
        exit is Panicked || (exit matches SystemExit::Returned(result) && result is Failed) ==> {
            &&& policy is Never ==> verdict(policy, attempts, exit.failed(), elapsed)
                == Verdict::Stop
            &&& policy is Always ==> verdict(policy, attempts, exit.failed(), elapsed)
                == Verdict::Restart
            &&& policy is Attempts ==> verdict(policy, attempts, exit.failed(), elapsed)
                != Verdict::Stop
        },
{
}

/// Under `Attempts` a task that fails before its window has passed, or without one, is restarted
/// as long as fewer restarts than `max` were counted, and each restart counts one; after that it
/// is given up. A task that fails after its window has passed starts counting anew.
pub proof fn law_attempts_are_counted(
    max: usize,
    reset_after: Option<Duration>,
    attempts: nat,
    elapsed: nat,
)
    ensures
        ({
            let policy = RestartPolicy::Attempts { max, reset_after };
            let decision = verdict(policy, attempts, true, elapsed);
            let counted = attempts_after(policy, attempts, true, elapsed);
            let stable = reset_after is Some && elapsed >= time::duration_nanos(reset_after->0);
            &&& !stable && attempts < max ==> decision == Verdict::Restart && counted == attempts
                + 1
            &&& !stable && attempts >= max ==> decision == Verdict::GiveUp && counted == attempts
            &&& stable && max > 0 ==> decision == Verdict::Restart && counted == 1
            &&& stable && max == 0 ==> decision == Verdict::GiveUp && counted == 0
        }),
{
}

/// The helper policy restarts as often as it is told to, within the default window.
pub proof fn law_attempts_helper(n: usize, policy: RestartPolicy)
    requires
        call_ensures(RestartPolicy::attempts, (n,), policy),
    ensures
        policy matches RestartPolicy::Attempts { max, reset_after: Some(window) } && max == n
            && time::duration_nanos(window) == 60 * 1_000_000_000,
{
}

/// A new supervisor grants the full number of restarts to a task that always fails too early.
pub proof fn law_new_supervisor_grants_all_restarts(
    max: usize,
    reset_after: Option<Duration>,
    supervisor: Supervisor,
    runs: Seq<RunEnd>,
)
    requires
        call_ensures(
            Supervisor::new,
            (RestartPolicy::Attempts { max, reset_after },),
            supervisor,
        ),
        all_unstable(reset_after, runs),
        forall|i: int| 0 <= i < runs.len() ==> (#[trigger] runs[i]).failed,
    ensures
        restarts(supervisor.restart, supervisor.attempts as nat, runs) == if runs.len() <= max {
            runs.len() as int
        } else {
            max as int
        },
{
    lemma_all_failed(runs);
    law_attempts_restarts(max, reset_after, 0, runs);
}

proof fn lemma_all_failed(runs: Seq<RunEnd>)
    requires
        forall|i: int| 0 <= i < runs.len() ==> (#[trigger] runs[i]).failed,
    ensures
        leading_failures(runs) == runs.len(),
    decreases runs.len(),
{
    if runs.len() > 0 {
        assert(runs[0].failed);
        let rest = runs.drop_first();
        assert forall|i: int| 0 <= i < rest.len() implies (#[trigger] rest[i]).failed by {
            assert(rest[i] == runs[i + 1]);
        }
        lemma_all_failed(rest);
    }
}

/// Whether `decision` is right for a task that failed after `elapsed`, and `after` is the
/// supervisor that was `before`. Without restarts the task is over; without end it is restarted;
/// else it is restarted as long as fewer restarts than `max` count, where none counts after a run
/// that lasted as long as its window, and given up after that.
pub open spec fn failure_judged(
    before: Supervisor,
    elapsed: Duration,
    decision: Verdict,
    after: Supervisor,
) -> bool {
    match before.restart {
        RestartPolicy::Never => decision == Verdict::Stop,
        RestartPolicy::Always => decision == Verdict::Restart,
        RestartPolicy::Attempts { max, reset_after } => {
            let stable = reset_after is Some && time::duration_nanos(elapsed)
                >= time::duration_nanos(reset_after->0);
            &&& !stable && before.attempts < max ==> decision == Verdict::Restart && after.attempts
                == before.attempts + 1
            &&& !stable && before.attempts >= max ==> decision == Verdict::GiveUp
            &&& stable && max > 0 ==> decision == Verdict::Restart && after.attempts == 1
            &&& stable && max == 0 ==> decision == Verdict::GiveUp
        },
    }
}

/// A worker that panicked is judged by its policy; one that returned or was cancelled is over, and
/// counts nothing. The policy stays.
pub proof fn law_service_supervision(
    supervisor: &mut Supervisor,
    exit: ServiceExit,
    elapsed: Duration,
    decision: Verdict,
)
    requires
        call_ensures(Supervisor::supervise_service, (supervisor, exit, elapsed), decision),
    ensures
        final(supervisor).restart == old(supervisor).restart,
        exit is Panicked ==> failure_judged(
            *old(supervisor),
            elapsed,
            decision,
            *final(supervisor),
        ),
        !(exit is Panicked) ==> decision == Verdict::Stop && final(supervisor).attempts == old(
            supervisor,
        ).attempts,
{
}

/// A system that panicked or returned an error is judged by its policy; one that succeeded or was
/// cancelled is over, and counts nothing. The policy stays.
pub proof fn law_system_supervision(
    supervisor: &mut Supervisor,
    exit: SystemExit,
    elapsed: Duration,
    decision: Verdict,
)
    requires
        call_ensures(Supervisor::supervise_system, (supervisor, &exit, elapsed), decision),
    ensures
        final(supervisor).restart == old(supervisor).restart,
        exit is Panicked || exit is Returned && exit->Returned_0 is Failed ==> failure_judged(
            *old(supervisor),
            elapsed,
            decision,
            *final(supervisor),
        ),
        exit is Cancelled || exit is Returned && exit->Returned_0 is Completed ==> decision
            == Verdict::Stop && final(supervisor).attempts == old(supervisor).attempts,
{
}

/// A new supervisor has the policy that it is given, and counts nothing.
pub proof fn law_new_supervisor(policy: RestartPolicy, supervisor: Supervisor)
    requires
        call_ensures(Supervisor::new, (policy,), supervisor),
    ensures
        supervisor.restart == policy,
        supervisor.attempts == 0,
{
}

/// Nothing is restarted unless it was chosen.
pub proof fn law_default_policy(policy: RestartPolicy)
    requires
        call_ensures(<RestartPolicy as Default>::default, (), policy),
    ensures
        policy is Never,
{
}

} // verus!
