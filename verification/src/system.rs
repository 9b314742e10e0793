//! What systems return, and the loop of a system that runs on an interval.

use std::fmt::Display;
use vstd::prelude::*;
use vstd::string::to_string_from_display_ensures;

verus! {

/// Result of system execution.
#[derive(Debug)]
pub enum SystemResult {
    /// System completed successfully.
    Completed,
    /// System failed with an error (triggers the restart policy).
    Failed(String),
}

/// What a system function may return: `()` always succeeds, and the error of a `Result<(), E>`
/// triggers the restart policy.
pub trait SystemOutput: Send + Sized {
    /// Whether `result` is what this output says of the run.
    spec fn results_in(self, result: SystemResult) -> bool;

    /// What this output says of the run.
    fn into_result(self) -> (result: SystemResult)
        ensures
            self.results_in(result),
    ;
}

impl SystemOutput for () {
    open spec fn results_in(self, result: SystemResult) -> bool {
        result is Completed
    }

    fn into_result(self) -> SystemResult {
        SystemResult::Completed
    }
}

impl<E: Display + Send + 'static> SystemOutput for Result<(), E> {
    /// The text of a failure is what the error displays.
    open spec fn results_in(self, result: SystemResult) -> bool {
        match self {
            Ok(_) => result is Completed,
            Err(error) => result matches SystemResult::Failed(text)
                && to_string_from_display_ensures::<E>(&error, text),
        }
    }

    fn into_result(self) -> SystemResult {
        match self {
            Ok(()) => SystemResult::Completed,
            Err(error) => SystemResult::Failed(error.to_string()),
        }
    }
}

/// What the loop of an interval system does next.
#[derive(Debug)]
pub enum IntervalAction {
    /// Wait for the next tick, or for shutdown.
    Wait,
    /// Run the system once.
    RunOnce,
    /// Leave the loop with this result.
    Leave(SystemResult),
}

/// What came of the last action of the loop.
#[derive(Debug)]
pub enum IntervalEvent {
    /// The loop was entered.
    Entered,
    /// The interval ticked.
    Ticked,
    /// Shutdown was triggered.
    ShutDown,
    /// The system ran and returned this.
    Ran(SystemResult),
}

/// The loop of an interval system: it runs the system at every tick, until shutdown is triggered
/// or a run fails.
pub open spec fn interval_action(event: IntervalEvent) -> IntervalAction {
    match event {
        IntervalEvent::Entered => IntervalAction::Wait,
        IntervalEvent::Ticked => IntervalAction::RunOnce,
        IntervalEvent::ShutDown => IntervalAction::Leave(SystemResult::Completed),
        IntervalEvent::Ran(result) => match result {
            SystemResult::Completed => IntervalAction::Wait,
            SystemResult::Failed(_) => IntervalAction::Leave(result),
        },
    }
}

/// What the loop of an interval system does after `event`.
pub fn next_interval_action(event: IntervalEvent) -> (action: IntervalAction)
    ensures
        action == interval_action(event),
{
    match event {
        IntervalEvent::Entered => IntervalAction::Wait,
        IntervalEvent::Ticked => IntervalAction::RunOnce,
        IntervalEvent::ShutDown => IntervalAction::Leave(SystemResult::Completed),
        IntervalEvent::Ran(SystemResult::Completed) => IntervalAction::Wait,
        IntervalEvent::Ran(SystemResult::Failed(error)) => IntervalAction::Leave(
            SystemResult::Failed(error),
        ),
    }
}

/// An interval system leaves its loop for success only on shutdown, and for failure only with
/// the error of the run that failed.
pub proof fn law_interval_loop_ends(event: IntervalEvent)
    ensures
        interval_action(event) matches IntervalAction::Leave(SystemResult::Completed)
            ==> event is ShutDown,
        interval_action(event) matches IntervalAction::Leave(SystemResult::Failed(error))
            ==> event == IntervalEvent::Ran(SystemResult::Failed(error)),
{
}

/// An interval system runs once for each tick: it waits first, runs at a tick, and waits again
/// after a run that succeeded.
pub proof fn law_interval_system_runs_at_each_tick(event: IntervalEvent, action: IntervalAction)
    requires
        call_ensures(next_interval_action, (event,), action),
    ensures
        action is RunOnce <==> event is Ticked,
        action is Wait <==> event is Entered || event == IntervalEvent::Ran(
            SystemResult::Completed,
        ),
        event is ShutDown ==> action == IntervalAction::Leave(SystemResult::Completed),
        event matches IntervalEvent::Ran(result) && result is Failed ==> action
            == IntervalAction::Leave(event->Ran_0),
{
}

/// A system that returns nothing succeeds.
pub proof fn law_no_result_is_success(output: (), result: SystemResult)
    requires
        call_ensures(<() as SystemOutput>::into_result, (output,), result),
    ensures
        result is Completed,
{
}

/// A system that returns a `Result` fails exactly when that is an error, with the text that the
/// error displays.
pub proof fn law_error_is_failure<E: Display + Send + 'static>(
    output: Result<(), E>,
    result: SystemResult,
)
    requires
        call_ensures(<Result<(), E> as SystemOutput>::into_result, (output,), result),
    ensures
        output is Ok <==> result is Completed,
        output matches Err(error) ==> to_string_from_display_ensures::<E>(&error, result->Failed_0),
{
}

} // verus!
