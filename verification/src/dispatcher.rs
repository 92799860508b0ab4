//! The script dispatcher: a sequential consumer of the debounce signal.
//!
//! The dispatcher is a state machine. Its driver performs the action of
//! each turn (wait, sleep, invoke) and hands back what happened; the
//! machine decides what comes next. A run starts only from `Settling` and
//! the machine leaves `Running` only when the run has returned, so runs
//! never overlap.

use vstd::prelude::*;
use vstd::string::StringExecFns;
use crate::signal::{DirtySignal, Wake};

verus! {

/// Where the dispatcher stands in its cycle.
#[derive(Clone, Copy, Debug, PartialEq, Eq, Structural)]
pub enum Phase {
    /// Suspended until the signal turns dirty or its source is closed.
    Waiting,
    /// Sleeping through the settle window.
    Settling,
    /// The script-running facility is at work.
    Running,
    /// The loop has ended.
    Finished,
}

/// What the dispatcher asks of its driver.
#[derive(Clone, Copy, Debug, PartialEq, Eq, Structural)]
pub enum Action {
    /// Suspend until the signal is marked or closed, then report `Woken`.
    AwaitSignal,
    /// Sleep for the settle timeout, then report `Settled`.
    Settle,
    /// Invoke the script-running facility, then report `Completed`.
    Invoke,
    /// Leave the loop.
    Stop,
}

/// What the script-running facility reported, in plain values.
#[derive(Clone, Debug, PartialEq, Eq)]
pub enum Report {
    /// The facility ran and exited; `status` is its exit status in words.
    Exited { success: bool, status: String },
    /// The facility could not be started; `error` says why.
    NotStarted { error: String },
}

/// Why a script run counts as failed.
#[derive(Clone, Debug, PartialEq, Eq)]
pub enum RunError {
    /// The facility could not be started.
    Launch(String),
    /// The facility exited with a status other than success.
    Status(String),
}

/// What the driver hands back to the dispatcher.
#[derive(Debug, PartialEq, Eq)]
pub enum Trigger {
    /// The wait on the signal returned, or the loop is just starting.
    Woken,
    /// The settle sleep is over.
    Settled,
    /// The script-running facility returned.
    Completed(Result<(), RunError>),
}

/// One decision of the dispatcher: what to do next, and the failure of the
/// run that just ended, to be logged as an error.
#[derive(Clone, Debug, PartialEq, Eq)]
pub struct Turn {
    pub action: Action,
    pub failure: Option<RunError>,
}

/// The dispatcher's state.
#[derive(Clone, Copy, Debug, PartialEq, Eq)]
pub struct Dispatcher {
    pub phase: Phase,
}

/// The name of the program that runs every script of a directory.
pub open spec fn runner_name() -> Seq<char> {
    "run-parts"@
}

/// The words that a failed exit status is reported with, before the status.
pub open spec fn status_preamble() -> Seq<char> {
    "run-parts returned "@
}

/// The verdict on a report: success if and only if the facility ran and
/// exited with success.
pub open spec fn verdict(report: Report) -> Result<(), RunError> {
    match report {
        Report::Exited { success, status } => if success {
            Ok(())
        } else {
            Err(RunError::Status(status))
        },
        Report::NotStarted { error } => Err(RunError::Launch(error)),
    }
}

/// Whether `trigger` is the one that `phase` waits for.
pub open spec fn expected(phase: Phase, trigger: Trigger) -> bool {
    match phase {
        Phase::Waiting => trigger is Woken,
        Phase::Settling => trigger is Settled,
        Phase::Running => trigger is Completed,
        Phase::Finished => false,
    }
}

/// The phase that a dispatcher enters when it looks at the signal for
/// work: a pending change starts a settle window, even if the source is
/// closed by now; a closed source with nothing pending ends the loop.
pub open spec fn resumed(signal: DirtySignal) -> Phase {
    match signal.wake() {
        Wake::Changed => Phase::Settling,
        Wake::Closed => Phase::Finished,
        Wake::Pending => Phase::Waiting,
    }
}

/// The phase after `trigger`. A trigger that the phase does not wait for
/// changes nothing.
pub open spec fn next_phase(phase: Phase, signal: DirtySignal, trigger: Trigger) -> Phase {
    if !expected(phase, trigger) {
        phase
    } else if phase == Phase::Settling {
        Phase::Running
    } else {
        resumed(signal)
    }
}

/// The signal after `trigger`: the end of the settle window clears it,
/// nothing else touches it.
pub open spec fn next_signal(phase: Phase, signal: DirtySignal, trigger: Trigger) -> DirtySignal {
    if phase == Phase::Settling && trigger is Settled {
        signal.cleared()
    } else {
        signal
    }
}

/// What the driver is asked to do while the dispatcher is in `phase`.
pub open spec fn action_of(phase: Phase) -> Action {
    match phase {
        Phase::Waiting => Action::AwaitSignal,
        Phase::Settling => Action::Settle,
        Phase::Running => Action::Invoke,
        Phase::Finished => Action::Stop,
    }
}

/// The failure that a trigger reports, if any.
pub open spec fn failure_of(trigger: Trigger) -> Option<RunError> {
    match trigger {
        Trigger::Completed(Err(error)) => Some(error),
        _ => None,
    }
}

/// The name of the program that runs every script of a directory.
pub fn runner_program() -> (name: &'static str)
    ensures
        name@ == runner_name(),
{
    "run-parts"
}

/// Judges what the script-running facility reported: a run succeeded if
/// and only if the facility started and exited with success.
pub fn judge(report: Report) -> (outcome: Result<(), RunError>)
    ensures
        outcome == verdict(report),
{
    match report {
        Report::Exited { success, status } => {
            if success {
                Ok(())
            } else {
                Err(RunError::Status(status))
            }
        },
        Report::NotStarted { error } => Err(RunError::Launch(error)),
    }
}

impl RunError {
    /// The failure in words.
    pub open spec fn text(self) -> Seq<char> {
        match self {
            RunError::Launch(error) => error@,
            RunError::Status(status) => status_preamble() + status@,
        }
    }

    /// The failure in words, for the log.
    pub fn message(&self) -> (words: String)
        ensures
            words@ == self.text(),
    {
        match self {
            RunError::Launch(error) => error.clone(),
            RunError::Status(status) => {
                let mut words = String::from_str("run-parts returned ");
                words.append(status.as_str());
                words
            },
        }
    }
}

impl Dispatcher {
    /// A dispatcher that waits for its first signal.
    pub fn new() -> (dispatcher: Dispatcher)
        ensures
            dispatcher.phase == Phase::Waiting,
    {
        Dispatcher { phase: Phase::Waiting }
    }

    /// The phase the dispatcher is in.
    pub fn phase(&self) -> (phase: Phase)
        ensures
            phase == self.phase,
    {
        self.phase
    }

    /// Takes one turn. Returns `None`, and changes nothing, if `trigger`
    /// is not what the current phase waits for. Otherwise:
    ///
    /// - at the end of the settle window the signal is read and cleared
    ///   and a run is asked for;
    /// - on waking, and when a run has returned, whether it failed or not,
    ///   the dispatcher looks at the signal: a pending change opens a new
    ///   settle window, a closed source ends the loop, and with neither it
    ///   waits.
    pub fn step(&mut self, signal: &mut DirtySignal, trigger: Trigger) -> (turn: Option<Turn>)
        ensures
            final(self).phase == next_phase(old(self).phase, *old(signal), trigger),
            *final(signal) == next_signal(old(self).phase, *old(signal), trigger),
            turn is Some <==> expected(old(self).phase, trigger),
            turn matches Some(t) ==> t.action == action_of(final(self).phase) && t.failure
                == failure_of(trigger),
    {
        match self.phase {
            Phase::Waiting => match trigger {
                Trigger::Woken => Some(Turn { action: self.resume(signal), failure: None }),
                _ => None,
            },
            Phase::Settling => match trigger {
                Trigger::Settled => {
                    signal.take();
                    self.phase = Phase::Running;
                    Some(Turn { action: Action::Invoke, failure: None })
                },
                _ => None,
            },
            Phase::Running => match trigger {
                Trigger::Completed(outcome) => {
                    let failure = match outcome {
                        Ok(_) => None,
                        Err(error) => Some(error),
                    };
                    Some(Turn { action: self.resume(signal), failure })
                },
                _ => None,
            },
            Phase::Finished => None,
        }
    }

    /// Looks at the signal for work and enters the phase that it calls for.
    fn resume(&mut self, signal: &DirtySignal) -> (action: Action)
        ensures
            final(self).phase == resumed(*signal),
            action == action_of(final(self).phase),
    {
        match signal.poll() {
            Wake::Changed => {
                self.phase = Phase::Settling;
                Action::Settle
            },
            Wake::Closed => {
                self.phase = Phase::Finished;
                Action::Stop
            },
            Wake::Pending => {
                self.phase = Phase::Waiting;
                Action::AwaitSignal
            },
        }
    }
}

/// A run is asked for only at the end of a settle window, and the
/// dispatcher leaves `Running` only when the run has returned: while a run
/// is in flight no turn asks for another.
pub proof fn runs_are_serialized(phase: Phase, signal: DirtySignal, trigger: Trigger)
    ensures
        next_phase(phase, signal, trigger) == Phase::Running ==> (phase == Phase::Settling
            && trigger is Settled) || (phase == Phase::Running && !(trigger is Completed)),
        phase == Phase::Running && trigger is Completed ==> next_phase(phase, signal, trigger)
            != Phase::Running,
{
}

/// A failed run ends like a successful one: the phase and the signal that
/// follow do not depend on the outcome.
pub proof fn failure_does_not_stop(signal: DirtySignal, error: RunError)
    ensures
        next_phase(Phase::Running, signal, Trigger::Completed(Err(error))) == next_phase(
            Phase::Running,
            signal,
            Trigger::Completed(Ok(())),
        ),
        !signal.closed ==> next_phase(Phase::Running, signal, Trigger::Completed(Err(error)))
            != Phase::Finished,
{
}

/// The loop ends only when the source is closed and nothing is pending,
/// and once ended it stays ended.
pub proof fn finishes_only_when_closed(phase: Phase, signal: DirtySignal, trigger: Trigger)
    ensures
        phase != Phase::Finished && next_phase(phase, signal, trigger) == Phase::Finished
            ==> signal.closed && !signal.dirty(),
        phase == Phase::Finished ==> next_phase(phase, signal, trigger) == Phase::Finished,
{
}

/// The trigger that a phase waits for; of the outcomes of a run, the
/// successful one.
pub open spec fn awaited(phase: Phase) -> Trigger {
    match phase {
        Phase::Settling => Trigger::Settled,
        Phase::Running => Trigger::Completed(Ok(())),
        _ => Trigger::Woken,
    }
}

/// The dispatcher and the signal one turn later, when the driver hands
/// back what the phase waits for and nobody else touches the signal.
pub open spec fn turned(state: (Phase, DirtySignal)) -> (Phase, DirtySignal) {
    (
        next_phase(state.0, state.1, awaited(state.0)),
        next_signal(state.0, state.1, awaited(state.0)),
    )
}

/// Once the source is closed the loop ends within three turns, wherever
/// the dispatcher stands, and at most one settle window opens or ends on
/// the way: the run in flight is finished, a pending change is served by
/// one last run, and no run follows it.
pub proof fn closed_source_drains(phase: Phase, signal: DirtySignal)
    requires
        signal.closed,
    ensures
        turned(turned(turned((phase, signal)))).0 == Phase::Finished,
        phase == Phase::Settling ==> turned((phase, signal)).0 != Phase::Settling && turned(
            turned((phase, signal)),
        ).0 != Phase::Settling,
        turned((phase, signal)).0 == Phase::Settling ==> turned(turned((phase, signal))).0
            != Phase::Settling,
        !signal.dirty() && phase != Phase::Settling ==> turned((phase, signal)).0
            == Phase::Finished,
{
}

} // verus!
