//! The lifecycle controller: the receive loop's state machine.
//!
//! While `Running` the controller takes notifications, marks the debounce
//! signal for the actionable ones and, in a process that was activated by
//! a supervisor, watches for idleness. The end of the notification stream
//! or an idle timeout moves it to `Draining`: the signal source is closed
//! and the dispatcher is waited for. When the dispatcher has finished the
//! controller is `Terminated`.

use vstd::prelude::*;
use crate::event::{classification, classify, reports_change, severity, severity_of,
    NotificationEvent, Payload, Severity};
use crate::provision::ActivationMode;
use crate::signal::DirtySignal;

verus! {

/// The stages of the process, in the order they are passed through.
#[derive(Clone, Copy, Debug, PartialEq, Eq, Structural)]
pub enum Stage {
    Running,
    Draining,
    Terminated,
}

/// What the receive loop's driver reports to the controller.
#[derive(Clone, Debug, PartialEq, Eq)]
pub enum Input {
    /// A notification was received and decoded.
    Notification(Payload),
    /// The notification stream has ended.
    StreamEnded,
    /// The idle timer has fired.
    IdleTimeout,
    /// The dispatcher has left its loop.
    DispatcherFinished,
}

/// What the controller asks of its driver.
#[derive(Clone, Copy, Debug, PartialEq, Eq, Structural)]
pub enum Directive {
    /// Wait for the next notification, and for the idle deadline if there
    /// is one.
    Receive,
    /// The signal source is closed: wait for the dispatcher to finish.
    AwaitDispatcher,
    /// Leave the process, with exit status zero.
    Exit,
}

/// The controller's answer to one input.
#[derive(Clone, Debug, PartialEq, Eq)]
pub struct Outcome {
    /// The event that a notification was classified as, for the log;
    /// `None` for any other input and once the loop has stopped receiving.
    pub event: Option<NotificationEvent>,
    /// The severity at which the input is to be logged; `None` for an
    /// input that is not logged.
    pub level: Option<Severity>,
    /// Whether a consumer that waits on the signal is to be woken: what it
    /// would find has changed.
    pub wake: bool,
    /// What to do next.
    pub directive: Directive,
}

/// The controller's state. Times are readings of one monotonic clock.
#[derive(Clone, Copy, Debug, PartialEq, Eq)]
pub struct Lifecycle {
    pub mode: ActivationMode,
    pub inactivity_timeout: u64,
    pub stage: Stage,
    /// When the process started or last received a notification.
    pub last_activity: u64,
}

/// The place of a stage in the order of stages.
pub open spec fn rank(stage: Stage) -> nat {
    match stage {
        Stage::Running => 0,
        Stage::Draining => 1,
        Stage::Terminated => 2,
    }
}

/// What the driver is asked to do in a stage.
pub open spec fn directive_of(stage: Stage) -> Directive {
    match stage {
        Stage::Running => Directive::Receive,
        Stage::Draining => Directive::AwaitDispatcher,
        Stage::Terminated => Directive::Exit,
    }
}

impl Lifecycle {
    /// Whether the idle timer is armed: only in a running process that a
    /// supervisor activated.
    pub open spec fn armed(self) -> bool {
        self.mode == ActivationMode::Activated && self.stage == Stage::Running
    }

    /// The instant at which the process counts as idle, if the timer is
    /// armed: one inactivity timeout after the last activity.
    pub open spec fn deadline(self) -> Option<nat> {
        if self.armed() {
            Some((self.last_activity + self.inactivity_timeout) as nat)
        } else {
            None
        }
    }

    /// Whether the process counts as idle at `now`: the timer is armed and
    /// the deadline has come.
    pub open spec fn idle(self, now: u64) -> bool {
        self.armed() && now >= self.last_activity + self.inactivity_timeout
    }

    /// The stage after an input at `now`.
    pub open spec fn next_stage(self, input: Input, now: u64) -> Stage {
        match self.stage {
            Stage::Running => match input {
                Input::StreamEnded => Stage::Draining,
                Input::IdleTimeout => if self.idle(now) {
                    Stage::Draining
                } else {
                    Stage::Running
                },
                _ => Stage::Running,
            },
            Stage::Draining => match input {
                Input::DispatcherFinished => Stage::Terminated,
                _ => Stage::Draining,
            },
            Stage::Terminated => Stage::Terminated,
        }
    }

    /// The controller after an input at `now`. A notification that is
    /// received while running, of whatever kind, restarts the idle time.
    pub open spec fn after(self, input: Input, now: u64) -> Lifecycle {
        Lifecycle {
            mode: self.mode,
            inactivity_timeout: self.inactivity_timeout,
            stage: self.next_stage(input, now),
            last_activity: if self.stage == Stage::Running && input is Notification {
                now
            } else {
                self.last_activity
            },
        }
    }

    /// The signal after an input at `now`: marked by an actionable
    /// notification, closed when the controller leaves `Running`, and
    /// otherwise untouched.
    pub open spec fn signal_after(self, signal: DirtySignal, input: Input, now: u64)
        -> DirtySignal {
        if self.stage != Stage::Running {
            signal
        } else if self.next_stage(input, now) != Stage::Running {
            signal.shut()
        } else {
            match input {
                Input::Notification(payload) => if reports_change(payload) {
                    signal.marked(now)
                } else {
                    signal
                },
                _ => signal,
            }
        }
    }

    /// The event that an input is logged as.
    pub open spec fn observed(self, input: Input) -> Option<NotificationEvent> {
        match input {
            Input::Notification(payload) => if self.stage == Stage::Running {
                Some(classification(payload))
            } else {
                None
            },
            _ => None,
        }
    }

    /// The severity at which an input at `now` is logged. While running:
    /// a notification at the severity of its payload, the end of the
    /// stream as an error, an idle timeout as information if the process
    /// counts as idle and not at all if it does not. Nothing else is
    /// logged.
    pub open spec fn recorded(self, input: Input, now: u64) -> Option<Severity> {
        if self.stage != Stage::Running {
            None
        } else {
            match input {
                Input::Notification(payload) => Some(severity_of(payload)),
                Input::StreamEnded => Some(Severity::Error),
                Input::IdleTimeout => if self.idle(now) {
                    Some(Severity::Info)
                } else {
                    None
                },
                Input::DispatcherFinished => None,
            }
        }
    }

    /// The controller after every input of `inputs`, taken in order with
    /// the time it came at.
    pub open spec fn after_all(self, inputs: Seq<(Input, u64)>) -> Lifecycle
        decreases inputs.len(),
    {
        if inputs.len() == 0 {
            self
        } else {
            self.after_all(inputs.drop_last()).after(inputs.last().0, inputs.last().1)
        }
    }

    /// A controller that starts running at `now`.
    pub fn new(mode: ActivationMode, inactivity_timeout: u64, now: u64) -> (lifecycle: Lifecycle)
        ensures
            lifecycle == (Lifecycle {
                mode,
                inactivity_timeout,
                stage: Stage::Running,
                last_activity: now,
            }),
    {
        Lifecycle { mode, inactivity_timeout, stage: Stage::Running, last_activity: now }
    }

    /// The stage the process is in.
    pub fn stage(&self) -> (stage: Stage)
        ensures
            stage == self.stage,
    {
        self.stage
    }

    /// The instant at which the idle timer fires, or `None` if it is not
    /// armed. A deadline beyond the clock's range is given as the clock's
    /// last instant.
    pub fn idle_deadline(&self) -> (deadline: Option<u64>)
        ensures
            deadline is Some <==> self.armed(),
            deadline matches Some(at) ==> self.deadline() matches Some(exact) && at == (
            if exact <= u64::MAX {
                exact
            } else {
                u64::MAX as nat
            }),
    {
        match (self.mode, self.stage) {
            (ActivationMode::Activated, Stage::Running) => {
                if self.inactivity_timeout > u64::MAX - self.last_activity {
                    Some(u64::MAX)
                } else {
                    Some(self.last_activity + self.inactivity_timeout)
                }
            },
            _ => None,
        }
    }

    /// Whether the process counts as idle at `now`.
    pub fn is_idle(&self, now: u64) -> (yes: bool)
        ensures
            yes == self.idle(now),
    {
        match (self.mode, self.stage) {
            (ActivationMode::Activated, Stage::Running) => now >= self.last_activity && now
                - self.last_activity >= self.inactivity_timeout,
            _ => false,
        }
    }

    /// The severity at which an input at `now` is to be logged, or `None`
    /// if it is not to be logged.
    pub fn record_level(&self, input: &Input, now: u64) -> (level: Option<Severity>)
        ensures
            level == self.recorded(*input, now),
    {
        match self.stage {
            Stage::Running => match input {
                Input::Notification(payload) => Some(severity(payload)),
                Input::StreamEnded => Some(Severity::Error),
                Input::IdleTimeout => if self.is_idle(now) {
                    Some(Severity::Info)
                } else {
                    None
                },
                Input::DispatcherFinished => None,
            },
            _ => None,
        }
    }

    /// Takes one input, at `now`.
    ///
    /// While running: a notification is classified, restarts the idle
    /// time and, if it is actionable, marks the signal; the end of the
    /// stream closes the signal and starts draining; so does an idle
    /// timeout, but only if the timer is armed and the deadline has come.
    /// While draining: the dispatcher's end terminates the process.
    /// Everything else changes nothing.
    pub fn step(&mut self, signal: &mut DirtySignal, input: Input, now: u64) -> (outcome: Outcome)
        ensures
            *final(self) == old(self).after(input, now),
            *final(signal) == old(self).signal_after(*old(signal), input, now),
            outcome.event == old(self).observed(input),
            outcome.level == old(self).recorded(input, now),
            outcome.wake == (final(signal).wake() != old(signal).wake()),
            outcome.directive == directive_of(final(self).stage),
    {
        let level = self.record_level(&input, now);
        let found = signal.poll();
        let event = self.advance(signal, input, now);
        let wake = signal.poll() != found;
        let directive = match self.stage {
            Stage::Running => Directive::Receive,
            Stage::Draining => Directive::AwaitDispatcher,
            Stage::Terminated => Directive::Exit,
        };
        Outcome { event, level, wake, directive }
    }

    /// Moves the controller and the signal on by one input and returns
    /// the event that the input is logged as.
    fn advance(&mut self, signal: &mut DirtySignal, input: Input, now: u64) -> (event: Option<
        NotificationEvent,
    >)
        ensures
            *final(self) == old(self).after(input, now),
            *final(signal) == old(self).signal_after(*old(signal), input, now),
            event == old(self).observed(input),
    {
        match self.stage {
            Stage::Running => match input {
                Input::Notification(payload) => {
                    let event = classify(payload);
                    if event.is_actionable() {
                        signal.mark(now);
                    }
                    self.last_activity = now;
                    Some(event)
                },
                Input::StreamEnded => {
                    signal.close();
                    self.stage = Stage::Draining;
                    None
                },
                Input::IdleTimeout => {
                    if self.is_idle(now) {
                        signal.close();
                        self.stage = Stage::Draining;
                    }
                    None
                },
                Input::DispatcherFinished => None,
            },
            Stage::Draining => {
                if let Input::DispatcherFinished = input {
                    self.stage = Stage::Terminated;
                }
                None
            },
            Stage::Terminated => None,
        }
    }
}

/// In a self-bound process no inactivity timeout fires, however long the
/// process has been idle: the timer has no deadline, and an idle timeout
/// that is reported all the same changes neither the controller nor the
/// signal.
pub proof fn self_bound_never_times_out(lifecycle: Lifecycle, signal: DirtySignal, now: u64)
    requires
        lifecycle.mode == ActivationMode::SelfBound,
    ensures
        lifecycle.deadline() is None,
        !lifecycle.idle(now),
        lifecycle.after(Input::IdleTimeout, now) == lifecycle,
        lifecycle.signal_after(signal, Input::IdleTimeout, now) == signal,
{
}

/// A self-bound process stays self-bound, so through any inputs it leaves
/// `Running` only when the notification stream ends.
pub proof fn self_bound_runs_until_stream_ends(lifecycle: Lifecycle, inputs: Seq<(Input, u64)>)
    requires
        lifecycle.mode == ActivationMode::SelfBound,
        lifecycle.stage == Stage::Running,
        forall|k: int| 0 <= k < inputs.len() ==> !((#[trigger] inputs[k]).0 is StreamEnded),
    ensures
        lifecycle.after_all(inputs).mode == ActivationMode::SelfBound,
        lifecycle.after_all(inputs).stage == Stage::Running,
    decreases inputs.len(),
{
    if inputs.len() > 0 {
        let front = inputs.drop_last();
        assert forall|k: int| 0 <= k < front.len() implies !((#[trigger] front[k]).0
            is StreamEnded) by {
            assert(front[k] == inputs[k]);
        }
        self_bound_runs_until_stream_ends(lifecycle, front);
        assert(!(inputs[inputs.len() - 1].0 is StreamEnded));
    }
}

/// In an activated, running process an idle timeout that comes when no
/// notification has arrived for the inactivity timeout or longer closes
/// the signal and starts draining; the dispatcher's end then terminates
/// the process.
pub proof fn idle_timeout_drains(
    lifecycle: Lifecycle,
    signal: DirtySignal,
    now: u64,
    later: u64,
)
    requires
        lifecycle.mode == ActivationMode::Activated,
        lifecycle.stage == Stage::Running,
        now - lifecycle.last_activity >= lifecycle.inactivity_timeout,
    ensures
        lifecycle.after(Input::IdleTimeout, now).stage == Stage::Draining,
        lifecycle.signal_after(signal, Input::IdleTimeout, now) == signal.shut(),
        lifecycle.after(Input::IdleTimeout, now).after(Input::DispatcherFinished, later).stage
            == Stage::Terminated,
{
}

/// No input takes the process back: the stage after an input is the same
/// or a later one, and `Terminated` is final.
pub proof fn stages_only_advance(lifecycle: Lifecycle, input: Input, now: u64)
    ensures
        rank(lifecycle.stage) <= rank(lifecycle.after(input, now).stage) <= rank(lifecycle.stage)
            + 1,
        lifecycle.stage == Stage::Terminated ==> lifecycle.after(input, now) == lifecycle,
{
}

/// Through any inputs the stage never goes back. So `Draining` and
/// `Terminated` are each entered at most once: a process that has started
/// draining drains once, and terminates once.
pub proof fn each_stage_is_entered_once(
    lifecycle: Lifecycle,
    inputs: Seq<(Input, u64)>,
    i: int,
    j: int,
)
    requires
        0 <= i <= j <= inputs.len(),
    ensures
        rank(lifecycle.after_all(inputs.take(i)).stage) <= rank(
            lifecycle.after_all(inputs.take(j)).stage,
        ),
    decreases j - i,
{
    if i < j {
        each_stage_is_entered_once(lifecycle, inputs, i, j - 1);
        assert(inputs.take(j).drop_last() =~= inputs.take(j - 1));
        stages_only_advance(
            lifecycle.after_all(inputs.take(j - 1)),
            inputs.take(j).last().0,
            inputs.take(j).last().1,
        );
    }
}

/// The signal source is open exactly while the controller is running:
/// every input keeps it so.
pub proof fn source_closes_with_running(
    lifecycle: Lifecycle,
    signal: DirtySignal,
    input: Input,
    now: u64,
)
    requires
        signal.closed <==> lifecycle.stage != Stage::Running,
    ensures
        lifecycle.signal_after(signal, input, now).closed <==> lifecycle.after(input, now).stage
            != Stage::Running,
{
}

/// The end of the notification stream is logged as an error whenever it
/// ends a running process, and a control kind is never logged as a change:
/// it is logged, but at another severity than information.
pub proof fn trouble_is_logged(lifecycle: Lifecycle, payload: Payload, now: u64)
    requires
        lifecycle.stage == Stage::Running,
    ensures
        lifecycle.recorded(Input::StreamEnded, now) == Some(Severity::Error),
        lifecycle.recorded(Input::Notification(payload), now) is Some,
        !reports_change(payload) ==> lifecycle.recorded(Input::Notification(payload), now)
            != Some(Severity::Info),
{
}

/// Only a notification that reports a change marks the signal: control
/// kinds and unrelated messages leave it as it is.
pub proof fn only_changes_mark(lifecycle: Lifecycle, signal: DirtySignal, payload: Payload, now: u64)
    requires
        !reports_change(payload),
    ensures
        lifecycle.signal_after(signal, Input::Notification(payload), now) == signal,
{
}

} // verus!
