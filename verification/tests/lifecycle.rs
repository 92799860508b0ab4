use netlink_dispatcher::dispatcher::{Action, Dispatcher, Phase, Trigger};
use netlink_dispatcher::event::{
    InnerMessage, NotificationEvent, Payload, RouteDetail, Severity,
};
use netlink_dispatcher::lifecycle::{Directive, Input, Lifecycle, Outcome, Stage};
use netlink_dispatcher::provision::ActivationMode;
use netlink_dispatcher::signal::DirtySignal;

const SECOND: u64 = 1_000_000_000;

fn route() -> RouteDetail {
    RouteDetail { destination: None, gateway: Some(vec![10, 0, 0, 1]) }
}

fn go_on(directive: Directive) -> Outcome {
    Outcome { event: None, level: None, wake: false, directive }
}

fn drain(level: Severity) -> Outcome {
    Outcome { event: None, level: Some(level), wake: true, directive: Directive::AwaitDispatcher }
}

#[test]
fn new_lifecycle_runs() {
    let lifecycle = Lifecycle::new(ActivationMode::Activated, 30 * SECOND, 12);
    assert_eq!(lifecycle.stage(), Stage::Running);
    assert_eq!(lifecycle.last_activity, 12);
    assert_eq!(lifecycle.inactivity_timeout, 30 * SECOND);
    assert_eq!(lifecycle.mode, ActivationMode::Activated);
}

#[test]
fn activated_deadline_is_one_timeout_after_the_last_activity() {
    let lifecycle = Lifecycle::new(ActivationMode::Activated, 30 * SECOND, 0);
    assert_eq!(lifecycle.idle_deadline(), Some(30 * SECOND));
    let later = Lifecycle::new(ActivationMode::Activated, 30 * SECOND, 7);
    assert_eq!(later.idle_deadline(), Some(30 * SECOND + 7));
}

#[test]
fn deadline_beyond_the_clock_is_its_last_instant() {
    let lifecycle = Lifecycle::new(ActivationMode::Activated, u64::MAX, 1);
    assert_eq!(lifecycle.idle_deadline(), Some(u64::MAX));
    assert!(!lifecycle.is_idle(u64::MAX));
}

#[test]
fn self_bound_has_no_deadline_and_is_never_idle() {
    let lifecycle = Lifecycle::new(ActivationMode::SelfBound, 30 * SECOND, 0);
    assert_eq!(lifecycle.idle_deadline(), None);
    assert!(!lifecycle.is_idle(30 * SECOND));
    assert!(!lifecycle.is_idle(u64::MAX));
}

#[test]
fn self_bound_ignores_idle_timeouts() {
    let mut signal = DirtySignal::new();
    let mut lifecycle = Lifecycle::new(ActivationMode::SelfBound, 30 * SECOND, 0);
    let before = lifecycle;
    for now in [0, 30 * SECOND, 31 * SECOND, u64::MAX] {
        assert_eq!(
            lifecycle.step(&mut signal, Input::IdleTimeout, now),
            go_on(Directive::Receive)
        );
        assert_eq!(lifecycle, before);
        assert!(!signal.is_closed());
    }
}

#[test]
fn activated_is_idle_from_the_deadline_on() {
    let lifecycle = Lifecycle::new(ActivationMode::Activated, 30 * SECOND, 5);
    assert!(!lifecycle.is_idle(0));
    assert!(!lifecycle.is_idle(30 * SECOND + 4));
    assert!(lifecycle.is_idle(30 * SECOND + 5));
    assert!(lifecycle.is_idle(u64::MAX));
}

#[test]
fn early_idle_timeout_is_ignored() {
    let mut signal = DirtySignal::new();
    let mut lifecycle = Lifecycle::new(ActivationMode::Activated, 30 * SECOND, 0);
    assert_eq!(
        lifecycle.step(&mut signal, Input::IdleTimeout, 30 * SECOND - 1),
        go_on(Directive::Receive)
    );
    assert_eq!(lifecycle.stage(), Stage::Running);
    assert!(!signal.is_closed());
}

#[test]
fn activated_and_idle_exits_after_thirty_seconds_without_a_run() {
    let mut signal = DirtySignal::new();
    let mut dispatcher = Dispatcher::new();
    let mut lifecycle = Lifecycle::new(ActivationMode::Activated, 30 * SECOND, 0);
    let mut runs = 0;
    let first = dispatcher.step(&mut signal, Trigger::Woken).unwrap();
    assert_eq!(first.action, Action::AwaitSignal);

    let deadline = lifecycle.idle_deadline().unwrap();
    assert_eq!(deadline, 30 * SECOND);
    assert_eq!(
        lifecycle.step(&mut signal, Input::IdleTimeout, deadline),
        drain(Severity::Info)
    );
    assert_eq!(lifecycle.stage(), Stage::Draining);
    assert!(signal.is_closed());

    let last = dispatcher.step(&mut signal, Trigger::Woken).unwrap();
    if last.action == Action::Invoke {
        runs += 1;
    }
    assert_eq!(last.action, Action::Stop);
    assert_eq!(dispatcher.phase(), Phase::Finished);

    assert_eq!(
        lifecycle.step(&mut signal, Input::DispatcherFinished, deadline),
        go_on(Directive::Exit)
    );
    assert_eq!(lifecycle.stage(), Stage::Terminated);
    assert_eq!(runs, 0);
}

#[test]
fn notification_restarts_the_idle_time() {
    let mut signal = DirtySignal::new();
    let mut lifecycle = Lifecycle::new(ActivationMode::Activated, 30 * SECOND, 0);
    lifecycle.step(&mut signal, Input::Notification(Payload::Noop), 20 * SECOND);
    assert_eq!(lifecycle.idle_deadline(), Some(50 * SECOND));
    assert_eq!(
        lifecycle.step(&mut signal, Input::IdleTimeout, 30 * SECOND),
        go_on(Directive::Receive)
    );
    assert_eq!(
        lifecycle.step(&mut signal, Input::IdleTimeout, 50 * SECOND),
        drain(Severity::Info)
    );
}

#[test]
fn actionable_notification_marks_the_signal() {
    let mut signal = DirtySignal::new();
    let mut lifecycle = Lifecycle::new(ActivationMode::SelfBound, 30 * SECOND, 0);
    let outcome = lifecycle.step(
        &mut signal,
        Input::Notification(Payload::Inner(InnerMessage::NewRoute(route()))),
        17,
    );
    assert_eq!(
        outcome,
        Outcome {
            event: Some(NotificationEvent::RouteAdded(route())),
            level: Some(Severity::Info),
            wake: true,
            directive: Directive::Receive,
        }
    );
    assert_eq!(signal.dirty_since, Some(17));
    assert_eq!(lifecycle.last_activity, 17);
}

#[test]
fn second_actionable_notification_wakes_nobody() {
    let mut signal = DirtySignal::new();
    let mut lifecycle = Lifecycle::new(ActivationMode::SelfBound, 30 * SECOND, 0);
    let first = lifecycle.step(
        &mut signal,
        Input::Notification(Payload::Inner(InnerMessage::NewRoute(route()))),
        0,
    );
    let second = lifecycle.step(
        &mut signal,
        Input::Notification(Payload::Inner(InnerMessage::NewRoute(route()))),
        1,
    );
    assert!(first.wake);
    assert!(!second.wake);
    assert_eq!(second.event, Some(NotificationEvent::RouteAdded(route())));
    assert_eq!(signal.dirty_since, Some(0));
    assert_eq!(lifecycle.last_activity, 1);
}

#[test]
fn closing_a_dirty_signal_wakes_nobody() {
    let mut signal = DirtySignal::new();
    let mut lifecycle = Lifecycle::new(ActivationMode::SelfBound, 30 * SECOND, 0);
    lifecycle.step(
        &mut signal,
        Input::Notification(Payload::Inner(InnerMessage::NewRoute(route()))),
        0,
    );
    let outcome = lifecycle.step(&mut signal, Input::StreamEnded, 1);
    assert_eq!(
        outcome,
        Outcome {
            event: None,
            level: Some(Severity::Error),
            wake: false,
            directive: Directive::AwaitDispatcher,
        }
    );
    assert!(signal.is_closed());
    assert!(signal.is_dirty());
}

#[test]
fn unexpected_acknowledgement_sets_no_signal_and_triggers_no_run() {
    let mut signal = DirtySignal::new();
    let mut dispatcher = Dispatcher::new();
    let mut lifecycle = Lifecycle::new(ActivationMode::SelfBound, 30 * SECOND, 0);
    let outcome = lifecycle.step(&mut signal, Input::Notification(Payload::Ack(0)), 3);
    assert_eq!(
        outcome,
        Outcome {
            event: Some(NotificationEvent::Ignored),
            level: Some(Severity::Warning),
            wake: false,
            directive: Directive::Receive,
        }
    );
    assert!(!signal.is_dirty());
    assert_eq!(signal, DirtySignal::new());
    let turn = dispatcher.step(&mut signal, Trigger::Woken).unwrap();
    assert_eq!(turn.action, Action::AwaitSignal);
    assert_eq!(dispatcher.phase(), Phase::Waiting);
}

#[test]
fn no_control_kind_marks_the_signal() {
    for payload in [
        Payload::Done,
        Payload::Error(-22),
        Payload::Ack(0),
        Payload::Noop,
        Payload::Overrun,
        Payload::Inner(InnerMessage::Other(16)),
    ] {
        let mut signal = DirtySignal::new();
        let mut lifecycle = Lifecycle::new(ActivationMode::Activated, 30 * SECOND, 0);
        lifecycle.step(&mut signal, Input::Notification(payload), 1);
        assert!(!signal.is_dirty());
        assert_eq!(lifecycle.stage(), Stage::Running);
        assert_eq!(lifecycle.last_activity, 1);
    }
}

#[test]
fn stream_end_drains_in_either_mode() {
    for mode in [ActivationMode::Activated, ActivationMode::SelfBound] {
        let mut signal = DirtySignal::new();
        let mut lifecycle = Lifecycle::new(mode, 30 * SECOND, 0);
        assert_eq!(lifecycle.step(&mut signal, Input::StreamEnded, 4), drain(Severity::Error));
        assert_eq!(lifecycle.stage(), Stage::Draining);
        assert!(signal.is_closed());
    }
}

#[test]
fn draining_keeps_a_pending_change_for_the_dispatcher() {
    let mut signal = DirtySignal::new();
    let mut dispatcher = Dispatcher::new();
    let mut lifecycle = Lifecycle::new(ActivationMode::SelfBound, 30 * SECOND, 0);
    lifecycle.step(
        &mut signal,
        Input::Notification(Payload::Inner(InnerMessage::DelRoute(route()))),
        1,
    );
    lifecycle.step(&mut signal, Input::StreamEnded, 2);
    assert_eq!(dispatcher.step(&mut signal, Trigger::Woken).unwrap().action, Action::Settle);
    assert_eq!(dispatcher.step(&mut signal, Trigger::Settled).unwrap().action, Action::Invoke);
    assert_eq!(
        dispatcher.step(&mut signal, Trigger::Completed(Ok(()))).unwrap().action,
        Action::Stop
    );
}

#[test]
fn draining_ignores_everything_but_the_dispatchers_end() {
    let mut signal = DirtySignal::new();
    let mut lifecycle = Lifecycle::new(ActivationMode::Activated, 30 * SECOND, 0);
    lifecycle.step(&mut signal, Input::StreamEnded, 4);
    let draining = lifecycle;
    let closed = signal;
    for input in [
        Input::Notification(Payload::Inner(InnerMessage::NewRoute(route()))),
        Input::StreamEnded,
        Input::IdleTimeout,
    ] {
        assert_eq!(
            lifecycle.step(&mut signal, input, 100 * SECOND),
            go_on(Directive::AwaitDispatcher)
        );
        assert_eq!(lifecycle, draining);
        assert_eq!(signal, closed);
    }
}

#[test]
fn terminated_is_final() {
    let mut signal = DirtySignal::new();
    let mut lifecycle = Lifecycle::new(ActivationMode::Activated, 30 * SECOND, 0);
    lifecycle.step(&mut signal, Input::StreamEnded, 4);
    lifecycle.step(&mut signal, Input::DispatcherFinished, 5);
    assert_eq!(lifecycle.stage(), Stage::Terminated);
    let terminated = lifecycle;
    for input in [
        Input::Notification(Payload::Done),
        Input::StreamEnded,
        Input::IdleTimeout,
        Input::DispatcherFinished,
    ] {
        assert_eq!(lifecycle.step(&mut signal, input, 6), go_on(Directive::Exit));
        assert_eq!(lifecycle, terminated);
    }
}

#[test]
fn dispatchers_end_while_running_is_ignored() {
    let mut signal = DirtySignal::new();
    let mut lifecycle = Lifecycle::new(ActivationMode::Activated, 30 * SECOND, 0);
    assert_eq!(
        lifecycle.step(&mut signal, Input::DispatcherFinished, 1),
        go_on(Directive::Receive)
    );
    assert_eq!(lifecycle.stage(), Stage::Running);
    assert!(!signal.is_closed());
}

#[test]
fn every_control_kind_is_logged_and_none_as_a_change() {
    let expected = [
        (Payload::Done, Severity::Error),
        (Payload::Error(-22), Severity::Error),
        (Payload::Ack(0), Severity::Warning),
        (Payload::Noop, Severity::Debug),
        (Payload::Overrun, Severity::Warning),
    ];
    for (payload, level) in expected {
        let mut signal = DirtySignal::new();
        let mut lifecycle = Lifecycle::new(ActivationMode::SelfBound, 30 * SECOND, 0);
        let input = Input::Notification(payload);
        assert_eq!(lifecycle.record_level(&input, 1), Some(level));
        let outcome = lifecycle.step(&mut signal, input, 1);
        assert_eq!(
            outcome,
            Outcome {
                event: Some(NotificationEvent::Ignored),
                level: Some(level),
                wake: false,
                directive: Directive::Receive,
            }
        );
    }
}

#[test]
fn stream_end_is_logged_as_an_error() {
    let lifecycle = Lifecycle::new(ActivationMode::Activated, 30 * SECOND, 0);
    assert_eq!(lifecycle.record_level(&Input::StreamEnded, 9), Some(Severity::Error));
}

#[test]
fn idle_timeout_is_logged_only_when_it_takes_effect() {
    let activated = Lifecycle::new(ActivationMode::Activated, 30 * SECOND, 0);
    assert_eq!(activated.record_level(&Input::IdleTimeout, 30 * SECOND - 1), None);
    assert_eq!(activated.record_level(&Input::IdleTimeout, 30 * SECOND), Some(Severity::Info));
    let self_bound = Lifecycle::new(ActivationMode::SelfBound, 30 * SECOND, 0);
    assert_eq!(self_bound.record_level(&Input::IdleTimeout, u64::MAX), None);
}

#[test]
fn nothing_is_logged_once_the_loop_has_stopped_receiving() {
    let mut signal = DirtySignal::new();
    let mut lifecycle = Lifecycle::new(ActivationMode::Activated, 30 * SECOND, 0);
    lifecycle.step(&mut signal, Input::StreamEnded, 1);
    for input in [
        Input::Notification(Payload::Done),
        Input::StreamEnded,
        Input::IdleTimeout,
        Input::DispatcherFinished,
    ] {
        assert_eq!(lifecycle.record_level(&input, 100 * SECOND), None);
    }
}
