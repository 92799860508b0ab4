use netlink_dispatcher::dispatcher::{
    judge, runner_program, Action, Dispatcher, Phase, Report, RunError, Trigger, Turn,
};
use netlink_dispatcher::signal::DirtySignal;

fn act(action: Action) -> Option<Turn> {
    Some(Turn { action, failure: None })
}

#[test]
fn runner_is_run_parts() {
    assert_eq!(runner_program(), "run-parts");
}

#[test]
fn successful_exit_is_success() {
    let report = Report::Exited { success: true, status: String::from("exit status: 0") };
    assert_eq!(judge(report), Ok(()));
}

#[test]
fn failed_exit_is_a_status_error() {
    let report = Report::Exited { success: false, status: String::from("exit status: 1") };
    assert_eq!(judge(report), Err(RunError::Status(String::from("exit status: 1"))));
}

#[test]
fn failed_launch_is_a_launch_error() {
    let report = Report::NotStarted { error: String::from("No such file or directory") };
    assert_eq!(judge(report), Err(RunError::Launch(String::from("No such file or directory"))));
}

#[test]
fn status_error_names_the_runner() {
    let error = RunError::Status(String::from("exit status: 3"));
    assert_eq!(error.message(), "run-parts returned exit status: 3");
    assert_eq!(RunError::Status(String::new()).message(), "run-parts returned ");
}

#[test]
fn launch_error_speaks_for_itself() {
    let error = RunError::Launch(String::from("permission denied"));
    assert_eq!(error.message(), "permission denied");
}

#[test]
fn new_dispatcher_waits() {
    assert_eq!(Dispatcher::new().phase(), Phase::Waiting);
}

#[test]
fn waking_on_a_clean_signal_keeps_waiting() {
    let mut signal = DirtySignal::new();
    let mut dispatcher = Dispatcher::new();
    assert_eq!(dispatcher.step(&mut signal, Trigger::Woken), act(Action::AwaitSignal));
    assert_eq!(dispatcher.phase(), Phase::Waiting);
}

#[test]
fn one_cycle_settles_clears_and_runs_once() {
    let mut signal = DirtySignal::new();
    let mut dispatcher = Dispatcher::new();
    signal.mark(0);
    assert_eq!(dispatcher.step(&mut signal, Trigger::Woken), act(Action::Settle));
    assert_eq!(dispatcher.phase(), Phase::Settling);
    assert!(signal.is_dirty());
    signal.mark(1);
    assert_eq!(dispatcher.step(&mut signal, Trigger::Settled), act(Action::Invoke));
    assert_eq!(dispatcher.phase(), Phase::Running);
    assert!(!signal.is_dirty());
    assert_eq!(
        dispatcher.step(&mut signal, Trigger::Completed(Ok(()))),
        act(Action::AwaitSignal)
    );
    assert_eq!(dispatcher.phase(), Phase::Waiting);
}

#[test]
fn events_during_a_run_cause_exactly_one_more_run() {
    let mut signal = DirtySignal::new();
    let mut dispatcher = Dispatcher::new();
    signal.mark(0);
    dispatcher.step(&mut signal, Trigger::Woken);
    dispatcher.step(&mut signal, Trigger::Settled);
    signal.mark(6);
    signal.mark(7);
    signal.mark(8);
    assert_eq!(dispatcher.step(&mut signal, Trigger::Completed(Ok(()))), act(Action::Settle));
    assert_eq!(dispatcher.step(&mut signal, Trigger::Settled), act(Action::Invoke));
    assert_eq!(
        dispatcher.step(&mut signal, Trigger::Completed(Ok(()))),
        act(Action::AwaitSignal)
    );
}

#[test]
fn failed_run_is_reported_and_the_next_event_still_runs() {
    let mut signal = DirtySignal::new();
    let mut dispatcher = Dispatcher::new();
    signal.mark(0);
    dispatcher.step(&mut signal, Trigger::Woken);
    dispatcher.step(&mut signal, Trigger::Settled);
    let outcome = judge(Report::Exited { success: false, status: String::from("exit status: 1") });
    let turn = dispatcher.step(&mut signal, Trigger::Completed(outcome));
    assert_eq!(
        turn,
        Some(Turn {
            action: Action::AwaitSignal,
            failure: Some(RunError::Status(String::from("exit status: 1"))),
        })
    );
    assert_eq!(dispatcher.phase(), Phase::Waiting);
    signal.mark(100);
    assert_eq!(dispatcher.step(&mut signal, Trigger::Woken), act(Action::Settle));
    assert_eq!(dispatcher.step(&mut signal, Trigger::Settled), act(Action::Invoke));
    assert_eq!(
        dispatcher.step(&mut signal, Trigger::Completed(Ok(()))),
        act(Action::AwaitSignal)
    );
}

#[test]
fn unexpected_triggers_change_nothing() {
    let mut signal = DirtySignal::new();
    let mut dispatcher = Dispatcher::new();
    signal.mark(4);
    assert_eq!(dispatcher.step(&mut signal, Trigger::Settled), None);
    assert_eq!(dispatcher.step(&mut signal, Trigger::Completed(Ok(()))), None);
    assert_eq!(dispatcher.phase(), Phase::Waiting);
    assert_eq!(signal.dirty_since, Some(4));
    dispatcher.step(&mut signal, Trigger::Woken);
    assert_eq!(dispatcher.step(&mut signal, Trigger::Woken), None);
    assert_eq!(dispatcher.step(&mut signal, Trigger::Completed(Ok(()))), None);
    assert_eq!(dispatcher.phase(), Phase::Settling);
    assert!(signal.is_dirty());
    dispatcher.step(&mut signal, Trigger::Settled);
    assert_eq!(dispatcher.step(&mut signal, Trigger::Woken), None);
    assert_eq!(dispatcher.step(&mut signal, Trigger::Settled), None);
    assert_eq!(dispatcher.phase(), Phase::Running);
}

#[test]
fn closed_source_ends_the_loop() {
    let mut signal = DirtySignal::new();
    let mut dispatcher = Dispatcher::new();
    signal.close();
    assert_eq!(dispatcher.step(&mut signal, Trigger::Woken), act(Action::Stop));
    assert_eq!(dispatcher.phase(), Phase::Finished);
    assert_eq!(dispatcher.step(&mut signal, Trigger::Woken), None);
    assert_eq!(dispatcher.step(&mut signal, Trigger::Settled), None);
    assert_eq!(dispatcher.step(&mut signal, Trigger::Completed(Ok(()))), None);
    assert_eq!(dispatcher.phase(), Phase::Finished);
}

#[test]
fn pending_change_is_served_before_the_closure() {
    let mut signal = DirtySignal::new();
    let mut dispatcher = Dispatcher::new();
    signal.mark(2);
    signal.close();
    assert_eq!(dispatcher.step(&mut signal, Trigger::Woken), act(Action::Settle));
    assert_eq!(dispatcher.step(&mut signal, Trigger::Settled), act(Action::Invoke));
    assert_eq!(dispatcher.step(&mut signal, Trigger::Completed(Ok(()))), act(Action::Stop));
    assert_eq!(dispatcher.phase(), Phase::Finished);
}

#[test]
fn closure_during_a_run_ends_the_loop_when_the_run_returns() {
    let mut signal = DirtySignal::new();
    let mut dispatcher = Dispatcher::new();
    signal.mark(2);
    dispatcher.step(&mut signal, Trigger::Woken);
    dispatcher.step(&mut signal, Trigger::Settled);
    signal.close();
    assert_eq!(dispatcher.phase(), Phase::Running);
    assert_eq!(dispatcher.step(&mut signal, Trigger::Completed(Ok(()))), act(Action::Stop));
}
