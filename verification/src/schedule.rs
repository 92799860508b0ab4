//! The timing of script runs, as a function of the arrival times of the
//! actionable events and of how long each run takes.
//!
//! `schedule` is the model: the runs that a settle timeout makes of a
//! sequence of arrival times, when the first run lasts the first of the
//! given durations, the second the second, and so on. `replay` drives the
//! debounce signal and the dispatcher through the same arrivals on a
//! virtual clock and is proved to produce exactly the model's runs. The
//! laws of the pipeline (bursts coalesce, separated events each get a run,
//! runs never overlap, no event is lost) are proved of the model.

use vstd::prelude::*;
use crate::dispatcher::{Action, Dispatcher, Phase, Trigger};
use crate::signal::DirtySignal;

verus! {

/// One script run on the virtual clock.
#[derive(Clone, Copy, Debug, PartialEq, Eq)]
pub struct Run {
    /// When the signal was cleared and the facility invoked.
    pub start: u64,
    /// When the facility returned.
    pub end: u64,
}

/// One script run of the model.
pub struct Span {
    pub start: nat,
    pub end: nat,
}

impl View for Run {
    type V = Span;

    open spec fn view(&self) -> Span {
        Span { start: self.start as nat, end: self.end as nat }
    }
}

/// Why a replay gives no runs.
#[derive(Clone, Copy, Debug, PartialEq, Eq, Structural)]
pub enum ReplayError {
    /// An event is dated before its predecessor.
    OutOfOrder,
    /// A run would end after the last instant of the clock.
    Overflow,
}

/// Arrival times as the model sees them.
pub open spec fn moments(events: Seq<u64>) -> Seq<nat> {
    events.map_values(|t: u64| t as nat)
}

/// Run durations as the model sees them.
pub open spec fn lengths(durations: Seq<u64>) -> Seq<nat> {
    durations.map_values(|d: u64| d as nat)
}

/// Runs as the model sees them.
pub open spec fn spans(runs: Seq<Run>) -> Seq<Span> {
    runs.map_values(|r: Run| r@)
}

/// Arrival times that never go back.
pub open spec fn ordered(times: Seq<nat>) -> bool {
    forall|i: int, j: int| 0 <= i <= j < times.len() ==> times[i] <= times[j]
}

/// Runs that all end within the clock's range.
pub open spec fn fits(runs: Seq<Span>) -> bool {
    forall|k: int| 0 <= k < runs.len() ==> (#[trigger] runs[k]).end <= u64::MAX
}

/// How long run `k` lasts: the duration given for it, and no time at all
/// where none is given.
pub open spec fn lasting(durations: Seq<nat>, k: int) -> nat {
    if 0 <= k < durations.len() {
        durations[k]
    } else {
        0
    }
}

/// The run that starts at `start` and lasts `duration`.
pub open spec fn span_at(start: nat, duration: nat) -> Span {
    Span { start, end: start + duration }
}

/// The later of two instants.
pub open spec fn later(a: nat, b: nat) -> nat {
    if a >= b {
        a
    } else {
        b
    }
}

/// The schedule after one more event, at `at`. An event that arrives no
/// later than the start of the latest run is absorbed by that run's settle
/// window. Any other event causes a new run, which starts one settle
/// window after the event or after the end of the latest run, whichever is
/// later.
pub open spec fn extend(runs: Seq<Span>, at: nat, settle: nat, durations: Seq<nat>) -> Seq<Span> {
    if runs.len() > 0 && at <= runs.last().start {
        runs
    } else {
        let ready = if runs.len() > 0 {
            runs.last().end
        } else {
            0
        };
        runs.push(span_at(later(at, ready) + settle, lasting(durations, runs.len() as int)))
    }
}

/// The runs that a sequence of arrival times leads to.
pub open spec fn schedule(events: Seq<nat>, settle: nat, durations: Seq<nat>) -> Seq<Span>
    decreases events.len(),
{
    if events.len() == 0 {
        Seq::empty()
    } else {
        extend(schedule(events.drop_last(), settle, durations), events.last(), settle, durations)
    }
}

/// Whether `short` is a prefix of `long`.
pub open spec fn begins(long: Seq<Span>, short: Seq<Span>) -> bool {
    short.len() <= long.len() && forall|k: int| 0 <= k < short.len() ==> long[k] == short[k]
}

/// The schedule of the first `i + 1` events is the schedule of the first
/// `i`, extended by event `i`.
proof fn schedule_unfolds(events: Seq<nat>, settle: nat, durations: Seq<nat>, i: int)
    requires
        0 <= i < events.len(),
    ensures
        schedule(events.take(i + 1), settle, durations) == extend(
            schedule(events.take(i), settle, durations),
            events[i],
            settle,
            durations,
        ),
{
    assert(events.take(i + 1).drop_last() =~= events.take(i));
}

/// Every run of the schedule lasts what is given for it: run `k` ends
/// `lasting(durations, k)` after it starts.
pub proof fn runs_last_their_duration(events: Seq<nat>, settle: nat, durations: Seq<nat>)
    ensures
        forall|k: int|
            0 <= k < schedule(events, settle, durations).len() ==> (#[trigger] schedule(
                events,
                settle,
                durations,
            )[k]).end == schedule(events, settle, durations)[k].start + lasting(durations, k),
    decreases events.len(),
{
    let all = schedule(events, settle, durations);
    if events.len() > 0 {
        let front = schedule(events.drop_last(), settle, durations);
        runs_last_their_duration(events.drop_last(), settle, durations);
        assert(all == extend(front, events.last(), settle, durations));
        assert forall|k: int| 0 <= k < all.len() implies (#[trigger] all[k]).end == all[k].start
            + lasting(durations, k) by {
            if k < front.len() {
                assert(all[k] == front[k]);
            }
        }
    }
}

/// The schedule of a prefix of the events is a prefix of the schedule:
/// later events add runs and change none.
pub proof fn schedule_grows(events: Seq<nat>, settle: nat, durations: Seq<nat>, i: int)
    requires
        0 <= i <= events.len(),
    ensures
        begins(schedule(events, settle, durations), schedule(events.take(i), settle, durations)),
    decreases events.len() - i,
{
    let all = schedule(events, settle, durations);
    let short = schedule(events.take(i), settle, durations);
    if i == events.len() {
        assert(events.take(i) =~= events);
    } else {
        let longer = schedule(events.take(i + 1), settle, durations);
        schedule_unfolds(events, settle, durations, i);
        schedule_grows(events, settle, durations, i + 1);
        assert(begins(longer, short));
        assert forall|k: int| 0 <= k < short.len() implies all[k] == short[k] by {
            assert(longer[k] == short[k]);
            assert(all[k] == longer[k]);
        }
    }
}

/// Coalescing: events that all arrive within one settle window of the
/// first of them lead to exactly one run, which starts when that window
/// closes.
pub proof fn burst_coalesces(events: Seq<nat>, settle: nat, durations: Seq<nat>)
    requires
        events.len() > 0,
        forall|k: int| 0 <= k < events.len() ==> #[trigger] events[k] <= events[0] + settle,
    ensures
        schedule(events, settle, durations) == seq![
            span_at(events[0] + settle, lasting(durations, 0)),
        ],
    decreases events.len(),
{
    let front = events.drop_last();
    if events.len() == 1 {
        assert(front.len() == 0);
        assert(schedule(front, settle, durations) =~= Seq::<Span>::empty());
    } else {
        assert(front[0] == events[0]);
        burst_coalesces(front, settle, durations);
    }
    assert(schedule(events, settle, durations) =~= seq![
        span_at(events[0] + settle, lasting(durations, 0)),
    ]);
}

/// No dropped triggers: when each event arrives more than a settle window
/// and the duration of the run before it after its predecessor, every
/// event gets a run of its own, none is merged with another, and run `i`
/// starts one settle window after event `i` and has ended before the next
/// event arrives. The runs may each last a different time.
pub proof fn separated_events_each_run(events: Seq<nat>, settle: nat, durations: Seq<nat>)
    requires
        forall|i: int|
            0 <= i < events.len() - 1 ==> events[i] + settle + lasting(durations, i)
                < #[trigger] events[i + 1],
    ensures
        schedule(events, settle, durations).len() == events.len(),
        forall|i: int|
            0 <= i < events.len() ==> #[trigger] schedule(events, settle, durations)[i]
                == span_at(events[i] + settle, lasting(durations, i)),
        forall|i: int|
            0 <= i < events.len() - 1 ==> schedule(events, settle, durations)[i].end
                < #[trigger] events[i + 1],
    decreases events.len(),
{
    if events.len() > 0 {
        let front = events.drop_last();
        let before = schedule(front, settle, durations);
        let all = schedule(events, settle, durations);
        assert forall|i: int| 0 <= i < front.len() - 1 implies front[i] + settle + lasting(
            durations,
            i,
        ) < #[trigger] front[i + 1] by {
            assert(front[i + 1] == events[i + 1]);
        }
        separated_events_each_run(front, settle, durations);
        if front.len() > 0 {
            let last = front.len() - 1;
            assert(events[last] + settle + lasting(durations, last) < events[last + 1]);
            assert(before[last] == span_at(front[last] + settle, lasting(durations, last)));
        }
        assert(all == before.push(
            span_at(events.last() + settle, lasting(durations, front.len() as int)),
        ));
        assert forall|i: int| 0 <= i < events.len() implies #[trigger] all[i] == span_at(
            events[i] + settle,
            lasting(durations, i),
        ) by {
            if i < front.len() {
                assert(all[i] == before[i]);
            }
        }
        assert forall|i: int| 0 <= i < events.len() - 1 implies all[i].end < #[trigger] events[i
            + 1] by {
            assert(all[i] == span_at(events[i] + settle, lasting(durations, i)));
        }
    }
}

/// Serialization: whatever the arrival pattern and however long each run
/// takes, a run starts only after every earlier run has ended.
pub proof fn runs_never_overlap(events: Seq<nat>, settle: nat, durations: Seq<nat>)
    ensures
        forall|i: int, j: int|
            0 <= i < j < schedule(events, settle, durations).len() ==> (#[trigger] schedule(
                events,
                settle,
                durations,
            )[i]).end <= (#[trigger] schedule(events, settle, durations)[j]).start,
    decreases events.len(),
{
    let all = schedule(events, settle, durations);
    if events.len() > 0 {
        let front = events.drop_last();
        let before = schedule(front, settle, durations);
        runs_never_overlap(front, settle, durations);
        runs_last_their_duration(front, settle, durations);
        assert(all == extend(before, events.last(), settle, durations));
        assert forall|i: int, j: int| 0 <= i < j < all.len() implies (#[trigger] all[i]).end <= (
        #[trigger] all[j]).start by {
            if j < before.len() {
                assert(all[i] == before[i]);
                assert(all[j] == before[j]);
            } else {
                let last = before.len() - 1;
                assert(all[i] == before[i]);
                assert(before[last].end == before[last].start + lasting(durations, last));
                if i < last {
                    assert(before[i].end <= before[last].start);
                }
            }
        }
    }
}

/// A schedule holds at most one run per event, and at least one run if
/// there is any event.
pub proof fn no_more_runs_than_events(events: Seq<nat>, settle: nat, durations: Seq<nat>)
    ensures
        schedule(events, settle, durations).len() <= events.len(),
        events.len() > 0 ==> schedule(events, settle, durations).len() > 0,
    decreases events.len(),
{
    if events.len() > 0 {
        no_more_runs_than_events(events.drop_last(), settle, durations);
    }
}

/// The latest run starts at or after the latest event, and no later than a
/// settle window and the longest run duration after it.
proof fn latest_run_serves_latest_event(
    events: Seq<nat>,
    settle: nat,
    durations: Seq<nat>,
    longest: nat,
)
    requires
        ordered(events),
        events.len() > 0,
        forall|k: int| 0 <= k < durations.len() ==> #[trigger] durations[k] <= longest,
    ensures
        schedule(events, settle, durations).len() > 0,
        events.last() <= schedule(events, settle, durations).last().start <= events.last()
            + settle + longest,
    decreases events.len(),
{
    let front = events.drop_last();
    let before = schedule(front, settle, durations);
    if front.len() > 0 {
        assert(ordered(front)) by {
            assert forall|i: int, j: int| 0 <= i <= j < front.len() implies front[i]
                <= front[j] by {
                assert(events[i] <= events[j]);
            }
        }
        latest_run_serves_latest_event(front, settle, durations, longest);
        runs_last_their_duration(front, settle, durations);
        assert(front.last() == events[events.len() - 2]);
        assert(events[events.len() - 2] <= events[events.len() - 1]);
        let last = before.len() - 1;
        assert(before[last].end == before[last].start + lasting(durations, last));
        assert(lasting(durations, last) <= longest);
    } else {
        assert(before.len() == 0);
    }
}

/// No lost triggers, and bounded latency: for every event there is a run
/// that starts at or after the event, and no later than a settle window
/// and the longest run duration after it.
pub proof fn every_event_is_served(
    events: Seq<nat>,
    settle: nat,
    durations: Seq<nat>,
    longest: nat,
    k: int,
)
    requires
        ordered(events),
        0 <= k < events.len(),
        forall|i: int| 0 <= i < durations.len() ==> #[trigger] durations[i] <= longest,
    ensures
        exists|r: int|
            0 <= r < schedule(events, settle, durations).len() && events[k] <= (
            #[trigger] schedule(events, settle, durations)[r]).start <= events[k] + settle
                + longest,
{
    let upto = events.take(k + 1);
    let all = schedule(events, settle, durations);
    let part = schedule(upto, settle, durations);
    assert(ordered(upto)) by {
        assert forall|i: int, j: int| 0 <= i <= j < upto.len() implies upto[i] <= upto[j] by {
            assert(events[i] <= events[j]);
        }
    }
    latest_run_serves_latest_event(upto, settle, durations, longest);
    schedule_grows(events, settle, durations, k + 1);
    let r = part.len() - 1;
    assert(all[r] == part[r]);
    assert(upto.last() == events[k]);
    assert(events[k] <= all[r].start <= events[k] + settle + longest);
}

/// The run that the dispatcher already owes to the events it has seen but
/// has not started yet: the one it is settling for, or the one that a
/// signal marked during a run will cause when the run returns at `alarm`.
spec fn owed(phase: Phase, dirty: bool, alarm: nat, settle: nat, duration: nat) -> Seq<Span> {
    if phase == Phase::Settling {
        seq![span_at(alarm, duration)]
    } else if phase == Phase::Running && dirty {
        seq![span_at(alarm + settle, duration)]
    } else {
        Seq::empty()
    }
}

/// How far a replay is from its end: every event still to come counts
/// four, the work the dispatcher still has to do without one counts less.
spec fn remaining(left: int, phase: Phase, dirty: bool) -> int {
    let work: int = match phase {
        Phase::Running => if dirty {
            3int
        } else {
            1int
        },
        Phase::Settling => 2int,
        _ => 0int,
    };
    4 * left + work
}

/// Whether the arrival times never go back.
pub fn is_ordered(events: &Vec<u64>) -> (yes: bool)
    ensures
        yes == ordered(moments(events@)),
{
    let ghost times = moments(events@);
    let mut i: usize = 1;
    while i < events.len()
        invariant
            1 <= i,
            times == moments(events@),
            forall|a: int, b: int| 0 <= a <= b < i && b < times.len() ==> times[a] <= times[b],
        decreases events.len() - i,
    {
        if events[i - 1] > events[i] {
            assert(times[i - 1] > times[i as int]);
            return false;
        }
        assert forall|a: int, b: int| 0 <= a <= b < i + 1 && b < times.len() implies times[a]
            <= times[b] by {
            if b == i && a < i {
                assert(times[a] <= times[i - 1]);
            }
        }
        i += 1;
    }
    true
}

/// Replays arrivals on a virtual clock. Each event marks the debounce
/// signal at its arrival time; the dispatcher is woken, sleeps through the
/// settle window, clears the signal and runs, turn by turn, exactly as its
/// state machine decides. The first run lasts `durations[0]`, the second
/// `durations[1]`, and so on; a run for which no duration is given returns
/// at once. An event that arrives at the very instant a sleep or a run
/// ends is taken first.
///
/// Returns the runs in the order they started: the schedule of the model.
/// Fails with `OutOfOrder` if and only if the arrival times go back
/// somewhere, and with `Overflow` if and only if they do not but a run of
/// the schedule would end beyond the clock's range.
pub fn replay(events: &Vec<u64>, settle: u64, durations: &Vec<u64>) -> (result: Result<
    Vec<Run>,
    ReplayError,
>)
    ensures
        match result {
            Ok(runs) => ordered(moments(events@)) && spans(runs@) == schedule(
                moments(events@),
                settle as nat,
                lengths(durations@),
            ),
            Err(ReplayError::OutOfOrder) => !ordered(moments(events@)),
            Err(ReplayError::Overflow) => ordered(moments(events@)) && !fits(
                schedule(moments(events@), settle as nat, lengths(durations@)),
            ),
        },
        result is Ok <==> ordered(moments(events@)) && fits(
            schedule(moments(events@), settle as nat, lengths(durations@)),
        ),
{
    if !is_ordered(events) {
        return Err(ReplayError::OutOfOrder);
    }
    let ghost times = moments(events@);
    let ghost s = settle as nat;
    let ghost ds = lengths(durations@);
    let mut signal = DirtySignal::new();
    let mut dispatcher = Dispatcher::new();
    let mut runs: Vec<Run> = Vec::new();
    let mut alarm: Option<u64> = None;
    let mut i: usize = 0;
    assert(times.take(0) =~= Seq::<nat>::empty());
    assert(spans(runs@) =~= Seq::<Span>::empty());
    while i < events.len() || alarm.is_some()
        invariant
            i <= events@.len(),
            times == moments(events@),
            s == settle as nat,
            ds == lengths(durations@),
            ordered(times),
            !signal.closed,
            dispatcher.phase != Phase::Finished,
            dispatcher.phase == Phase::Waiting <==> alarm is None,
            dispatcher.phase == Phase::Waiting ==> !signal.dirty(),
            dispatcher.phase == Phase::Settling ==> signal.dirty(),
            alarm matches Some(a) ==> schedule(times.take(i as int), s, ds) == spans(runs@)
                + owed(
                dispatcher.phase,
                signal.dirty(),
                a as nat,
                s,
                lasting(ds, runs@.len() as int),
            ),
            alarm is None ==> schedule(times.take(i as int), s, ds) == spans(runs@),
            runs@.len() > 0 ==> runs@.last().start <= runs@.last().end,
            dispatcher.phase == Phase::Running ==> runs@.len() > 0 && alarm == Some(
                runs@.last().end,
            ) && (i < events@.len() ==> events@[i as int] > runs@.last().start),
            dispatcher.phase == Phase::Waiting && runs@.len() > 0 && i < events@.len()
                ==> events@[i as int] > runs@.last().end,
        decreases remaining(events@.len() - i, dispatcher.phase, signal.dirty()),
    {
        let arrival: bool = match alarm {
            None => true,
            Some(a) => i < events.len() && events[i] <= a,
        };
        let now: u64;
        let trigger: Option<Trigger>;
        if arrival {
            now = events[i];
            proof {
                schedule_unfolds(times, s, ds, i as int);
                assert(times[i as int] == now as nat);
                if runs@.len() > 0 {
                    assert(spans(runs@).last() == runs@.last()@);
                }
                if i + 1 < events@.len() {
                    assert(times[i as int] <= times[i + 1]);
                }
            }
            let turned = signal.mark(now);
            i += 1;
            trigger = if turned && matches!(dispatcher.phase(), Phase::Waiting) {
                Some(Trigger::Woken)
            } else {
                None
            };
        } else {
            now = match alarm {
                Some(a) => a,
                None => 0,
            };
            trigger = match dispatcher.phase() {
                Phase::Settling => Some(Trigger::Settled),
                _ => Some(Trigger::Completed(Ok(()))),
            };
        }
        let duration: u64 = if runs.len() < durations.len() {
            durations[runs.len()]
        } else {
            0
        };
        let ghost after = schedule(times.take(i as int), s, ds);
        let ghost phase = dispatcher.phase;
        let ghost dirty = signal.dirty();
        assert(duration as nat == lasting(ds, runs@.len() as int));
        assert(after == spans(runs@) + owed(
            if trigger == Some(Trigger::Woken) {
                Phase::Settling
            } else {
                phase
            },
            dirty,
            if trigger == Some(Trigger::Woken) {
                (now + settle) as nat
            } else {
                match alarm {
                    Some(a) => a as nat,
                    None => 0,
                }
            },
            s,
            duration as nat,
        ));
        if let Some(trigger) = trigger {
            let action = match dispatcher.step(&mut signal, trigger) {
                Some(turn) => turn.action,
                None => Action::Stop,
            };
            match action {
                Action::Settle => {
                    if settle > u64::MAX - now {
                        proof {
                            let owing = span_at((now + settle) as nat, duration as nat);
                            assert(after[runs@.len() as int] == owing);
                            schedule_grows(times, s, ds, i as int);
                            assert(schedule(times, s, ds)[runs@.len() as int] == owing);
                        }
                        return Err(ReplayError::Overflow);
                    }
                    alarm = Some(now + settle);
                },
                Action::Invoke => {
                    if duration > u64::MAX - now {
                        proof {
                            let owing = span_at(now as nat, duration as nat);
                            assert(after[runs@.len() as int] == owing);
                            schedule_grows(times, s, ds, i as int);
                            assert(schedule(times, s, ds)[runs@.len() as int] == owing);
                        }
                        return Err(ReplayError::Overflow);
                    }
                    let run = Run { start: now, end: now + duration };
                    proof {
                        assert(spans(runs@.push(run)) =~= spans(runs@).push(run@));
                        assert(run@ == span_at(now as nat, duration as nat));
                    }
                    runs.push(run);
                    alarm = Some(run.end);
                },
                _ => {
                    alarm = None;
                },
            }
        }
    }
    proof {
        assert(times.take(i as int) =~= times);
        assert forall|k: int| 0 <= k < spans(runs@).len() implies (#[trigger] spans(
            runs@,
        )[k]).end <= u64::MAX by {
            assert(spans(runs@)[k] == runs@[k]@);
        }
    }
    Ok(runs)
}

} // verus!
