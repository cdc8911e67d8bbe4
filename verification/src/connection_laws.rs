//! Properties that every step of a connection keeps.

use vstd::prelude::*;

use crate::connection::{armed, awaited, initial, phase_valid, transition, ActionView, EventView, Phase};
use crate::flight_log::{LOG_PERIOD_MS, LOG_VARIABLE_COUNT};

verus! {

/// The text of a failure event.
pub open spec fn failure_text(event: EventView) -> Option<Seq<char>> {
    match event {
        EventView::ConnectFailed(e) => Some(e),
        EventView::LogBlockFailed(e) => Some(e),
        EventView::LogVariableFailed(e) => Some(e),
        EventView::LogStartFailed(e) => Some(e),
        EventView::SetpointFailed(e) => Some(e),
        EventView::LogDataFailed(e) => Some(e),
        _ => None,
    }
}

/// Whether `text` ends with `suffix`.
pub open spec fn ends_with(text: Seq<char>, suffix: Seq<char>) -> bool {
    suffix.len() <= text.len() && text.subrange(text.len() - suffix.len(), text.len() as int) == suffix
}

/// Whether `action` shows a status ending with `text`.
pub open spec fn shows_text(action: ActionView, text: Seq<char>) -> bool {
    match action {
        ActionView::ShowStatus(s) => ends_with(s, text),
        _ => false,
    }
}

/// A finished connection stays finished and does nothing more, whatever
/// happens.
pub proof fn finished_is_final(event: EventView)
    ensures
        transition(Phase::Finished, event) == (Phase::Finished, Seq::<ActionView>::empty()),
{
}

/// Every way a connection ends tells the user that the Crazyflie is no
/// longer connected.
pub proof fn every_end_shows_disconnected(phase: Phase, event: EventView)
    requires
        phase != Phase::Finished,
        transition(phase, event).0 == Phase::Finished,
    ensures
        transition(phase, event).1.contains(ActionView::ShowConnected(false)),
{
    let actions = transition(phase, event).1;
    match phase {
        Phase::Connecting => {
            assert(actions[1] == ActionView::ShowConnected(false));
        },
        Phase::Disconnecting | Phase::Aborting => {
            assert(actions[0] == ActionView::ShowConnected(false));
        },
        _ => {},
    }
}

/// Once the thrust is unlocked, the link is never closed straight away: a
/// step either keeps flying or sends the zero setpoint that stops the motors
/// and waits for it, and only then is the link closed.
pub proof fn motors_stop_before_disconnect(phase: Phase, event: EventView)
    requires
        armed(phase),
    ensures
        !transition(phase, event).1.contains(ActionView::Disconnect),
        armed(transition(phase, event).0) || (
            transition(phase, event).0 == Phase::StoppingMotors
            && transition(phase, event).1.last() == ActionView::SendZeroSetpoint),
        transition(Phase::StoppingMotors, event).0 == Phase::StoppingMotors
            || transition(Phase::StoppingMotors, event).0 == Phase::Disconnecting,
{
    let actions = transition(phase, event).1;
    if actions.contains(ActionView::Disconnect) {
        let k = choose|k: int| 0 <= k < actions.len() && actions[k] == ActionView::Disconnect;
        assert(actions[k] != ActionView::Disconnect);
    }
}

/// A gamepad setpoint is sent exactly when the setpoint timer fires while
/// flying with the gamepad enabled.
pub proof fn gamepad_setpoints_only_when_enabled(phase: Phase, event: EventView)
    ensures
        transition(phase, event).1.contains(ActionView::SendGamepadSetpoint) <==> (
            phase == Phase::Flying && event == (EventView::Tick { gamepad_enabled: true })),
{
    let actions = transition(phase, event).1;
    if phase == Phase::Flying && event == (EventView::Tick { gamepad_enabled: true }) {
        assert(actions[1] == ActionView::SendGamepadSetpoint);
    }
    if actions.contains(ActionView::SendGamepadSetpoint) {
        let k = choose|k: int| 0 <= k < actions.len() && actions[k] == ActionView::SendGamepadSetpoint;
        assert(actions[k] == ActionView::SendGamepadSetpoint);
    }
}

/// A step asks for at most one operation to be awaited, as its last action,
/// and it asks for one exactly when it moves to a phase that waits for one:
/// the connection never waits for an outcome it did not ask for, and never
/// asks for two at once.
pub proof fn one_operation_at_a_time(phase: Phase, event: EventView)
    ensures
        ({
            let (next, actions) = transition(phase, event);
            &&& forall|i: int| 0 <= i < actions.len() - 1 ==> !awaited(#[trigger] actions[i])
            &&& (next == Phase::Flying || next == Phase::Finished) ==> forall|i: int|
                0 <= i < actions.len() ==> !awaited(#[trigger] actions[i])
            &&& (actions.len() > 0 && next != Phase::Flying && next != Phase::Finished)
                ==> awaited(actions.last())
        }),
{
}

/// Every failure that moves the connection on is shown to the user, the
/// shown status ending with the failure's text; only the outcome of the
/// final zero setpoint is not looked at.
pub proof fn failures_are_shown(phase: Phase, event: EventView)
    requires
        failure_text(event) is Some,
        transition(phase, event).0 != phase,
        phase != Phase::StoppingMotors,
    ensures
        ({
            let actions = transition(phase, event).1;
            exists|i: int|
                0 <= i < actions.len() && shows_text(#[trigger] actions[i], failure_text(event).unwrap())
        }),
{
    let actions = transition(phase, event).1;
    let e = failure_text(event).unwrap();
    assert(shows_text(actions[0], e)) by {
        if let ActionView::ShowStatus(s) = actions[0] {
            assert(s.subrange(s.len() - e.len(), s.len() as int) =~= e);
        }
    }
}

/// The phase a connection is in, and every action it has asked for in
/// order, after it starts and takes `events` one after the other.
pub open spec fn run(events: Seq<EventView>) -> (Phase, Seq<ActionView>)
    decreases events.len(),
{
    if events.len() == 0 {
        initial()
    } else {
        let (phase, actions) = run(events.drop_last());
        let (next, more) = transition(phase, events.last());
        (next, actions + more)
    }
}

/// The values that `actions` show for "connected", in order.
pub open spec fn connected_shown(actions: Seq<ActionView>) -> Seq<bool>
    decreases actions.len(),
{
    if actions.len() == 0 {
        Seq::empty()
    } else {
        let earlier = connected_shown(actions.drop_last());
        match actions.last() {
            ActionView::ShowConnected(b) => earlier.push(b),
            _ => earlier,
        }
    }
}

/// The "connected" values shown by two lists of actions, one after the other.
proof fn connected_shown_append(a: Seq<ActionView>, b: Seq<ActionView>)
    ensures
        connected_shown(a + b) == connected_shown(a) + connected_shown(b),
    decreases b.len(),
{
    if b.len() == 0 {
        assert(a + b =~= a);
        assert(connected_shown(a) + connected_shown(b) =~= connected_shown(a));
    } else {
        connected_shown_append(a, b.drop_last());
        assert((a + b).drop_last() =~= a + b.drop_last());
        assert((a + b).last() == b.last());
        let x = connected_shown(a);
        let y = connected_shown(b.drop_last());
        if let ActionView::ShowConnected(v) = b.last() {
            assert((x + y).push(v) =~= x + y.push(v));
        }
    }
}

/// What a connection in `phase` has shown for "connected" so far.
pub open spec fn connected_history(phase: Phase, shown: Seq<bool>) -> bool {
    match phase {
        Phase::Connecting => shown == Seq::<bool>::empty(),
        Phase::Finished => shown == seq![false] || shown == seq![true, false],
        _ => shown == seq![true],
    }
}

/// The "connected" values one step shows.
proof fn step_shows(phase: Phase, event: EventView)
    ensures
        ({
            let (next, more) = transition(phase, event);
            let step = connected_shown(more);
            &&& phase == Phase::Connecting && next == Phase::CreatingLogBlock ==> step == seq![true]
            &&& phase == Phase::Connecting && next == Phase::Finished ==> step == seq![false]
            &&& phase != Phase::Finished && next == Phase::Finished && phase != Phase::Connecting
                ==> step == seq![false]
            &&& !(phase != Phase::Finished && next == Phase::Finished) && !(phase
                == Phase::Connecting && next != phase) ==> step == Seq::<bool>::empty()
            &&& phase == Phase::Connecting && next != phase ==> next == Phase::CreatingLogBlock
                || next == Phase::Finished
            &&& step.contains(true) ==> phase == Phase::Connecting && event == EventView::Connected
        }),
{
    reveal_with_fuel(connected_shown, 4);
    let (next, more) = transition(phase, event);
    let step = connected_shown(more);
    if step.contains(true) {
        assert(step =~= seq![true]);
    }
}

/// Over a whole connection, whatever happens, "connected" is shown at most
/// twice: `true` at most once and only after the link opened, then `false`;
/// and a finished connection has shown `false` last.
pub proof fn connected_flag_over_a_run(events: Seq<EventView>)
    ensures
        ({
            let (phase, actions) = run(events);
            let shown = connected_shown(actions);
            &&& connected_history(phase, shown)
            &&& shown == Seq::<bool>::empty() || shown == seq![true] || shown == seq![false]
                || shown == seq![true, false]
            &&& shown.contains(true) ==> events.contains(EventView::Connected)
            &&& phase == Phase::Finished ==> shown.len() > 0 && shown.last() == false
        }),
    decreases events.len(),
{
    if events.len() == 0 {
        reveal_with_fuel(connected_shown, 3);
        assert(connected_shown(initial().1) =~= Seq::<bool>::empty());
    } else {
        let earlier = events.drop_last();
        let event = events.last();
        connected_flag_over_a_run(earlier);
        let (phase, actions) = run(earlier);
        let (next, more) = transition(phase, event);
        connected_shown_append(actions, more);
        step_shows(phase, event);
        let before = connected_shown(actions);
        let step = connected_shown(more);
        assert(run(events) == (next, actions + more));
        if phase == Phase::Finished {
            finished_is_final(event);
            assert(before + step =~= before);
        } else if phase == Phase::Connecting {
            if next == phase {
                assert(before + step =~= before);
            } else {
                assert(before + step =~= step);
            }
        } else if next == Phase::Finished {
            assert(before + step =~= seq![true, false]);
        } else {
            assert(before + step =~= before);
        }
        let shown = before + step;
        if shown.contains(true) {
            if before.contains(true) {
                let k = choose|k: int| 0 <= k < earlier.len() && earlier[k] == EventView::Connected;
                assert(events[k] == EventView::Connected);
            } else {
                let k = choose|k: int| 0 <= k < shown.len() && shown[k] == true;
                assert(step[k - before.len()] == true);
                assert(step.contains(true));
                assert(events[events.len() - 1] == EventView::Connected);
            }
        }
    }
}

/// A run reaches only the phases a connection can be in.
proof fn run_phase_valid(events: Seq<EventView>)
    ensures
        phase_valid(run(events).0),
    decreases events.len(),
{
    if events.len() > 0 {
        run_phase_valid(events.drop_last());
    }
}

/// The phase after two more events is reached by two steps.
proof fn run_two_more(events: Seq<EventView>, first: EventView, second: EventView)
    ensures
        run(events.push(first).push(second)).0 == transition(
            transition(run(events).0, first).0,
            second,
        ).0,
{
    let mid = events.push(first);
    let all = mid.push(second);
    assert(mid.drop_last() =~= events);
    assert(all.drop_last() =~= mid);
    assert(run(mid).0 == transition(run(events).0, first).0);
}

/// Whether `event` is the outcome of a zero setpoint.
pub open spec fn setpoint_outcome(event: EventView) -> bool {
    event == EventView::SetpointSent || event is SetpointFailed
}

/// Once the zero setpoint that stops the motors has an outcome, whether it
/// went through or not, the link is closed: "Disconnecting..." is shown and
/// the link is asked to close, last. When it has closed, the connection is
/// finished, shows not connected, and shows "Disconnected" last.
pub proof fn stopping_closes_the_link(event: EventView)
    requires
        setpoint_outcome(event),
    ensures
        transition(Phase::StoppingMotors, event).0 == Phase::Disconnecting,
        transition(Phase::StoppingMotors, event).1.len() > 0,
        transition(Phase::StoppingMotors, event).1.last() == ActionView::Disconnect,
        transition(Phase::StoppingMotors, event).1.contains(
            ActionView::ShowStatus("Disconnecting..."@),
        ),
        transition(Phase::Disconnecting, EventView::Disconnected).0 == Phase::Finished,
        transition(Phase::Disconnecting, EventView::Disconnected).1.contains(
            ActionView::ShowConnected(false),
        ),
        transition(Phase::Disconnecting, EventView::Disconnected).1.last()
            == ActionView::ShowStatus("Disconnected"@),
{
    assert(transition(Phase::StoppingMotors, event).1[0] == ActionView::ShowStatus(
        "Disconnecting..."@,
    ));
    assert(transition(Phase::Disconnecting, EventView::Disconnected).1[0]
        == ActionView::ShowConnected(false));
}

/// A connection that is stopping its motors, once it gets the outcome of
/// the zero setpoint and then the closed link, is finished, and the last
/// "connected" it showed is `false`.
pub proof fn stopping_run_finishes(events: Seq<EventView>, outcome: EventView)
    requires
        run(events).0 == Phase::StoppingMotors,
        setpoint_outcome(outcome),
    ensures
        run(events.push(outcome).push(EventView::Disconnected)).0 == Phase::Finished,
        connected_shown(run(events.push(outcome).push(EventView::Disconnected)).1).last()
            == false,
{
    let mid = events.push(outcome);
    let all = mid.push(EventView::Disconnected);
    run_two_more(events, outcome, EventView::Disconnected);
    stopping_closes_the_link(outcome);
    connected_flag_over_a_run(all);
}

/// Whether `event` is the failure of the operation that the set-up `phase`
/// waits for.
pub open spec fn setup_failure(phase: Phase, event: EventView) -> bool {
    match phase {
        Phase::CreatingLogBlock => event is LogBlockFailed,
        Phase::AddingLogVariable(_) => event is LogVariableFailed,
        Phase::StartingLog => event is LogStartFailed,
        Phase::Unlocking => event is SetpointFailed,
        _ => false,
    }
}

/// A failed set-up step never goes on with the set-up nor flies: it shows
/// the error and asks, last, to close the link, waiting in `Aborting`; and
/// once the link is closed the connection is finished and shows not
/// connected.
pub proof fn setup_failures_abort(phase: Phase, event: EventView)
    requires
        setup_failure(phase, event),
        phase matches Phase::AddingLogVariable(i) ==> i < LOG_VARIABLE_COUNT,
    ensures
        transition(phase, event).0 == Phase::Aborting,
        transition(phase, event).1.len() == 2,
        transition(phase, event).1[0] is ShowStatus,
        transition(phase, event).1.last() == ActionView::Disconnect,
        transition(Phase::Aborting, EventView::Disconnected) == (
            Phase::Finished,
            seq![ActionView::ShowConnected(false)],
        ),
{
}

/// A connection whose set-up step failed, once the link is closed, is
/// finished, and the last "connected" it showed is `false`.
pub proof fn failed_setup_run_finishes(events: Seq<EventView>, failure: EventView)
    requires
        setup_failure(run(events).0, failure),
    ensures
        run(events.push(failure).push(EventView::Disconnected)).0 == Phase::Finished,
        connected_shown(run(events.push(failure).push(EventView::Disconnected)).1).last()
            == false,
{
    let all = events.push(failure).push(EventView::Disconnected);
    run_phase_valid(events);
    run_two_more(events, failure, EventView::Disconnected);
    setup_failures_abort(run(events).0, failure);
    connected_flag_over_a_run(all);
}

/// The state-estimate log is only ever started with a period of ten
/// ten-millisecond units, that is 100 ms, and only after the last of the
/// three log variables was added.
pub proof fn log_starts_at_100_ms(phase: Phase, event: EventView, units: nat)
    requires
        phase_valid(phase),
        transition(phase, event).1.contains(ActionView::StartLog(units)),
    ensures
        units == 10,
        LOG_PERIOD_MS == 100,
        phase == Phase::AddingLogVariable(2),
        event == EventView::LogVariableAdded,
        transition(phase, event).0 == Phase::StartingLog,
{
    let actions = transition(phase, event).1;
    let k = choose|k: int| 0 <= k < actions.len() && actions[k] == ActionView::StartLog(units);
    assert(actions[k] == ActionView::StartLog(units));
}

} // verus!
