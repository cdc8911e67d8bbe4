//! The decisions of one connection to a Crazyflie: connecting, setting up
//! the state-estimate log, arming the commander, flying with the gamepad and
//! shutting down. Each step takes the outcome of the last operation (or an
//! outside event) and returns the next phase and what to do now; the
//! operations themselves are carried out by the caller.

use vstd::prelude::*;
use vstd::string::StringExecFns;


use crate::flight_log::{
    log_period, log_variable, log_variable_name, Period,
    LOG_PERIOD_MS, LOG_VARIABLE_COUNT,
};

verus! {

/// Where a connection stands. In every phase but `Flying` and `Finished` the
/// connection waits for the outcome of the operation it last asked for.
#[derive(Clone, Copy, PartialEq, Eq, Structural, Debug)]
pub enum Phase {
    /// Waiting for the link to open.
    Connecting,
    /// Waiting for the log block to be created.
    CreatingLogBlock,
    /// Waiting for the log variable of this index to be added.
    AddingLogVariable(usize),
    /// Waiting for the log stream to start.
    StartingLog,
    /// Waiting for the zero setpoint that unlocks the thrust.
    Unlocking,
    /// Flying: waiting for a cancel, log data or the setpoint timer.
    Flying,
    /// Waiting for a gamepad setpoint to be sent.
    SendingSetpoint,
    /// Waiting for the zero setpoint that stops the motors.
    StoppingMotors,
    /// Waiting for the link to close after a normal stop.
    Disconnecting,
    /// Waiting for the link to close after a failed set-up.
    Aborting,
    /// Done.
    Finished,
}

/// What happened: the outcome of the operation last asked for, or an outside
/// event while flying. Failures carry the error's text.
pub enum Event {
    Connected,
    ConnectFailed(String),
    LogBlockCreated,
    LogBlockFailed(String),
    LogVariableAdded,
    LogVariableFailed(String),
    LogStarted,
    LogStartFailed(String),
    SetpointSent,
    SetpointFailed(String),
    LogData,
    LogDataFailed(String),
    /// The setpoint timer fired; `gamepad_enabled` tells whether the gamepad
    /// is allowed to fly.
    Tick { gamepad_enabled: bool },
    /// The user asked to disconnect.
    Cancelled,
    Disconnected,
}

/// What to do, in order. Operations that must be awaited (see `awaited`)
/// come last in a step.
pub enum Action {
    /// Show this text as the connection status.
    ShowStatus(String),
    /// Show whether the Crazyflie is connected.
    ShowConnected(bool),
    Connect,
    CreateLogBlock,
    /// Add the variable of this name to the log block.
    AddLogVariable(String),
    /// Start the log block with this period.
    StartLog(Period),
    /// Send roll, pitch and yaw rate 0 with thrust 0.
    SendZeroSetpoint,
    /// Show the gamepad's current roll, pitch and yaw rate as the setpoints.
    ShowSetpoints,
    /// Send the gamepad's current roll, pitch, yaw rate and thrust.
    SendGamepadSetpoint,
    /// Show the roll, pitch and yaw of the log data just received.
    ShowStateEstimate,
    Disconnect,
}

/// The mathematical form of an `Event`.
pub enum EventView {
    Connected,
    ConnectFailed(Seq<char>),
    LogBlockCreated,
    LogBlockFailed(Seq<char>),
    LogVariableAdded,
    LogVariableFailed(Seq<char>),
    LogStarted,
    LogStartFailed(Seq<char>),
    SetpointSent,
    SetpointFailed(Seq<char>),
    LogData,
    LogDataFailed(Seq<char>),
    Tick { gamepad_enabled: bool },
    Cancelled,
    Disconnected,
}

/// The mathematical form of an `Action`; a period is seen as its count of
/// ten-millisecond units.
pub enum ActionView {
    ShowStatus(Seq<char>),
    ShowConnected(bool),
    Connect,
    CreateLogBlock,
    AddLogVariable(Seq<char>),
    StartLog(nat),
    SendZeroSetpoint,
    ShowSetpoints,
    SendGamepadSetpoint,
    ShowStateEstimate,
    Disconnect,
}

impl View for Event {
    type V = EventView;

    open spec fn view(&self) -> EventView {
        match self {
            Event::Connected => EventView::Connected,
            Event::ConnectFailed(e) => EventView::ConnectFailed(e@),
            Event::LogBlockCreated => EventView::LogBlockCreated,
            Event::LogBlockFailed(e) => EventView::LogBlockFailed(e@),
            Event::LogVariableAdded => EventView::LogVariableAdded,
            Event::LogVariableFailed(e) => EventView::LogVariableFailed(e@),
            Event::LogStarted => EventView::LogStarted,
            Event::LogStartFailed(e) => EventView::LogStartFailed(e@),
            Event::SetpointSent => EventView::SetpointSent,
            Event::SetpointFailed(e) => EventView::SetpointFailed(e@),
            Event::LogData => EventView::LogData,
            Event::LogDataFailed(e) => EventView::LogDataFailed(e@),
            Event::Tick { gamepad_enabled } => EventView::Tick { gamepad_enabled: *gamepad_enabled },
            Event::Cancelled => EventView::Cancelled,
            Event::Disconnected => EventView::Disconnected,
        }
    }
}

impl View for Action {
    type V = ActionView;

    open spec fn view(&self) -> ActionView {
        match self {
            Action::ShowStatus(s) => ActionView::ShowStatus(s@),
            Action::ShowConnected(b) => ActionView::ShowConnected(*b),
            Action::Connect => ActionView::Connect,
            Action::CreateLogBlock => ActionView::CreateLogBlock,
            Action::AddLogVariable(n) => ActionView::AddLogVariable(n@),
            Action::StartLog(p) => ActionView::StartLog(p@),
            Action::SendZeroSetpoint => ActionView::SendZeroSetpoint,
            Action::ShowSetpoints => ActionView::ShowSetpoints,
            Action::SendGamepadSetpoint => ActionView::SendGamepadSetpoint,
            Action::ShowStateEstimate => ActionView::ShowStateEstimate,
            Action::Disconnect => ActionView::Disconnect,
        }
    }
}

/// The views of a list of actions.
pub open spec fn actions_view(actions: Seq<Action>) -> Seq<ActionView> {
    actions.map_values(|a: Action| a@)
}

/// Whether the caller must await the outcome of this action and report it
/// as the next event.
pub open spec fn awaited(action: ActionView) -> bool {
    match action {
        ActionView::Connect
        | ActionView::CreateLogBlock
        | ActionView::AddLogVariable(_)
        | ActionView::StartLog(_)
        | ActionView::SendZeroSetpoint
        | ActionView::SendGamepadSetpoint
        | ActionView::Disconnect => true,
        _ => false,
    }
}

/// Whether the thrust has been unlocked, so that the motors must be stopped
/// before the link is closed.
pub open spec fn armed(phase: Phase) -> bool {
    phase == Phase::Flying || phase == Phase::SendingSetpoint
}

/// The phases a connection can be in.
pub open spec fn phase_valid(phase: Phase) -> bool {
    phase matches Phase::AddingLogVariable(i) ==> i < LOG_VARIABLE_COUNT
}

/// A failed set-up step: show `prefix` followed by the error, then close the link.
pub open spec fn setup_failed(prefix: Seq<char>, error: Seq<char>) -> (Phase, Seq<ActionView>) {
    (Phase::Aborting, seq![ActionView::ShowStatus(prefix + error), ActionView::Disconnect])
}

/// The status shown when adding the log variable `name` failed with `error`.
pub open spec fn variable_error(name: Seq<char>, error: Seq<char>) -> Seq<char> {
    "Log var error ("@ + name + "): "@ + error
}

/// The phase a connection starts in, and what it does first.
pub open spec fn initial() -> (Phase, Seq<ActionView>) {
    (Phase::Connecting, seq![ActionView::ShowStatus("Connecting..."@), ActionView::Connect])
}

/// The step from `phase` on `event`: the next phase and the actions to take,
/// in order. An event that the phase does not wait for changes nothing. The
/// step after the last log variable starts the log: its period,
/// `LOG_PERIOD_MS`, is one that the Crazyflie accepts (see
/// `log_variables_added` for what a rejected period would do).
pub open spec fn transition(phase: Phase, event: EventView) -> (Phase, Seq<ActionView>) {
    let unchanged = (phase, Seq::<ActionView>::empty());
    match phase {
        Phase::Connecting => match event {
            EventView::Connected => (
                Phase::CreatingLogBlock,
                seq![
                    ActionView::ShowConnected(true),
                    ActionView::ShowStatus("Connected - setting up logging..."@),
                    ActionView::CreateLogBlock,
                ],
            ),
            EventView::ConnectFailed(e) => (
                Phase::Finished,
                seq![ActionView::ShowStatus("Error: "@ + e), ActionView::ShowConnected(false)],
            ),
            _ => unchanged,
        },
        Phase::CreatingLogBlock => match event {
            EventView::LogBlockCreated => (
                Phase::AddingLogVariable(0),
                seq![ActionView::AddLogVariable(log_variable(0))],
            ),
            EventView::LogBlockFailed(e) => setup_failed("Log error: "@, e),
            _ => unchanged,
        },
        Phase::AddingLogVariable(i) => match event {
            EventView::LogVariableAdded => if i + 1 < LOG_VARIABLE_COUNT {
                (
                    Phase::AddingLogVariable((i + 1) as usize),
                    seq![ActionView::AddLogVariable(log_variable((i + 1) as nat))],
                )
            } else {
                (Phase::StartingLog, seq![ActionView::StartLog((LOG_PERIOD_MS / 10) as nat)])
            },
            EventView::LogVariableFailed(e) => (
                Phase::Aborting,
                seq![
                    ActionView::ShowStatus(variable_error(log_variable(i as nat), e)),
                    ActionView::Disconnect,
                ],
            ),
            _ => unchanged,
        },
        Phase::StartingLog => match event {
            EventView::LogStarted => (Phase::Unlocking, seq![ActionView::SendZeroSetpoint]),
            EventView::LogStartFailed(e) => setup_failed("Log start error: "@, e),
            _ => unchanged,
        },
        Phase::Unlocking => match event {
            EventView::SetpointSent => (
                Phase::Flying,
                seq![ActionView::ShowStatus("Connected"@)],
            ),
            EventView::SetpointFailed(e) => setup_failed("Commander unlock error: "@, e),
            _ => unchanged,
        },
        Phase::Flying => match event {
            EventView::Cancelled => (Phase::StoppingMotors, seq![ActionView::SendZeroSetpoint]),
            EventView::LogData => (Phase::Flying, seq![ActionView::ShowStateEstimate]),
            EventView::LogDataFailed(e) => (
                Phase::StoppingMotors,
                seq![ActionView::ShowStatus("Log error: "@ + e), ActionView::SendZeroSetpoint],
            ),
            EventView::Tick { gamepad_enabled } => if gamepad_enabled {
                (
                    Phase::SendingSetpoint,
                    seq![ActionView::ShowSetpoints, ActionView::SendGamepadSetpoint],
                )
            } else {
                unchanged
            },
            _ => unchanged,
        },
        Phase::SendingSetpoint => match event {
            EventView::SetpointSent => (Phase::Flying, Seq::empty()),
            EventView::SetpointFailed(e) => (
                Phase::StoppingMotors,
                seq![ActionView::ShowStatus("Commander error: "@ + e), ActionView::SendZeroSetpoint],
            ),
            _ => unchanged,
        },
        Phase::StoppingMotors => match event {
            EventView::SetpointSent | EventView::SetpointFailed(_) => (
                Phase::Disconnecting,
                seq![ActionView::ShowStatus("Disconnecting..."@), ActionView::Disconnect],
            ),
            _ => unchanged,
        },
        Phase::Disconnecting => match event {
            EventView::Disconnected => (
                Phase::Finished,
                seq![ActionView::ShowConnected(false), ActionView::ShowStatus("Disconnected"@)],
            ),
            _ => unchanged,
        },
        Phase::Aborting => match event {
            EventView::Disconnected => (Phase::Finished, seq![ActionView::ShowConnected(false)]),
            _ => unchanged,
        },
        Phase::Finished => unchanged,
    }
}

/// Builds `prefix` followed by `rest`.
fn join(prefix: &str, rest: &str) -> (text: String)
    ensures
        text@ == prefix@ + rest@,
{
    let mut text = String::from_str(prefix);
    text.append(rest);
    text
}

/// The actions of a failed set-up step (see `setup_failed`).
fn fail_setup(prefix: &str, error: String) -> (res: (Phase, Vec<Action>))
    ensures
        (res.0, actions_view(res.1@)) == setup_failed(prefix@, error@),
{
    let mut actions: Vec<Action> = Vec::new();
    actions.push(Action::ShowStatus(join(prefix, error.as_str())));
    actions.push(Action::Disconnect);
    proof {
        assert(actions_view(actions@) =~= setup_failed(prefix@, error@).1);
    }
    (Phase::Aborting, actions)
}

/// The step once every log variable is added, given what converting the
/// log period gave: start the log, or abort showing "Period error: " and the
/// error's text.
pub fn log_variables_added(period: Result<Period, String>) -> (res: (Phase, Vec<Action>))
    ensures
        period matches Ok(p) ==> (res.0, actions_view(res.1@)) == (
            Phase::StartingLog,
            seq![ActionView::StartLog(p@)],
        ),
        period matches Err(e) ==> (res.0, actions_view(res.1@)) == setup_failed("Period error: "@, e@),
{
    match period {
        Ok(p) => {
            let mut actions: Vec<Action> = Vec::new();
            let ghost units = p@;
            actions.push(Action::StartLog(p));
            proof {
                assert(actions_view(actions@) =~= seq![ActionView::StartLog(units)]);
            }
            (Phase::StartingLog, actions)
        },
        Err(e) => fail_setup("Period error: ", e),
    }
}

/// No actions.
fn no_actions() -> (v: Vec<Action>)
    ensures
        actions_view(v@) == Seq::<ActionView>::empty(),
{
    let v: Vec<Action> = Vec::new();
    proof {
        assert(actions_view(v@) =~= Seq::<ActionView>::empty());
    }
    v
}

/// The single action `a`.
fn one_action(a: Action) -> (v: Vec<Action>)
    ensures
        actions_view(v@) == seq![a@],
{
    let ghost av = a@;
    let mut v: Vec<Action> = Vec::new();
    v.push(a);
    proof {
        assert(actions_view(v@) =~= seq![av]);
    }
    v
}

/// The actions `a` then `b`.
fn two_actions(a: Action, b: Action) -> (v: Vec<Action>)
    ensures
        actions_view(v@) == seq![a@, b@],
{
    let ghost (av, bv) = (a@, b@);
    let mut v: Vec<Action> = Vec::new();
    v.push(a);
    v.push(b);
    proof {
        assert(actions_view(v@) =~= seq![av, bv]);
    }
    v
}

/// The actions `a`, `b` then `c`.
fn three_actions(a: Action, b: Action, c: Action) -> (v: Vec<Action>)
    ensures
        actions_view(v@) == seq![a@, b@, c@],
{
    let ghost (av, bv, cv) = (a@, b@, c@);
    let mut v: Vec<Action> = Vec::new();
    v.push(a);
    v.push(b);
    v.push(c);
    proof {
        assert(actions_view(v@) =~= seq![av, bv, cv]);
    }
    v
}

/// The text shown when adding the log variable `name` failed with `error`.
fn variable_error_text(name: &str, error: &str) -> (text: String)
    ensures
        text@ == variable_error(name@, error@),
{
    let mut text = String::from_str("Log var error (");
    text.append(name);
    text.append("): ");
    text.append(error);
    text
}

/// The step from `phase` on `event` (see `transition`).
fn decide(phase: Phase, event: Event) -> (res: (Phase, Vec<Action>))
    requires
        phase_valid(phase),
    ensures
        (res.0, actions_view(res.1@)) == transition(phase, event@),
        phase_valid(res.0),
{
    match phase {
        Phase::Connecting => match event {
            Event::Connected => (
                Phase::CreatingLogBlock,
                three_actions(
                    Action::ShowConnected(true),
                    Action::ShowStatus(String::from_str("Connected - setting up logging...")),
                    Action::CreateLogBlock,
                ),
            ),
            Event::ConnectFailed(e) => (
                Phase::Finished,
                two_actions(
                    Action::ShowStatus(join("Error: ", e.as_str())),
                    Action::ShowConnected(false),
                ),
            ),
            _ => (phase, no_actions()),
        },
        Phase::CreatingLogBlock => match event {
            Event::LogBlockCreated => (
                Phase::AddingLogVariable(0),
                one_action(Action::AddLogVariable(log_variable_name(0))),
            ),
            Event::LogBlockFailed(e) => fail_setup("Log error: ", e),
            _ => (phase, no_actions()),
        },
        Phase::AddingLogVariable(i) => match event {
            Event::LogVariableAdded => {
                if i + 1 < LOG_VARIABLE_COUNT {
                    (
                        Phase::AddingLogVariable(i + 1),
                        one_action(Action::AddLogVariable(log_variable_name(i + 1))),
                    )
                } else {
                    log_variables_added(log_period(LOG_PERIOD_MS))
                }
            },
            Event::LogVariableFailed(e) => {
                let name = log_variable_name(i);
                (
                    Phase::Aborting,
                    two_actions(
                        Action::ShowStatus(variable_error_text(name.as_str(), e.as_str())),
                        Action::Disconnect,
                    ),
                )
            },
            _ => (phase, no_actions()),
        },
        Phase::StartingLog => match event {
            Event::LogStarted => (Phase::Unlocking, one_action(Action::SendZeroSetpoint)),
            Event::LogStartFailed(e) => fail_setup("Log start error: ", e),
            _ => (phase, no_actions()),
        },
        Phase::Unlocking => match event {
            Event::SetpointSent => (
                Phase::Flying,
                one_action(Action::ShowStatus(String::from_str("Connected"))),
            ),
            Event::SetpointFailed(e) => fail_setup("Commander unlock error: ", e),
            _ => (phase, no_actions()),
        },
        Phase::Flying => match event {
            Event::Cancelled => (Phase::StoppingMotors, one_action(Action::SendZeroSetpoint)),
            Event::LogData => (Phase::Flying, one_action(Action::ShowStateEstimate)),
            Event::LogDataFailed(e) => (
                Phase::StoppingMotors,
                two_actions(
                    Action::ShowStatus(join("Log error: ", e.as_str())),
                    Action::SendZeroSetpoint,
                ),
            ),
            Event::Tick { gamepad_enabled } => {
                if gamepad_enabled {
                    (
                        Phase::SendingSetpoint,
                        two_actions(Action::ShowSetpoints, Action::SendGamepadSetpoint),
                    )
                } else {
                    (phase, no_actions())
                }
            },
            _ => (phase, no_actions()),
        },
        Phase::SendingSetpoint => match event {
            Event::SetpointSent => (Phase::Flying, no_actions()),
            Event::SetpointFailed(e) => (
                Phase::StoppingMotors,
                two_actions(
                    Action::ShowStatus(join("Commander error: ", e.as_str())),
                    Action::SendZeroSetpoint,
                ),
            ),
            _ => (phase, no_actions()),
        },
        Phase::StoppingMotors => match event {
            Event::SetpointSent | Event::SetpointFailed(_) => (
                Phase::Disconnecting,
                two_actions(
                    Action::ShowStatus(String::from_str("Disconnecting...")),
                    Action::Disconnect,
                ),
            ),
            _ => (phase, no_actions()),
        },
        Phase::Disconnecting => match event {
            Event::Disconnected => (
                Phase::Finished,
                two_actions(
                    Action::ShowConnected(false),
                    Action::ShowStatus(String::from_str("Disconnected")),
                ),
            ),
            _ => (phase, no_actions()),
        },
        Phase::Aborting => match event {
            Event::Disconnected => (Phase::Finished, one_action(Action::ShowConnected(false))),
            _ => (phase, no_actions()),
        },
        Phase::Finished => (phase, no_actions()),
    }
}

/// One connection to a Crazyflie, from the first connect to the final
/// disconnect.
pub struct Connection {
    phase: Phase,
}

impl View for Connection {
    type V = Phase;

    closed spec fn view(&self) -> Phase {
        self.phase
    }
}

impl Connection {
    #[verifier::type_invariant]
    closed spec fn valid(self) -> bool {
        phase_valid(self.phase)
    }

    /// Starts a connection: show "Connecting..." and open the link.
    pub fn start() -> (res: (Connection, Vec<Action>))
        ensures
            (res.0@, actions_view(res.1@)) == initial(),
    {
        let mut actions: Vec<Action> = Vec::new();
        actions.push(Action::ShowStatus(String::from_str("Connecting...")));
        actions.push(Action::Connect);
        proof {
            assert(actions_view(actions@) =~= initial().1);
        }
        (Connection { phase: Phase::Connecting }, actions)
    }

    /// The phase the connection is in.
    pub fn phase(&self) -> (res: Phase)
        ensures
            res == self@,
            phase_valid(res),
    {
        proof {
            use_type_invariant(self);
        }
        self.phase
    }

    /// Whether the connection is done.
    pub fn is_finished(&self) -> (res: bool)
        ensures
            res == (self@ == Phase::Finished),
    {
        self.phase == Phase::Finished
    }
    /// Takes the next event: moves to the next phase and returns the actions
    /// to take, in order (see `transition`).
    pub fn handle(&mut self, event: Event) -> (actions: Vec<Action>)
        ensures
            (final(self)@, actions_view(actions@)) == transition(old(self)@, event@),
    {
        proof {
            use_type_invariant(&*self);
        }
        let (next, actions) = decide(self.phase, event);
        self.phase = next;
        actions
    }
}

} // verus!
