use miniclient::connection::{log_variables_added, Action, Connection, Event, Phase};
use miniclient::flight_log::{log_period, log_variable_name, LOG_PERIOD_MS};

fn describe(action: &Action) -> String {
    match action {
        Action::ShowStatus(s) => format!("status {s}"),
        Action::ShowConnected(b) => format!("connected {b}"),
        Action::Connect => "connect".to_string(),
        Action::CreateLogBlock => "create block".to_string(),
        Action::AddLogVariable(n) => format!("add {n}"),
        Action::StartLog(_) => "start log".to_string(),
        Action::SendZeroSetpoint => "zero setpoint".to_string(),
        Action::ShowSetpoints => "show setpoints".to_string(),
        Action::SendGamepadSetpoint => "gamepad setpoint".to_string(),
        Action::ShowStateEstimate => "show estimate".to_string(),
        Action::Disconnect => "disconnect".to_string(),
    }
}

fn step(conn: &mut Connection, event: Event) -> Vec<String> {
    conn.handle(event).iter().map(describe).collect()
}

/// A connection brought to the flying phase.
fn flying() -> Connection {
    let (mut conn, _) = Connection::start();
    step(&mut conn, Event::Connected);
    step(&mut conn, Event::LogBlockCreated);
    step(&mut conn, Event::LogVariableAdded);
    step(&mut conn, Event::LogVariableAdded);
    step(&mut conn, Event::LogVariableAdded);
    step(&mut conn, Event::LogStarted);
    step(&mut conn, Event::SetpointSent);
    assert_eq!(conn.phase(), Phase::Flying);
    conn
}

#[test]
fn start_shows_connecting_and_connects() {
    let (conn, actions) = Connection::start();
    let actions: Vec<String> = actions.iter().map(describe).collect();
    assert_eq!(actions, vec!["status Connecting...", "connect"]);
    assert_eq!(conn.phase(), Phase::Connecting);
}

#[test]
fn setup_adds_roll_pitch_yaw_then_starts_and_unlocks() {
    let (mut conn, _) = Connection::start();
    assert_eq!(
        step(&mut conn, Event::Connected),
        vec!["connected true", "status Connected - setting up logging...", "create block"]
    );
    assert_eq!(step(&mut conn, Event::LogBlockCreated), vec!["add stateEstimate.roll"]);
    assert_eq!(step(&mut conn, Event::LogVariableAdded), vec!["add stateEstimate.pitch"]);
    assert_eq!(step(&mut conn, Event::LogVariableAdded), vec!["add stateEstimate.yaw"]);
    assert_eq!(step(&mut conn, Event::LogVariableAdded), vec!["start log"]);
    assert_eq!(conn.phase(), Phase::StartingLog);
    assert_eq!(step(&mut conn, Event::LogStarted), vec!["zero setpoint"]);
    assert_eq!(step(&mut conn, Event::SetpointSent), vec!["status Connected"]);
    assert_eq!(conn.phase(), Phase::Flying);
}

#[test]
fn connect_failure_shows_error_and_ends() {
    let (mut conn, _) = Connection::start();
    assert_eq!(
        step(&mut conn, Event::ConnectFailed("no radio".to_string())),
        vec!["status Error: no radio", "connected false"]
    );
    assert!(conn.is_finished());
}

#[test]
fn log_block_failure_aborts() {
    let (mut conn, _) = Connection::start();
    step(&mut conn, Event::Connected);
    assert_eq!(
        step(&mut conn, Event::LogBlockFailed("full".to_string())),
        vec!["status Log error: full", "disconnect"]
    );
    assert_eq!(conn.phase(), Phase::Aborting);
    assert_eq!(step(&mut conn, Event::Disconnected), vec!["connected false"]);
    assert!(conn.is_finished());
}

#[test]
fn log_variable_failure_names_the_variable() {
    let (mut conn, _) = Connection::start();
    step(&mut conn, Event::Connected);
    step(&mut conn, Event::LogBlockCreated);
    step(&mut conn, Event::LogVariableAdded);
    assert_eq!(
        step(&mut conn, Event::LogVariableFailed("Variable not found".to_string())),
        vec!["status Log var error (stateEstimate.pitch): Variable not found", "disconnect"]
    );
}

#[test]
fn log_start_failure_aborts() {
    let (mut conn, _) = Connection::start();
    step(&mut conn, Event::Connected);
    step(&mut conn, Event::LogBlockCreated);
    for _ in 0..3 {
        step(&mut conn, Event::LogVariableAdded);
    }
    assert_eq!(
        step(&mut conn, Event::LogStartFailed("timeout".to_string())),
        vec!["status Log start error: timeout", "disconnect"]
    );
}

#[test]
fn unlock_failure_aborts_without_zero_setpoint() {
    let (mut conn, _) = Connection::start();
    step(&mut conn, Event::Connected);
    step(&mut conn, Event::LogBlockCreated);
    for _ in 0..3 {
        step(&mut conn, Event::LogVariableAdded);
    }
    step(&mut conn, Event::LogStarted);
    assert_eq!(
        step(&mut conn, Event::SetpointFailed("link lost".to_string())),
        vec!["status Commander unlock error: link lost", "disconnect"]
    );
}

#[test]
fn tick_sends_setpoint_only_when_enabled() {
    let mut conn = flying();
    assert_eq!(step(&mut conn, Event::Tick { gamepad_enabled: false }), Vec::<String>::new());
    assert_eq!(conn.phase(), Phase::Flying);
    assert_eq!(
        step(&mut conn, Event::Tick { gamepad_enabled: true }),
        vec!["show setpoints", "gamepad setpoint"]
    );
    assert_eq!(conn.phase(), Phase::SendingSetpoint);
    assert_eq!(step(&mut conn, Event::SetpointSent), Vec::<String>::new());
    assert_eq!(conn.phase(), Phase::Flying);
}

#[test]
fn log_data_shows_the_estimate() {
    let mut conn = flying();
    assert_eq!(step(&mut conn, Event::LogData), vec!["show estimate"]);
    assert_eq!(conn.phase(), Phase::Flying);
}

#[test]
fn cancel_stops_motors_then_disconnects() {
    let mut conn = flying();
    assert_eq!(step(&mut conn, Event::Cancelled), vec!["zero setpoint"]);
    assert_eq!(
        step(&mut conn, Event::SetpointFailed("ignored".to_string())),
        vec!["status Disconnecting...", "disconnect"]
    );
    assert_eq!(
        step(&mut conn, Event::Disconnected),
        vec!["connected false", "status Disconnected"]
    );
    assert!(conn.is_finished());
    assert_eq!(step(&mut conn, Event::Cancelled), Vec::<String>::new());
    assert!(conn.is_finished());
}

#[test]
fn commander_error_while_flying_stops_motors() {
    let mut conn = flying();
    step(&mut conn, Event::Tick { gamepad_enabled: true });
    assert_eq!(
        step(&mut conn, Event::SetpointFailed("nack".to_string())),
        vec!["status Commander error: nack", "zero setpoint"]
    );
    assert_eq!(conn.phase(), Phase::StoppingMotors);
}

#[test]
fn log_error_while_flying_stops_motors() {
    let mut conn = flying();
    assert_eq!(
        step(&mut conn, Event::LogDataFailed("closed".to_string())),
        vec!["status Log error: closed", "zero setpoint"]
    );
    step(&mut conn, Event::SetpointSent);
    assert_eq!(conn.phase(), Phase::Disconnecting);
}

#[test]
fn unexpected_events_change_nothing() {
    let (mut conn, _) = Connection::start();
    assert_eq!(step(&mut conn, Event::LogData), Vec::<String>::new());
    assert_eq!(step(&mut conn, Event::Cancelled), Vec::<String>::new());
    assert_eq!(conn.phase(), Phase::Connecting);
}

#[test]
fn log_period_accepts_ten_to_2559_ms() {
    assert!(log_period(LOG_PERIOD_MS).is_ok());
    assert!(log_period(10).is_ok());
    assert!(log_period(2559).is_ok());
    assert!(log_period(9).is_err());
    assert!(log_period(2560).is_err());
}

#[test]
fn rejected_period_aborts_with_its_text() {
    let err = log_period(5).err().unwrap();
    assert_eq!(err, "Log error: Invalid log period, should be between 10ms and 2550ms");
    let (phase, actions) = log_variables_added(Err(err.clone()));
    let actions: Vec<String> = actions.iter().map(describe).collect();
    assert_eq!(phase, Phase::Aborting);
    assert_eq!(actions, vec![format!("status Period error: {err}"), "disconnect".to_string()]);
}

#[test]
fn log_variable_names() {
    assert_eq!(log_variable_name(0), "stateEstimate.roll");
    assert_eq!(log_variable_name(1), "stateEstimate.pitch");
    assert_eq!(log_variable_name(2), "stateEstimate.yaw");
}
