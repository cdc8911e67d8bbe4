# miniclient

A minimal gamepad client for the Crazyflie quadcopter, with its decisions
verified by Verus.

- `src/gamepads.rs`: the list of connected gamepads (connect, disconnect,
  selection, the labels the list shows) and its laws.
- `src/connection.rs`: one connection as a state machine, from connecting
  through log set-up and flying to disconnecting.
- `src/connection_laws.rs`: properties every step of a connection keeps.
- `src/flight_log.rs`: the state-estimate log block and the calls into
  `crazyflie_lib` that it needs.
- `app/main.rs`: the window, the gamepad polling thread and the task that
  performs what a connection asks for.
