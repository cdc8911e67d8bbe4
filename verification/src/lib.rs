//! Decision logic of a minimal gamepad client for the Crazyflie quadcopter.

pub mod connection;
pub mod connection_laws;
pub mod flight_log;
pub mod gamepads;
