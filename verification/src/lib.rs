//! Protocol codec and safety-monitor subsystem for a two-controller
//! electric-vehicle drivetrain supervisor.
//!
//! The library is pure logic, driven once per control tick by its caller:
//! a CRC8-checked CAN message codec, a dual-sensor throttle fusion
//! algorithm, a tick-based timeout primitive, and the monitor state
//! machines that combine them into debounced fault detection.

pub mod button;
pub mod crc8;
pub mod ev_can;
pub mod monitor_message;
pub mod monitors;
pub mod supervisor;
pub mod throttle;
pub mod timeout;
