//! An idle-triggered cursor mover: the control state machine, the movement
//! patterns, the sensor readings and the scheduling decisions, each with a
//! contract. The host's input, display and clock are reached by the caller.

pub mod config;
pub mod control;
mod draw;
pub mod movement;
pub mod scheduler;
pub mod sensors;
