//! Decision logic of a firmware that toggles one output pin from a periodic
//! timer interrupt, together with a register-level model of the hardware it
//! drives.

pub mod action;
pub mod config;
pub mod device;
pub mod handler;
pub mod ownership;
pub mod sequencer;
pub mod simulation;
