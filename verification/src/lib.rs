//! Decision core of the exam client: configuration defaults, the sealed
//! state file that detects an abnormal exit, the keyboard-blocking rules,
//! administrator authorisation and the start-up plan.

pub mod config;
pub mod sealed_state;
pub mod state;
pub mod keyboard;
pub mod admin;
pub mod startup;
pub mod search;
