//! Discrete-time simulation core for CPU process scheduling.
//!
//! A [`process::Process`] is one schedulable job. A scheduling policy drives
//! it one simulated time unit at a time with `select`, `deselect` and `tick`,
//! and reads the accumulated metrics afterwards. Every operation is specified
//! against the mathematical model [`process::ProcessView`]; `schedule` states
//! what holds of whole sequences of operations.

pub mod decimal;
pub mod process;
pub mod schedule;
