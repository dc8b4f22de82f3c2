//! Drift-free adaptive blinker: a single output toggles at a period chosen by
//! the level of a single input, on a schedule that is advanced by addition
//! from the previous scheduled instant and so never accumulates latency.

pub mod config;
pub mod edge;
pub mod event;
pub mod laws;
pub mod queue;
pub mod scheduler;
