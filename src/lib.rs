//! A live host-metrics dashboard for the terminal: the metrics model and its
//! display lines, key handling, the draw calls of a tick, and the loop's
//! session decisions. Reading the host and driving the terminal stay outside.

pub mod display;
pub mod frame;
pub mod metrics;
pub mod session;
pub mod startup;
pub mod ui;
