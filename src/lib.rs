//! Core of a terminal telemetry dashboard: bounded sample history, the
//! per-tick sampler, the chart projection and the refresh loop's decisions.

pub mod window;
pub mod sampler;
pub mod chart;
pub mod run_loop;
pub mod dashboard;
