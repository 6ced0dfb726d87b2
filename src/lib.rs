//! Keeps a session manager's idle hint in step with the input idle time that
//! a windowing system reports.
//!
//! The library holds the decisions: how a sampled idle time is classified,
//! how often to sample, and the monitor's state machine, which turns the
//! results of the outside calls (timer, shutdown request, idle query, remote
//! call) into the next call to make. A driver performs those calls.
pub mod activity;
pub mod settings;
pub mod monitor;
pub mod laws;
