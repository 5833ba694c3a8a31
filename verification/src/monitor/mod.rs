//! The API health monitor: services to watch, their check results and
//! history, and the decisions of the monitoring loop.
pub mod config;
pub mod safety;
pub mod store;
pub mod process;
pub mod check;
pub mod schedule;
