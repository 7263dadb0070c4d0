//! Decision logic of a reboot reminder service: detection results are
//! aggregated, a persisted reboot state is advanced, reminders escalate along
//! a table of timeframes, and a watchdog supervises the service with a bounded
//! number of restarts.

pub mod config;
pub mod database;
pub mod logging;
pub mod notification;
pub mod reboot;
pub mod service;
pub mod time;
pub mod utils;
pub mod watchdog;
