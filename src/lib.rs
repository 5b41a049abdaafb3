//! Build-streak tracking: a per-day tally of successful and failed builds,
//! its on-disk text form, the operations that update it and the status-bar
//! segment that shows it.
pub mod codec;
pub mod config;
pub mod counter;
pub mod day;
pub mod decimal;
pub mod laws;
pub mod render;
pub mod store;
