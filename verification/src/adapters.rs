//! The sinks of the live pipeline: what each of them writes, and when.

pub mod clickhouse;
pub mod console;
pub mod console_metrics;
pub mod elasticsearch;
pub mod file;
pub mod username_tracker;
