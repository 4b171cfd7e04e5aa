//! The sinks of the batch pipelines.

pub mod clickhouse_bulk;
pub mod elasticsearch_bulk;
pub mod jsonl;
pub mod sqlite;
