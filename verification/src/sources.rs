//! Where log records come from.

pub mod jsonl;
pub mod orl;
