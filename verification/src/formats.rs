//! The shapes in which a log record is kept and exchanged.

pub mod orl;
pub mod unified;
