//! The sink that writes JSON-lines files, one for each channel and day.

pub mod messages;
