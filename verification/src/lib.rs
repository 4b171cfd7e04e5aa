//! Chat-log ingestion toolbox: parsers for ORL log lines, the normalized
//! event model, and the decision logic of the sinks and of the fan-out
//! dispatcher.

pub mod adapters;
pub mod alerts;
pub mod error;
pub mod events;
pub mod formats;
pub mod run_scrape_ingester;
pub mod scrapers;
pub mod scripts;
pub mod settings;
pub mod sinks;
pub mod sources;
pub mod text;
pub mod time;
