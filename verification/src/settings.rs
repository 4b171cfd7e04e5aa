//! What the program is configured with. Loading is left to the caller.

use vstd::prelude::*;

verus! {

/// Where alerts go.
#[derive(Clone, Debug, PartialEq, Eq)]
pub struct DiscordAlertingSettings {
    pub enabled: bool,
    pub webhook_url: Option<String>,
    pub owner: Option<String>,
}

/// The sink that prints message rates.
#[derive(Clone, Copy, Debug, PartialEq, Eq)]
pub struct ConsoleMetricsSettings {
    pub enabled: bool,
}

/// The sink that prints every message.
#[derive(Clone, Copy, Debug, PartialEq, Eq)]
pub struct ConsoleSettings {
    pub enabled: bool,
}

/// The Elasticsearch sink.
#[derive(Clone, Debug, PartialEq, Eq)]
pub struct ElasticsearchSettings {
    pub enabled: bool,
    pub host: String,
    pub port: u32,
    pub index: String,
    pub pipeline: Option<String>,
    pub batch_size: u64,
    pub batch_period_seconds: u64,
    pub max_retry_seconds: u64,
}

/// The ClickHouse sink.
#[derive(Clone, Debug, PartialEq, Eq)]
pub struct ClickhouseSettings {
    pub enabled: bool,
    pub host: String,
    pub port: u32,
    pub url: String,
    pub db_user: Option<String>,
    pub db_pass: Option<String>,
    pub db_name: Option<String>,
}

/// The sink that appends to text files.
#[derive(Clone, Debug, PartialEq, Eq)]
pub struct FileSettings {
    pub enabled: bool,
    pub path: String,
}

/// The sink that records which name goes with which Twitch id.
#[derive(Clone, Debug, PartialEq, Eq)]
pub struct UsernameTrackerSettings {
    pub enabled: bool,
    pub sqlite_path: String,
    pub batch_size: u64,
}

/// All sinks.
#[derive(Clone, Debug, PartialEq, Eq)]
pub struct WritersSettings {
    pub elasticsearch: ElasticsearchSettings,
    pub clickhouse: ClickhouseSettings,
    pub filesystem: FileSettings,
    pub console: ConsoleSettings,
    pub console_metrics: ConsoleMetricsSettings,
    pub username_tracker: UsernameTrackerSettings,
}

/// Where the list of Twitch channels comes from.
#[derive(Clone, Debug, PartialEq, Eq)]
pub enum ChannelsAdapter {
    Json { path: String },
    Sqlite { path: String, table: String },
    Http { url: String, bearer_token: String },
}

/// The Twitch scraper.
#[derive(Clone, Debug, PartialEq, Eq)]
pub struct TwitchSettings {
    pub enabled: bool,
    pub sync_channels_interval: u64,
    pub use_websocket: bool,
    pub channels: ChannelsAdapter,
}

/// One chat of the Destiny.gg kind.
#[derive(Clone, Debug, PartialEq, Eq)]
pub struct DggSettings {
    pub name: String,
    pub endpoint: String,
    pub origin: Option<String>,
}

/// One chat of the Destiny.gg kind, as its worker needs it.
#[derive(Clone, Debug, PartialEq, Eq)]
pub struct DggSiteSettings {
    pub name: String,
    pub endpoint: String,
    pub origin: String,
    pub use_get_key: bool,
}

/// All chats of the Destiny.gg kind.
#[derive(Clone, Debug, PartialEq, Eq)]
pub struct DggLikeSettings {
    pub max_retry_seconds: u64,
    pub sites: Vec<DggSiteSettings>,
}

/// Everything.
#[derive(Clone, Debug, PartialEq, Eq)]
pub struct Settings {
    pub debug: String,
    pub discord_alerting: DiscordAlertingSettings,
    pub writers: WritersSettings,
    pub twitch: TwitchSettings,
    pub dgg_like: DggLikeSettings,
}

} // verus!
