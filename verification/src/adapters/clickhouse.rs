//! The ClickHouse sink: the rows that Twitch events become.

pub mod messages_table;
pub mod user_notices_table;
