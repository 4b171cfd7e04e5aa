//! The records of a JSON-lines file, one object per line, told apart by
//! their `kind`.

use vstd::prelude::*;

verus! {

/// What every record has: its id and its time in milliseconds.
#[derive(Clone, Debug, PartialEq, Eq)]
pub struct CommonKey {
    pub id: String,
    pub timestamp: i64,
}

/// A record of kind `orl-log/1.0`.
#[derive(Clone, Debug, PartialEq, Eq)]
pub struct OrlLog1_0 {
    pub key: CommonKey,
    pub username: String,
    pub channel_name: String,
    pub text: String,
}

/// The service that a channel belongs to.
#[derive(Clone, Copy, Debug, PartialEq, Eq)]
pub enum ChannelType {
    Dgg,
    Twitch,
}

/// A record of kind `simple-log/1.0`.
#[derive(Clone, Debug, PartialEq, Eq)]
pub struct SimpleLog1_0 {
    pub key: CommonKey,
    pub channel_type: ChannelType,
    pub message_id: String,
    pub user_id: Option<String>,
    pub username: String,
    pub display_name: Option<String>,
    pub channel_name: String,
    pub text: String,
    pub source: Option<String>,
}

/// Any record of a JSON-lines file.
#[derive(Clone, Debug, PartialEq, Eq)]
pub enum UnifiedMessageLog {
    OrlLog1_0(OrlLog1_0),
    SimpleLog1_0(SimpleLog1_0),
}

impl ChannelType {
    /// The name of the service as the records spell it.
    pub fn name(&self) -> (r: &'static str)
        ensures
            r@ == match *self {
                ChannelType::Dgg => "dgg"@,
                ChannelType::Twitch => "twitch"@,
            },
    {
        match self {
            ChannelType::Dgg => "dgg",
            ChannelType::Twitch => "twitch",
        }
    }
}

impl UnifiedMessageLog {
    /// The value of the record's `kind` field.
    pub fn kind(&self) -> (r: &'static str)
        ensures
            r@ == match *self {
                UnifiedMessageLog::OrlLog1_0(_) => "orl-log/1.0"@,
                UnifiedMessageLog::SimpleLog1_0(_) => "simple-log/1.0"@,
            },
    {
        match self {
            UnifiedMessageLog::OrlLog1_0(_) => "orl-log/1.0",
            UnifiedMessageLog::SimpleLog1_0(_) => "simple-log/1.0",
        }
    }
}

} // verus!
