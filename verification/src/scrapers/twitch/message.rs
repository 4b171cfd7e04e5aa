//! What the IRC client reports of a Twitch message, as far as the sinks
//! read it.

use crate::time::Timestamp;
use vstd::prelude::*;

verus! {

/// A user: the id never changes, the login is the lower-case name, the name
/// is what is shown.
#[derive(Clone, Debug, PartialEq, Eq)]
pub struct TwitchUserBasics {
    pub id: String,
    pub login: String,
    pub name: String,
}

/// A badge next to a name.
#[derive(Clone, Debug, PartialEq, Eq)]
pub struct Badge {
    pub name: String,
    pub version: String,
}

/// The colour of a name.
#[derive(Clone, Copy, Debug, PartialEq, Eq)]
pub struct RGBColor {
    pub r: u8,
    pub g: u8,
    pub b: u8,
}

/// A chat message.
#[derive(Clone, Debug, PartialEq, Eq)]
pub struct PrivmsgMessage {
    pub channel_login: String,
    pub channel_id: String,
    pub message_text: String,
    pub sender: TwitchUserBasics,
    pub badge_info: Vec<Badge>,
    pub badges: Vec<Badge>,
    pub bits: Option<u64>,
    pub name_color: Option<RGBColor>,
    pub message_id: String,
    pub server_timestamp: Timestamp,
}

/// What a notice is about.
#[derive(Clone, Debug, PartialEq, Eq)]
pub enum UserNoticeEvent {
    SubOrResub {
        is_resub: bool,
        cumulative_months: u64,
        streak_months: Option<u64>,
        sub_plan: String,
        sub_plan_name: String,
    },
    Raid { viewer_count: u64, profile_image_url: String },
    SubGift {
        is_sender_anonymous: bool,
        cumulative_months: u64,
        recipient: TwitchUserBasics,
        sub_plan: String,
        sub_plan_name: String,
        num_gifted_months: u64,
    },
    SubMysteryGift { mass_gift_count: u64, sender_total_gifts: u64, sub_plan: String },
    AnonSubMysteryGift { mass_gift_count: u64, sub_plan: String },
    GiftPaidUpgrade { gifter_login: String, gifter_name: String },
    AnonGiftPaidUpgrade,
    Ritual { ritual_name: String },
    BitsBadgeTier { threshold: u64 },
    Unknown,
}

/// A notice: a subscription, a raid and the like.
#[derive(Clone, Debug, PartialEq, Eq)]
pub struct UserNoticeMessage {
    pub channel_login: String,
    pub channel_id: String,
    pub sender: TwitchUserBasics,
    pub message_text: Option<String>,
    pub system_message: String,
    pub event: UserNoticeEvent,
    pub event_id: String,
    pub badge_info: Vec<Badge>,
    pub badges: Vec<Badge>,
    pub name_color: Option<RGBColor>,
    pub message_id: String,
    pub server_timestamp: Timestamp,
}

/// What was cleared from a chat.
#[derive(Clone, Debug, PartialEq, Eq)]
pub enum ClearChatAction {
    ChatCleared,
    UserBanned { user_login: String, user_id: String },
    UserTimedOut { user_login: String, user_id: String, timeout_seconds: u64 },
}

/// A chat was cleared, or a user banned or timed out.
#[derive(Clone, Debug, PartialEq, Eq)]
pub struct ClearChatMessage {
    pub channel_login: String,
    pub channel_id: String,
    pub action: ClearChatAction,
    pub server_timestamp: Timestamp,
}

/// Whether a channel started or stopped hosting another.
#[derive(Clone, Debug, PartialEq, Eq)]
pub enum HostTargetAction {
    HostModeOn { hosted_channel_login: String, viewer_count: Option<u64> },
    HostModeOff { viewer_count: Option<u64> },
}

/// A channel started or stopped hosting another. It carries no time of its
/// own.
#[derive(Clone, Debug, PartialEq, Eq)]
pub struct HostTargetMessage {
    pub channel_login: String,
    pub action: HostTargetAction,
}

} // verus!
