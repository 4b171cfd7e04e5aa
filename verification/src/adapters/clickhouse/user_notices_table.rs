//! The rows of the table `usernotices`.

use crate::adapters::clickhouse::messages_table::badge_names;
use crate::adapters::clickhouse::messages_table::color_text;
use crate::adapters::clickhouse::messages_table::format_color;
use crate::adapters::clickhouse::messages_table::names_of;
use crate::adapters::clickhouse::messages_table::RowError;
use crate::scrapers::twitch::message::TwitchUserBasics;
use crate::scrapers::twitch::message::UserNoticeEvent;
use crate::scrapers::twitch::message::UserNoticeMessage;
use crate::text::parse_u64;
use crate::text::parsed_unsigned;
use vstd::prelude::*;

verus! {

/// A row of the table `usernotices`.
#[derive(Clone, Debug, PartialEq, Eq)]
pub struct ClickhouseUserNotice {
    pub ts: i64,
    pub message_type: String,
    pub channel: String,
    pub channel_id: u64,
    pub username: String,
    pub display_name: String,
    pub user_id: u64,
    pub badges: Vec<String>,
    pub system_message: String,
    pub text: String,
    pub color: String,
    pub sub_plan: String,
    pub sub_plan_name: String,
    pub cumulative_months: u16,
    pub streak_months: u16,
    pub viewer_count: u64,
    pub gift_months: u16,
    pub recipient_username: String,
    pub recipient_display_name: String,
    pub recipient_user_id: u64,
}

/// The statement that creates the table `usernotices`.
pub const CREATE_USER_NOTICES: &'static str = "
      CREATE TABLE IF NOT EXISTS usernotices (
          ts DateTime64(3) CODEC(T64, ZSTD(12)),
          message_type LowCardinality(String),
          channel LowCardinality(String),
          channel_id UInt64 CODEC(T64, ZSTD(12)),
          username String CODEC(ZSTD(12)),
          display_name String CODEC(ZSTD(12)),
          user_id UInt64 CODEC(T64, ZSTD(12)),
          badges Array(LowCardinality(String)),
          system_message String CODEC(ZSTD(14)),
          text String CODEC(ZSTD(14)),
          color String CODEC(ZSTD(12)),
          sub_plan LowCardinality(String),
          sub_plan_name LowCardinality(String),
          cumulative_months UInt16 CODEC(Gorilla, ZSTD(1)),
          streak_months UInt16 CODEC(Gorilla, ZSTD(1)),
          viewer_count UInt64 CODEC(T64, ZSTD(12)),
          gift_months UInt16 CODEC(Gorilla, ZSTD(1)),
          recipient_username String CODEC(ZSTD(12)),
          recipient_display_name String CODEC(ZSTD(12)),
          recipient_user_id UInt64 CODEC(T64, ZSTD(12))
      )
      ENGINE = ReplacingMergeTree
      PARTITION BY toYYYYMM(ts)
      ORDER BY (channel, username, ts, text);";

/// The low sixteen bits of a count.
pub open spec fn low16(n: u64) -> u16 {
    (n % 65536) as u16
}

/// What a notice tells of a subscription, a gift or a raid; whatever it
/// does not tell is empty or 0.
pub struct NoticeDetails {
    pub sub_plan: Seq<char>,
    pub sub_plan_name: Seq<char>,
    pub cumulative_months: u16,
    pub streak_months: u16,
    pub viewer_count: u64,
    pub gift_months: u16,
    pub recipient: Option<TwitchUserBasics>,
}

/// What each kind of notice tells.
pub open spec fn notice_details(event: UserNoticeEvent) -> NoticeDetails {
    match event {
        UserNoticeEvent::SubOrResub {
            sub_plan,
            sub_plan_name,
            cumulative_months,
            streak_months,
            ..
        } => NoticeDetails {
            sub_plan: sub_plan@,
            sub_plan_name: sub_plan_name@,
            cumulative_months: low16(cumulative_months),
            streak_months: match streak_months {
                Some(n) => low16(n),
                None => 0,
            },
            viewer_count: 0,
            gift_months: 0,
            recipient: None,
        },
        UserNoticeEvent::SubGift {
            sub_plan,
            sub_plan_name,
            cumulative_months,
            num_gifted_months,
            recipient,
            ..
        } => NoticeDetails {
            sub_plan: sub_plan@,
            sub_plan_name: sub_plan_name@,
            cumulative_months: low16(cumulative_months),
            streak_months: 0,
            viewer_count: 0,
            gift_months: low16(num_gifted_months),
            recipient: Some(recipient),
        },
        UserNoticeEvent::Raid { viewer_count, .. } => NoticeDetails {
            sub_plan: Seq::empty(),
            sub_plan_name: Seq::empty(),
            cumulative_months: 0,
            streak_months: 0,
            viewer_count,
            gift_months: 0,
            recipient: None,
        },
        _ => NoticeDetails {
            sub_plan: Seq::empty(),
            sub_plan_name: Seq::empty(),
            cumulative_months: 0,
            streak_months: 0,
            viewer_count: 0,
            gift_months: 0,
            recipient: None,
        },
    }
}

/// What the row of a notice must be.
pub open spec fn notice_row(msg: UserNoticeMessage, row: ClickhouseUserNotice) -> bool {
    let details = notice_details(msg.event);
    &&& row.ts == msg.server_timestamp.millis()
    &&& row.message_type@ == msg.event_id@
    &&& row.channel@ == msg.channel_login@
    &&& Some(row.channel_id as nat) == parsed_unsigned(msg.channel_id@, u64::MAX as nat)
    &&& row.username@ == msg.sender.login@
    &&& row.display_name@ == msg.sender.name@
    &&& Some(row.user_id as nat) == parsed_unsigned(msg.sender.id@, u64::MAX as nat)
    &&& row.badges@.map_values(|s: String| s@) == badge_names(msg.badges@)
    &&& row.system_message@ == msg.system_message@
    &&& row.text@ == match msg.message_text {
        Some(t) => t@,
        None => Seq::empty(),
    }
    &&& row.color@ == color_text(msg.name_color)
    &&& row.sub_plan@ == details.sub_plan
    &&& row.sub_plan_name@ == details.sub_plan_name
    &&& row.cumulative_months == details.cumulative_months
    &&& row.streak_months == details.streak_months
    &&& row.viewer_count == details.viewer_count
    &&& row.gift_months == details.gift_months
    &&& row.recipient_username@ == match details.recipient {
        Some(r) => r.login@,
        None => Seq::empty(),
    }
    &&& row.recipient_display_name@ == match details.recipient {
        Some(r) => r.name@,
        None => Seq::empty(),
    }
    &&& row.recipient_user_id == match details.recipient {
        Some(r) => match parsed_unsigned(r.id@, u64::MAX as nat) {
            Some(n) => n,
            None => 0,
        },
        None => 0,
    }
}

/// The low sixteen bits of a count.
fn truncate16(n: u64) -> (r: u16)
    ensures
        r == low16(n),
{
    (n % 65536) as u16
}

impl ClickhouseUserNotice {
    /// The row of a notice. A notice whose channel id or user id is no
    /// number is no row; a recipient whose id is no number gets the id 0.
    pub fn try_from(msg: UserNoticeMessage) -> (r: Result<ClickhouseUserNotice, RowError>)
        ensures
            r is Ok <==> parsed_unsigned(msg.channel_id@, u64::MAX as nat) is Some
                && parsed_unsigned(msg.sender.id@, u64::MAX as nat) is Some,
            r matches Ok(row) ==> notice_row(msg, row),
            r matches Err(e) ==> e == (if parsed_unsigned(msg.channel_id@, u64::MAX as nat)
                is None {
                RowError::ChannelId
            } else {
                RowError::UserId
            }),
    {
        let mut sub_plan = String::new();
        let mut sub_plan_name = String::new();
        let mut cumulative_months: u16 = 0;
        let mut streak_months: u16 = 0;
        let mut viewer_count: u64 = 0;
        let mut gift_months: u16 = 0;
        let mut recipient_username = String::new();
        let mut recipient_display_name = String::new();
        let mut recipient_user_id: u64 = 0;
        match &msg.event {
            UserNoticeEvent::SubOrResub {
                sub_plan: n_sub_plan,
                sub_plan_name: n_sub_plan_name,
                cumulative_months: n_cumulative_months,
                streak_months: n_streak_months,
                ..
            } => {
                sub_plan = n_sub_plan.clone();
                sub_plan_name = n_sub_plan_name.clone();
                cumulative_months = truncate16(*n_cumulative_months);
                streak_months = match n_streak_months {
                    Some(months) => truncate16(*months),
                    None => 0,
                };
            },
            UserNoticeEvent::SubGift {
                sub_plan: n_sub_plan,
                sub_plan_name: n_sub_plan_name,
                cumulative_months: n_cumulative_months,
                num_gifted_months: n_num_gifted_months,
                recipient: n_recipient,
                ..
            } => {
                sub_plan = n_sub_plan.clone();
                sub_plan_name = n_sub_plan_name.clone();
                cumulative_months = truncate16(*n_cumulative_months);
                gift_months = truncate16(*n_num_gifted_months);
                recipient_username = n_recipient.login.clone();
                recipient_display_name = n_recipient.name.clone();
                recipient_user_id = match parse_u64(n_recipient.id.as_str()) {
                    Some(n) => n,
                    None => 0,
                };
            },
            UserNoticeEvent::Raid { viewer_count: n_viewer_count, .. } => {
                viewer_count = *n_viewer_count;
            },
            _ => {},
        }
        let channel_id = match parse_u64(msg.channel_id.as_str()) {
            Some(n) => n,
            None => {
                return Err(RowError::ChannelId);
            },
        };
        let user_id = match parse_u64(msg.sender.id.as_str()) {
            Some(n) => n,
            None => {
                return Err(RowError::UserId);
            },
        };
        let badges = names_of(&msg.badges);
        let color = format_color(&msg.name_color);
        Ok(
            ClickhouseUserNotice {
                ts: msg.server_timestamp.timestamp_millis(),
                message_type: msg.event_id,
                channel: msg.channel_login,
                channel_id,
                username: msg.sender.login,
                display_name: msg.sender.name,
                user_id,
                badges,
                system_message: msg.system_message,
                text: match msg.message_text {
                    Some(t) => t,
                    None => String::new(),
                },
                color,
                sub_plan,
                sub_plan_name,
                cumulative_months,
                streak_months,
                viewer_count,
                gift_months,
                recipient_username,
                recipient_display_name,
                recipient_user_id,
            },
        )
    }
}

} // verus!
