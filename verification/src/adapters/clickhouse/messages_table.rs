//! The rows of the tables `messages` and `orl_messages`.

use crate::scrapers::twitch::message::Badge;
use crate::scrapers::twitch::message::PrivmsgMessage;
use crate::scrapers::twitch::message::RGBColor;
use crate::text::hex_fixed;
use crate::text::lemma_parsed_unsigned_narrow;
use crate::text::parse_u64;
use crate::text::parsed_unsigned;
use crate::text::push_hex_byte;
use crate::text::push_text;
use crate::text::same_text;
use vstd::prelude::*;

verus! {

/// A row of the table `messages`.
#[derive(Clone, Debug, PartialEq, Eq)]
pub struct ClickhouseMessage {
    pub ts: i64,
    pub channel: String,
    pub channel_id: u64,
    pub username: String,
    pub display_name: String,
    pub text: String,
    pub user_id: u64,
    pub badges: Vec<String>,
    pub subscribed: u16,
    pub bits: u64,
    pub color: String,
}

/// A row of the table `orl_messages`.
#[derive(Clone, Debug, PartialEq, Eq)]
pub struct ClickhouseOrlMessage {
    pub ts: i64,
    pub channel: String,
    pub username: String,
    pub text: String,
}

/// Why an event is no row.
#[derive(Clone, Copy, Debug, PartialEq, Eq, Structural)]
pub enum RowError {
    /// The id of the channel is no number.
    ChannelId,
    /// The id of the user is no number.
    UserId,
}

/// The statement that creates the table `messages`.
pub const CREATE_MESSAGES: &'static str = "
          CREATE TABLE IF NOT EXISTS messages (
              ts DateTime64(3) CODEC(T64, ZSTD(12)),
              channel LowCardinality(String),
              channel_id UInt64 CODEC(T64, ZSTD(12)),
              username String CODEC(ZSTD(12)),
              display_name String CODEC(ZSTD(12)),
              text String CODEC(ZSTD(14)),
              user_id UInt64 CODEC(T64, ZSTD(12)),
              badges Array(LowCardinality(String)),
              subscribed UInt16 CODEC(Gorilla, ZSTD(1)),
              bits UInt64 CODEC(Gorilla, ZSTD(1)),
              color String CODEC(ZSTD(12))
          )
          ENGINE = ReplacingMergeTree
          PARTITION BY toYYYYMM(ts)
          ORDER BY (channel, username, ts, text);";

/// The statement that creates the table `orl_messages`.
pub const CREATE_ORL_MESSAGES: &'static str = "
          CREATE TABLE IF NOT EXISTS orl_messages (
              ts DateTime64(3) CODEC(T64, ZSTD(12)),
              channel LowCardinality(String),
              username String CODEC(ZSTD(12)),
              text String CODEC(ZSTD(14))
          )
          ENGINE = ReplacingMergeTree
          PARTITION BY toYYYYMM(ts)
          ORDER BY (channel, username, ts, text);";

/// A colour as `#rrggbb`; no colour is the empty text.
pub open spec fn color_text(color: Option<RGBColor>) -> Seq<char> {
    match color {
        Some(rgb) => seq!['#'] + hex_fixed(rgb.r as nat, 2) + hex_fixed(rgb.g as nat, 2)
            + hex_fixed(rgb.b as nat, 2),
        None => Seq::empty(),
    }
}

/// A colour as `#rrggbb`; no colour is the empty text.
pub fn format_color(color: &Option<RGBColor>) -> (r: String)
    ensures
        r@ == color_text(*color),
{
    let mut r = String::new();
    match color {
        Some(rgb) => {
            proof {
                reveal_strlit("#");
                assert("#"@ =~= seq!['#']);
            }
            push_text(&mut r, "#");
            push_hex_byte(&mut r, rgb.r);
            push_hex_byte(&mut r, rgb.g);
            push_hex_byte(&mut r, rgb.b);
        },
        None => {},
    }
    r
}

/// The names of the badges, in order.
pub open spec fn badge_names(badges: Seq<Badge>) -> Seq<Seq<char>> {
    badges.map_values(|b: Badge| b.name@)
}

/// The names of the badges, in order.
pub fn names_of(badges: &Vec<Badge>) -> (r: Vec<String>)
    ensures
        r@.map_values(|s: String| s@) == badge_names(badges@),
{
    let mut r: Vec<String> = Vec::new();
    let mut i: usize = 0;
    while i < badges.len()
        invariant
            i <= badges.len(),
            r.len() == i,
            forall|k: int| 0 <= k < i ==> (#[trigger] r[k])@ == badges[k].name@,
        decreases badges.len() - i,
    {
        r.push(badges[i].name.clone());
        i += 1;
    }
    assert(r@.map_values(|s: String| s@) =~= badge_names(badges@));
    r
}

/// The months that the first `subscriber` badge from `i` on counts; 0 where
/// there is none or where it counts nothing that fits.
pub open spec fn subscribed_months(badge_info: Seq<Badge>, i: int) -> nat
    decreases badge_info.len() - i,
{
    if i < 0 || i >= badge_info.len() {
        0
    } else if badge_info[i].name@ == "subscriber"@ {
        match parsed_unsigned(badge_info[i].version@, u16::MAX as nat) {
            Some(n) => n,
            None => 0,
        }
    } else {
        subscribed_months(badge_info, i + 1)
    }
}

/// The months that the `subscriber` badge counts.
pub fn subscribed_of(badge_info: &Vec<Badge>) -> (r: u16)
    ensures
        r == subscribed_months(badge_info@, 0),
{
    let mut i: usize = 0;
    while i < badge_info.len()
        invariant
            i <= badge_info.len(),
            subscribed_months(badge_info@, 0) == subscribed_months(badge_info@, i as int),
        decreases badge_info.len() - i,
    {
        if same_text(badge_info[i].name.as_str(), "subscriber") {
            proof {
                lemma_parsed_unsigned_narrow(
                    badge_info[i as int].version@,
                    u16::MAX as nat,
                    u64::MAX as nat,
                );
            }
            return match parse_u64(badge_info[i].version.as_str()) {
                Some(n) => if n <= 65535 {
                    n as u16
                } else {
                    0
                },
                None => 0,
            };
        }
        i += 1;
    }
    0
}

/// What the row of a chat message must be.
pub open spec fn message_row(msg: PrivmsgMessage, row: ClickhouseMessage) -> bool {
    &&& row.ts == msg.server_timestamp.millis()
    &&& row.channel@ == msg.channel_login@
    &&& Some(row.channel_id as nat) == parsed_unsigned(msg.channel_id@, u64::MAX as nat)
    &&& row.username@ == msg.sender.login@
    &&& row.display_name@ == msg.sender.name@
    &&& row.text@ == msg.message_text@
    &&& Some(row.user_id as nat) == parsed_unsigned(msg.sender.id@, u64::MAX as nat)
    &&& row.badges@.map_values(|s: String| s@) == badge_names(msg.badges@)
    &&& row.subscribed == subscribed_months(msg.badge_info@, 0)
    &&& row.bits == match msg.bits {
        Some(b) => b,
        None => 0,
    }
    &&& row.color@ == color_text(msg.name_color)
}

impl ClickhouseMessage {
    /// The row of a chat message. A message whose channel id or user id is
    /// no number is no row.
    pub fn try_from(msg: PrivmsgMessage) -> (r: Result<ClickhouseMessage, RowError>)
        ensures
            r is Ok <==> parsed_unsigned(msg.channel_id@, u64::MAX as nat) is Some
                && parsed_unsigned(msg.sender.id@, u64::MAX as nat) is Some,
            r matches Ok(row) ==> message_row(msg, row),
            r matches Err(e) ==> e == (if parsed_unsigned(msg.channel_id@, u64::MAX as nat)
                is None {
                RowError::ChannelId
            } else {
                RowError::UserId
            }),
    {
        let subscribed = subscribed_of(&msg.badge_info);
        let channel_id = match parse_u64(msg.channel_id.as_str()) {
            Some(n) => n,
            None => {
                return Err(RowError::ChannelId);
            },
        };
        let user_id = match parse_u64(msg.sender.id.as_str()) {
            Some(n) => n,
            None => {
                return Err(RowError::UserId);
            },
        };
        let badges = names_of(&msg.badges);
        let color = format_color(&msg.name_color);
        Ok(
            ClickhouseMessage {
                ts: msg.server_timestamp.timestamp_millis(),
                channel: msg.channel_login,
                channel_id,
                username: msg.sender.login,
                display_name: msg.sender.name,
                text: msg.message_text,
                user_id,
                badges,
                subscribed,
                bits: match msg.bits {
                    Some(b) => b,
                    None => 0,
                },
                color,
            },
        )
    }
}

} // verus!
