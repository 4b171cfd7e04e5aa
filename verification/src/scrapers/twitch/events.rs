//! Twitch events and the messages that they amount to.

use crate::events::SimpleMessage;
use crate::events::SimpleMessageGroup;
use crate::events::SimpleMessageView;
use crate::events::Usernames;
use crate::events::UsernamesView;
use crate::scrapers::twitch::message::ClearChatAction;
use crate::scrapers::twitch::message::ClearChatMessage;
use crate::scrapers::twitch::message::HostTargetAction;
use crate::scrapers::twitch::message::HostTargetMessage;
use crate::scrapers::twitch::message::PrivmsgMessage;
use crate::scrapers::twitch::message::UserNoticeEvent;
use crate::scrapers::twitch::message::UserNoticeMessage;
use crate::text::decimal_spec;
use crate::text::push_decimal;
use crate::text::push_text;
use crate::text::same_text;
use crate::time::Timestamp;
use vstd::prelude::*;

verus! {

/// What a Twitch chat can report.
#[derive(Clone, Debug, PartialEq, Eq)]
pub enum TwitchEvent {
    HostTarget(HostTargetMessage),
    Privmsg(PrivmsgMessage),
    UserNotice(UserNoticeMessage),
    ClearChat(ClearChatMessage),
}

/// How `humantime::format_duration` writes a span of whole seconds.
pub uninterp spec fn duration_text(seconds: nat) -> Seq<char>;

/// `humantime::format_duration` on a span of whole seconds, written out.
#[verifier::external_body]
fn format_duration(seconds: u64) -> (r: String)
    ensures
        r@ == duration_text(seconds as nat),
{
    humantime::format_duration(std::time::Duration::from_secs(seconds)).to_string()
}

/// The name of a subscription plan: the three tiers by their number, any
/// other plan as it is.
pub open spec fn tier_text(sub_plan: Seq<char>) -> Seq<char> {
    if sub_plan == "1000"@ {
        "Tier 1"@
    } else if sub_plan == "2000"@ {
        "Tier 2"@
    } else if sub_plan == "3000"@ {
        "Tier 3"@
    } else {
        sub_plan
    }
}

/// The name of a subscription plan.
pub fn tiers_format(sub_plan: &str) -> (r: String)
    ensures
        r@ == tier_text(sub_plan@),
{
    if same_text(sub_plan, "1000") {
        "Tier 1".to_owned()
    } else if same_text(sub_plan, "2000") {
        "Tier 2".to_owned()
    } else if same_text(sub_plan, "3000") {
        "Tier 3".to_owned()
    } else {
        sub_plan.to_owned()
    }
}

/// `<name> just raided the channel with <viewers> viewers!`
pub open spec fn raid_text(name: Seq<char>, viewers: nat) -> Seq<char> {
    name + " just raided the channel with "@ + decimal_spec(viewers) + " viewers!"@
}

/// `<name> just raided the channel with <viewers> viewers!`
pub fn raid_message(name: &str, viewers: u64) -> (r: String)
    ensures
        r@ == raid_text(name@, viewers as nat),
{
    let mut r = String::new();
    push_text(&mut r, name);
    push_text(&mut r, " just raided the channel with ");
    push_decimal(&mut r, viewers);
    push_text(&mut r, " viewers!");
    r
}

/// What a host notice amounts to at the time `now`: one message in the
/// hosted channel when hosting starts, nothing when it stops.
pub open spec fn host_target_group(msg: HostTargetMessage, now: Timestamp) -> Seq<
    SimpleMessageView,
> {
    match msg.action {
        HostTargetAction::HostModeOn { hosted_channel_login, viewer_count } => seq![
            SimpleMessageView {
                id: None,
                channel: hosted_channel_login@,
                timestamp: now,
                username: UsernamesView::Host,
                text: raid_text(
                    msg.channel_login@,
                    match viewer_count {
                        Some(n) => n as nat,
                        None => 0,
                    },
                ),
            },
        ],
        HostTargetAction::HostModeOff { .. } => Seq::empty(),
    }
}

/// `<login> donated <bits> bits to the channel!`
pub open spec fn bits_text(login: Seq<char>, bits: nat) -> Seq<char> {
    login + " donated "@ + decimal_spec(bits) + " bits to the channel!"@
}

/// What a chat message amounts to: itself, and a second message from
/// `@bits` where bits came with it.
pub open spec fn privmsg_group(msg: PrivmsgMessage) -> Seq<SimpleMessageView> {
    let first = SimpleMessageView {
        id: Some(msg.message_id@),
        channel: msg.channel_login@,
        timestamp: msg.server_timestamp,
        username: UsernamesView::Normal(msg.sender.login@),
        text: msg.message_text@,
    };
    match msg.bits {
        Some(bits) => seq![
            first,
            SimpleMessageView {
                id: None,
                channel: msg.channel_login@,
                timestamp: msg.server_timestamp,
                username: UsernamesView::Bits,
                text: bits_text(msg.sender.login@, bits as nat),
            },
        ],
        None => seq![first],
    }
}

/// What a ban or a timeout is reported as; `None` for a cleared chat.
pub open spec fn clear_chat_text(action: ClearChatAction) -> Option<Seq<char>> {
    match action {
        ClearChatAction::UserBanned { user_login, .. } => Some(
            user_login@ + " permanently banned"@,
        ),
        ClearChatAction::UserTimedOut { user_login, timeout_seconds, .. } => Some(
            user_login@ + " timed out for "@ + duration_text(timeout_seconds as nat),
        ),
        ClearChatAction::ChatCleared => None,
    }
}

/// What a moderation notice amounts to: one message from `@moderation` for a
/// ban or a timeout, nothing for a cleared chat.
pub open spec fn clear_chat_group(msg: ClearChatMessage) -> Seq<SimpleMessageView> {
    match clear_chat_text(msg.action) {
        Some(text) => seq![
            SimpleMessageView {
                id: None,
                channel: msg.channel_login@,
                timestamp: msg.server_timestamp,
                username: UsernamesView::Moderation,
                text,
            },
        ],
        None => Seq::empty(),
    }
}

/// ` Message: <text>` where a text came with a subscription, else nothing.
pub open spec fn attached_text(message_text: Option<String>) -> Seq<char> {
    match message_text {
        Some(t) => " Message: "@ + t@,
        None => Seq::empty(),
    }
}

/// What a notice says and under which sender it is filed; `None` for a
/// notice that only the system message reports.
pub open spec fn notice_text(msg: UserNoticeMessage) -> Option<(UsernamesView, Seq<char>)> {
    let login = msg.sender.login@;
    match msg.event {
        UserNoticeEvent::SubOrResub { is_resub, cumulative_months, sub_plan, .. } => Some(
            (
                UsernamesView::Subscriber,
                login + " just "@ + (if is_resub {
                    "resubscribed"@
                } else {
                    "subscribed"@
                }) + " "@ + (if sub_plan@ == "Prime"@ {
                    "with"@
                } else {
                    "at"@
                }) + " "@ + tier_text(sub_plan@) + " for "@ + decimal_spec(cumulative_months as nat)
                    + " months!"@ + attached_text(msg.message_text),
            ),
        ),
        UserNoticeEvent::SubGift { recipient, sub_plan, .. } => Some(
            (
                UsernamesView::Subscriber,
                login + " gifted a "@ + tier_text(sub_plan@) + " sub to "@ + recipient.login@
                    + "!"@,
            ),
        ),
        UserNoticeEvent::AnonSubMysteryGift { mass_gift_count, sub_plan } => Some(
            (
                UsernamesView::GiftSub,
                login + " gifted "@ + decimal_spec(mass_gift_count as nat) + " "@ + tier_text(
                    sub_plan@,
                ) + " subs to the community!"@,
            ),
        ),
        UserNoticeEvent::SubMysteryGift { mass_gift_count, sub_plan, .. } => Some(
            (
                UsernamesView::GiftSub,
                login + " gifted "@ + decimal_spec(mass_gift_count as nat) + " "@ + tier_text(
                    sub_plan@,
                ) + " subs to the community!"@,
            ),
        ),
        UserNoticeEvent::Raid { viewer_count, .. } => Some(
            (UsernamesView::Raid, raid_text(login, viewer_count as nat)),
        ),
        UserNoticeEvent::GiftPaidUpgrade { gifter_name, .. } => Some(
            (
                UsernamesView::Subscriber,
                login + " is continuing their gifted sub from "@ + gifter_name@,
            ),
        ),
        UserNoticeEvent::AnonGiftPaidUpgrade => Some(
            (UsernamesView::Subscriber, login + " is continuing their anonymous gifted sub!"@),
        ),
        UserNoticeEvent::Ritual { .. } => None,
        UserNoticeEvent::BitsBadgeTier { .. } => None,
        UserNoticeEvent::Unknown => None,
    }
}

/// The message that files Twitch's own wording of a notice under `@system`.
pub open spec fn system_view(msg: UserNoticeMessage) -> SimpleMessageView {
    SimpleMessageView {
        id: None,
        channel: msg.channel_login@,
        timestamp: msg.server_timestamp,
        username: UsernamesView::System,
        text: msg.system_message@,
    }
}

/// What a notice amounts to: the notice in our wording, where it has one,
/// and then Twitch's own wording from `@system`.
pub open spec fn user_notice_group(msg: UserNoticeMessage) -> Seq<SimpleMessageView> {
    match notice_text(msg) {
        Some((username, text)) => seq![
            SimpleMessageView {
                id: Some(msg.message_id@),
                channel: msg.channel_login@,
                timestamp: msg.server_timestamp,
                username,
                text,
            },
            system_view(msg),
        ],
        None => seq![system_view(msg)],
    }
}

/// The `<n> <tier> subs to the community!` notice of a mass gift.
fn mystery_gift_text(login: &str, mass_gift_count: u64, sub_plan: &str) -> (r: String)
    ensures
        r@ == login@ + " gifted "@ + decimal_spec(mass_gift_count as nat) + " "@ + tier_text(
            sub_plan@,
        ) + " subs to the community!"@,
{
    let tier = tiers_format(sub_plan);
    let mut r = String::new();
    push_text(&mut r, login);
    push_text(&mut r, " gifted ");
    push_decimal(&mut r, mass_gift_count);
    push_text(&mut r, " ");
    push_text(&mut r, tier.as_str());
    push_text(&mut r, " subs to the community!");
    r
}

/// The `just subscribed` notice.
fn sub_text(
    login: &str,
    is_resub: bool,
    sub_plan: &str,
    cumulative_months: u64,
    message_text: &Option<String>,
) -> (r: String)
    ensures
        r@ == login@ + " just "@ + (if is_resub {
            "resubscribed"@
        } else {
            "subscribed"@
        }) + " "@ + (if sub_plan@ == "Prime"@ {
            "with"@
        } else {
            "at"@
        }) + " "@ + tier_text(sub_plan@) + " for "@ + decimal_spec(cumulative_months as nat)
            + " months!"@ + attached_text(*message_text),
{
    let tier = tiers_format(sub_plan);
    let mut r = String::new();
    push_text(&mut r, login);
    push_text(&mut r, " just ");
    push_text(
        &mut r,
        if is_resub {
            "resubscribed"
        } else {
            "subscribed"
        },
    );
    push_text(&mut r, " ");
    push_text(
        &mut r,
        if same_text(sub_plan, "Prime") {
            "with"
        } else {
            "at"
        },
    );
    push_text(&mut r, " ");
    push_text(&mut r, tier.as_str());
    push_text(&mut r, " for ");
    push_decimal(&mut r, cumulative_months);
    push_text(&mut r, " months!");
    match message_text {
        Some(t) => {
            push_text(&mut r, " Message: ");
            push_text(&mut r, t.as_str());
        },
        None => {
            assert(r@ + Seq::<char>::empty() =~= r@);
        },
    }
    r
}

/// What a notice says and under which sender it is filed.
fn notice_line(msg: &UserNoticeMessage) -> (r: Option<(Usernames, String)>)
    ensures
        match notice_text(*msg) {
            Some((username, text)) => r matches Some(line) && line.0@ == username && line.1@
                == text,
            None => r is None,
        },
{
    let login = msg.sender.login.as_str();
    match &msg.event {
        UserNoticeEvent::SubOrResub { is_resub, cumulative_months, sub_plan, .. } => Some(
            (
                Usernames::Subscriber,
                sub_text(login, *is_resub, sub_plan.as_str(), *cumulative_months, &msg.message_text),
            ),
        ),
        UserNoticeEvent::SubGift { recipient, sub_plan, .. } => {
            let tier = tiers_format(sub_plan.as_str());
            let mut r = String::new();
            push_text(&mut r, login);
            push_text(&mut r, " gifted a ");
            push_text(&mut r, tier.as_str());
            push_text(&mut r, " sub to ");
            push_text(&mut r, recipient.login.as_str());
            push_text(&mut r, "!");
            Some((Usernames::Subscriber, r))
        },
        UserNoticeEvent::AnonSubMysteryGift { mass_gift_count, sub_plan } => Some(
            (Usernames::GiftSub, mystery_gift_text(login, *mass_gift_count, sub_plan.as_str())),
        ),
        UserNoticeEvent::SubMysteryGift { mass_gift_count, sub_plan, .. } => Some(
            (Usernames::GiftSub, mystery_gift_text(login, *mass_gift_count, sub_plan.as_str())),
        ),
        UserNoticeEvent::Raid { viewer_count, .. } => Some(
            (Usernames::Raid, raid_message(login, *viewer_count)),
        ),
        UserNoticeEvent::GiftPaidUpgrade { gifter_name, .. } => {
            let mut r = String::new();
            push_text(&mut r, login);
            push_text(&mut r, " is continuing their gifted sub from ");
            push_text(&mut r, gifter_name.as_str());
            Some((Usernames::Subscriber, r))
        },
        UserNoticeEvent::AnonGiftPaidUpgrade => {
            let mut r = String::new();
            push_text(&mut r, login);
            push_text(&mut r, " is continuing their anonymous gifted sub!");
            Some((Usernames::Subscriber, r))
        },
        UserNoticeEvent::Ritual { .. } => None,
        UserNoticeEvent::BitsBadgeTier { .. } => None,
        UserNoticeEvent::Unknown => None,
    }
}

impl SimpleMessageGroup {
    /// The messages of a host notice that arrived at the time `now`.
    pub fn from_host_target(msg: HostTargetMessage, now: Timestamp) -> (r: SimpleMessageGroup)
        ensures
            r@ == host_target_group(msg, now),
    {
        match msg.action {
            HostTargetAction::HostModeOn { hosted_channel_login, viewer_count } => {
                let viewers: u64 = match viewer_count {
                    Some(n) => n,
                    None => 0,
                };
                SimpleMessageGroup::single(
                    SimpleMessage {
                        id: None,
                        channel: hosted_channel_login,
                        timestamp: now,
                        username: Usernames::Host,
                        text: raid_message(msg.channel_login.as_str(), viewers),
                    },
                )
            },
            HostTargetAction::HostModeOff { .. } => SimpleMessageGroup::empty(),
        }
    }

    /// The messages of a chat message.
    pub fn from_privmsg(msg: PrivmsgMessage) -> (r: SimpleMessageGroup)
        ensures
            r@ == privmsg_group(msg),
    {
        let bits_message = match msg.bits {
            Some(bits) => {
                let mut text = String::new();
                push_text(&mut text, msg.sender.login.as_str());
                push_text(&mut text, " donated ");
                push_decimal(&mut text, bits);
                push_text(&mut text, " bits to the channel!");
                Some(
                    SimpleMessage {
                        id: None,
                        timestamp: msg.server_timestamp,
                        channel: msg.channel_login.clone(),
                        username: Usernames::Bits,
                        text,
                    },
                )
            },
            None => None,
        };
        let first = SimpleMessage {
            id: Some(msg.message_id),
            timestamp: msg.server_timestamp,
            channel: msg.channel_login,
            username: Usernames::Normal(msg.sender.login),
            text: msg.message_text,
        };
        match bits_message {
            Some(second) => SimpleMessageGroup::pair(first, second),
            None => SimpleMessageGroup::single(first),
        }
    }

    /// The messages of a moderation notice.
    pub fn from_clear_chat(msg: ClearChatMessage) -> (r: SimpleMessageGroup)
        ensures
            r@ == clear_chat_group(msg),
    {
        let text = match &msg.action {
            ClearChatAction::UserBanned { user_login, .. } => {
                let mut text = String::new();
                push_text(&mut text, user_login.as_str());
                push_text(&mut text, " permanently banned");
                text
            },
            ClearChatAction::UserTimedOut { user_login, timeout_seconds, .. } => {
                let span = format_duration(*timeout_seconds);
                let mut text = String::new();
                push_text(&mut text, user_login.as_str());
                push_text(&mut text, " timed out for ");
                push_text(&mut text, span.as_str());
                text
            },
            ClearChatAction::ChatCleared => {
                return SimpleMessageGroup::empty();
            },
        };
        SimpleMessageGroup::single(
            SimpleMessage {
                id: None,
                channel: msg.channel_login,
                timestamp: msg.server_timestamp,
                username: Usernames::Moderation,
                text,
            },
        )
    }

    /// The messages of a notice.
    pub fn from_user_notice(msg: UserNoticeMessage) -> (r: SimpleMessageGroup)
        ensures
            r@ == user_notice_group(msg),
    {
        let line = notice_line(&msg);
        let ours = match line {
            Some((username, text)) => Some(
                SimpleMessage {
                    id: Some(msg.message_id.clone()),
                    channel: msg.channel_login.clone(),
                    timestamp: msg.server_timestamp,
                    username,
                    text,
                },
            ),
            None => None,
        };
        let system = SimpleMessage {
            id: None,
            channel: msg.channel_login,
            timestamp: msg.server_timestamp,
            username: Usernames::System,
            text: msg.system_message,
        };
        match ours {
            Some(first) => SimpleMessageGroup::pair(first, system),
            None => SimpleMessageGroup::single(system),
        }
    }
}

/// What a Twitch event amounts to; `now` is the time given to a host
/// notice, which carries none.
pub open spec fn twitch_group(event: TwitchEvent, now: Timestamp) -> Seq<SimpleMessageView> {
    match event {
        TwitchEvent::HostTarget(m) => host_target_group(m, now),
        TwitchEvent::Privmsg(m) => privmsg_group(m),
        TwitchEvent::UserNotice(m) => user_notice_group(m),
        TwitchEvent::ClearChat(m) => clear_chat_group(m),
    }
}

impl SimpleMessageGroup {
    /// The messages of a Twitch event that arrived at the time `now`.
    pub fn from_twitch(event: TwitchEvent, now: Timestamp) -> (r: SimpleMessageGroup)
        ensures
            r@ == twitch_group(event, now),
    {
        match event {
            TwitchEvent::HostTarget(m) => SimpleMessageGroup::from_host_target(m, now),
            TwitchEvent::Privmsg(m) => SimpleMessageGroup::from_privmsg(m),
            TwitchEvent::UserNotice(m) => SimpleMessageGroup::from_user_notice(m),
            TwitchEvent::ClearChat(m) => SimpleMessageGroup::from_clear_chat(m),
        }
    }
}

} // verus!
