//! The events that the scrapers produce and the normalized messages that
//! the sinks take.

use crate::scrapers::dgg::events::DggEvent;
use crate::scrapers::twitch::events::TwitchEvent;
use crate::text::lower_spec;
use crate::text::normal_channel;
use crate::text::normalize_channel;
use crate::text::to_ascii_lowercase;
use crate::text::trim;
use crate::text::trim_spec;
use crate::time::Timestamp;
use vstd::prelude::*;

verus! {

/// Anything that a scraper can report.
#[derive(Clone, Debug)]
pub enum AllEvents {
    Dgg(DggEvent),
    Twitch(TwitchEvent),
}

/// Who a message is from: a user, or one of the synthetic senders under
/// which notices are filed.
#[derive(Debug, Clone, PartialEq, Eq)]
pub enum Usernames {
    Normal(String),
    System,
    Bits,
    Subscriber,
    GiftSub,
    Raid,
    Host,
    Moderation,
}

/// A sender as mathematics sees it.
pub enum UsernamesView {
    Normal(Seq<char>),
    System,
    Bits,
    Subscriber,
    GiftSub,
    Raid,
    Host,
    Moderation,
}

impl View for Usernames {
    type V = UsernamesView;

    open spec fn view(&self) -> UsernamesView {
        match *self {
            Usernames::Normal(s) => UsernamesView::Normal(s@),
            Usernames::System => UsernamesView::System,
            Usernames::Bits => UsernamesView::Bits,
            Usernames::Subscriber => UsernamesView::Subscriber,
            Usernames::GiftSub => UsernamesView::GiftSub,
            Usernames::Raid => UsernamesView::Raid,
            Usernames::Host => UsernamesView::Host,
            Usernames::Moderation => UsernamesView::Moderation,
        }
    }
}

impl UsernamesView {
    /// The name as it is written: a user's name trimmed, a synthetic sender
    /// as `@` and its kind.
    pub open spec fn text(self) -> Seq<char> {
        match self {
            UsernamesView::Normal(u) => trim_spec(u),
            UsernamesView::System => "@system"@,
            UsernamesView::Bits => "@bits"@,
            UsernamesView::Subscriber => "@subscriber"@,
            UsernamesView::GiftSub => "@giftsub"@,
            UsernamesView::Raid => "@raid"@,
            UsernamesView::Host => "@host"@,
            UsernamesView::Moderation => "@moderation"@,
        }
    }

    /// A user's name trimmed and lower-cased; a synthetic sender as it is.
    pub open spec fn normalized(self) -> UsernamesView {
        match self {
            UsernamesView::Normal(u) => UsernamesView::Normal(lower_spec(trim_spec(u))),
            other => other,
        }
    }
}

impl Usernames {
    /// The name as it is written.
    pub fn to_string(&self) -> (r: String)
        ensures
            r@ == self@.text(),
    {
        match self {
            Usernames::Normal(u) => trim(u.as_str()),
            Usernames::System => "@system".to_owned(),
            Usernames::Bits => "@bits".to_owned(),
            Usernames::Subscriber => "@subscriber".to_owned(),
            Usernames::GiftSub => "@giftsub".to_owned(),
            Usernames::Raid => "@raid".to_owned(),
            Usernames::Host => "@host".to_owned(),
            Usernames::Moderation => "@moderation".to_owned(),
        }
    }

    /// The same sender, a user's name trimmed and lower-cased.
    pub fn normalize(&self) -> (r: Usernames)
        ensures
            r@ == self@.normalized(),
    {
        match self {
            Usernames::Normal(s) => {
                let trimmed = trim(s.as_str());
                Usernames::Normal(to_ascii_lowercase(trimmed.as_str()))
            },
            Usernames::System => Usernames::System,
            Usernames::Bits => Usernames::Bits,
            Usernames::Subscriber => Usernames::Subscriber,
            Usernames::GiftSub => Usernames::GiftSub,
            Usernames::Raid => Usernames::Raid,
            Usernames::Host => Usernames::Host,
            Usernames::Moderation => Usernames::Moderation,
        }
    }
}

/// The written form of a normalized name needs no further trimming.
pub(crate) proof fn lemma_normalized_name_text(name: UsernamesView)
    ensures
        name.normalized().text() == match name {
            UsernamesView::Normal(u) => lower_spec(trim_spec(u)),
            other => other.text(),
        },
{
    match name {
        UsernamesView::Normal(u) => {
            crate::text::lemma_trim_lower(u);
            crate::text::lemma_trim_idempotent(u);
        },
        _ => {},
    }
}

/// One message in the shape that every sink takes.
#[derive(Clone, Debug, PartialEq, Eq)]
pub struct SimpleMessage {
    pub id: Option<String>,
    pub channel: String,
    pub timestamp: Timestamp,
    pub username: Usernames,
    pub text: String,
}

/// A message as mathematics sees it.
pub struct SimpleMessageView {
    pub id: Option<Seq<char>>,
    pub channel: Seq<char>,
    pub timestamp: Timestamp,
    pub username: UsernamesView,
    pub text: Seq<char>,
}

impl View for SimpleMessage {
    type V = SimpleMessageView;

    open spec fn view(&self) -> SimpleMessageView {
        SimpleMessageView {
            id: match self.id {
                Some(s) => Some(s@),
                None => None,
            },
            channel: self.channel@,
            timestamp: self.timestamp,
            username: self.username@,
            text: self.text@,
        }
    }
}

impl SimpleMessageView {
    /// The normalized form: the channel trimmed and its first letter
    /// capitalized, a user's name trimmed and lower-cased, the text trimmed.
    /// Id and time are kept.
    pub open spec fn normalized(self) -> SimpleMessageView {
        SimpleMessageView {
            id: self.id,
            channel: normal_channel(self.channel),
            timestamp: self.timestamp,
            username: self.username.normalized(),
            text: trim_spec(self.text),
        }
    }
}

impl SimpleMessage {
    /// The message in normalized form.
    pub fn normalize(&self) -> (r: Self)
        ensures
            r@ == self@.normalized(),
    {
        let id = match &self.id {
            Some(s) => Some(s.clone()),
            None => None,
        };
        SimpleMessage {
            id,
            channel: normalize_channel(self.channel.as_str()),
            timestamp: self.timestamp,
            username: self.username.normalize(),
            text: trim(self.text.as_str()),
        }
    }
}

/// The messages that one event amounts to, in order. Many events amount to
/// one message, some to none or to two.
#[derive(Clone, Debug, PartialEq, Eq)]
pub struct SimpleMessageGroup(pub Vec<SimpleMessage>);

impl View for SimpleMessageGroup {
    type V = Seq<SimpleMessageView>;

    open spec fn view(&self) -> Seq<SimpleMessageView> {
        self.0@.map_values(|m: SimpleMessage| m@)
    }
}

impl SimpleMessageGroup {
    /// The group of no message.
    pub fn empty() -> (r: SimpleMessageGroup)
        ensures
            r@ == Seq::<SimpleMessageView>::empty(),
    {
        SimpleMessageGroup(Vec::new())
    }

    /// The group of one message.
    pub fn single(msg: SimpleMessage) -> (r: SimpleMessageGroup)
        ensures
            r@ == seq![msg@],
    {
        let mut v = Vec::new();
        v.push(msg);
        SimpleMessageGroup(v)
    }

    /// The group of two messages.
    pub fn pair(first: SimpleMessage, second: SimpleMessage) -> (r: SimpleMessageGroup)
        ensures
            r@ == seq![first@, second@],
    {
        let mut v = Vec::new();
        v.push(first);
        v.push(second);
        SimpleMessageGroup(v)
    }

    /// The group of the message, if there is one.
    pub fn from_option(opt: Option<SimpleMessage>) -> (r: SimpleMessageGroup)
        ensures
            r@ == match opt {
                Some(msg) => seq![msg@],
                None => Seq::<SimpleMessageView>::empty(),
            },
    {
        match opt {
            Some(msg) => SimpleMessageGroup::single(msg),
            None => SimpleMessageGroup::empty(),
        }
    }
}

/// What an event amounts to; `now` is the time given to a Twitch host
/// notice, which carries none.
pub open spec fn all_events_group(event: AllEvents, now: Timestamp) -> Seq<SimpleMessageView> {
    match event {
        AllEvents::Dgg(e) => crate::scrapers::dgg::events::event_group(e.event, e.channel@),
        AllEvents::Twitch(e) => crate::scrapers::twitch::events::twitch_group(e, now),
    }
}

impl SimpleMessageGroup {
    /// The messages of an event that arrived at the time `now`.
    pub fn from_event(event: AllEvents, now: Timestamp) -> (r: SimpleMessageGroup)
        ensures
            r@ == all_events_group(event, now),
    {
        match event {
            AllEvents::Dgg(e) => e.into_group(),
            AllEvents::Twitch(e) => SimpleMessageGroup::from_twitch(e, now),
        }
    }
}

/// Normalizing a message twice is normalizing it once, for every message
/// whose channel name, trimmed, is empty or starts with an ASCII character.
pub proof fn lemma_normalize_idempotent(m: SimpleMessageView)
    requires
        crate::text::plain_initial(m.channel),
    ensures
        m.normalized().normalized() == m.normalized(),
{
    crate::text::lemma_normal_channel_idempotent(m.channel);
    crate::text::lemma_trim_idempotent(m.text);
    match m.username {
        UsernamesView::Normal(u) => {
            crate::formats::orl::lemma_normal_username_idempotent(u);
        },
        _ => {},
    }
}

} // verus!
