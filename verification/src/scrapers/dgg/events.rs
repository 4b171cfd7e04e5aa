//! The events of a chat of the Destiny.gg kind, and the frames in which
//! they arrive: an event name, one space, and a body.

use crate::events::SimpleMessage;
use crate::events::SimpleMessageGroup;
use crate::events::SimpleMessageView;
use crate::events::Usernames;
use crate::events::UsernamesView;
use crate::scrapers::dgg::user::User;
use crate::text::chars_of;
use crate::text::find_char;
use crate::text::find_from;
use crate::text::push_text;
use crate::text::same_text;
use crate::text::string_of_range;
use crate::time::Timestamp;
use vstd::prelude::*;

verus! {

/// An announcement of the chat itself.
#[derive(Clone, Debug, PartialEq, Eq)]
pub struct Broadcast {
    pub description: String,
    pub timestamp: Timestamp,
}

/// A user came.
#[derive(Clone, Debug, PartialEq, Eq)]
pub struct Join {
    pub user: User,
    pub timestamp: Timestamp,
}

/// A user left.
#[derive(Clone, Debug, PartialEq, Eq)]
pub struct Quit {
    pub user: User,
    pub timestamp: Timestamp,
}

/// A user said something.
#[derive(Clone, Debug, PartialEq, Eq)]
pub struct Message {
    /// The user sending the message
    pub user: User,
    /// Text of the message
    pub text: String,
    /// Milliseconds event timestamp
    pub timestamp: Timestamp,
}

/// A moderation event as the chat sends it.
#[derive(Clone, Debug, PartialEq, Eq)]
pub struct RawModeration {
    /// The person acted on (muted, banned, etc.)
    pub data: String,
    /// The person muting (a moderator, Bot, etc.)
    pub nick: String,
    pub timestamp: Timestamp,
}

/// A body together with the event name that it came under.
#[derive(Clone, Debug, PartialEq, Eq)]
pub struct WithEventType<T> {
    pub value: T,
    pub event_type: String,
}

/// What a moderator did.
#[derive(Clone, Copy, Debug, PartialEq, Eq, Structural)]
pub enum ModerationTypes {
    Ban,
    Unban,
    Mute,
    Unmute,
    Unknown,
}

/// A moderator did something to a user.
#[derive(Clone, Debug, PartialEq, Eq)]
pub struct Moderation {
    /// The type of moderation event
    pub moderation_type: ModerationTypes,
    /// The target of the moderation event
    pub target: String,
    /// The sender of the moderation event
    pub sender: String,
    /// Milliseconds event timestamp
    pub timestamp: Timestamp,
}

/// Who is in the chat.
#[derive(Clone, Debug, PartialEq, Eq)]
pub struct Names {
    pub connection_count: u32,
    pub users: Vec<User>,
}

/// Any event of a chat.
#[derive(Clone, Debug, PartialEq, Eq)]
pub enum Events {
    Broadcast(Broadcast),
    Join(Join),
    Message(Message),
    Moderation(Moderation),
    Names(Names),
    Quit(Quit),
}

/// An event and the chat that it happened in.
#[derive(Clone, Debug, PartialEq, Eq)]
pub struct DggEvent {
    pub channel: String,
    pub event: Events,
}

/// The event names that a frame can open with.
#[derive(Clone, Copy, Debug, PartialEq, Eq, Structural)]
pub enum FrameKind {
    Broadcast,
    Message,
    Mute,
    Unmute,
    Ban,
    Unban,
    Names,
    Join,
    Quit,
}

/// A frame taken apart: what kind of event it is, and its body, not yet
/// read.
#[derive(Clone, Debug, PartialEq, Eq)]
pub struct Frame {
    pub kind: FrameKind,
    pub event_type: String,
    pub body: String,
}

/// The kind of moderation that an event name stands for.
pub open spec fn moderation_kind(event_type: Seq<char>) -> ModerationTypes {
    if event_type == "BAN"@ {
        ModerationTypes::Ban
    } else if event_type == "UNBAN"@ {
        ModerationTypes::Unban
    } else if event_type == "MUTE"@ {
        ModerationTypes::Mute
    } else if event_type == "UNMUTE"@ {
        ModerationTypes::Unmute
    } else {
        ModerationTypes::Unknown
    }
}

/// The kind of frame that an event name opens; `None` for a name that is
/// not one of the nine.
pub open spec fn frame_kind(event_type: Seq<char>) -> Option<FrameKind> {
    if event_type == "BROADCAST"@ {
        Some(FrameKind::Broadcast)
    } else if event_type == "MSG"@ {
        Some(FrameKind::Message)
    } else if event_type == "MUTE"@ {
        Some(FrameKind::Mute)
    } else if event_type == "UNMUTE"@ {
        Some(FrameKind::Unmute)
    } else if event_type == "BAN"@ {
        Some(FrameKind::Ban)
    } else if event_type == "UNBAN"@ {
        Some(FrameKind::Unban)
    } else if event_type == "NAMES"@ {
        Some(FrameKind::Names)
    } else if event_type == "JOIN"@ {
        Some(FrameKind::Join)
    } else if event_type == "QUIT"@ {
        Some(FrameKind::Quit)
    } else {
        None
    }
}

/// A frame taken apart at its first space: `None` where there is no space,
/// or where what stands before it is no event name.
pub open spec fn framed(raw: Seq<char>) -> Option<(FrameKind, Seq<char>, Seq<char>)> {
    let space = find_from(raw, ' ', 0);
    if space < raw.len() {
        match frame_kind(raw.subrange(0, space)) {
            Some(kind) => Some(
                (kind, raw.subrange(0, space), raw.subrange(space + 1, raw.len() as int)),
            ),
            None => None,
        }
    } else {
        None
    }
}

impl ModerationTypes {
    /// What the moderator did, as a verb in the past tense.
    pub fn action_verbs(&self) -> (r: String)
        ensures
            r@ == self.verb(),
    {
        match self {
            ModerationTypes::Ban => "banned".to_owned(),
            ModerationTypes::Unban => "unbanned".to_owned(),
            ModerationTypes::Mute => "muted".to_owned(),
            ModerationTypes::Unmute => "unmuted".to_owned(),
            ModerationTypes::Unknown => "did something to".to_owned(),
        }
    }

    /// What the moderator did, as a verb in the past tense.
    pub open spec fn verb(self) -> Seq<char> {
        match self {
            ModerationTypes::Ban => "banned"@,
            ModerationTypes::Unban => "unbanned"@,
            ModerationTypes::Mute => "muted"@,
            ModerationTypes::Unmute => "unmuted"@,
            ModerationTypes::Unknown => "did something to"@,
        }
    }

    /// The kind of moderation that an event name stands for.
    pub fn from_event_type(event_type: &str) -> (r: ModerationTypes)
        ensures
            r == moderation_kind(event_type@),
    {
        if same_text(event_type, "BAN") {
            ModerationTypes::Ban
        } else if same_text(event_type, "UNBAN") {
            ModerationTypes::Unban
        } else if same_text(event_type, "MUTE") {
            ModerationTypes::Mute
        } else if same_text(event_type, "UNMUTE") {
            ModerationTypes::Unmute
        } else {
            ModerationTypes::Unknown
        }
    }
}

impl Moderation {
    /// The moderation event that a body stands for under its event name.
    pub fn from_raw(raw: WithEventType<RawModeration>) -> (r: Moderation)
        ensures
            r.moderation_type == moderation_kind(raw.event_type@),
            r.target@ == raw.value.data@,
            r.sender@ == raw.value.nick@,
            r.timestamp == raw.value.timestamp,
    {
        let moderation_type = ModerationTypes::from_event_type(raw.event_type.as_str());
        Moderation {
            moderation_type,
            target: raw.value.data,
            sender: raw.value.nick,
            timestamp: raw.value.timestamp,
        }
    }
}

/// What an event of `channel` amounts to: an announcement is filed under
/// `@system`, a user's message under the user, a moderation of a known kind
/// under `@moderation` as `<sender> <verb> <target>`; the others are no
/// message.
pub open spec fn event_group(event: Events, channel: Seq<char>) -> Seq<SimpleMessageView> {
    match event {
        Events::Broadcast(b) => seq![
            SimpleMessageView {
                id: None,
                channel,
                timestamp: b.timestamp,
                username: UsernamesView::System,
                text: b.description@,
            },
        ],
        Events::Message(m) => seq![
            SimpleMessageView {
                id: None,
                channel,
                timestamp: m.timestamp,
                username: UsernamesView::Normal(m.user.username@),
                text: m.text@,
            },
        ],
        Events::Moderation(m) => if m.moderation_type == ModerationTypes::Unknown {
            Seq::empty()
        } else {
            seq![
                SimpleMessageView {
                    id: None,
                    channel,
                    timestamp: m.timestamp,
                    username: UsernamesView::Moderation,
                    text: m.sender@ + " "@ + m.moderation_type.verb() + " "@ + m.target@,
                },
            ]
        },
        Events::Join(_) => Seq::empty(),
        Events::Names(_) => Seq::empty(),
        Events::Quit(_) => Seq::empty(),
    }
}

impl Events {
    /// The messages that the event amounts to in `channel`.
    pub fn as_group(&self, channel: String) -> (r: SimpleMessageGroup)
        ensures
            r@ == event_group(*self, channel@),
    {
        match self {
            Events::Broadcast(b) => SimpleMessageGroup::single(
                SimpleMessage {
                    id: None,
                    channel,
                    username: Usernames::System,
                    timestamp: b.timestamp,
                    text: b.description.clone(),
                },
            ),
            Events::Message(m) => SimpleMessageGroup::single(
                SimpleMessage {
                    id: None,
                    channel,
                    username: Usernames::Normal(m.user.username.clone()),
                    timestamp: m.timestamp,
                    text: m.text.clone(),
                },
            ),
            Events::Moderation(m) => {
                match m.moderation_type {
                    ModerationTypes::Unknown => SimpleMessageGroup::empty(),
                    _ => {
                        let verb = m.moderation_type.action_verbs();
                        let mut text = String::new();
                        push_text(&mut text, m.sender.as_str());
                        push_text(&mut text, " ");
                        push_text(&mut text, verb.as_str());
                        push_text(&mut text, " ");
                        push_text(&mut text, m.target.as_str());
                        SimpleMessageGroup::single(
                            SimpleMessage {
                                id: None,
                                channel,
                                username: Usernames::Moderation,
                                timestamp: m.timestamp,
                                text,
                            },
                        )
                    },
                }
            },
            Events::Join(_) => SimpleMessageGroup::empty(),
            Events::Names(_) => SimpleMessageGroup::empty(),
            Events::Quit(_) => SimpleMessageGroup::empty(),
        }
    }
}

impl FrameKind {
    /// The kind of frame that an event name opens.
    pub fn from_event_type(event_type: &str) -> (r: Option<FrameKind>)
        ensures
            r == frame_kind(event_type@),
    {
        if same_text(event_type, "BROADCAST") {
            Some(FrameKind::Broadcast)
        } else if same_text(event_type, "MSG") {
            Some(FrameKind::Message)
        } else if same_text(event_type, "MUTE") {
            Some(FrameKind::Mute)
        } else if same_text(event_type, "UNMUTE") {
            Some(FrameKind::Unmute)
        } else if same_text(event_type, "BAN") {
            Some(FrameKind::Ban)
        } else if same_text(event_type, "UNBAN") {
            Some(FrameKind::Unban)
        } else if same_text(event_type, "NAMES") {
            Some(FrameKind::Names)
        } else if same_text(event_type, "JOIN") {
            Some(FrameKind::Join)
        } else if same_text(event_type, "QUIT") {
            Some(FrameKind::Quit)
        } else {
            None
        }
    }
}

impl DggEvent {
    /// Takes a frame of the socket apart. A frame without a space, and one
    /// that opens with an unknown event name, is dropped.
    pub fn from_ws(raw: &str) -> (r: Option<Frame>)
        ensures
            match framed(raw@) {
                Some((kind, event_type, body)) => r is Some && r->0.kind == kind
                    && r->0.event_type@ == event_type && r->0.body@ == body,
                None => r is None,
            },
    {
        let v = chars_of(raw);
        let space = find_char(&v, ' ', 0);
        if space >= v.len() {
            return None;
        }
        let event_type = string_of_range(&v, 0, space);
        let body = string_of_range(&v, space + 1, v.len());
        match FrameKind::from_event_type(event_type.as_str()) {
            Some(kind) => Some(Frame { kind, event_type, body }),
            None => None,
        }
    }

    /// The messages that the event amounts to.
    pub fn into_group(self) -> (r: SimpleMessageGroup)
        ensures
            r@ == event_group(self.event, self.channel@),
    {
        self.event.as_group(self.channel)
    }
}

} // verus!
