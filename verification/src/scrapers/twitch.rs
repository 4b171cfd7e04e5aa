//! Twitch chat.

use crate::scrapers::twitch::events::TwitchEvent;
use crate::scrapers::twitch::message::ClearChatMessage;
use crate::scrapers::twitch::message::HostTargetMessage;
use crate::scrapers::twitch::message::PrivmsgMessage;
use crate::scrapers::twitch::message::UserNoticeMessage;
use crate::text::lower_text;
use crate::text::same_text;
use crate::text::to_lowercase;
use crate::text::trim;
use crate::text::trim_spec;
use vstd::prelude::*;

pub mod events;
pub mod message;

verus! {

/// How many channels one connection may join. Twitch limits it.
pub const MAX_CHANNELS_PER_CONNECTION: usize = 90;

/// How many messages may wait on one connection.
pub const MAX_WAITING_MESSAGES_PER_CONNECTION: usize = 5;

/// Milliseconds between two messages that the client sends.
pub const TIME_PER_MESSAGE_MILLIS: u64 = 150;

/// Seconds between two new connections. Twitch limits it.
pub const NEW_CONNECTION_EVERY_SECONDS: u64 = 2;

/// Seconds after which a connection attempt is given up.
pub const CONNECT_TIMEOUT_SECONDS: u64 = 20;

/// What the IRC client hands over.
#[derive(Clone, Debug, PartialEq, Eq)]
pub enum ServerMessage {
    Privmsg(PrivmsgMessage),
    UserNotice(UserNoticeMessage),
    ClearChat(ClearChatMessage),
    HostTarget(HostTargetMessage),
    /// Anything else.
    Other,
}

/// The event that a message of the server is: chat messages, notices,
/// moderation and hosting are events; everything else is dropped.
pub fn map_message(raw: ServerMessage) -> (r: Option<TwitchEvent>)
    ensures
        r == match raw {
            ServerMessage::Privmsg(msg) => Some(TwitchEvent::Privmsg(msg)),
            ServerMessage::UserNotice(msg) => Some(TwitchEvent::UserNotice(msg)),
            ServerMessage::ClearChat(msg) => Some(TwitchEvent::ClearChat(msg)),
            ServerMessage::HostTarget(msg) => Some(TwitchEvent::HostTarget(msg)),
            ServerMessage::Other => None,
        },
{
    match raw {
        ServerMessage::Privmsg(msg) => Some(TwitchEvent::Privmsg(msg)),
        ServerMessage::UserNotice(msg) => Some(TwitchEvent::UserNotice(msg)),
        ServerMessage::ClearChat(msg) => Some(TwitchEvent::ClearChat(msg)),
        ServerMessage::HostTarget(msg) => Some(TwitchEvent::HostTarget(msg)),
        ServerMessage::Other => None,
    }
}

/// The name under which a channel is joined: trimmed and in lower case
/// (that of Unicode, which on an ASCII name is the ASCII one).
pub open spec fn channel_login(name: Seq<char>) -> Seq<char> {
    lower_text(trim_spec(name))
}

/// The logins of the channels of a list.
pub open spec fn logins(channels: Seq<String>) -> Seq<Seq<char>> {
    channels.map_values(|c: String| channel_login(c@))
}

/// Whether `wanted` is the set of channels to join for the list
/// `channels`: it holds the login of every channel of the list, nothing
/// else, and nothing twice.
pub open spec fn wanted_of(channels: Seq<String>, wanted: Seq<Seq<char>>) -> bool {
    &&& wanted.no_duplicates()
    &&& forall|login: Seq<char>| wanted.contains(login) <==> logins(channels).contains(login)
}

/// What a sequence holds after a push.
proof fn lemma_push_contains(s: Seq<Seq<char>>, a: Seq<char>)
    ensures
        forall|x: Seq<char>| s.push(a).contains(x) <==> (s.contains(x) || x == a),
{
    let t = s.push(a);
    assert forall|x: Seq<char>| t.contains(x) <==> (s.contains(x) || x == a) by {
        if t.contains(x) {
            let i = choose|i: int| 0 <= i < t.len() && t[i] == x;
            if i < s.len() {
                assert(s[i] == x);
            }
        }
        if s.contains(x) {
            let i = choose|i: int| 0 <= i < s.len() && s[i] == x;
            assert(t[i] == x);
        }
        if x == a {
            assert(t[s.len() as int] == x);
        }
    }
}

/// The set of channels to join, in the order in which the list first names
/// them.
pub fn join_channels(channels: &Vec<String>) -> (wanted: Vec<String>)
    ensures
        wanted_of(channels@, crate::text::views(wanted@)),
{
    let mut wanted: Vec<String> = Vec::new();
    let mut i: usize = 0;
    assert(logins(channels@.take(0)) =~= Seq::<Seq<char>>::empty());
    assert(crate::text::views(wanted@) =~= Seq::<Seq<char>>::empty());
    while i < channels.len()
        invariant
            i <= channels.len(),
            wanted_of(channels@.take(i as int), crate::text::views(wanted@)),
        decreases channels.len() - i,
    {
        let trimmed = trim(channels[i].as_str());
        let login = to_lowercase(trimmed.as_str());
        let ghost before = crate::text::views(wanted@);
        let ghost listed = logins(channels@.take(i as int));
        let mut known = false;
        let mut k: usize = 0;
        while k < wanted.len()
            invariant_except_break
                !known,
            invariant
                k <= wanted.len(),
                forall|j: int| 0 <= j < k ==> (#[trigger] wanted[j])@ != login@,
            ensures
                known ==> exists|j: int| 0 <= j < wanted.len() && (#[trigger] wanted[j])@ == login@,
                !known ==> forall|j: int|
                    0 <= j < wanted.len() ==> (#[trigger] wanted[j])@ != login@,
            decreases wanted.len() - k,
        {
            if same_text(wanted[k].as_str(), login.as_str()) {
                known = true;
                break ;
            }
            k += 1;
        }
        proof {
            if known {
                let j = choose|j: int| 0 <= j < wanted.len() && (#[trigger] wanted[j])@ == login@;
                assert(before[j] == login@);
                assert(before.contains(login@));
            } else {
                assert(!before.contains(login@)) by {
                    if before.contains(login@) {
                        let j = choose|j: int| 0 <= j < before.len() && before[j] == login@;
                        assert(wanted[j]@ == login@);
                    }
                }
            }
            assert(logins(channels@.take(i + 1)) =~= listed.push(login@));
            lemma_push_contains(listed, login@);
            lemma_push_contains(before, login@);
        }
        let ghost login_text = login@;
        if !known {
            wanted.push(login);
            assert(crate::text::views(wanted@) =~= before.push(login_text));
        }
        proof {
            let after = crate::text::views(wanted@);
            let listed_after = logins(channels@.take(i + 1));
            assert(after.no_duplicates()) by {
                if !known {
                    assert forall|a: int, b: int|
                        0 <= a < after.len() && 0 <= b < after.len() && a != b implies after[a]
                        != after[b] by {
                        if a < before.len() {
                            assert(before.contains(before[a]));
                        }
                        if b < before.len() {
                            assert(before.contains(before[b]));
                        }
                    }
                }
            }
            assert forall|x: Seq<char>| after.contains(x) <==> listed_after.contains(x) by {
                assert(before.contains(x) <==> listed.contains(x));
            }
        }
        i += 1;
    }
    assert(channels@.take(channels.len() as int) =~= channels@);
    wanted
}

/// The channels that are joined while the list is kept in SQLite.
pub fn sqlite_channels() -> (r: Vec<String>)
    ensures
        r.len() == 1,
        r[0]@ == "Xqcow"@,
{
    let mut r: Vec<String> = Vec::new();
    r.push("Xqcow".to_owned());
    r
}

} // verus!
