//! The sink that records which name goes with which Twitch id: what an
//! event tells of names, and what happens to the queue of what it told.

use crate::events::AllEvents;
use crate::scrapers::twitch::events::TwitchEvent;
use crate::scrapers::twitch::message::TwitchUserBasics;
use crate::scrapers::twitch::message::UserNoticeEvent;
use crate::scrapers::twitch::message::UserNoticeMessage;
use crate::text::trim;
use crate::text::trim_spec;
use crate::time::Timestamp;
use vstd::prelude::*;

verus! {

/// The statement that creates the table.
pub const CREATE_NAME_CHANGES: &'static str = "
          CREATE TABLE IF NOT EXISTS name_changes (
            username TEXT NOT NULL,
            twitch_id TEXT NOT NULL,
            last_seen INTEGER NOT NULL,
            PRIMARY KEY(username, twitch_id)
          );
      ";

/// The statement that writes one row.
pub const INSERT_NAME_CHANGE: &'static str = "
              INSERT OR REPLACE INTO name_changes(username, twitch_id, last_seen)
              VALUES (?, ?, ?);
            ";

/// The queue may grow to this many batches before its oldest entries are
/// given up.
pub const QUEUE_LIMIT_BATCHES: usize = 10;

/// A user was seen under a name.
#[derive(Clone, Debug, PartialEq, Eq)]
pub struct UsernameUpdateEvent {
    pub id: String,
    pub username: String,
    pub timestamp: Timestamp,
}

/// A sighting as mathematics sees it.
pub struct UpdateView {
    pub id: Seq<char>,
    pub username: Seq<char>,
    pub timestamp: Timestamp,
}

impl View for UsernameUpdateEvent {
    type V = UpdateView;

    open spec fn view(&self) -> UpdateView {
        UpdateView { id: self.id@, username: self.username@, timestamp: self.timestamp }
    }
}

/// The sighting of the sender of a message: the login, trimmed.
pub open spec fn sender_seen(sender: TwitchUserBasics, at: Timestamp) -> UpdateView {
    UpdateView { id: sender.id@, username: trim_spec(sender.login@), timestamp: at }
}

/// What a notice tells of names: a gift tells of its sender, unless the
/// gift is anonymous, and of its recipient; a subscription, a raid, a
/// ritual, a bits badge and a continued gift tell of their sender; the
/// other notices tell nothing.
pub open spec fn notice_updates(notice: UserNoticeMessage) -> Seq<UpdateView> {
    let sender = sender_seen(notice.sender, notice.server_timestamp);
    match notice.event {
        UserNoticeEvent::SubGift { is_sender_anonymous, recipient, .. } => {
            let gifted = UpdateView {
                id: recipient.id@,
                username: recipient.login@,
                timestamp: notice.server_timestamp,
            };
            if is_sender_anonymous {
                seq![gifted]
            } else {
                seq![sender, gifted]
            }
        },
        UserNoticeEvent::Raid { .. } => seq![sender],
        UserNoticeEvent::Ritual { .. } => seq![sender],
        UserNoticeEvent::SubOrResub { .. } => seq![sender],
        UserNoticeEvent::BitsBadgeTier { .. } => seq![sender],
        UserNoticeEvent::GiftPaidUpgrade { .. } => seq![sender],
        _ => Seq::empty(),
    }
}

/// What an event tells of names: a chat message tells of its sender, a
/// notice what `notice_updates` says, anything else nothing.
pub open spec fn username_updates(evt: TwitchEvent) -> Seq<UpdateView> {
    match evt {
        TwitchEvent::Privmsg(msg) => seq![sender_seen(msg.sender, msg.server_timestamp)],
        TwitchEvent::UserNotice(notice) => notice_updates(notice),
        _ => Seq::empty(),
    }
}

/// The sightings as mathematics sees them.
pub open spec fn update_views(v: Seq<UsernameUpdateEvent>) -> Seq<UpdateView> {
    v.map_values(|u: UsernameUpdateEvent| u@)
}

/// The event that this sink takes of an event of any kind: Twitch events
/// only.
pub fn accepts(event: AllEvents) -> (r: Option<TwitchEvent>)
    ensures
        r == match event {
            AllEvents::Twitch(t) => Some(t),
            AllEvents::Dgg(_) => None,
        },
{
    match event {
        AllEvents::Twitch(t) => Some(t),
        AllEvents::Dgg(_) => None,
    }
}

/// The sighting of the sender of a message.
fn seen(sender: &TwitchUserBasics, at: Timestamp) -> (r: UsernameUpdateEvent)
    ensures
        r@ == sender_seen(*sender, at),
{
    UsernameUpdateEvent {
        id: sender.id.clone(),
        username: trim(sender.login.as_str()),
        timestamp: at,
    }
}

/// What an event tells of names.
pub fn get_username_updates(evt: TwitchEvent) -> (ues: Vec<UsernameUpdateEvent>)
    ensures
        update_views(ues@) == username_updates(evt),
{
    let mut ues: Vec<UsernameUpdateEvent> = Vec::new();
    match evt {
        TwitchEvent::Privmsg(msg) => {
            ues.push(seen(&msg.sender, msg.server_timestamp));
        },
        TwitchEvent::UserNotice(notice) => match &notice.event {
            UserNoticeEvent::SubGift { is_sender_anonymous, recipient, .. } => {
                if !*is_sender_anonymous {
                    ues.push(seen(&notice.sender, notice.server_timestamp));
                }
                ues.push(
                    UsernameUpdateEvent {
                        id: recipient.id.clone(),
                        username: recipient.login.clone(),
                        timestamp: notice.server_timestamp,
                    },
                );
            },
            UserNoticeEvent::Raid { .. } => {
                ues.push(seen(&notice.sender, notice.server_timestamp));
            },
            UserNoticeEvent::Ritual { .. } => {
                ues.push(seen(&notice.sender, notice.server_timestamp));
            },
            UserNoticeEvent::SubOrResub { .. } => {
                ues.push(seen(&notice.sender, notice.server_timestamp));
            },
            UserNoticeEvent::BitsBadgeTier { .. } => {
                ues.push(seen(&notice.sender, notice.server_timestamp));
            },
            UserNoticeEvent::GiftPaidUpgrade { .. } => {
                ues.push(seen(&notice.sender, notice.server_timestamp));
            },
            _ => {},
        },
        _ => {},
    }
    assert(update_views(ues@) =~= username_updates(evt));
    ues
}

/// Whether the queue is to be written now: it holds a batch or more.
pub fn batch_ready(queue_len: usize, batch_size: usize) -> (r: bool)
    ensures
        r == (queue_len >= batch_size),
{
    queue_len >= batch_size
}

/// What is left of the queue after it was to be written: nothing where the
/// writing went well; else the queue as it was, without its oldest batch
/// once it holds ten batches or more.
pub open spec fn queue_after(queue: Seq<UpdateView>, written: bool, batch_size: nat) -> Seq<
    UpdateView,
> {
    if written {
        Seq::empty()
    } else if queue.len() >= batch_size * QUEUE_LIMIT_BATCHES {
        queue.subrange(batch_size as int, queue.len() as int)
    } else {
        queue
    }
}

/// Called after the queue was to be written. Returns how many of the oldest
/// entries were given up.
pub fn settle_queue(queue: &mut Vec<UsernameUpdateEvent>, written: bool, batch_size: usize) -> (dropped:
    usize)
    ensures
        update_views(final(queue)@) == queue_after(
            update_views(old(queue)@),
            written,
            batch_size as nat,
        ),
        dropped == (if !written && old(queue).len() >= batch_size * QUEUE_LIMIT_BATCHES {
            batch_size
        } else {
            0
        }),
{
    if written {
        queue.clear();
        assert(update_views(queue@) =~= Seq::<UpdateView>::empty());
        return 0;
    }
    let over = match batch_size.checked_mul(QUEUE_LIMIT_BATCHES) {
        Some(limit) => queue.len() >= limit,
        None => false,
    };
    assert(over == (queue.len() >= batch_size * QUEUE_LIMIT_BATCHES));
    if !over {
        return 0;
    }
    assert(batch_size <= queue.len());
    let ghost before = update_views(queue@);
    let mut kept = queue.split_off(batch_size);
    assert(update_views(kept@) =~= before.subrange(batch_size as int, before.len() as int));
    std::mem::swap(queue, &mut kept);
    batch_size
}

} // verus!
