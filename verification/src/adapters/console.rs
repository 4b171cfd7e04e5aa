//! The sink that prints every message.

use crate::events::SimpleMessage;
use crate::events::Usernames;
use crate::events::UsernamesView;
use crate::text::push_text;
use crate::time::orl_text;
use vstd::prelude::*;

verus! {

/// How a name is shown on the console.
#[derive(Clone, Copy, Debug, PartialEq, Eq, Structural)]
pub enum NameStyle {
    BrightBlue,
    BrightYellow,
    Bold,
    BrightGreen,
    BrightMagenta,
    BrightCyan,
    BrightRed,
}

/// How each kind of sender is shown: users in blue, the system in yellow,
/// bits in bold, subscriptions in green, gifts in magenta, raids and hosts
/// in cyan, moderation in red.
pub open spec fn style_of(username: UsernamesView) -> NameStyle {
    match username {
        UsernamesView::Normal(_) => NameStyle::BrightBlue,
        UsernamesView::System => NameStyle::BrightYellow,
        UsernamesView::Bits => NameStyle::Bold,
        UsernamesView::Subscriber => NameStyle::BrightGreen,
        UsernamesView::GiftSub => NameStyle::BrightMagenta,
        UsernamesView::Raid => NameStyle::BrightCyan,
        UsernamesView::Host => NameStyle::BrightCyan,
        UsernamesView::Moderation => NameStyle::BrightRed,
    }
}

/// How a sender is shown on the console.
pub fn name_style(username: &Usernames) -> (r: NameStyle)
    ensures
        r == style_of(username@),
{
    match username {
        Usernames::Normal(_) => NameStyle::BrightBlue,
        Usernames::System => NameStyle::BrightYellow,
        Usernames::Bits => NameStyle::Bold,
        Usernames::Subscriber => NameStyle::BrightGreen,
        Usernames::GiftSub => NameStyle::BrightMagenta,
        Usernames::Raid => NameStyle::BrightCyan,
        Usernames::Host => NameStyle::BrightCyan,
        Usernames::Moderation => NameStyle::BrightRed,
    }
}

/// The sink that prints every message. It has no state.
#[derive(Clone, Copy, Debug, PartialEq, Eq)]
pub struct ConsoleWriter;

impl ConsoleWriter {
    /// The sink.
    pub fn new() -> (r: Self) {
        ConsoleWriter
    }

    /// The line that stands for a message:
    /// `[<timestamp>] [<channel>] <username>: <text>`.
    pub fn format_message(message: &SimpleMessage) -> (r: String)
        ensures
            r@ == seq!['['] + orl_text(message.timestamp.date()) + seq![']', ' ', '[']
                + message.channel@ + seq![']', ' '] + message.username@.text() + seq![':', ' ']
                + message.text@,
    {
        let stamp = message.timestamp.format_orl();
        let name = message.username.to_string();
        let mut r = String::new();
        proof {
            reveal_strlit("[");
            reveal_strlit("] [");
            reveal_strlit("] ");
            reveal_strlit(": ");
            assert("["@ =~= seq!['[']);
            assert("] ["@ =~= seq![']', ' ', '[']);
            assert("] "@ =~= seq![']', ' ']);
            assert(": "@ =~= seq![':', ' ']);
        }
        push_text(&mut r, "[");
        push_text(&mut r, stamp.as_str());
        push_text(&mut r, "] [");
        push_text(&mut r, message.channel.as_str());
        push_text(&mut r, "] ");
        push_text(&mut r, name.as_str());
        push_text(&mut r, ": ");
        push_text(&mut r, message.text.as_str());
        r
    }
}

} // verus!
