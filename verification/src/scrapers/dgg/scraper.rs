//! The worker of one chat of the Destiny.gg kind: when it reconnects, how
//! long it waits before it does, and what it makes of each thing that the
//! socket reports. The caller owns the socket and the clock.

use crate::scrapers::dgg::events::DggEvent;
use crate::scrapers::dgg::events::Frame;
use crate::scrapers::dgg::events::framed;
use crate::settings::DggSiteSettings;
use crate::text::push_text;
use vstd::prelude::*;

verus! {

/// Seconds between two pings.
pub const PING_EVERY_SECONDS: u64 = 30;

/// Seconds that a pong may take.
pub const CHECK_PONG_AFTER_SECONDS: u64 = 5;

/// Seconds of the first wait before a reconnect.
pub const BACKOFF_MIN_SECONDS: u64 = 2;

/// By how much the wait grows from one failed connection to the next.
pub const BACKOFF_FACTOR: u64 = 3;

/// One chat and its settings.
#[derive(Clone, Debug, PartialEq, Eq)]
pub struct DggScraper {
    pub config: DggSiteSettings,
}

/// How a connection ended.
#[derive(Clone, Copy, Debug, PartialEq, Eq, Structural)]
pub enum WorkerCommands {
    Reconnect,
    Stop,
}

/// The ways in which a socket fails.
#[derive(Clone, Copy, Debug, PartialEq, Eq, Structural)]
pub enum SocketError {
    ConnectionClosed,
    AlreadyClosed,
    Url,
    Io,
    Http,
    HttpFormat,
    Protocol,
    Other,
}

/// What the caller reports to the worker while a connection is up.
#[derive(Clone, Debug, PartialEq, Eq)]
pub enum SocketEvent {
    /// A text frame arrived.
    Text(String),
    /// A pong arrived.
    Pong,
    /// The other side closed the connection.
    Close,
    /// A frame of another kind arrived.
    Ignored,
    /// Reading failed.
    Failed(SocketError),
    /// It is time to send a ping.
    PingDue,
    /// The ping could not be sent.
    PingFailed,
    /// It is time to see whether the pong came.
    PongCheckDue,
}

/// What the caller is to do next.
#[derive(Clone, Debug, PartialEq, Eq)]
pub enum SocketAction {
    /// Go on reading.
    Continue,
    /// Read the body of this frame and hand the event on; then go on.
    Deliver(Frame),
    /// Send a ping; then go on.
    SendPing,
    /// Leave the connection.
    Finish(WorkerCommands),
}

/// The worker of one chat.
#[derive(Clone, Debug, PartialEq, Eq)]
pub struct DggWorker {
    pub channel: String,
    pub endpoint: String,
    pub origin: String,
    pub use_get_key: bool,
    pub failing: bool,
    pub received_pong: bool,
    pub backoff: u64,
    pub backoff_min: u64,
    pub backoff_max: u64,
}

/// How a failed read ends the connection: only an invalid address stops
/// the worker for good.
pub open spec fn command_after(error: SocketError) -> WorkerCommands {
    if error == SocketError::Url {
        WorkerCommands::Stop
    } else {
        WorkerCommands::Reconnect
    }
}

/// The wait after `backoff`, never more than `backoff_max`.
pub open spec fn next_backoff(backoff: u64, backoff_max: u64) -> int {
    if backoff * BACKOFF_FACTOR < backoff_max {
        backoff * BACKOFF_FACTOR
    } else {
        backoff_max as int
    }
}

impl DggScraper {
    /// The chat with its settings.
    pub fn new(config: DggSiteSettings) -> (r: DggScraper)
        ensures
            r.config == config,
    {
        DggScraper { config }
    }

    /// The worker for this chat: not failing, and with the shortest wait.
    pub fn worker(&self, max_retry_seconds: u64) -> (w: DggWorker)
        ensures
            w.channel@ == self.config.name@,
            w.endpoint@ == self.config.endpoint@,
            w.origin@ == self.config.origin@,
            w.use_get_key == self.config.use_get_key,
            !w.failing,
            !w.received_pong,
            w.backoff == BACKOFF_MIN_SECONDS,
            w.backoff_min == BACKOFF_MIN_SECONDS,
            w.backoff_max == max_retry_seconds,
    {
        DggWorker {
            channel: self.config.name.clone(),
            endpoint: self.config.endpoint.clone(),
            origin: self.config.origin.clone(),
            use_get_key: self.config.use_get_key,
            failing: false,
            received_pong: false,
            backoff: BACKOFF_MIN_SECONDS,
            backoff_min: BACKOFF_MIN_SECONDS,
            backoff_max: max_retry_seconds,
        }
    }
}

impl DggWorker {
    /// Where the chat hands out its key.
    pub fn get_key_url(&self) -> (r: String)
        ensures
            r@ == self.origin@ + "/api/chat/getkey"@,
    {
        let mut r = String::new();
        push_text(&mut r, self.origin.as_str());
        push_text(&mut r, "/api/chat/getkey");
        r
    }

    /// The address to connect to: the endpoint, followed by `/` and the key
    /// where the chat wants one.
    pub fn connect_url(&self, chat_key: &Option<String>) -> (r: String)
        ensures
            r@ == match *chat_key {
                Some(key) => if self.use_get_key {
                    self.endpoint@ + "/"@ + key@
                } else {
                    self.endpoint@
                },
                None => self.endpoint@,
            },
    {
        let mut r = String::new();
        push_text(&mut r, self.endpoint.as_str());
        if self.use_get_key {
            match chat_key {
                Some(key) => {
                    push_text(&mut r, "/");
                    push_text(&mut r, key.as_str());
                },
                None => {},
            }
        }
        r
    }

    /// Called before each connection: how many seconds to wait first. A
    /// worker that is not failing connects at once; a failing one waits
    /// its backoff, which then grows threefold up to the maximum.
    pub fn before_connect(&mut self) -> (wait: Option<u64>)
        ensures
            final(self).failing == old(self).failing,
            final(self).received_pong == false,
            final(self).channel == old(self).channel,
            final(self).endpoint == old(self).endpoint,
            final(self).origin == old(self).origin,
            final(self).use_get_key == old(self).use_get_key,
            final(self).backoff_min == old(self).backoff_min,
            final(self).backoff_max == old(self).backoff_max,
            old(self).failing ==> wait == Some(old(self).backoff) && final(self).backoff
                == next_backoff(old(self).backoff, old(self).backoff_max),
            !old(self).failing ==> wait is None && final(self).backoff == old(self).backoff,
    {
        self.received_pong = false;
        if self.failing {
            let wait = self.backoff;
            self.backoff = match wait.checked_mul(BACKOFF_FACTOR) {
                Some(grown) => if grown < self.backoff_max {
                    grown
                } else {
                    self.backoff_max
                },
                None => self.backoff_max,
            };
            Some(wait)
        } else {
            None
        }
    }

    /// Called when a connection has ended: whether to connect again. The
    /// first failure after a success starts the backoff anew.
    pub fn after_disconnect(&mut self, command: WorkerCommands) -> (again: bool)
        ensures
            again == (command == WorkerCommands::Reconnect),
            final(self).channel == old(self).channel,
            final(self).endpoint == old(self).endpoint,
            final(self).origin == old(self).origin,
            final(self).use_get_key == old(self).use_get_key,
            final(self).received_pong == old(self).received_pong,
            final(self).backoff_min == old(self).backoff_min,
            final(self).backoff_max == old(self).backoff_max,
            command == WorkerCommands::Stop ==> final(self).failing == old(self).failing
                && final(self).backoff == old(self).backoff,
            command == WorkerCommands::Reconnect ==> final(self).failing,
            command == WorkerCommands::Reconnect && old(self).failing ==> final(self).backoff
                == old(self).backoff,
            command == WorkerCommands::Reconnect && !old(self).failing ==> final(self).backoff
                == old(self).backoff_min,
    {
        match command {
            WorkerCommands::Reconnect => {
                if !self.failing {
                    self.backoff = self.backoff_min;
                    self.failing = true;
                }
                true
            },
            WorkerCommands::Stop => false,
        }
    }

    /// What to do about one thing that the socket reports.
    ///
    /// A text frame ends the failing and is delivered if it is the frame of
    /// a known event; a pong is noted; a ping that is due is sent and the
    /// pong awaited anew; when the pong is checked and none has come, or
    /// the other side closes, or the ping cannot be sent, the worker
    /// reconnects; a failed read reconnects too, but for an invalid
    /// address, which stops the worker.
    pub fn on_socket_event(&mut self, event: SocketEvent) -> (action: SocketAction)
        ensures
            final(self).channel == old(self).channel,
            final(self).endpoint == old(self).endpoint,
            final(self).origin == old(self).origin,
            final(self).use_get_key == old(self).use_get_key,
            final(self).backoff == old(self).backoff,
            final(self).backoff_min == old(self).backoff_min,
            final(self).backoff_max == old(self).backoff_max,
            final(self).failing == (old(self).failing && !(event is Text)),
            final(self).received_pong == match event {
                SocketEvent::Pong => true,
                SocketEvent::PingDue => false,
                _ => old(self).received_pong,
            },
            match event {
                SocketEvent::Text(text) => match framed(text@) {
                    Some((kind, event_type, body)) => action matches SocketAction::Deliver(frame)
                        && frame.kind == kind && frame.event_type@ == event_type && frame.body@
                        == body,
                    None => action == SocketAction::Continue,
                },
                SocketEvent::Pong => action == SocketAction::Continue,
                SocketEvent::Ignored => action == SocketAction::Continue,
                SocketEvent::Close => action == SocketAction::Finish(WorkerCommands::Reconnect),
                SocketEvent::Failed(error) => action == SocketAction::Finish(command_after(error)),
                SocketEvent::PingDue => action == SocketAction::SendPing,
                SocketEvent::PingFailed => action == SocketAction::Finish(
                    WorkerCommands::Reconnect,
                ),
                SocketEvent::PongCheckDue => action == (if old(self).received_pong {
                    SocketAction::Continue
                } else {
                    SocketAction::Finish(WorkerCommands::Reconnect)
                }),
            },
    {
        match event {
            SocketEvent::Text(text) => {
                self.failing = false;
                match DggEvent::from_ws(text.as_str()) {
                    Some(frame) => SocketAction::Deliver(frame),
                    None => SocketAction::Continue,
                }
            },
            SocketEvent::Pong => {
                self.received_pong = true;
                SocketAction::Continue
            },
            SocketEvent::Ignored => SocketAction::Continue,
            SocketEvent::Close => SocketAction::Finish(WorkerCommands::Reconnect),
            SocketEvent::Failed(error) => match error {
                SocketError::Url => SocketAction::Finish(WorkerCommands::Stop),
                _ => SocketAction::Finish(WorkerCommands::Reconnect),
            },
            SocketEvent::PingDue => {
                self.received_pong = false;
                SocketAction::SendPing
            },
            SocketEvent::PingFailed => SocketAction::Finish(WorkerCommands::Reconnect),
            SocketEvent::PongCheckDue => {
                if self.received_pong {
                    SocketAction::Continue
                } else {
                    SocketAction::Finish(WorkerCommands::Reconnect)
                }
            },
        }
    }
}

} // verus!
