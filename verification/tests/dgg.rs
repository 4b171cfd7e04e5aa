use tl2::events::SimpleMessage;
use tl2::events::SimpleMessageGroup;
use tl2::events::Usernames;
use tl2::scrapers::dgg::events::Broadcast;
use tl2::scrapers::dgg::events::DggEvent;
use tl2::scrapers::dgg::events::Events;
use tl2::scrapers::dgg::events::FrameKind;
use tl2::scrapers::dgg::events::Join;
use tl2::scrapers::dgg::events::Message;
use tl2::scrapers::dgg::events::Moderation;
use tl2::scrapers::dgg::events::ModerationTypes;
use tl2::scrapers::dgg::events::Names;
use tl2::scrapers::dgg::events::RawModeration;
use tl2::scrapers::dgg::events::WithEventType;
use tl2::scrapers::dgg::scraper::DggScraper;
use tl2::scrapers::dgg::scraper::SocketAction;
use tl2::scrapers::dgg::scraper::SocketError;
use tl2::scrapers::dgg::scraper::SocketEvent;
use tl2::scrapers::dgg::scraper::WorkerCommands;
use tl2::scrapers::dgg::user::Flairs;
use tl2::scrapers::dgg::user::RawUser;
use tl2::scrapers::dgg::user::Subscriptions;
use tl2::scrapers::dgg::user::User;
use tl2::settings::DggSiteSettings;
use tl2::time::Timestamp;

fn at(ms: i64) -> Timestamp {
    Timestamp::from_millis(ms).unwrap()
}

#[test]
fn test_raw_user_to_user() {
    let raw_user = RawUser {
        features: vec!["flair3".to_string(), "moderator".to_string()],
        nick: "nickname".to_string(),
    };

    let user: User = raw_user.into();

    assert!(!user.is_bot);
    assert!(user.is_moderator);
    assert!(user.is_subscriber);
    assert_eq!(user.subscription, Some(Subscriptions::Tier3));
}

#[test]
fn user_of_many_features() {
    let user = User::from_raw(RawUser {
        nick: "pogchamp2".to_string(),
        features: vec![
            "flair1".to_string(),
            "admin".to_string(),
            "flair8".to_string(),
            "flair11".to_string(),
            "vip".to_string(),
            "flair12".to_string(),
            "what".to_string(),
        ],
    });
    assert_eq!(user.username, "pogchamp2");
    assert_eq!(user.subscription, Some(Subscriptions::Tier2));
    assert!(user.is_subscriber);
    assert!(user.is_admin);
    assert!(!user.is_moderator);
    assert!(user.is_bot);
    assert!(user.is_vip);
    assert!(user.is_broadcaster);
    // being a broadcaster does not make a user protected
    assert!(!user.is_protected);
    assert_eq!(
        user.flairs,
        vec![
            Flairs::SubTier2,
            Flairs::Admin,
            Flairs::SubTier4,
            Flairs::Bot2,
            Flairs::Vip,
            Flairs::Broadcaster,
            Flairs::Unknown("what".to_string()),
        ]
    );
    let nobody = User::from_raw(RawUser { nick: "n".to_string(), features: vec![] });
    assert_eq!(nobody.subscription, None);
    assert!(!nobody.is_subscriber && !nobody.is_bot && !nobody.is_vip && !nobody.is_admin);
    assert!(!nobody.is_moderator && !nobody.is_broadcaster && !nobody.is_protected);
}

#[test]
fn user_who_is_protected() {
    let user = User::from(RawUser {
        nick: "n".to_string(),
        features: vec!["protected".to_string()],
    });
    assert!(user.is_protected);
    assert!(!user.is_broadcaster);
    assert!(!user.is_subscriber);
    assert_eq!(user.subscription, None);
    assert_eq!(user.flairs, vec![Flairs::Protected]);
    let both = User::from_raw(RawUser {
        nick: "n".to_string(),
        features: vec!["flair12".to_string(), "protected".to_string()],
    });
    assert!(both.is_protected && both.is_broadcaster);
}

#[test]
fn every_flair_has_its_name() {
    let names = [
        "moderator", "protected", "subscriber", "admin", "flair12", "vip", "bot", "flair11",
        "flair13", "flair1", "flair3", "flair8", "flair9", "flair5", "flair16", "flair2",
        "flair4", "flair17", "flair7", "flair20", "flair25", "flair26", "flair24", "flair23",
        "flair22", "flair21", "flair18", "flair19", "flair15", "flair14", "flair10", "flair6",
    ];
    for name in names {
        let flair = Flairs::from_str(name);
        assert!(!matches!(flair, Flairs::Unknown(_)), "{name}");
        assert_eq!(flair.to_string(), name);
    }
    assert_eq!(Flairs::from_str("flair3"), Flairs::SubTier3);
    assert_eq!(Flairs::from_str("flair9").tier(), Some(Subscriptions::Twitch));
    assert_eq!(Flairs::from_str("flair13").tier(), Some(Subscriptions::Tier1));
    assert_eq!(Flairs::from_str("Flair3"), Flairs::Unknown("Flair3".to_string()));
    assert_eq!(Flairs::from_str("").to_string(), "");
}

#[test]
fn frames_of_the_socket() {
    let frame = DggEvent::from_ws("MSG {\"nick\":\"a\", \"data\": \"hi there\"}").unwrap();
    assert_eq!(frame.kind, FrameKind::Message);
    assert_eq!(frame.event_type, "MSG");
    assert_eq!(frame.body, "{\"nick\":\"a\", \"data\": \"hi there\"}");
    for (name, kind) in [
        ("BROADCAST", FrameKind::Broadcast),
        ("MSG", FrameKind::Message),
        ("MUTE", FrameKind::Mute),
        ("UNMUTE", FrameKind::Unmute),
        ("BAN", FrameKind::Ban),
        ("UNBAN", FrameKind::Unban),
        ("NAMES", FrameKind::Names),
        ("JOIN", FrameKind::Join),
        ("QUIT", FrameKind::Quit),
    ] {
        let frame = DggEvent::from_ws(&format!("{name} {{}}")).unwrap();
        assert_eq!(frame.kind, kind);
        assert_eq!(frame.body, "{}");
    }
    assert_eq!(DggEvent::from_ws("MSG"), None);
    assert_eq!(DggEvent::from_ws(""), None);
    assert_eq!(DggEvent::from_ws("PING {}"), None);
    assert_eq!(DggEvent::from_ws("msg {}"), None);
    assert_eq!(DggEvent::from_ws(" MSG {}"), None);
    assert_eq!(DggEvent::from_ws("MSG ").unwrap().body, "");
}

#[test]
fn moderation_of_an_event_name() {
    for (name, kind, verb) in [
        ("BAN", ModerationTypes::Ban, "banned"),
        ("UNBAN", ModerationTypes::Unban, "unbanned"),
        ("MUTE", ModerationTypes::Mute, "muted"),
        ("UNMUTE", ModerationTypes::Unmute, "unmuted"),
        ("MSG", ModerationTypes::Unknown, "did something to"),
    ] {
        let m = Moderation::from_raw(WithEventType {
            value: RawModeration {
                data: "target".to_string(),
                nick: "mod".to_string(),
                timestamp: at(5),
            },
            event_type: name.to_string(),
        });
        assert_eq!(m.moderation_type, kind);
        assert_eq!(m.target, "target");
        assert_eq!(m.sender, "mod");
        assert_eq!(m.timestamp, at(5));
        assert_eq!(kind.action_verbs(), verb);
    }
}

fn user(name: &str) -> User {
    User::from_raw(RawUser { nick: name.to_string(), features: vec![] })
}

#[test]
fn messages_of_dgg_events() {
    let broadcast = Events::Broadcast(Broadcast { description: "hello".to_string(), timestamp: at(1) });
    assert_eq!(
        broadcast.as_group("Destiny".to_string()),
        SimpleMessageGroup(vec![SimpleMessage {
            id: None,
            channel: "Destiny".to_string(),
            timestamp: at(1),
            username: Usernames::System,
            text: "hello".to_string(),
        }])
    );
    let message =
        Events::Message(Message { user: user("Someone"), text: "hi".to_string(), timestamp: at(2) });
    assert_eq!(
        DggEvent { channel: "Destiny".to_string(), event: message }.into_group(),
        SimpleMessageGroup(vec![SimpleMessage {
            id: None,
            channel: "Destiny".to_string(),
            timestamp: at(2),
            username: Usernames::Normal("Someone".to_string()),
            text: "hi".to_string(),
        }])
    );
    let ban = Events::Moderation(Moderation {
        moderation_type: ModerationTypes::Ban,
        target: "troll".to_string(),
        sender: "Bot".to_string(),
        timestamp: at(3),
    });
    assert_eq!(
        ban.as_group("Destiny".to_string()),
        SimpleMessageGroup(vec![SimpleMessage {
            id: None,
            channel: "Destiny".to_string(),
            timestamp: at(3),
            username: Usernames::Moderation,
            text: "Bot banned troll".to_string(),
        }])
    );
    let unknown = Events::Moderation(Moderation {
        moderation_type: ModerationTypes::Unknown,
        target: "troll".to_string(),
        sender: "Bot".to_string(),
        timestamp: at(3),
    });
    assert_eq!(unknown.as_group("Destiny".to_string()), SimpleMessageGroup(vec![]));
    let join = Events::Join(Join { user: user("a"), timestamp: at(4) });
    assert_eq!(join.as_group("Destiny".to_string()), SimpleMessageGroup(vec![]));
    let names = Events::Names(Names { connection_count: 30, users: vec![user("a")] });
    assert_eq!(names.as_group("Destiny".to_string()), SimpleMessageGroup(vec![]));
}

fn site(use_get_key: bool) -> DggScraper {
    DggScraper::new(DggSiteSettings {
        name: "Destiny".to_string(),
        endpoint: "wss://chat.example/ws".to_string(),
        origin: "https://example".to_string(),
        use_get_key,
    })
}

#[test]
fn worker_addresses() {
    let plain = site(false).worker(60);
    assert_eq!(plain.channel, "Destiny");
    assert_eq!(plain.connect_url(&None), "wss://chat.example/ws");
    assert_eq!(plain.connect_url(&Some("k".to_string())), "wss://chat.example/ws");
    let keyed = site(true).worker(60);
    assert_eq!(keyed.get_key_url(), "https://example/api/chat/getkey");
    assert_eq!(keyed.connect_url(&Some("k3y".to_string())), "wss://chat.example/ws/k3y");
}

#[test]
fn worker_backs_off_threefold_up_to_the_maximum() {
    let mut w = site(false).worker(60);
    // the first connection is made at once
    assert_eq!(w.before_connect(), None);
    let mut waits = vec![];
    for _ in 0..6 {
        assert!(w.after_disconnect(WorkerCommands::Reconnect));
        waits.push(w.before_connect().unwrap());
    }
    assert_eq!(waits, vec![2, 6, 18, 54, 60, 60]);
    // the first message ends the failing, and the next failure starts anew
    assert_eq!(w.on_socket_event(SocketEvent::Text("nothing".to_string())), SocketAction::Continue);
    assert!(!w.failing);
    assert_eq!(w.before_connect(), None);
    assert!(w.after_disconnect(WorkerCommands::Reconnect));
    assert_eq!(w.before_connect(), Some(2));
    assert!(!w.after_disconnect(WorkerCommands::Stop));
}

#[test]
fn worker_backoff_does_not_overflow() {
    let mut w = site(false).worker(u64::MAX);
    w.failing = true;
    w.backoff = u64::MAX / 2;
    assert_eq!(w.before_connect(), Some(u64::MAX / 2));
    assert_eq!(w.backoff, u64::MAX);
}

#[test]
fn worker_and_the_socket() {
    let mut w = site(false).worker(60);
    w.failing = true;
    match w.on_socket_event(SocketEvent::Text("MSG {\"a\":1}".to_string())) {
        SocketAction::Deliver(frame) => {
            assert_eq!(frame.kind, FrameKind::Message);
            assert_eq!(frame.body, "{\"a\":1}");
        }
        other => panic!("{other:?}"),
    }
    assert!(!w.failing);
    assert_eq!(w.on_socket_event(SocketEvent::Ignored), SocketAction::Continue);
    assert_eq!(
        w.on_socket_event(SocketEvent::Close),
        SocketAction::Finish(WorkerCommands::Reconnect)
    );
    assert_eq!(
        w.on_socket_event(SocketEvent::PingFailed),
        SocketAction::Finish(WorkerCommands::Reconnect)
    );
    for error in [
        SocketError::ConnectionClosed,
        SocketError::AlreadyClosed,
        SocketError::Io,
        SocketError::Http,
        SocketError::HttpFormat,
        SocketError::Protocol,
        SocketError::Other,
    ] {
        assert_eq!(
            w.on_socket_event(SocketEvent::Failed(error)),
            SocketAction::Finish(WorkerCommands::Reconnect)
        );
    }
    assert_eq!(
        w.on_socket_event(SocketEvent::Failed(SocketError::Url)),
        SocketAction::Finish(WorkerCommands::Stop)
    );
}

#[test]
fn worker_heartbeat() {
    let mut w = site(false).worker(60);
    // no pong yet
    assert_eq!(
        w.on_socket_event(SocketEvent::PongCheckDue),
        SocketAction::Finish(WorkerCommands::Reconnect)
    );
    assert_eq!(w.on_socket_event(SocketEvent::PingDue), SocketAction::SendPing);
    assert_eq!(w.on_socket_event(SocketEvent::Pong), SocketAction::Continue);
    assert_eq!(w.on_socket_event(SocketEvent::PongCheckDue), SocketAction::Continue);
    // the next ping waits for a pong of its own
    assert_eq!(w.on_socket_event(SocketEvent::PingDue), SocketAction::SendPing);
    assert_eq!(
        w.on_socket_event(SocketEvent::PongCheckDue),
        SocketAction::Finish(WorkerCommands::Reconnect)
    );
}

/// Reads a user out of the JSON that the chat sends.
fn raw_user_of(value: &serde_json::Value) -> RawUser {
    RawUser {
        nick: value["nick"].as_str().unwrap().to_string(),
        features: value["features"]
            .as_array()
            .unwrap()
            .iter()
            .map(|f| f.as_str().unwrap().to_string())
            .collect(),
    }
}

#[test]
fn test_parse_to_names() {
    let names_str: serde_json::Value = serde_json::from_str(
        r#"{
            "connectioncount": 30,
            "users": [
                { "nick": "pogchamp", "features": ["flair3", "moderator"]},
                { "nick": "pogchamp2", "features": ["flair1", "admin"]}
            ]
        }"#,
    )
    .unwrap();

    let names = Names {
        connection_count: names_str["connectioncount"].as_u64().unwrap() as u32,
        users: names_str["users"]
            .as_array()
            .unwrap()
            .iter()
            .map(|u| User::from(raw_user_of(u)))
            .collect(),
    };

    assert_eq!(names.connection_count, 30);
    assert_eq!(names.users.len(), 2);
    assert_eq!(names.users.get(0).unwrap().is_subscriber, true);
    assert_eq!(names.users.get(0).unwrap().username, "pogchamp");
    assert_eq!(names.users.get(1).unwrap().is_subscriber, true);
    assert_eq!(names.users.get(1).unwrap().is_admin, true);
    assert_eq!(names.users.get(1).unwrap().is_moderator, false);
}

#[test]
fn test_deserialization_to_raw_user() {
    let string_user: serde_json::Value = serde_json::from_str(
        r#"{
            "nick": "nickname",
            "features": ["flair3", "moderator"]
        }"#,
    )
    .unwrap();

    let raw_user: RawUser = raw_user_of(&string_user);
    assert_eq!(raw_user.nick, "nickname");
    assert_eq!(raw_user.features, vec!["flair3", "moderator"])
}
