use tl2::adapters::clickhouse::messages_table::ClickhouseMessage;
use tl2::adapters::clickhouse::messages_table::RowError;
use tl2::adapters::clickhouse::user_notices_table::ClickhouseUserNotice;
use tl2::adapters::username_tracker::accepts;
use tl2::adapters::username_tracker::batch_ready;
use tl2::adapters::username_tracker::get_username_updates;
use tl2::adapters::username_tracker::settle_queue;
use tl2::adapters::username_tracker::UsernameUpdateEvent;
use tl2::events::AllEvents;
use tl2::events::SimpleMessage;
use tl2::events::SimpleMessageGroup;
use tl2::events::Usernames;
use tl2::scrapers::dgg::events::Broadcast;
use tl2::scrapers::dgg::events::DggEvent;
use tl2::scrapers::dgg::events::Events;
use tl2::scrapers::twitch::events::raid_message;
use tl2::scrapers::twitch::events::tiers_format;
use tl2::scrapers::twitch::events::TwitchEvent;
use tl2::scrapers::twitch::join_channels;
use tl2::scrapers::twitch::map_message;
use tl2::scrapers::twitch::message::Badge;
use tl2::scrapers::twitch::message::ClearChatAction;
use tl2::scrapers::twitch::message::ClearChatMessage;
use tl2::scrapers::twitch::message::HostTargetAction;
use tl2::scrapers::twitch::message::HostTargetMessage;
use tl2::scrapers::twitch::message::PrivmsgMessage;
use tl2::scrapers::twitch::message::RGBColor;
use tl2::scrapers::twitch::message::TwitchUserBasics;
use tl2::scrapers::twitch::message::UserNoticeEvent;
use tl2::scrapers::twitch::message::UserNoticeMessage;
use tl2::scrapers::twitch::sqlite_channels;
use tl2::scrapers::twitch::ServerMessage;
use tl2::time::Timestamp;

fn at(ms: i64) -> Timestamp {
    Timestamp::from_millis(ms).unwrap()
}

fn someone() -> TwitchUserBasics {
    TwitchUserBasics { id: "1234".to_string(), login: "someone".to_string(), name: "SomeOne".to_string() }
}

fn privmsg(bits: Option<u64>) -> PrivmsgMessage {
    PrivmsgMessage {
        channel_login: "xqcow".to_string(),
        channel_id: "71092938".to_string(),
        message_text: "hello chat".to_string(),
        sender: someone(),
        badge_info: vec![Badge { name: "subscriber".to_string(), version: "17".to_string() }],
        badges: vec![
            Badge { name: "subscriber".to_string(), version: "12".to_string() },
            Badge { name: "glhf-pledge".to_string(), version: "1".to_string() },
        ],
        bits,
        name_color: Some(RGBColor { r: 255, g: 0, b: 10 }),
        message_id: "msg-id".to_string(),
        server_timestamp: at(1628037852616),
    }
}

fn notice(event: UserNoticeEvent, message_text: Option<&str>) -> UserNoticeMessage {
    UserNoticeMessage {
        channel_login: "xqcow".to_string(),
        channel_id: "71092938".to_string(),
        sender: someone(),
        message_text: message_text.map(|t| t.to_string()),
        system_message: "the system says".to_string(),
        event,
        event_id: "sub".to_string(),
        badge_info: vec![],
        badges: vec![Badge { name: "premium".to_string(), version: "1".to_string() }],
        name_color: None,
        message_id: "notice-id".to_string(),
        server_timestamp: at(1628037852616),
    }
}

fn message(id: Option<&str>, username: Usernames, text: &str) -> SimpleMessage {
    SimpleMessage {
        id: id.map(|i| i.to_string()),
        channel: "xqcow".to_string(),
        timestamp: at(1628037852616),
        username,
        text: text.to_string(),
    }
}

fn system() -> SimpleMessage {
    message(None, Usernames::System, "the system says")
}

#[test]
fn privmsg_is_one_message() {
    assert_eq!(
        SimpleMessageGroup::from_privmsg(privmsg(None)),
        SimpleMessageGroup(vec![message(
            Some("msg-id"),
            Usernames::Normal("someone".to_string()),
            "hello chat"
        )])
    );
}

#[test]
fn privmsg_with_bits_is_two_messages() {
    assert_eq!(
        SimpleMessageGroup::from_privmsg(privmsg(Some(500))),
        SimpleMessageGroup(vec![
            message(Some("msg-id"), Usernames::Normal("someone".to_string()), "hello chat"),
            message(None, Usernames::Bits, "someone donated 500 bits to the channel!"),
        ])
    );
    let zero = SimpleMessageGroup::from_privmsg(privmsg(Some(0)));
    assert_eq!(zero.0[1].text, "someone donated 0 bits to the channel!");
    let many = SimpleMessageGroup::from_privmsg(privmsg(Some(u64::MAX)));
    assert_eq!(many.0[1].text, "someone donated 18446744073709551615 bits to the channel!");
}

#[test]
fn tiers_by_their_number() {
    assert_eq!(tiers_format("Prime"), "Prime");
    assert_eq!(tiers_format("1000"), "Tier 1");
    assert_eq!(tiers_format("2000"), "Tier 2");
    assert_eq!(tiers_format("3000"), "Tier 3");
    assert_eq!(tiers_format("4000"), "4000");
    assert_eq!(raid_message("a", 7), "a just raided the channel with 7 viewers!");
}

fn sub(plan: &str, is_resub: bool, months: u64) -> UserNoticeEvent {
    UserNoticeEvent::SubOrResub {
        is_resub,
        cumulative_months: months,
        streak_months: Some(3),
        sub_plan: plan.to_string(),
        sub_plan_name: "Channel Subscription".to_string(),
    }
}

#[test]
fn notice_of_a_subscription() {
    assert_eq!(
        SimpleMessageGroup::from_user_notice(notice(sub("Prime", false, 1), None)),
        SimpleMessageGroup(vec![
            message(
                Some("notice-id"),
                Usernames::Subscriber,
                "someone just subscribed with Prime for 1 months!"
            ),
            system(),
        ])
    );
    assert_eq!(
        SimpleMessageGroup::from_user_notice(notice(sub("2000", true, 14), Some("poggers"))).0[0]
            .text,
        "someone just resubscribed at Tier 2 for 14 months! Message: poggers"
    );
    assert_eq!(
        SimpleMessageGroup::from_user_notice(notice(sub("custom", true, 2), None)).0[0].text,
        "someone just resubscribed at custom for 2 months!"
    );
}

#[test]
fn notices_of_gifts() {
    let gift = UserNoticeEvent::SubGift {
        is_sender_anonymous: false,
        cumulative_months: 2,
        recipient: TwitchUserBasics {
            id: "99".to_string(),
            login: "lucky".to_string(),
            name: "Lucky".to_string(),
        },
        sub_plan: "1000".to_string(),
        sub_plan_name: "Channel Subscription".to_string(),
        num_gifted_months: 1,
    };
    assert_eq!(
        SimpleMessageGroup::from_user_notice(notice(gift, None)),
        SimpleMessageGroup(vec![
            message(Some("notice-id"), Usernames::Subscriber, "someone gifted a Tier 1 sub to lucky!"),
            system(),
        ])
    );
    let mystery = UserNoticeEvent::SubMysteryGift {
        mass_gift_count: 20,
        sender_total_gifts: 100,
        sub_plan: "3000".to_string(),
    };
    assert_eq!(
        SimpleMessageGroup::from_user_notice(notice(mystery, None)).0[0],
        message(
            Some("notice-id"),
            Usernames::GiftSub,
            "someone gifted 20 Tier 3 subs to the community!"
        )
    );
    let anonymous =
        UserNoticeEvent::AnonSubMysteryGift { mass_gift_count: 5, sub_plan: "1000".to_string() };
    assert_eq!(
        SimpleMessageGroup::from_user_notice(notice(anonymous, None)).0[0].text,
        "someone gifted 5 Tier 1 subs to the community!"
    );
    let upgrade = UserNoticeEvent::GiftPaidUpgrade {
        gifter_login: "giver".to_string(),
        gifter_name: "Giver".to_string(),
    };
    assert_eq!(
        SimpleMessageGroup::from_user_notice(notice(upgrade, None)).0[0],
        message(
            Some("notice-id"),
            Usernames::Subscriber,
            "someone is continuing their gifted sub from Giver"
        )
    );
    assert_eq!(
        SimpleMessageGroup::from_user_notice(notice(UserNoticeEvent::AnonGiftPaidUpgrade, None)).0
            [0]
        .text,
        "someone is continuing their anonymous gifted sub!"
    );
}

#[test]
fn notices_of_raids_and_the_rest() {
    let raid =
        UserNoticeEvent::Raid { viewer_count: 1234, profile_image_url: "http://x".to_string() };
    assert_eq!(
        SimpleMessageGroup::from_user_notice(notice(raid, None)),
        SimpleMessageGroup(vec![
            message(
                Some("notice-id"),
                Usernames::Raid,
                "someone just raided the channel with 1234 viewers!"
            ),
            system(),
        ])
    );
    for quiet in [
        UserNoticeEvent::Ritual { ritual_name: "new_chatter".to_string() },
        UserNoticeEvent::BitsBadgeTier { threshold: 1000 },
        UserNoticeEvent::Unknown,
    ] {
        assert_eq!(
            SimpleMessageGroup::from_user_notice(notice(quiet, None)),
            SimpleMessageGroup(vec![system()])
        );
    }
}

fn clear(action: ClearChatAction) -> ClearChatMessage {
    ClearChatMessage {
        channel_login: "xqcow".to_string(),
        channel_id: "71092938".to_string(),
        action,
        server_timestamp: at(1628037852616),
    }
}

#[test]
fn moderation_notices() {
    let banned = ClearChatAction::UserBanned { user_login: "troll".to_string(), user_id: "1".to_string() };
    assert_eq!(
        SimpleMessageGroup::from_clear_chat(clear(banned)),
        SimpleMessageGroup(vec![message(None, Usernames::Moderation, "troll permanently banned")])
    );
    for (seconds, span) in [(600, "10m"), (90, "1m 30s"), (3661, "1h 1m 1s"), (1, "1s"), (0, "0s")] {
        let timed_out = ClearChatAction::UserTimedOut {
            user_login: "troll".to_string(),
            user_id: "1".to_string(),
            timeout_seconds: seconds,
        };
        assert_eq!(
            SimpleMessageGroup::from_clear_chat(clear(timed_out)),
            SimpleMessageGroup(vec![message(
                None,
                Usernames::Moderation,
                &format!("troll timed out for {span}")
            )])
        );
    }
    assert_eq!(
        SimpleMessageGroup::from_clear_chat(clear(ClearChatAction::ChatCleared)),
        SimpleMessageGroup(vec![])
    );
}

#[test]
fn host_notices() {
    let on = HostTargetMessage {
        channel_login: "raider".to_string(),
        action: HostTargetAction::HostModeOn {
            hosted_channel_login: "xqcow".to_string(),
            viewer_count: Some(7),
        },
    };
    assert_eq!(
        SimpleMessageGroup::from_host_target(on.clone(), at(1628037852616)),
        SimpleMessageGroup(vec![message(
            None,
            Usernames::Host,
            "raider just raided the channel with 7 viewers!"
        )])
    );
    let unknown = HostTargetMessage {
        channel_login: "raider".to_string(),
        action: HostTargetAction::HostModeOn {
            hosted_channel_login: "xqcow".to_string(),
            viewer_count: None,
        },
    };
    assert_eq!(
        SimpleMessageGroup::from_twitch(TwitchEvent::HostTarget(unknown), at(5)).0[0].text,
        "raider just raided the channel with 0 viewers!"
    );
    let off = HostTargetMessage {
        channel_login: "raider".to_string(),
        action: HostTargetAction::HostModeOff { viewer_count: Some(7) },
    };
    assert_eq!(SimpleMessageGroup::from_host_target(off, at(5)), SimpleMessageGroup(vec![]));
}

#[test]
fn events_of_any_kind() {
    let twitch = AllEvents::Twitch(TwitchEvent::Privmsg(privmsg(None)));
    assert_eq!(
        SimpleMessageGroup::from_event(twitch, at(0)),
        SimpleMessageGroup::from_privmsg(privmsg(None))
    );
    let dgg = AllEvents::Dgg(DggEvent {
        channel: "Destiny".to_string(),
        event: Events::Broadcast(Broadcast { description: "hi".to_string(), timestamp: at(9) }),
    });
    let group = SimpleMessageGroup::from_event(dgg, at(0));
    assert_eq!(group.0.len(), 1);
    assert_eq!(group.0[0].channel, "Destiny");
    assert_eq!(group.0[0].timestamp, at(9));
    assert_eq!(SimpleMessageGroup::from_option(None), SimpleMessageGroup::empty());
    assert_eq!(SimpleMessageGroup::from_option(Some(system())), SimpleMessageGroup::single(system()));
    assert_eq!(SimpleMessageGroup::pair(system(), system()).0.len(), 2);
}

#[test]
fn messages_of_the_server() {
    assert_eq!(
        map_message(ServerMessage::Privmsg(privmsg(None))),
        Some(TwitchEvent::Privmsg(privmsg(None)))
    );
    assert_eq!(
        map_message(ServerMessage::UserNotice(notice(UserNoticeEvent::Unknown, None))),
        Some(TwitchEvent::UserNotice(notice(UserNoticeEvent::Unknown, None)))
    );
    assert_eq!(
        map_message(ServerMessage::ClearChat(clear(ClearChatAction::ChatCleared))),
        Some(TwitchEvent::ClearChat(clear(ClearChatAction::ChatCleared)))
    );
    let host = HostTargetMessage {
        channel_login: "a".to_string(),
        action: HostTargetAction::HostModeOff { viewer_count: None },
    };
    assert_eq!(
        map_message(ServerMessage::HostTarget(host.clone())),
        Some(TwitchEvent::HostTarget(host))
    );
    assert_eq!(map_message(ServerMessage::Other), None);
}

#[test]
fn channels_to_join() {
    let channels = vec![
        " XQCOW ".to_string(),
        "Destiny".to_string(),
        "xqcow".to_string(),
        "destiny\n".to_string(),
        "A_Seagull".to_string(),
    ];
    assert_eq!(join_channels(&channels), vec!["xqcow", "destiny", "a_seagull"]);
    assert_eq!(join_channels(&vec![]), Vec::<String>::new());
    assert_eq!(
        join_channels(&vec!["ÄBC".to_string(), " äbc".to_string(), "Äbc".to_string()]),
        vec!["äbc"]
    );
    assert_eq!(sqlite_channels(), vec!["Xqcow"]);
}

#[test]
fn row_of_a_chat_message() {
    let row = ClickhouseMessage::try_from(privmsg(Some(100))).unwrap();
    assert_eq!(
        row,
        ClickhouseMessage {
            ts: 1628037852616,
            channel: "xqcow".to_string(),
            channel_id: 71092938,
            username: "someone".to_string(),
            display_name: "SomeOne".to_string(),
            text: "hello chat".to_string(),
            user_id: 1234,
            badges: vec!["subscriber".to_string(), "glhf-pledge".to_string()],
            subscribed: 17,
            bits: 100,
            color: "#ff000a".to_string(),
        }
    );
    let mut plain = privmsg(None);
    plain.name_color = None;
    plain.badge_info = vec![
        Badge { name: "founder".to_string(), version: "3".to_string() },
        Badge { name: "subscriber".to_string(), version: "many".to_string() },
        Badge { name: "subscriber".to_string(), version: "5".to_string() },
    ];
    let row = ClickhouseMessage::try_from(plain).unwrap();
    assert_eq!(row.color, "");
    assert_eq!(row.bits, 0);
    assert_eq!(row.subscribed, 0);
    let mut big = privmsg(None);
    big.badge_info = vec![Badge { name: "subscriber".to_string(), version: "65536".to_string() }];
    assert_eq!(ClickhouseMessage::try_from(big).unwrap().subscribed, 0);
    let mut most = privmsg(None);
    most.badge_info = vec![Badge { name: "subscriber".to_string(), version: "+65535".to_string() }];
    assert_eq!(ClickhouseMessage::try_from(most).unwrap().subscribed, 65535);
}

#[test]
fn row_of_a_chat_message_with_ids_that_are_no_numbers() {
    let mut bad_channel = privmsg(None);
    bad_channel.channel_id = "abc".to_string();
    bad_channel.sender.id = "also".to_string();
    assert_eq!(ClickhouseMessage::try_from(bad_channel), Err(RowError::ChannelId));
    for id in ["", "+", "-1", "12a", " 12", "18446744073709551616"] {
        let mut bad_user = privmsg(None);
        bad_user.sender.id = id.to_string();
        assert_eq!(ClickhouseMessage::try_from(bad_user), Err(RowError::UserId), "{id:?}");
    }
    let mut largest = privmsg(None);
    largest.sender.id = "18446744073709551615".to_string();
    assert_eq!(ClickhouseMessage::try_from(largest).unwrap().user_id, u64::MAX);
    let mut signed = privmsg(None);
    signed.sender.id = "+007".to_string();
    assert_eq!(ClickhouseMessage::try_from(signed).unwrap().user_id, 7);
}

#[test]
fn rows_of_notices() {
    let row = ClickhouseUserNotice::try_from(notice(sub("1000", true, 65537), Some("hi"))).unwrap();
    assert_eq!(row.ts, 1628037852616);
    assert_eq!(row.message_type, "sub");
    assert_eq!(row.channel, "xqcow");
    assert_eq!(row.channel_id, 71092938);
    assert_eq!(row.username, "someone");
    assert_eq!(row.display_name, "SomeOne");
    assert_eq!(row.user_id, 1234);
    assert_eq!(row.badges, vec!["premium"]);
    assert_eq!(row.system_message, "the system says");
    assert_eq!(row.text, "hi");
    assert_eq!(row.color, "");
    assert_eq!(row.sub_plan, "1000");
    assert_eq!(row.sub_plan_name, "Channel Subscription");
    assert_eq!(row.cumulative_months, 1);
    assert_eq!(row.streak_months, 3);
    assert_eq!(row.viewer_count, 0);
    assert_eq!(row.gift_months, 0);
    assert_eq!(row.recipient_username, "");
    assert_eq!(row.recipient_user_id, 0);

    let gift = UserNoticeEvent::SubGift {
        is_sender_anonymous: true,
        cumulative_months: 2,
        recipient: TwitchUserBasics {
            id: "99".to_string(),
            login: "lucky".to_string(),
            name: "Lucky".to_string(),
        },
        sub_plan: "1000".to_string(),
        sub_plan_name: "Gift".to_string(),
        num_gifted_months: 6,
    };
    let row = ClickhouseUserNotice::try_from(notice(gift, None)).unwrap();
    assert_eq!(row.text, "");
    assert_eq!(row.cumulative_months, 2);
    assert_eq!(row.streak_months, 0);
    assert_eq!(row.gift_months, 6);
    assert_eq!(row.recipient_username, "lucky");
    assert_eq!(row.recipient_display_name, "Lucky");
    assert_eq!(row.recipient_user_id, 99);

    let raid = UserNoticeEvent::Raid { viewer_count: 77, profile_image_url: String::new() };
    let row = ClickhouseUserNotice::try_from(notice(raid, None)).unwrap();
    assert_eq!(row.viewer_count, 77);
    assert_eq!(row.sub_plan, "");

    let mut bad = notice(UserNoticeEvent::Unknown, None);
    bad.sender.id = "x".to_string();
    assert_eq!(ClickhouseUserNotice::try_from(bad), Err(RowError::UserId));
    let mut bad = notice(UserNoticeEvent::Unknown, None);
    bad.channel_id = "x".to_string();
    assert_eq!(ClickhouseUserNotice::try_from(bad), Err(RowError::ChannelId));
}

fn seen(id: &str, username: &str) -> UsernameUpdateEvent {
    UsernameUpdateEvent {
        id: id.to_string(),
        username: username.to_string(),
        timestamp: at(1628037852616),
    }
}

#[test]
fn names_that_events_tell_of() {
    let mut spaced = privmsg(None);
    spaced.sender.login = " someone ".to_string();
    assert_eq!(get_username_updates(TwitchEvent::Privmsg(spaced)), vec![seen("1234", "someone")]);
    let gift = |anonymous: bool| UserNoticeEvent::SubGift {
        is_sender_anonymous: anonymous,
        cumulative_months: 2,
        recipient: TwitchUserBasics {
            id: "99".to_string(),
            login: " lucky".to_string(),
            name: "Lucky".to_string(),
        },
        sub_plan: "1000".to_string(),
        sub_plan_name: "Gift".to_string(),
        num_gifted_months: 6,
    };
    assert_eq!(
        get_username_updates(TwitchEvent::UserNotice(notice(gift(false), None))),
        vec![seen("1234", "someone"), seen("99", " lucky")]
    );
    assert_eq!(
        get_username_updates(TwitchEvent::UserNotice(notice(gift(true), None))),
        vec![seen("99", " lucky")]
    );
    for told in [
        sub("1000", false, 1),
        UserNoticeEvent::Raid { viewer_count: 1, profile_image_url: String::new() },
        UserNoticeEvent::Ritual { ritual_name: "new_chatter".to_string() },
        UserNoticeEvent::BitsBadgeTier { threshold: 1 },
        UserNoticeEvent::GiftPaidUpgrade { gifter_login: "g".to_string(), gifter_name: "G".to_string() },
    ] {
        assert_eq!(
            get_username_updates(TwitchEvent::UserNotice(notice(told, None))),
            vec![seen("1234", "someone")]
        );
    }
    for quiet in [
        UserNoticeEvent::AnonGiftPaidUpgrade,
        UserNoticeEvent::Unknown,
        UserNoticeEvent::AnonSubMysteryGift { mass_gift_count: 1, sub_plan: "1000".to_string() },
        UserNoticeEvent::SubMysteryGift {
            mass_gift_count: 1,
            sender_total_gifts: 0,
            sub_plan: "1000".to_string(),
        },
    ] {
        assert_eq!(get_username_updates(TwitchEvent::UserNotice(notice(quiet, None))), vec![]);
    }
    assert_eq!(
        get_username_updates(TwitchEvent::ClearChat(clear(ClearChatAction::ChatCleared))),
        vec![]
    );
    assert_eq!(
        accepts(AllEvents::Twitch(TwitchEvent::Privmsg(privmsg(None)))),
        Some(TwitchEvent::Privmsg(privmsg(None)))
    );
    assert_eq!(
        accepts(AllEvents::Dgg(DggEvent {
            channel: "Destiny".to_string(),
            event: Events::Broadcast(Broadcast { description: "hi".to_string(), timestamp: at(9) }),
        })),
        None
    );
}

#[test]
fn queue_of_names() {
    assert!(!batch_ready(2, 3));
    assert!(batch_ready(3, 3));
    let full: Vec<UsernameUpdateEvent> = (0..30).map(|i| seen(&i.to_string(), "n")).collect();
    // written: nothing is left
    let mut queue = full.clone();
    assert_eq!(settle_queue(&mut queue, true, 3), 0);
    assert!(queue.is_empty());
    // not written, ten batches: the oldest batch is given up
    let mut queue = full.clone();
    assert_eq!(settle_queue(&mut queue, false, 3), 3);
    assert_eq!(queue, full[3..].to_vec());
    // not written, fewer than ten batches: all is kept
    let mut queue = full[..29].to_vec();
    assert_eq!(settle_queue(&mut queue, false, 3), 0);
    assert_eq!(queue, full[..29].to_vec());
}
