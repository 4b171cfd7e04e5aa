use std::marker::PhantomData;
use tl2::error::OrlError;
use tl2::formats::orl::Clean;
use tl2::formats::orl::OrlLog;
use tl2::formats::orl::Raw;
use tl2::sources::orl::line_parser::parse_message_line;
use tl2::sources::orl::line_parser::parse_orl_log;
use tl2::sources::orl::orl_file_parser::is_gzip_file;
use tl2::sources::orl::orl_file_parser::is_orl_file;
use tl2::sources::orl::orl_file_parser::orl_files_of;
use tl2::sources::orl::orl_file_parser::parse_contents_to_logs;
use tl2::sources::orl::orl_file_parser::parse_minimal_lines;
use tl2::sources::orl::orl_line_parser::parse_orl_date;
use tl2::sources::orl::orl_line_parser::parse_orl_line;
use tl2::sources::orl::orl_line_parser::parse_orl_line_simple;
use tl2::sources::orl::OrlFileSource;
use tl2::time::OrlDate;
use tl2::time::Timestamp;

fn line(input_line: &str, expected_ts: &str, expected_user: &str, expected_msg: &str) {
    let parsed_message = parse_message_line(input_line).unwrap();
    assert_eq!(parsed_message.ts.to_rfc3339_millis(), expected_ts);
    assert_eq!(parsed_message.username, expected_user);
    assert_eq!(parsed_message.text, expected_msg);
}

#[test]
fn line_with_milliseconds_and_utc() {
    line(
        "[2021-08-03 17:40:27.313 UTC] jOhNpYp: Example message",
        "2021-08-03T17:40:27.313Z",
        "johnpyp",
        "Example message",
    );
}

#[test]
fn line_with_milliseconds_no_utc() {
    line(
        "[2021-08-03 17:40:27.313] jOhNpYp: Example message",
        "2021-08-03T17:40:27.313Z",
        "johnpyp",
        "Example message",
    );
}

#[test]
fn line_no_milliseconds_no_utc() {
    line(
        "[2021-08-03 17:40:27] jOhNpYp: Example message",
        "2021-08-03T17:40:27.000Z",
        "johnpyp",
        "Example message",
    );
}

#[test]
fn line_no_milliseconds_and_utc() {
    line(
        "[2021-08-03 17:40:27 UTC] jOhNpYp: Example message",
        "2021-08-03T17:40:27.000Z",
        "johnpyp",
        "Example message",
    );
}

#[test]
fn line_spaced_out_username() {
    line(
        "[2021-08-03 17:40:27 UTC]   test cat: Example message",
        "2021-08-03T17:40:27.000Z",
        "test cat",
        "Example message",
    );
}

#[test]
fn line_spaced_out_username_and_message() {
    line(
        "[2021-08-03 17:40:27 UTC]   tEst Cat  :   Example message   ",
        "2021-08-03T17:40:27.000Z",
        "test cat",
        "Example message",
    );
}

#[test]
fn line_spaced_out_username_and_message_and_timestamp() {
    line(
        "[  2021-08-03 17:40:27 UTC  ]   TeSt Cat  :   Example message   ",
        "2021-08-03T17:40:27.000Z",
        "test cat",
        "Example message",
    );
}

#[test]
fn line_new_line_in_message() {
    line(
        "[2021-08-03 17:40:27 UTC] test cat: Example message\nfollowing message",
        "2021-08-03T17:40:27.000Z",
        "test cat",
        "Example message following message",
    );
}

#[test]
fn line_new_line_following() {
    line(
        "[2021-08-03 17:40:27 UTC] test cat: Example message\nfollowing",
        "2021-08-03T17:40:27.000Z",
        "test cat",
        "Example message following",
    );
}

#[test]
fn line_min_date() {
    line("[0001-01-01 00:00:00 UTC] user: message", "0001-01-01T00:00:00.000Z", "user", "message");
}

#[test]
fn line_max_date() {
    line("[9999-12-31 23:59:59 UTC] user: message", "9999-12-31T23:59:59.000Z", "user", "message");
}

#[test]
fn line_single_char_message() {
    line("[2021-08-03 17:40:27 UTC] user: a", "2021-08-03T17:40:27.000Z", "user", "a");
}

#[test]
fn line_empty_message() {
    line("[2021-08-03 17:40:27 UTC] user:", "2021-08-03T17:40:27.000Z", "user", "");
}

#[test]
fn line_username_no_space() {
    line("[2021-08-03 17:40:27 UTC]user: message", "2021-08-03T17:40:27.000Z", "user", "message");
}

#[test]
fn line_several_opening_brackets() {
    line("[[[2021-08-03 17:40:27 UTC] user: a]b:c", "2021-08-03T17:40:27.000Z", "user", "a]b:c");
}

#[test]
fn line_lower_casing_is_that_of_unicode() {
    line("[2021-08-03 17:40:27] ÄbC: Ä", "2021-08-03T17:40:27.000Z", "äbc", "Ä");
    line("[2021-08-03 17:40:27] ΑΣ ΩΣ: x", "2021-08-03T17:40:27.000Z", "ας ως", "x");
    line("[2021-08-03 17:40:27] İ: x", "2021-08-03T17:40:27.000Z", "i\u{307}", "x");
}

#[test]
fn line_missing_message() {
    assert_eq!(
        parse_message_line("[2021-08-03 17:40:27 UTC] user"),
        Err(OrlError::InvalidFormat)
    );
}

#[test]
fn line_missing_timestamp_closing_brace() {
    assert_eq!(
        parse_message_line("2021-08-03 17:40:27 UTC user: message"),
        Err(OrlError::InvalidFormat)
    );
}

#[test]
fn line_missing_colon_separator() {
    assert_eq!(
        parse_message_line("[2021-08-03 17:40:27] user message"),
        Err(OrlError::InvalidFormat)
    );
}

#[test]
fn line_with_a_timestamp_that_is_none() {
    assert_eq!(parse_message_line("[2021-02-30 17:40:27] user: message"), Err(OrlError::InvalidFormat));
    assert_eq!(parse_message_line("[] user: message"), Err(OrlError::InvalidFormat));
    assert_eq!(parse_message_line(""), Err(OrlError::InvalidFormat));
}

#[test]
fn orl_log_of_a_line() {
    let log = parse_orl_log(
        " xQCOW ".to_string(),
        "[2021-08-04 00:44:12.616 UTC] MegaBlade136 :  !commands ",
    )
    .unwrap();
    assert_eq!(log.channel, "XQCOW");
    assert_eq!(log.username, "megablade136");
    assert_eq!(log.text, "!commands");
    assert_eq!(log.ts.timestamp_millis(), 1628037852616);
    assert_eq!(
        parse_orl_log("Xqcow".to_string(), "no line").map(|l| l.text),
        Err(OrlError::InvalidFormat)
    );
}

fn expected_date() -> Timestamp {
    Timestamp::from_date(OrlDate {
        year: 2021,
        month: 8,
        day: 4,
        hour: 0,
        minute: 44,
        second: 12,
        ms: 616,
    })
    .unwrap()
}

#[test]
fn test_parse_orl_date() {
    let datetime = parse_orl_date("2021-08-04 00:44:12.616 UTC");

    assert_eq!(datetime, Ok(expected_date()));
}

#[test]
fn orl_line_parser_test_parse_orl_date() {
    let datetime = parse_orl_date("2021-08-04 00:44:12.616 UTC");
    assert_eq!(datetime.map(|t| t.timestamp_millis()), Ok(1628037852616));
    assert_eq!(parse_orl_date("2021-08-04T00:44:12.616 UTC"), Err(OrlError::InvalidTimestamp));
    assert_eq!(parse_orl_date("2021-08-04 23:59:60.000 UTC"), Err(OrlError::InvalidTimestamp));
}

#[test]
fn test_parse_orl_line() {
    let expected_log = OrlLog {
        ts: expected_date(),
        channel: "Xqcow".to_string(),
        text: "!commands".to_string(),
        username: "megablade136".to_string(),

        _s: PhantomData::<Raw>,
    };
    assert_eq!(
        parse_orl_line("Xqcow", "[2021-08-04 00:44:12.616 UTC] megablade136: !commands"),
        Some(expected_log.clone())
    );
    assert_eq!(
        parse_orl_line_simple("Xqcow", "[2021-08-04 00:44:12.616 UTC] megablade136: !commands")
            .unwrap(),
        expected_log
    );
}

#[test]
fn orl_line_parser_test_parse_orl_line() {
    // what the strict form does not allow
    for bad in [
        "",
        "[2021-08-04 00:44:12.616 UTC]",
        "[2021-08-04 00:44:12.616 UTC]megablade136: !commands",
        "[2021-08-04 00:44:12.616 UTC] megablade136:!commands",
        "[2021-08-04 00:44:12.616 UTC] : !commands",
        "[2021-08-04 00:44:12.616 UTC] megablade136 !commands",
        "[2021-08-04 00:44:12 UTC] megablade136: !commands",
        "[2021-08-04 00:44:12.616] megablade136: !commands",
        "[2021-02-30 00:44:12.616 UTC] megablade136: !commands",
        "[2021-08-04 00:44:1a.616 UTC] megablade136: !commands",
        "[2021-08-04 00:44:-1.616 UTC] megablade136: !commands",
    ] {
        assert_eq!(parse_orl_line("Xqcow", bad), None, "{bad:?}");
    }
    // nothing is trimmed or lower-cased, and tabs are blanks
    let log = parse_orl_line("Xqcow", "[2021-08-04 00:44:12.616 UTC] \t Mega Blade :\t !Commands ")
        .unwrap();
    assert_eq!(log.username, "Mega Blade ");
    assert_eq!(log.text, "!Commands ");
    // a sign counts as one of the characters of a field
    let signed = parse_orl_line("Xqcow", "[+021-08-04 00:44:+2.+16 UTC] a: b").unwrap();
    assert_eq!(
        signed.ts.civil(),
        OrlDate { year: 21, month: 8, day: 4, hour: 0, minute: 44, second: 2, ms: 16 }
    );
    let early = parse_orl_line("Xqcow", "[-021-08-04 00:44:12.616 UTC] a: b").unwrap();
    assert_eq!(early.ts.civil().year, -21);
    // by position alone
    for bad in ["", "[2021-08-04 00:44:12.616 UTC] ", "[2021-08-04 00:44:12.616 UTC] user",
        "[2021-08-04 00:44:12.616 UTC] user:", "[2021-08-04T00:44:12.616 UTC] user: text"]
    {
        assert_eq!(
            parse_orl_line_simple("Xqcow", bad).map(|l| l.text),
            Err(OrlError::InvalidFormat),
            "{bad:?}"
        );
    }
    let log = parse_orl_line_simple("Xqcow", "[2021-08-04 00:44:12.616 UTC] user:x").unwrap();
    assert_eq!(log.username, "user");
    assert_eq!(log.text, "");
}

#[test]
fn test_parse_contents_to_logs() {
    let channel = "A_seagull";
    let contents = r#"
            [2021-08-04 00:44:12.616 UTC] megablade136: !commands
            [2021-08-04 07:01:21.350 UTC] @subscriber: zakwern just subscribed with Prime for 1 months!
        "#;
    let expected = vec![
        OrlLog {
            channel: "A_seagull".into(),
            ts: parse_orl_date("2021-08-04 00:44:12.616 UTC").unwrap(),
            text: "!commands".into(),
            username: "megablade136".into(),

            _s: PhantomData::<Clean>,
        },
        OrlLog {
            channel: "A_seagull".into(),
            ts: parse_orl_date("2021-08-04 07:01:21.350 UTC").unwrap(),
            text: "zakwern just subscribed with Prime for 1 months!".into(),
            username: "@subscriber".into(),

            _s: PhantomData::<Clean>,
        },
    ];

    let parsed_logs = parse_contents_to_logs(contents.to_string(), channel);
    assert_eq!(parsed_logs, expected);
}

#[test]
fn orl_file_parser_test_parse_contents_to_logs() {
    let contents = "[2021-08-04 00:44:12.616 UTC] a: one\r\nnot a line\n\n[2021-08-04 00:44:13] B: two";
    let logs = parse_contents_to_logs(contents.to_string(), "xqcow");
    assert_eq!(logs.len(), 2);
    assert_eq!(logs[0].text, "one");
    assert_eq!(logs[0].channel, "Xqcow");
    assert_eq!(logs[1].username, "b");
    assert_eq!(logs[1].text, "two");
    assert_eq!(parse_contents_to_logs(String::new(), "xqcow"), vec![]);
}

#[test]
fn minimal_lines_are_the_lines() {
    let lines = parse_minimal_lines("a\r\nb\n\nc\r".to_string(), "chan");
    let texts: Vec<&str> = lines.iter().map(|l| l.line.as_str()).collect();
    assert_eq!(texts, vec!["a", "b", "", "c\r"]);
    assert!(lines.iter().all(|l| l.channel == "chan"));
    let expected: Vec<String> = "a\r\nb\n\nc\r".lines().map(|l| l.to_string()).collect();
    assert_eq!(texts, expected);
    assert_eq!(parse_minimal_lines("x\n".to_string(), "chan").len(), 1);
    assert_eq!(parse_minimal_lines("\n".to_string(), "chan").len(), 1);
    assert_eq!(parse_minimal_lines(String::new(), "chan").len(), 0);
}

#[test]
fn files_of_logs() {
    assert!(is_orl_file("2021-08-04.txt"));
    assert!(is_orl_file("2021-08-04.txt.gz"));
    assert!(!is_orl_file("2021-08-04.txt.zst"));
    assert!(!is_orl_file("txt"));
    assert!(is_gzip_file("a/2021-08-04.txt.gz"));
    assert!(!is_gzip_file("a/2021-08-04.txt"));
    assert!(!is_gzip_file(".gz"));
    assert!(!is_gzip_file("a/.gz"));
    assert!(!is_gzip_file("gz"));
    let entries = vec!["a.txt".to_string(), "b.json".to_string(), "c.txt.gz".to_string()];
    let files = orl_files_of(&entries, "Chan");
    assert_eq!(files.len(), 2);
    assert_eq!(files[0].path, "a.txt");
    assert_eq!(files[1].path, "c.txt.gz");
    assert_eq!(files[1].channel, "Chan");
    assert_eq!(OrlFileSource::new("logs".to_string()).orl_dir, "logs");
}
