use std::marker::PhantomData;
use tl2::adapters::console::name_style;
use tl2::adapters::console::ConsoleWriter;
use tl2::adapters::console::NameStyle;
use tl2::adapters::console_metrics::ConsoleMetricsWorker;
use tl2::adapters::console_metrics::MetricsReport;
use tl2::adapters::elasticsearch::check_bulk_response;
use tl2::adapters::elasticsearch::client_of;
use tl2::adapters::elasticsearch::create_elasticsearch_client;
use tl2::adapters::elasticsearch::ElasticsearchClient;
use tl2::error::ClientError;
use tl2::adapters::elasticsearch::create_elasticsearch_client_from_url;
use tl2::adapters::elasticsearch::index_for;
use tl2::adapters::elasticsearch::index_name_prefix;
use tl2::adapters::elasticsearch::index_pattern;
use tl2::adapters::elasticsearch::template_name;
use tl2::adapters::elasticsearch::BulkDocument;
use tl2::adapters::elasticsearch::BulkError;
use tl2::adapters::elasticsearch::ElasticsearchWorker;
use tl2::adapters::elasticsearch::Fire;
use tl2::adapters::elasticsearch::WorkerStep;
use tl2::adapters::file::file_line;
use tl2::adapters::file::format_line;
use tl2::adapters::file::join_lines;
use tl2::adapters::file::FileAppend;
use tl2::adapters::file::QueuedAppender;
use tl2::alerts::alert_target;
use tl2::alerts::Alert;
use tl2::alerts::AlertEmbed;
use tl2::alerts::AlertType;
use tl2::events::AllEvents;
use tl2::events::SimpleMessage;
use tl2::events::Usernames;
use tl2::formats::orl::OrlLog;
use tl2::formats::orl::Raw;
use tl2::formats::unified::CommonKey;
use tl2::formats::unified::OrlLog1_0;
use tl2::formats::unified::UnifiedMessageLog;
use tl2::run_scrape_ingester::enabled_writers;
use tl2::run_scrape_ingester::Dispatcher;
use tl2::run_scrape_ingester::WriterKind;
use tl2::settings::ClickhouseSettings;
use tl2::settings::ConsoleMetricsSettings;
use tl2::settings::ConsoleSettings;
use tl2::settings::ElasticsearchSettings;
use tl2::settings::FileSettings;
use tl2::settings::UsernameTrackerSettings;
use tl2::settings::WritersSettings;
use tl2::scrapers::dgg::events::Broadcast;
use tl2::scrapers::dgg::events::DggEvent;
use tl2::scrapers::dgg::events::Events;
use tl2::scripts::chunk_size;
use tl2::scripts::count_setting;
use tl2::scripts::elastic_document;
use tl2::scripts::orl_log_to_message;
use tl2::scripts::write_elastic_chunk;
use tl2::settings::DiscordAlertingSettings;
use tl2::sinks::clickhouse_bulk::map_log;
use tl2::sinks::clickhouse_bulk::ClickhouseBulkBatch;
use tl2::sinks::clickhouse_bulk::ClickhouseBulkSink;
use tl2::sinks::elasticsearch_bulk::ElasticsearchBulkSink;
use tl2::sinks::jsonl::messages::group_logs;
use tl2::sinks::jsonl::messages::JsonInputBatch;
use tl2::sinks::jsonl::messages::JsonLinesSinkContext;
use tl2::sinks::sqlite::submit_orl_message_batch;
use tl2::sinks::sqlite::unified_row;
use tl2::sources::jsonl::Compression;
use tl2::sources::jsonl::JsonFileSource;
use tl2::sources::orl::line_parser::parse_message_line;
use tl2::time::Timestamp;

fn at(ms: i64) -> Timestamp {
    Timestamp::from_millis(ms).unwrap()
}

fn event(n: i64) -> AllEvents {
    AllEvents::Dgg(DggEvent {
        channel: "Destiny".to_string(),
        event: Events::Broadcast(Broadcast { description: n.to_string(), timestamp: at(n) }),
    })
}

struct Recorder {
    calls: usize,
    fail_at: Option<usize>,
}

impl Recorder {
    fn write(&mut self, _event: AllEvents) -> Result<(), String> {
        self.calls += 1;
        if self.fail_at == Some(self.calls) {
            Err(format!("call {} fails", self.calls))
        } else {
            Ok(())
        }
    }
}

/// Hands one event to the sinks as the dispatcher says, and returns the
/// sinks that it took out of rotation.
fn hand_out(dispatcher: &mut Dispatcher, sinks: &mut [Recorder], event: AllEvents) -> Vec<usize> {
    let mut failed = vec![];
    for i in dispatcher.targets() {
        if sinks[i].write(event.clone()).is_err() {
            failed.push(i);
        }
    }
    dispatcher.quarantine(&failed)
}

fn calls(sinks: &[Recorder]) -> Vec<usize> {
    sinks.iter().map(|w| w.calls).collect()
}

#[test]
fn dispatcher_quarantines_the_sink_that_fails() {
    let mut sinks = vec![
        Recorder { calls: 0, fail_at: None },
        Recorder { calls: 0, fail_at: Some(1) },
        Recorder { calls: 0, fail_at: None },
    ];
    let mut dispatcher = Dispatcher::new(3);
    assert_eq!(dispatcher.targets(), vec![0, 1, 2]);
    assert_eq!(hand_out(&mut dispatcher, &mut sinks, event(1)), vec![1]);
    assert_eq!(dispatcher.targets(), vec![0, 2]);
    assert_eq!(hand_out(&mut dispatcher, &mut sinks, event(2)), Vec::<usize>::new());
    assert_eq!(hand_out(&mut dispatcher, &mut sinks, event(3)), Vec::<usize>::new());
    // A and C got three calls each; B got its one call and is out of rotation
    assert_eq!(calls(&sinks), vec![3, 1, 3]);
    assert!(dispatcher.is_active(0));
    assert!(!dispatcher.is_active(1));
    assert!(dispatcher.is_active(2));
    assert!(!dispatcher.is_active(3));
}

#[test]
fn dispatcher_asks_every_active_sink_once() {
    let mut sinks: Vec<Recorder> =
        (0..5).map(|i| Recorder { calls: 0, fail_at: Some(i + 1) }).collect();
    let mut dispatcher = Dispatcher::new(5);
    let mut removed = vec![];
    for n in 0..6 {
        removed.push(hand_out(&mut dispatcher, &mut sinks, event(n)));
    }
    assert_eq!(removed, vec![vec![0], vec![1], vec![2], vec![3], vec![4], vec![]]);
    assert_eq!(calls(&sinks), vec![1, 2, 3, 4, 5]);
    assert_eq!(dispatcher.targets(), Vec::<usize>::new());
    assert_eq!(Dispatcher::new(0).targets(), Vec::<usize>::new());
}

#[test]
fn sinks_that_the_settings_turn_on() {
    let mut settings = WritersSettings {
        elasticsearch: ElasticsearchSettings {
            enabled: false,
            host: "h".to_string(),
            port: 9200,
            index: "logs".to_string(),
            pipeline: None,
            batch_size: 1,
            batch_period_seconds: 1,
            max_retry_seconds: 1,
        },
        clickhouse: ClickhouseSettings {
            enabled: true,
            host: "h".to_string(),
            port: 8123,
            url: "u".to_string(),
            db_user: None,
            db_pass: None,
            db_name: None,
        },
        filesystem: FileSettings { enabled: true, path: "p".to_string() },
        console: ConsoleSettings { enabled: false },
        console_metrics: ConsoleMetricsSettings { enabled: true },
        username_tracker: UsernameTrackerSettings {
            enabled: false,
            sqlite_path: "s".to_string(),
            batch_size: 10,
        },
    };
    assert_eq!(
        enabled_writers(&settings),
        vec![WriterKind::File, WriterKind::ConsoleMetrics, WriterKind::Clickhouse]
    );
    settings.elasticsearch.enabled = true;
    settings.console.enabled = true;
    settings.username_tracker.enabled = true;
    assert_eq!(
        enabled_writers(&settings),
        vec![
            WriterKind::Elasticsearch,
            WriterKind::File,
            WriterKind::Console,
            WriterKind::ConsoleMetrics,
            WriterKind::Clickhouse,
            WriterKind::UsernameTracker,
        ]
    );
}

#[test]
fn dispatcher_books() {
    let mut dispatcher = Dispatcher::new(4);
    // a sink that is named twice, or that does not exist, changes nothing more
    assert_eq!(dispatcher.quarantine(&vec![2, 0, 2, 9]), vec![0, 2]);
    assert_eq!(dispatcher.active, vec![false, true, false, true]);
    // a sink that is out stays out, and is not reported again
    assert_eq!(dispatcher.quarantine(&vec![0, 1]), vec![1]);
    assert_eq!(dispatcher.quarantine(&vec![]), Vec::<usize>::new());
    assert_eq!(dispatcher.targets(), vec![3]);
}

#[test]
fn elasticsearch_adaptive_period() {
    let mut worker = ElasticsearchWorker::new("logs".to_string(), None, 360);
    assert_eq!(worker.period_micros, 2_000_000);
    let mut periods = vec![];
    for _ in 0..5 {
        worker.batch_done(Fire::BatchFull);
        periods.push(worker.period_micros);
    }
    // 2 s times 1.2 to the fifth is 4.97664 s
    assert_eq!(periods, vec![2_400_000, 2_880_000, 3_456_000, 4_147_200, 4_976_640]);
    let mut periods = vec![];
    for _ in 0..5 {
        worker.batch_done(Fire::PeriodElapsed);
        periods.push(worker.period_micros);
    }
    assert_eq!(periods, vec![3_981_312, 3_185_049, 2_548_039, 2_038_431, 2_000_000]);
    for _ in 0..20 {
        worker.batch_done(Fire::BatchFull);
    }
    assert_eq!(worker.period_micros, 30_000_000);
    worker.period_micros = u64::MAX;
    worker.batch_done(Fire::BatchFull);
    assert_eq!(worker.period_micros, 30_000_000);
    worker.period_micros = u64::MAX;
    worker.batch_done(Fire::PeriodElapsed);
    assert_eq!(worker.period_micros, (u64::MAX as u128 * 4 / 5) as u64);
}

#[test]
fn elasticsearch_when_a_batch_is_sent() {
    let worker = ElasticsearchWorker::new("logs".to_string(), None, 360);
    assert_eq!(worker.should_fire(8192, 0), Some(Fire::BatchFull));
    assert_eq!(worker.should_fire(9000, 5_000_000), Some(Fire::BatchFull));
    assert_eq!(worker.should_fire(8191, 2_000_001), Some(Fire::PeriodElapsed));
    assert_eq!(worker.should_fire(8191, 2_000_000), None);
    assert_eq!(worker.should_fire(0, 0), None);
}

#[test]
fn elasticsearch_retries() {
    let mut worker = ElasticsearchWorker::new("logs".to_string(), None, 360);
    assert_eq!(worker.retry_seconds(), 5);
    assert_eq!(
        worker.run_ended(false),
        WorkerStep { alert_failing: false, shut_down: false, wait_seconds: 5 }
    );
    let mut steps = vec![];
    for _ in 0..101 {
        steps.push(worker.run_ended(true));
    }
    assert_eq!(steps[0], WorkerStep { alert_failing: false, shut_down: false, wait_seconds: 5 });
    assert_eq!(steps[1].wait_seconds, 10);
    assert_eq!(steps[4], WorkerStep { alert_failing: false, shut_down: false, wait_seconds: 25 });
    // the sixth failure in a row is reported, and only that one
    assert_eq!(steps[5], WorkerStep { alert_failing: true, shut_down: false, wait_seconds: 30 });
    assert_eq!(steps[6], WorkerStep { alert_failing: false, shut_down: false, wait_seconds: 35 });
    assert_eq!(steps[71].wait_seconds, 360);
    assert_eq!(steps[80].wait_seconds, 360);
    assert!(!steps[99].shut_down);
    assert!(steps[100].shut_down);
    assert_eq!(steps.iter().filter(|s| s.alert_failing).count(), 1);
    // a batch that is accepted forgets the failures, not the report
    worker.batch_done(Fire::BatchFull);
    assert_eq!(worker.retries, 0);
    assert!(worker.has_sent_failed);
    worker.max_retry_seconds = 3;
    assert_eq!(worker.retry_seconds(), 3);
    worker.retries = u64::MAX - 1;
    worker.max_retry_seconds = u64::MAX;
    assert_eq!(worker.retry_seconds(), u64::MAX);
}

fn message(channel: &str, username: Usernames, text: &str) -> SimpleMessage {
    SimpleMessage {
        id: None,
        channel: channel.to_string(),
        timestamp: at(1628037852616),
        username,
        text: text.to_string(),
    }
}

#[test]
fn elasticsearch_documents() {
    let worker = ElasticsearchWorker::new("logs".to_string(), None, 360);
    let doc = worker.document(&message(" xqcow", Usernames::Normal(" SomeOne ".to_string()), " hi "));
    assert_eq!(
        doc,
        BulkDocument {
            index: "logs-2021-08".to_string(),
            id: Some("Xqcow-someone-2021-08-04T00:44:12.616Z".to_string()),
            channel: "Xqcow".to_string(),
            username: "someone".to_string(),
            text: "hi".to_string(),
            ts: "2021-08-04T00:44:12.616Z".to_string(),
        }
    );
    let docs = worker.process(&vec![
        message("a", Usernames::Bits, "x"),
        message("b", Usernames::Moderation, "y"),
    ]);
    assert_eq!(docs.len(), 2);
    assert_eq!(docs[0].username, "@bits");
    assert_eq!(docs[1].id, Some("B-@moderation-2021-08-04T00:44:12.616Z".to_string()));
    assert_eq!(index_for("logs", &at(-1)), "logs-1969-12");
    assert_eq!(template_name("logs"), "logs-template");
    assert_eq!(index_pattern("logs"), "logs-*");
    assert_eq!(index_name_prefix("logs"), "logs-");
    assert_eq!(
        create_elasticsearch_client("http://localhost", 9200).unwrap().url,
        "http://localhost:9200"
    );
    assert_eq!(create_elasticsearch_client("h", 0).unwrap().url, "h:0");
    assert_eq!(
        create_elasticsearch_client_from_url("https://es.example:9200/x".to_string()).unwrap().url,
        "https://es.example:9200/x"
    );
    assert_eq!(
        create_elasticsearch_client("http://localhost", 4_000_000_000),
        Err(ClientError::InvalidUrl)
    );
    assert_eq!(create_elasticsearch_client_from_url("u".to_string()), Err(ClientError::InvalidUrl));
    assert_eq!(create_elasticsearch_client_from_url("".to_string()), Err(ClientError::InvalidUrl));
    assert_eq!(
        create_elasticsearch_client_from_url("http://[::1".to_string()),
        Err(ClientError::InvalidUrl)
    );
    let client = ElasticsearchClient { url: "x".to_string() };
    assert_eq!(client_of("x".to_string(), true), Ok(client));
    assert_eq!(client_of("x".to_string(), false), Err(ClientError::InvalidUrl));
    assert_eq!(ClientError::InvalidUrl.message(), "Building elasticsearch url failed");
}

#[test]
fn elasticsearch_answers() {
    assert_eq!(check_bulk_response(None, false, None), Ok(()));
    assert_eq!(check_bulk_response(None, false, Some("ignored".to_string())), Ok(()));
    let refused = check_bulk_response(Some("too large".to_string()), true, Some("x".to_string()));
    assert_eq!(refused, Err(BulkError::Request("too large".to_string())));
    assert_eq!(
        refused.unwrap_err().message(),
        "Bulk request failed for request-level error: 'too large'"
    );
    let first = check_bulk_response(None, true, Some("mapping".to_string()));
    assert_eq!(first, Err(BulkError::FirstItem("mapping".to_string())));
    assert_eq!(first.unwrap_err().message(), "Bulk request failed, first error reason: 'mapping'");
    let some = check_bulk_response(None, true, None);
    assert_eq!(some, Err(BulkError::SomeItem));
    assert_eq!(
        some.unwrap_err().message(),
        "Some of bulk request failed, first document seems to have succeeded though."
    );
}

fn record(id: &str, ms: i64) -> OrlLog1_0 {
    OrlLog1_0 {
        key: CommonKey { id: id.to_string(), timestamp: ms },
        username: "someone".to_string(),
        channel_name: "Xqcow".to_string(),
        text: "hi".to_string(),
    }
}

#[test]
fn bulk_sinks() {
    assert_eq!(
        ElasticsearchBulkSink::new("no url".to_string(), "logs".to_string(), None),
        Err(ClientError::InvalidUrl)
    );
    let sink =
        ElasticsearchBulkSink::new("http://es".to_string(), "logs".to_string(), None).unwrap();
    assert_eq!(sink.client.url, "http://es");
    assert_eq!(sink.opts.index_base_name, "logs");
    let mut body = vec![];
    assert!(sink.add_log_to_payload(&mut body, record("the-id", 1628037852616)));
    assert!(!sink.add_log_to_payload(&mut body, record("never", i64::MAX)));
    assert_eq!(
        body,
        vec![BulkDocument {
            index: "logs-2021-08".to_string(),
            id: Some("Xqcow-someone-2021-08-04T00:44:12.616Z".to_string()),
            channel: "Xqcow".to_string(),
            username: "someone".to_string(),
            text: "hi".to_string(),
            ts: "2021-08-04T00:44:12.616Z".to_string(),
        }]
    );
    let sink = ClickhouseBulkSink::new("http://ch".to_string()).unwrap();
    assert_eq!(sink.client.url, "http://ch");
    assert_eq!(sink.opts.url, "http://ch");
    assert_eq!(sink.opts.table_name, "orl_messages");
    let row = map_log(record("the-id", 5));
    assert_eq!((row.ts, row.channel.as_str(), row.username.as_str(), row.text.as_str()), (5, "Xqcow", "someone", "hi"));
    let rows = ClickhouseBulkBatch { logs: vec![record("a", 1), record("b", 2), record("c", 3)] }.rows();
    assert_eq!(rows.iter().map(|r| r.ts).collect::<Vec<_>>(), vec![1, 2, 3]);
}

fn log(channel: &str, username: &str, text: &str, ms: i64) -> OrlLog<Raw> {
    OrlLog {
        ts: at(ms),
        username: username.to_string(),
        text: text.to_string(),
        channel: channel.to_string(),
        _s: PhantomData::<Raw>,
    }
}

#[test]
fn sqlite_rows() {
    let row = unified_row(&log(" a_seagull", "MegaBlade136", " !commands\n", 1628037852616));
    assert_eq!(row.kind, "orl-log/1.0");
    assert_eq!(row.id, "1628037852616-0b4d0a73-68db89c6-a547ee6e");
    assert_eq!(row.timestamp, 1628037852616);
    assert_eq!(row.username, "megablade136");
    assert_eq!(row.channel_name, "A_seagull");
    assert_eq!(row.text, "!commands");
    let rows = submit_orl_message_batch(&vec![log("a", "b", "c", 1), log("d", "e", "f", 2)]);
    assert_eq!(rows.iter().map(|r| r.timestamp).collect::<Vec<_>>(), vec![1, 2]);
}

#[test]
fn jsonl_groups() {
    let day = 86_400_000;
    let ctx = JsonLinesSinkContext::new("out".to_string());
    let logs = vec![
        log("A", "u", "1", 0),
        log("B", "u", "2", 5),
        log("A", "u", "3", day + 1),
        log("A", "u", "4", day - 1),
        log("B", "u", "5", 6),
        log("a", "u", "6", 7),
    ];
    let groups = group_logs(JsonInputBatch::new(&ctx, logs));
    let seen: Vec<(String, String, Vec<String>)> = groups
        .iter()
        .map(|g| {
            let (dir, file) = g.get_path();
            (dir, file, g.logs.iter().map(|l| l.text.clone()).collect())
        })
        .collect();
    let expect = |dir: &str, file: &str, texts: &[&str]| {
        (dir.to_string(), file.to_string(), texts.iter().map(|t| t.to_string()).collect::<Vec<_>>())
    };
    assert_eq!(
        seen,
        vec![
            expect("A", "1970-01-01.jsonl", &["1", "4"]),
            expect("B", "1970-01-01.jsonl", &["2", "5"]),
            expect("A", "1970-01-02.jsonl", &["3"]),
            expect("a", "1970-01-01.jsonl", &["6"]),
        ]
    );
    assert!(groups.iter().all(|g| g.ctx.root_dir == "out"));
    let records = groups[0].records();
    assert_eq!(records.len(), 2);
    match &records[1] {
        UnifiedMessageLog::OrlLog1_0(r) => {
            assert_eq!(r.key.timestamp, day - 1);
            assert_eq!(r.channel_name, "A");
            assert_eq!(r.username, "u");
            assert_eq!(r.text, "4");
            assert_eq!(r.key.id, groups[0].logs[1].normalize().get_id());
        }
        other => panic!("{other:?}"),
    }
    assert!(group_logs(JsonInputBatch::new(&ctx, vec![])).is_empty());
}

#[test]
fn jsonl_files() {
    assert_eq!(JsonFileSource::new("in".to_string()).ctx.root_dir, "in");
    for (name, is_one, packed) in [
        ("2021-08-04.jsonl", true, Compression::Plain),
        ("2021-08-04.jsonl.gz", true, Compression::Gzip),
        ("2021-08-04.jsonl.zst", true, Compression::Zstd),
        ("2021-08-04.jsonl.br", true, Compression::Brotli),
        ("2021-08-04.txt", false, Compression::Plain),
        ("2021-08-04.json", false, Compression::Plain),
        ("dir.gz/2021-08-04", false, Compression::Plain),
    ] {
        assert_eq!(JsonFileSource::is_jsonl_file(name), is_one, "{name}");
        assert_eq!(JsonFileSource::compression(name), packed, "{name}");
    }
}

#[test]
fn file_sink_lines() {
    let msg = message(" xqcow ", Usernames::Normal(" SomeOne ".to_string()), "  hello there ");
    let line = file_line(&msg);
    assert_eq!(line.channel, "Xqcow");
    assert_eq!(line.file_name, "2021-08-04.txt");
    assert_eq!(line.line, "[2021-08-04 00:44:12.616 UTC] someone: hello there");
    assert_eq!(file_line(&message("a", Usernames::Raid, "r")).line, "[2021-08-04 00:44:12.616 UTC] @raid: r");
    assert_eq!(format_line(&at(0), "u", "t"), "[1970-01-01 00:00:00.000 UTC] u: t");
    assert_eq!(
        ConsoleWriter::format_message(&msg),
        "[2021-08-04 00:44:12.616 UTC] [ xqcow ] SomeOne:   hello there "
    );
    let _ = ConsoleWriter::new();
    assert_eq!(name_style(&Usernames::Normal("a".to_string())), NameStyle::BrightBlue);
    assert_eq!(name_style(&Usernames::System), NameStyle::BrightYellow);
    assert_eq!(name_style(&Usernames::Bits), NameStyle::Bold);
    assert_eq!(name_style(&Usernames::Subscriber), NameStyle::BrightGreen);
    assert_eq!(name_style(&Usernames::GiftSub), NameStyle::BrightMagenta);
    assert_eq!(name_style(&Usernames::Raid), NameStyle::BrightCyan);
    assert_eq!(name_style(&Usernames::Host), NameStyle::BrightCyan);
    assert_eq!(name_style(&Usernames::Moderation), NameStyle::BrightRed);
}

#[test]
fn a_written_line_reads_the_same() {
    for input in [
        "[2021-08-03 17:40:27.313 UTC] jOhNpYp: Example message",
        "[  2021-08-03 17:40:27 UTC  ]   TeSt Cat  :   Example message   ",
        "[2021-08-03 17:40:27 UTC] test cat: Example message\nfollowing",
        "[2021-08-03 17:40:27 UTC] user:",
        "[0000-1-1 0:0:0]:",
        "[9999-12-31 23:59:59.999] a]b: c: d [e]",
    ] {
        let first = parse_message_line(input).unwrap();
        let written = format_line(&first.ts, &first.username, &first.text);
        assert_eq!(parse_message_line(&written), Ok(first), "{input:?}");
    }
    // a year of five digits is written with a sign, which is not read
    let late = parse_message_line("[10000-01-01 00:00:00] a: b").unwrap();
    let written = format_line(&late.ts, &late.username, &late.text);
    assert_eq!(written, "[+10000-01-01 00:00:00.000 UTC] a: b");
    assert!(parse_message_line(&written).is_err());
}

#[test]
fn file_sink_queue() {
    let mut queue = QueuedAppender::new("Xqcow".to_string(), 3, 5);
    assert_eq!(queue.queue_len(), 0);
    assert!(!queue.time_ready(4));
    assert!(queue.time_ready(5));
    assert!(queue.flush().is_empty());
    assert!(!queue.write("day1".to_string(), "a".to_string(), 0));
    assert!(!queue.write("day2".to_string(), "b".to_string(), 4));
    assert_eq!(queue.queue_len(), 2);
    // the third line fills the queue
    assert!(queue.write("day1".to_string(), "c".to_string(), 4));
    assert_eq!(
        queue.flush(),
        vec![
            FileAppend { path: "day1".to_string(), content: "a\nc\n".to_string() },
            FileAppend { path: "day2".to_string(), content: "b\n".to_string() },
        ]
    );
    queue.flushed();
    assert_eq!(queue.queue_len(), 0);
    assert!(queue.flush().is_empty());
    // time alone is enough
    assert!(queue.write("day1".to_string(), "d".to_string(), 5));
    assert_eq!(join_lines(&vec![]), "");
    assert_eq!(join_lines(&vec!["x".to_string(), "".to_string()]), "x\n\n");
}

#[test]
fn console_metrics() {
    let mut worker = ConsoleMetricsWorker::new();
    for _ in 0..44 {
        assert_eq!(worker.on_message(30_000), None);
    }
    assert_eq!(
        worker.on_message(30_001),
        Some(MetricsReport { count: 45, per_minute: 90, seconds: 30 })
    );
    assert_eq!(worker.count, 0);
    assert_eq!(worker.on_message(0), None);
    assert_eq!(worker.count, 1);
}

#[test]
fn alerts() {
    let error = Alert::error("it broke");
    assert_eq!(error, Alert::new(AlertType::Error, "it broke".to_string()));
    let body = error.body(&Some("1234".to_string()));
    assert_eq!(body.content, "<@1234>");
    assert_eq!(
        body.embed,
        Some(AlertEmbed {
            title: "ERROR".to_string(),
            description: "it broke".to_string(),
            color: 0xff0000,
        })
    );
    assert_eq!(error.body(&None).content, "");
    let info = Alert::info("Starting TL2").body(&Some("1234".to_string()));
    assert_eq!(info.content, "**INFO** Starting TL2");
    assert_eq!(info.embed, None);
    let mut config = DiscordAlertingSettings {
        enabled: true,
        webhook_url: Some("http://hook".to_string()),
        owner: None,
    };
    assert_eq!(alert_target(&config), Some("http://hook".to_string()));
    config.enabled = false;
    assert_eq!(alert_target(&config), None);
    config.enabled = true;
    config.webhook_url = None;
    assert_eq!(alert_target(&config), None);
}

#[test]
fn batch_pipelines() {
    assert_eq!(count_setting(&None, 16), Some(16));
    assert_eq!(count_setting(&Some("24".to_string()), 16), Some(24));
    assert_eq!(count_setting(&Some("many".to_string()), 16), None);
    assert_eq!(count_setting(&Some("".to_string()), 16), None);
    assert_eq!(chunk_size(25, 10), 2);
    assert_eq!(chunk_size(5, 10), 1);
    assert_eq!(chunk_size(0, 10), 1);
    assert_eq!(chunk_size(100, 1), 100);
    let clean = log("a_seagull", "MegaBlade136", "!commands", 1628037852616).normalize();
    let row = orl_log_to_message(clean.clone());
    assert_eq!((row.ts, row.channel.as_str(), row.username.as_str(), row.text.as_str()), (1628037852616, "A_seagull", "megablade136", "!commands"));
    let doc = elastic_document(clean.clone(), "logs");
    assert_eq!(doc.index, "logs-2021-08");
    assert_eq!(doc.id, Some("A_seagull-megablade136-2021-08-04T00:44:12.616Z".to_string()));
    assert_eq!(doc.ts, "2021-08-04T00:44:12.616Z");
    assert_eq!(write_elastic_chunk(&vec![clean.clone(), clean], "logs").len(), 2);
}
