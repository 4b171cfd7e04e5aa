//! The Elasticsearch sink: when a batch is sent, how the flush period
//! adapts, what is sent for a message, when the worker retries and when it
//! gives up. The caller owns the connection and the clock.

use crate::error::ClientError;
use crate::events::SimpleMessage;
use crate::events::SimpleMessageView;
use crate::text::decimal_fixed;
use crate::text::decimal_spec;
use crate::text::push_decimal;
use crate::text::push_text;
use crate::time::rfc3339_text;
use crate::time::year_text;
use crate::time::OrlDate;
use crate::time::Timestamp;
use vstd::prelude::*;

verus! {

/// The wait after the first failure, in seconds; the n-th failure waits n
/// times as long.
pub const BASE_RETRY_SECONDS: u64 = 5;

/// The shortest flush period, in microseconds: two seconds.
pub const MIN_PERIOD_MICROS: u64 = 2_000_000;

/// The longest flush period, in microseconds: thirty seconds.
pub const MAX_PERIOD_MICROS: u64 = 30_000_000;

/// The largest number of messages in one bulk request.
pub const MAX_BATCH_SIZE: usize = 8192;

/// After this many failures in a row an alert is sent, once.
pub const ALERT_AFTER_RETRIES: u64 = 5;

/// After this many failures in a row the worker stops.
pub const STOP_AFTER_RETRIES: u64 = 100;

/// Where an Elasticsearch node is reached.
#[derive(Clone, Debug, PartialEq, Eq)]
pub struct ElasticsearchClient {
    pub url: String,
}

/// Whether `reqwest::Url::parse` reads the text as a URL.
pub uninterp spec fn is_url(text: Seq<char>) -> bool;

/// `reqwest::Url::parse`: whether it reads the text as a URL, which
/// depends on the text alone.
#[verifier::external_body]
fn parses_as_url(text: &str) -> (ok: bool)
    ensures
        ok == is_url(text@),
{
    reqwest::Url::parse(text).is_ok()
}

/// The client for the node at `url`, where `valid` says whether `url` is
/// one; else the error.
pub fn client_of(url: String, valid: bool) -> (r: Result<ElasticsearchClient, ClientError>)
    ensures
        r == if valid {
            Ok::<ElasticsearchClient, ClientError>(ElasticsearchClient { url })
        } else {
            Err::<ElasticsearchClient, ClientError>(ClientError::InvalidUrl)
        },
{
    if valid {
        Ok(ElasticsearchClient { url })
    } else {
        Err(ClientError::InvalidUrl)
    }
}

/// The text `<host>:<port>`.
pub open spec fn node_url(host: Seq<char>, port: nat) -> Seq<char> {
    host + seq![':'] + decimal_spec(port)
}

/// The client for the node at `host` and `port`; an error where
/// `<host>:<port>` is no URL.
pub fn create_elasticsearch_client(host: &str, port: u32) -> (r: Result<
    ElasticsearchClient,
    ClientError,
>)
    ensures
        r is Ok <==> is_url(node_url(host@, port as nat)),
        r matches Ok(client) ==> client.url@ == node_url(host@, port as nat),
        r matches Err(e) ==> e == ClientError::InvalidUrl,
{
    let mut url = String::new();
    push_text(&mut url, host);
    proof {
        reveal_strlit(":");
        assert(":"@ =~= seq![':']);
    }
    push_text(&mut url, ":");
    push_decimal(&mut url, port as u64);
    create_elasticsearch_client_from_url(url)
}

/// The client for the node at `url`; an error where `url` is no URL.
pub fn create_elasticsearch_client_from_url(url: String) -> (r: Result<
    ElasticsearchClient,
    ClientError,
>)
    ensures
        r is Ok <==> is_url(url@),
        r matches Ok(client) ==> client.url == url,
        r matches Err(e) ==> e == ClientError::InvalidUrl,
{
    let valid = parses_as_url(url.as_str());
    client_of(url, valid)
}

/// Why a batch is sent.
#[derive(Clone, Copy, Debug, PartialEq, Eq, Structural)]
pub enum Fire {
    /// The batch is full.
    BatchFull,
    /// The flush period is over.
    PeriodElapsed,
}

/// Whether a batch of `batch_len` messages is sent, `elapsed_micros` after
/// the last one: a full batch is, and so is any batch once more than the
/// period has gone by.
pub open spec fn fire_spec(batch_len: nat, elapsed_micros: nat, period_micros: nat) -> Option<
    Fire,
> {
    if batch_len >= MAX_BATCH_SIZE {
        Some(Fire::BatchFull)
    } else if elapsed_micros > period_micros {
        Some(Fire::PeriodElapsed)
    } else {
        None
    }
}

/// The period after a batch was sent: a fifth longer, up to the longest,
/// when the batch was full; a fifth shorter, down to the shortest, when the
/// period was over first. Periods are whole microseconds, and each step
/// rounds down to one: from the shortest period, the first six steps up
/// are exact, and later ones may fall short of the exact product by less
/// than a microsecond each.
pub open spec fn adapted_period(period_micros: nat, fire: Fire) -> nat {
    match fire {
        Fire::BatchFull => if period_micros * 6 / 5 > MAX_PERIOD_MICROS {
            MAX_PERIOD_MICROS as nat
        } else {
            period_micros * 6 / 5
        },
        Fire::PeriodElapsed => if period_micros * 4 / 5 < MIN_PERIOD_MICROS {
            MIN_PERIOD_MICROS as nat
        } else {
            period_micros * 4 / 5
        },
    }
}

/// The seconds to wait before the writer is started again after `retries`
/// failures in a row: five for each, at least five, at most the maximum.
pub open spec fn retry_seconds_spec(retries: nat, max_retry_seconds: nat) -> nat {
    let grown = if retries == 0 {
        BASE_RETRY_SECONDS as nat
    } else {
        BASE_RETRY_SECONDS as nat * retries
    };
    if grown < max_retry_seconds {
        grown
    } else {
        max_retry_seconds
    }
}

/// What the worker does after a run of its writer has ended.
#[derive(Clone, Copy, Debug, PartialEq, Eq, Structural)]
pub struct WorkerStep {
    /// Report that the sink is failing.
    pub alert_failing: bool,
    /// Report that the sink shuts down, and stop.
    pub shut_down: bool,
    /// Else wait this many seconds and start the writer again.
    pub wait_seconds: u64,
}

/// What the worker keeps between runs of its writer.
#[derive(Clone, Debug, PartialEq, Eq)]
pub struct ElasticsearchWorker {
    pub index: String,
    pub pipeline: Option<String>,
    pub period_micros: u64,
    pub retries: u64,
    pub max_retry_seconds: u64,
    pub has_sent_failed: bool,
}

/// One document of a bulk request and where it goes.
#[derive(Clone, Debug, PartialEq, Eq)]
pub struct BulkDocument {
    pub index: String,
    pub id: Option<String>,
    pub channel: String,
    pub username: String,
    pub text: String,
    pub ts: String,
}

/// `YYYY-MM`, the month of a date.
pub open spec fn month_text(d: OrlDate) -> Seq<char> {
    year_text(d.year as int) + seq!['-'] + decimal_fixed(d.month as nat, 2)
}

/// The index of the month of `d`: the base name, `-`, and the month.
pub open spec fn monthly_index(base: Seq<char>, d: OrlDate) -> Seq<char> {
    base + seq!['-'] + month_text(d)
}

/// The id of the document of a message: channel, user name and time,
/// joined by `-`. Sending the same message again overwrites it.
pub open spec fn document_id(channel: Seq<char>, username: Seq<char>, d: OrlDate) -> Seq<char> {
    channel + seq!['-'] + username + seq!['-'] + rfc3339_text(d)
}

/// What is sent for a message to the index family `base`: the message,
/// normalized, in the index of its month and under its id.
pub open spec fn document_of(base: Seq<char>, m: SimpleMessageView, doc: BulkDocument) -> bool {
    let n = m.normalized();
    &&& doc.index@ == monthly_index(base, m.timestamp.date())
    &&& doc.id matches Some(id) && id@ == document_id(
        n.channel,
        n.username.text(),
        m.timestamp.date(),
    )
    &&& doc.channel@ == n.channel
    &&& doc.username@ == n.username.text()
    &&& doc.text@ == n.text
    &&& doc.ts@ == rfc3339_text(m.timestamp.date())
}

/// The name of the template of the indices of `index`: `<index>-template`.
pub fn template_name(index: &str) -> (r: String)
    ensures
        r@ == index@ + "-template"@,
{
    let mut r = String::new();
    push_text(&mut r, index);
    push_text(&mut r, "-template");
    r
}

/// The pattern that the indices of `index` match: `<index>-*`.
pub fn index_pattern(index: &str) -> (r: String)
    ensures
        r@ == index@ + "-*"@,
{
    let mut r = String::new();
    push_text(&mut r, index);
    push_text(&mut r, "-*");
    r
}

/// What the name of a monthly index starts with: `<index>-`.
pub fn index_name_prefix(index: &str) -> (r: String)
    ensures
        r@ == index@ + "-"@,
{
    let mut r = String::new();
    push_text(&mut r, index);
    push_text(&mut r, "-");
    r
}

/// Why a bulk request is counted as failed.
#[derive(Clone, Debug, PartialEq, Eq)]
pub enum BulkError {
    /// The request as a whole was refused, with this reason.
    Request(String),
    /// The first document was refused, with this reason.
    FirstItem(String),
    /// Some document was refused, but not the first.
    SomeItem,
}

impl BulkError {
    /// A sentence for the log.
    pub fn message(&self) -> (r: String)
        ensures
            r@ == match *self {
                BulkError::Request(reason) => "Bulk request failed for request-level error: '"@
                    + reason@ + "'"@,
                BulkError::FirstItem(reason) => "Bulk request failed, first error reason: '"@
                    + reason@ + "'"@,
                BulkError::SomeItem =>
                    "Some of bulk request failed, first document seems to have succeeded though."@,
            },
    {
        match self {
            BulkError::Request(reason) => {
                let mut r = String::new();
                push_text(&mut r, "Bulk request failed for request-level error: '");
                push_text(&mut r, reason.as_str());
                push_text(&mut r, "'");
                r
            },
            BulkError::FirstItem(reason) => {
                let mut r = String::new();
                push_text(&mut r, "Bulk request failed, first error reason: '");
                push_text(&mut r, reason.as_str());
                push_text(&mut r, "'");
                r
            },
            BulkError::SomeItem =>
                "Some of bulk request failed, first document seems to have succeeded though.".to_owned(),
        }
    }
}

/// Judges the answer to a bulk request from what it holds: the reason of a
/// request-level error, the `errors` flag, and the reason given for the
/// first document. Any of them fails the whole batch.
pub fn check_bulk_response(
    request_error: Option<String>,
    has_errors: bool,
    first_reason: Option<String>,
) -> (r: Result<(), BulkError>)
    ensures
        r is Ok <==> request_error is None && !has_errors,
        request_error matches Some(reason) ==> r == Err::<(), BulkError>(
            BulkError::Request(reason),
        ),
        request_error is None && has_errors ==> r == Err::<(), BulkError>(
            match first_reason {
                Some(reason) => BulkError::FirstItem(reason),
                None => BulkError::SomeItem,
            },
        ),
{
    match request_error {
        Some(reason) => Err(BulkError::Request(reason)),
        None => {
            if has_errors {
                match first_reason {
                    Some(reason) => Err(BulkError::FirstItem(reason)),
                    None => Err(BulkError::SomeItem),
                }
            } else {
                Ok(())
            }
        },
    }
}

/// The index of the month of a time.
pub fn index_for(base: &str, ts: &Timestamp) -> (r: String)
    ensures
        r@ == monthly_index(base@, ts.date()),
{
    let day = ts.format_day();
    let v = crate::text::chars_of(day.as_str());
    let d = ts.civil();
    proof {
        crate::time::lemma_day_text_month(d);
    }
    let month = crate::text::string_of_range(&v, 0, v.len() - 3);
    let mut r = String::new();
    push_text(&mut r, base);
    proof {
        reveal_strlit("-");
        assert("-"@ =~= seq!['-']);
    }
    push_text(&mut r, "-");
    push_text(&mut r, month.as_str());
    r
}

impl ElasticsearchWorker {
    /// A worker that has not failed yet and flushes as often as it may.
    pub fn new(index: String, pipeline: Option<String>, max_retry_seconds: u64) -> (w: Self)
        ensures
            w.index == index,
            w.pipeline == pipeline,
            w.period_micros == MIN_PERIOD_MICROS,
            w.retries == 0,
            w.max_retry_seconds == max_retry_seconds,
            !w.has_sent_failed,
    {
        ElasticsearchWorker {
            index,
            pipeline,
            period_micros: MIN_PERIOD_MICROS,
            retries: 0,
            max_retry_seconds,
            has_sent_failed: false,
        }
    }

    /// Whether the batch is to be sent now, and why.
    pub fn should_fire(&self, batch_len: usize, elapsed_micros: u64) -> (r: Option<Fire>)
        ensures
            r == fire_spec(batch_len as nat, elapsed_micros as nat, self.period_micros as nat),
    {
        if batch_len >= MAX_BATCH_SIZE {
            Some(Fire::BatchFull)
        } else if elapsed_micros > self.period_micros {
            Some(Fire::PeriodElapsed)
        } else {
            None
        }
    }

    /// Called when a batch was sent and accepted: the failures are
    /// forgotten and the period adapts to why the batch was sent.
    pub fn batch_done(&mut self, fire: Fire)
        ensures
            final(self).retries == 0,
            final(self).period_micros == adapted_period(old(self).period_micros as nat, fire),
            old(self).period_micros <= MAX_PERIOD_MICROS ==> final(self).period_micros
                <= MAX_PERIOD_MICROS,
            old(self).period_micros >= MIN_PERIOD_MICROS ==> final(self).period_micros
                >= MIN_PERIOD_MICROS,
            final(self).index == old(self).index,
            final(self).pipeline == old(self).pipeline,
            final(self).max_retry_seconds == old(self).max_retry_seconds,
            final(self).has_sent_failed == old(self).has_sent_failed,
    {
        self.retries = 0;
        self.period_micros = match fire {
            Fire::BatchFull => match self.period_micros.checked_mul(6) {
                Some(product) => if product / 5 > MAX_PERIOD_MICROS {
                    MAX_PERIOD_MICROS
                } else {
                    product / 5
                },
                None => MAX_PERIOD_MICROS,
            },
            Fire::PeriodElapsed => {
                // a fifth less, without the product that could overflow
                let shrunk = self.period_micros - self.period_micros / 5 - (if self.period_micros
                    % 5 == 0 {
                    0
                } else {
                    1
                });
                assert(shrunk == self.period_micros * 4 / 5);
                if shrunk < MIN_PERIOD_MICROS {
                    MIN_PERIOD_MICROS
                } else {
                    shrunk
                }
            },
        };
    }

    /// The seconds to wait before the writer is started again.
    pub fn retry_seconds(&self) -> (r: u64)
        ensures
            r == retry_seconds_spec(self.retries as nat, self.max_retry_seconds as nat),
    {
        let grown: u64 = match BASE_RETRY_SECONDS.checked_mul(self.retries) {
            Some(g) => if g < BASE_RETRY_SECONDS {
                BASE_RETRY_SECONDS
            } else {
                g
            },
            None => u64::MAX,
        };
        if grown < self.max_retry_seconds {
            grown
        } else {
            self.max_retry_seconds
        }
    }

    /// Called when a run of the writer has ended, with or without an
    /// error. A failure is counted; past five in a row the failing is
    /// reported, once; past a hundred the worker shuts down; else it waits
    /// and starts the writer again.
    pub fn run_ended(&mut self, failed: bool) -> (step: WorkerStep)
        requires
            old(self).retries < u64::MAX,
        ensures
            final(self).retries == old(self).retries + if failed {
                1int
            } else {
                0int
            },
            step.alert_failing == (final(self).retries > ALERT_AFTER_RETRIES && !old(
                self,
            ).has_sent_failed),
            final(self).has_sent_failed == (old(self).has_sent_failed || step.alert_failing),
            step.shut_down == (final(self).retries > STOP_AFTER_RETRIES),
            step.wait_seconds == retry_seconds_spec(
                final(self).retries as nat,
                old(self).max_retry_seconds as nat,
            ),
            final(self).index == old(self).index,
            final(self).pipeline == old(self).pipeline,
            final(self).period_micros == old(self).period_micros,
            final(self).max_retry_seconds == old(self).max_retry_seconds,
    {
        if failed {
            self.retries = self.retries + 1;
        }
        let alert_failing = self.retries > ALERT_AFTER_RETRIES && !self.has_sent_failed;
        if alert_failing {
            self.has_sent_failed = true;
        }
        let shut_down = self.retries > STOP_AFTER_RETRIES;
        WorkerStep { alert_failing, shut_down, wait_seconds: self.retry_seconds() }
    }

    /// What is sent for one message.
    pub fn document(&self, msg: &SimpleMessage) -> (doc: BulkDocument)
        ensures
            document_of(self.index@, msg@, doc),
    {
        let n = msg.normalize();
        let username = n.username.to_string();
        let ts = n.timestamp.to_rfc3339_millis();
        proof {
            reveal_strlit("-");
            assert("-"@ =~= seq!['-']);
            crate::events::lemma_normalized_name_text(msg@.username);
        }
        let mut id = String::new();
        push_text(&mut id, n.channel.as_str());
        push_text(&mut id, "-");
        push_text(&mut id, username.as_str());
        push_text(&mut id, "-");
        push_text(&mut id, ts.as_str());
        BulkDocument {
            index: index_for(self.index.as_str(), &msg.timestamp),
            id: Some(id),
            channel: n.channel,
            username,
            text: n.text,
            ts,
        }
    }

    /// What is sent for a batch: one document for each message, in order.
    pub fn process(&self, msgs: &Vec<SimpleMessage>) -> (docs: Vec<BulkDocument>)
        ensures
            docs.len() == msgs.len(),
            forall|i: int|
                0 <= i < msgs.len() ==> document_of(self.index@, msgs[i]@, #[trigger] docs[i]),
    {
        let mut docs: Vec<BulkDocument> = Vec::new();
        let mut i: usize = 0;
        while i < msgs.len()
            invariant
                i <= msgs.len(),
                docs.len() == i,
                forall|k: int|
                    0 <= k < i ==> document_of(self.index@, msgs[k]@, #[trigger] docs[k]),
            decreases msgs.len() - i,
        {
            let doc = self.document(&msgs[i]);
            docs.push(doc);
            i += 1;
        }
        docs
    }
}

} // verus!
