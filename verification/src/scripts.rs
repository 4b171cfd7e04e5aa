//! The batch pipelines: what they are configured with and how they turn
//! records into what the stores take.

use crate::adapters::clickhouse::messages_table::ClickhouseOrlMessage;
use crate::adapters::elasticsearch::document_id;
use crate::adapters::elasticsearch::index_for;
use crate::adapters::elasticsearch::monthly_index;
use crate::adapters::elasticsearch::BulkDocument;
use crate::formats::orl::Clean;
use crate::formats::orl::OrlLog;
use crate::formats::orl::OrlLogView;
use crate::text::parse_u64;
use crate::text::parsed_unsigned;
use crate::text::push_text;
use crate::time::rfc3339_text;
use vstd::prelude::*;

verus! {

/// How many workers index side by side, unless told otherwise.
pub const DEFAULT_WORKER_COUNT: usize = 16;

/// How many records go into one bulk request, unless told otherwise.
pub const DEFAULT_ELASTIC_STREAM_CHUNK_SIZE: usize = 2000;

/// How many files are handed to a worker at once.
pub const FILES_PER_CHUNK: usize = 10;

/// How many inserters write to ClickHouse side by side.
pub const CLICKHOUSE_INSERTERS: usize = 10;

/// How many rows an inserter keeps before it sends them.
pub const CLICKHOUSE_MAX_ENTRIES: u64 = 32000;

/// How many records are read before they are written.
pub const STREAM_CHUNK_SIZE: usize = 1000000;

/// How many records go to SQLite in one transaction.
pub const SQLITE_CHUNK_SIZE: usize = 100000;

/// After how many records the console pipeline reports.
pub const REPORT_EVERY: u64 = 1000000;

/// The number that a setting of the environment names: the default where
/// it is not set, and none where what is set is no number.
pub fn count_setting(value: &Option<String>, default: usize) -> (r: Option<usize>)
    ensures
        r == match *value {
            None => Some(default),
            Some(text) => match parsed_unsigned(text@, u64::MAX as nat) {
                Some(n) => if n <= usize::MAX {
                    Some(n as usize)
                } else {
                    None
                },
                None => None,
            },
        },
{
    match value {
        None => Some(default),
        Some(text) => match parse_u64(text.as_str()) {
            Some(n) => if n <= usize::MAX as u64 {
                Some(n as usize)
            } else {
                None
            },
            None => None,
        },
    }
}

/// How many messages go to each of `inserter_count` inserters when
/// `message_count` are shared out: an equal share, and at least one.
pub fn chunk_size(message_count: usize, inserter_count: usize) -> (r: usize)
    requires
        inserter_count > 0,
    ensures
        r == if message_count / inserter_count >= 1 {
            message_count / inserter_count
        } else {
            1
        },
{
    let share = message_count / inserter_count;
    if share >= 1 {
        share
    } else {
        1
    }
}

/// The row of a record.
pub fn orl_log_to_message(orl_log: OrlLog<Clean>) -> (row: ClickhouseOrlMessage)
    ensures
        row.ts == orl_log.ts.millis(),
        row.text@ == orl_log.text@,
        row.channel@ == orl_log.channel@,
        row.username@ == orl_log.username@,
{
    ClickhouseOrlMessage {
        ts: orl_log.ts.timestamp_millis(),
        text: orl_log.text,
        channel: orl_log.channel,
        username: orl_log.username,
    }
}

/// What the document of a clean record must be: it goes to the index of
/// its month, under the id made of channel, user name and time.
pub open spec fn document_of(base: Seq<char>, log: OrlLogView, doc: BulkDocument) -> bool {
    &&& doc.index@ == monthly_index(base, log.ts.date())
    &&& doc.id matches Some(id) && id@ == document_id(log.channel, log.username, log.ts.date())
    &&& doc.channel@ == log.channel
    &&& doc.username@ == log.username
    &&& doc.text@ == log.text
    &&& doc.ts@ == rfc3339_text(log.ts.date())
}

/// The document of a clean record.
pub fn elastic_document(msg: OrlLog<Clean>, index: &str) -> (doc: BulkDocument)
    ensures
        document_of(index@, msg@, doc),
{
    let ts = msg.ts.to_rfc3339_millis();
    let index_with_date = index_for(index, &msg.ts);
    proof {
        reveal_strlit("-");
        assert("-"@ =~= seq!['-']);
    }
    let mut id = String::new();
    push_text(&mut id, msg.channel.as_str());
    push_text(&mut id, "-");
    push_text(&mut id, msg.username.as_str());
    push_text(&mut id, "-");
    push_text(&mut id, ts.as_str());
    BulkDocument {
        index: index_with_date,
        id: Some(id),
        channel: msg.channel,
        username: msg.username,
        text: msg.text,
        ts,
    }
}

/// The documents of a chunk of clean records: one for each, in order.
pub fn write_elastic_chunk(chunk: &Vec<OrlLog<Clean>>, index: &str) -> (docs: Vec<BulkDocument>)
    ensures
        docs.len() == chunk.len(),
        forall|i: int| 0 <= i < chunk.len() ==> document_of(index@, chunk[i]@, #[trigger] docs[i]),
{
    let mut docs: Vec<BulkDocument> = Vec::new();
    let mut i: usize = 0;
    while i < chunk.len()
        invariant
            i <= chunk.len(),
            docs.len() == i,
            forall|k: int| 0 <= k < i ==> document_of(index@, chunk[k]@, #[trigger] docs[k]),
        decreases chunk.len() - i,
    {
        let doc = elastic_document(chunk[i].clone(), index);
        docs.push(doc);
        i += 1;
    }
    docs
}

} // verus!
