//! The ClickHouse sink of the batch pipelines: records become rows of the
//! table `orl_messages`, written by several inserters side by side.

use crate::adapters::clickhouse::messages_table::ClickhouseOrlMessage;
use crate::error::ClientError;
use crate::formats::unified::OrlLog1_0;
use vstd::prelude::*;

verus! {

/// How many inserters write side by side.
pub const WORKER_COUNT: usize = 10;

/// How many chunks may wait for an inserter.
pub const QUEUED_LIMIT: usize = 4;

/// How many records go to an inserter at once.
pub const STREAM_CHUNK_SIZE: usize = 32000;

/// How many rows an inserter keeps before it sends them.
pub const INSERTER_MAX_ENTRIES: u64 = 256000;

/// After how many seconds an inserter sends what it has.
pub const INSERTER_PERIOD_SECONDS: u64 = 10;

/// Where the rows go.
#[derive(Clone, Debug, PartialEq, Eq)]
pub struct ClickhouseBulkSinkOpts {
    pub table_name: String,
    pub url: String,
}

/// Where a ClickHouse server is reached.
#[derive(Clone, Debug, PartialEq, Eq)]
pub struct ClickhouseClient {
    pub url: String,
}

/// The sink.
#[derive(Clone, Debug, PartialEq, Eq)]
pub struct ClickhouseBulkSink {
    pub client: ClickhouseClient,
    pub opts: ClickhouseBulkSinkOpts,
}

/// Records that are written together.
#[derive(Clone, Debug, PartialEq, Eq)]
pub struct ClickhouseBulkBatch {
    pub logs: Vec<OrlLog1_0>,
}

/// What the row of a record must be.
pub open spec fn row_of(log: OrlLog1_0, row: ClickhouseOrlMessage) -> bool {
    &&& row.ts == log.key.timestamp
    &&& row.channel@ == log.channel_name@
    &&& row.username@ == log.username@
    &&& row.text@ == log.text@
}

impl ClickhouseBulkSink {
    /// The sink that writes to the table `orl_messages` of the server at
    /// `url`. The address is taken as it is, so there is always a sink.
    pub fn new(url: String) -> (r: Result<ClickhouseBulkSink, ClientError>)
        ensures
            r matches Ok(sink) && sink.client.url@ == url@ && sink.opts.url == url
                && sink.opts.table_name@ == "orl_messages"@,
    {
        let client = ClickhouseClient { url: url.clone() };
        let opts = ClickhouseBulkSinkOpts { url, table_name: "orl_messages".to_owned() };
        Ok(ClickhouseBulkSink { client, opts })
    }
}

/// The row of a record.
pub fn map_log(log: OrlLog1_0) -> (row: ClickhouseOrlMessage)
    ensures
        row_of(log, row),
{
    ClickhouseOrlMessage {
        ts: log.key.timestamp,
        channel: log.channel_name,
        username: log.username,
        text: log.text,
    }
}

impl ClickhouseBulkBatch {
    /// The rows of the batch: one for each record, in order.
    pub fn rows(self) -> (rows: Vec<ClickhouseOrlMessage>)
        ensures
            rows.len() == self.logs.len(),
            forall|i: int| 0 <= i < rows.len() ==> row_of(self.logs[i], #[trigger] rows[i]),
    {
        let mut rows: Vec<ClickhouseOrlMessage> = Vec::new();
        let mut i: usize = 0;
        while i < self.logs.len()
            invariant
                i <= self.logs.len(),
                rows.len() == i,
                forall|k: int| 0 <= k < i ==> row_of(self.logs[k], #[trigger] rows[k]),
            decreases self.logs.len() - i,
        {
            let log = &self.logs[i];
            rows.push(
                ClickhouseOrlMessage {
                    ts: log.key.timestamp,
                    channel: log.channel_name.clone(),
                    username: log.username.clone(),
                    text: log.text.clone(),
                },
            );
            i += 1;
        }
        rows
    }
}

} // verus!
