//! The Elasticsearch sink of the batch pipelines.

use crate::adapters::elasticsearch::create_elasticsearch_client_from_url;
use crate::adapters::elasticsearch::document_id;
use crate::adapters::elasticsearch::index_for;
use crate::adapters::elasticsearch::is_url;
use crate::adapters::elasticsearch::monthly_index;
use crate::adapters::elasticsearch::BulkDocument;
use crate::adapters::elasticsearch::ElasticsearchClient;
use crate::error::ClientError;
use crate::formats::unified::OrlLog1_0;
use crate::text::push_text;
use crate::time::in_civil_range;
use crate::time::rfc3339_text;
use crate::time::Timestamp;
use vstd::prelude::*;

verus! {

/// How many records go into one bulk request.
pub const STREAM_CHUNK_SIZE: usize = 2000;

/// How many chunks may wait to be sent.
pub const QUEUED_CHUNKS: usize = 500;

/// Where the documents go.
#[derive(Clone, Debug, PartialEq, Eq)]
pub struct ElasticsearchBulkSinkOpts {
    pub url: String,
    pub index_base_name: String,
    pub pipeline: Option<String>,
}

/// The sink.
#[derive(Clone, Debug, PartialEq, Eq)]
pub struct ElasticsearchBulkSink {
    pub client: ElasticsearchClient,
    pub opts: ElasticsearchBulkSinkOpts,
}

/// Records that are sent together.
#[derive(Clone, Debug, PartialEq, Eq)]
pub struct ElasticsearchBulkBatch {
    pub logs: Vec<OrlLog1_0>,
}

/// What the document of a record must be, given the instant `ts` that the
/// record's time names: it goes to the index of its month, under the id
/// made of channel, user name and time, so that a record sent again
/// overwrites itself.
pub open spec fn document_of(base: Seq<char>, log: OrlLog1_0, ts: Timestamp, doc: BulkDocument) -> bool {
    &&& doc.index@ == monthly_index(base, ts.date())
    &&& doc.id matches Some(id) && id@ == document_id(log.channel_name@, log.username@, ts.date())
    &&& doc.channel@ == log.channel_name@
    &&& doc.username@ == log.username@
    &&& doc.text@ == log.text@
    &&& doc.ts@ == rfc3339_text(ts.date())
}

impl ElasticsearchBulkSink {
    /// The sink that writes to the index family `index_base_name` of the
    /// node at `url`; an error where `url` is no URL.
    pub fn new(url: String, index_base_name: String, pipeline: Option<String>) -> (r: Result<
        ElasticsearchBulkSink,
        ClientError,
    >)
        ensures
            r is Ok <==> is_url(url@),
            r matches Ok(sink) ==> sink.opts.url == url && sink.opts.index_base_name
                == index_base_name && sink.opts.pipeline == pipeline && sink.client.url@ == url@,
            r matches Err(e) ==> e == ClientError::InvalidUrl,
    {
        match create_elasticsearch_client_from_url(url.clone()) {
            Ok(client) => {
                let opts = ElasticsearchBulkSinkOpts { index_base_name, pipeline, url };
                Ok(ElasticsearchBulkSink { client, opts })
            },
            Err(e) => Err(e),
        }
    }

    /// The document of a record; none for a record whose time is outside
    /// the calendar.
    pub fn add_log_to_payload(&self, bulk_body: &mut Vec<BulkDocument>, log: OrlLog1_0) -> (added:
        bool)
        ensures
            added == in_civil_range(log.key.timestamp as int),
            !added ==> final(bulk_body)@ == old(bulk_body)@,
            added ==> final(bulk_body).len() == old(bulk_body).len() + 1,
            added ==> final(bulk_body)@.drop_last() == old(bulk_body)@,
            added ==> exists|ts: Timestamp|
                ts.wf() && ts.millis() == log.key.timestamp && #[trigger] document_of(
                    self.opts.index_base_name@,
                    log,
                    ts,
                    final(bulk_body)@.last(),
                ),
    {
        match Timestamp::from_millis(log.key.timestamp) {
            Some(ts) => {
                let time = ts.to_rfc3339_millis();
                proof {
                    reveal_strlit("-");
                    assert("-"@ =~= seq!['-']);
                }
                let mut id = String::new();
                push_text(&mut id, log.channel_name.as_str());
                push_text(&mut id, "-");
                push_text(&mut id, log.username.as_str());
                push_text(&mut id, "-");
                push_text(&mut id, time.as_str());
                let doc = BulkDocument {
                    index: index_for(self.opts.index_base_name.as_str(), &ts),
                    id: Some(id),
                    channel: log.channel_name,
                    username: log.username,
                    text: log.text,
                    ts: time,
                };
                bulk_body.push(doc);
                assert(bulk_body@.drop_last() =~= old(bulk_body)@);
                assert(document_of(self.opts.index_base_name@, log, ts, bulk_body@.last()));
                true
            },
            None => false,
        }
    }
}

} // verus!
