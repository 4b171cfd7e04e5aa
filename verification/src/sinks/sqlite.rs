//! The SQLite sink: one table, one row for each record, written again a row
//! replaces itself.

use crate::formats::orl::id_text;
use crate::formats::orl::normalized;
use crate::formats::orl::OrlLog;
use crate::formats::orl::Raw;
use vstd::prelude::*;

verus! {

/// The settings that trade safety for speed, for a file that is written
/// once and by one writer.
pub const TUNING: &'static str = "
            PRAGMA journal_mode = OFF;
            PRAGMA cache_size = 1000000;

            PRAGMA locking_mode = EXCLUSIVE;
            PRAGMA synchronous = 0;
            ";

/// The statement that creates the table.
pub const CREATE_UNIFIED_MESSAGES: &'static str = "
        CREATE TABLE IF NOT EXISTS unified_messages (
            kind TEXT NOT NULL,
            id TEXT NOT NULL,
            timestamp INTEGER NOT NULL,

            username TEXT,
            channel_name TEXT,
            channel_id TEXT,
            twitch_id TEXT,
            text TEXT,

            PRIMARY KEY(kind, id)
        );

      ";

/// The statement that writes one row.
pub const INSERT_UNIFIED_MESSAGE: &'static str = "
              INSERT OR REPLACE INTO unified_messages(
                  kind,
                  id,
                  timestamp,

                  username,
                  channel_name,
                  text
              )

              VALUES (?, ?, ?, ?, ?, ?);
            ";

/// A row of the table `unified_messages`.
#[derive(Clone, Debug, PartialEq, Eq)]
pub struct UnifiedRow {
    pub kind: String,
    pub id: String,
    pub timestamp: i64,
    pub username: String,
    pub channel_name: String,
    pub text: String,
}

/// What the row of a record must be: the record normalized, under its id
/// and the kind `orl-log/1.0`.
pub open spec fn row_of(log: OrlLog<Raw>, row: UnifiedRow) -> bool {
    let clean = normalized(log@);
    &&& row.kind@ == "orl-log/1.0"@
    &&& row.id@ == id_text(clean)
    &&& row.timestamp == clean.ts.millis()
    &&& row.username@ == clean.username
    &&& row.channel_name@ == clean.channel
    &&& row.text@ == clean.text
}

/// The row of a record.
pub fn unified_row(log: &OrlLog<Raw>) -> (row: UnifiedRow)
    ensures
        row_of(*log, row),
{
    let clean = log.normalize();
    let id = clean.get_id();
    let timestamp = clean.get_unix_millis();
    UnifiedRow {
        kind: "orl-log/1.0".to_owned(),
        id,
        timestamp,
        username: clean.username,
        channel_name: clean.channel,
        text: clean.text,
    }
}

/// The rows of a batch: one for each record, in order.
pub fn submit_orl_message_batch(logs: &Vec<OrlLog<Raw>>) -> (rows: Vec<UnifiedRow>)
    ensures
        rows.len() == logs.len(),
        forall|i: int| 0 <= i < logs.len() ==> row_of(logs[i], #[trigger] rows[i]),
{
    let mut rows: Vec<UnifiedRow> = Vec::new();
    let mut i: usize = 0;
    while i < logs.len()
        invariant
            i <= logs.len(),
            rows.len() == i,
            forall|k: int| 0 <= k < i ==> row_of(logs[k], #[trigger] rows[k]),
        decreases logs.len() - i,
    {
        rows.push(unified_row(&logs[i]));
        i += 1;
    }
    rows
}

} // verus!
