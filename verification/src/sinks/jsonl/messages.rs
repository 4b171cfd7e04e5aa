//! Records sorted into the files that they go to.

use crate::formats::orl::id_text;
use crate::formats::orl::normalized;
use crate::formats::orl::OrlLog;
use crate::formats::orl::OrlLogView;
use crate::formats::orl::Raw;
use crate::formats::unified::UnifiedMessageLog;
use crate::text::push_text;
use crate::text::same_text;
use crate::time::day_text;
use crate::time::Timestamp;
use vstd::prelude::*;

verus! {

/// Where the files are.
#[derive(Clone, Debug, PartialEq, Eq)]
pub struct JsonLinesSinkContext {
    pub root_dir: String,
}

impl JsonLinesSinkContext {
    /// The sink that writes under `root_dir`.
    pub fn new(root_dir: String) -> (r: Self)
        ensures
            r.root_dir == root_dir,
    {
        JsonLinesSinkContext { root_dir }
    }
}

/// Records to be written, in any mix of channels and days.
#[derive(Debug)]
pub struct JsonInputBatch<'a> {
    pub ctx: &'a JsonLinesSinkContext,
    pub logs: Vec<OrlLog<Raw>>,
}

impl JsonInputBatch<'_> {
    /// The batch of `logs` for the sink `ctx`.
    pub fn new(ctx: &'_ JsonLinesSinkContext, logs: Vec<OrlLog<Raw>>) -> (r: JsonInputBatch<'_>)
        ensures
            r.ctx == ctx,
            r.logs == logs,
    {
        JsonInputBatch { ctx, logs }
    }
}

/// A file: the channel and the day whose records it holds.
#[derive(Clone, Debug, PartialEq, Eq)]
pub struct JsonFileTarget {
    pub channel_name: String,
    pub day: Timestamp,
}

/// The records that go to one file, in the order in which they came.
#[derive(Debug)]
pub struct JsonFileWriteBatch<'a> {
    pub ctx: &'a JsonLinesSinkContext,
    pub target: JsonFileTarget,
    pub logs: Vec<OrlLog<Raw>>,
}

/// What tells files apart: the channel and the calendar day.
pub struct TargetKey {
    pub channel: Seq<char>,
    pub year: int,
    pub month: int,
    pub day: int,
}

/// The file that a record at the time `ts` in `channel` goes to.
pub open spec fn key_of(channel: Seq<char>, ts: Timestamp) -> TargetKey {
    TargetKey {
        channel,
        year: ts.date().year as int,
        month: ts.date().month as int,
        day: ts.date().day as int,
    }
}

/// The file that a record goes to.
pub open spec fn log_key(v: OrlLogView) -> TargetKey {
    key_of(v.channel, v.ts)
}

/// Whether a record goes to the file `key`.
pub open spec fn goes_to(key: TargetKey) -> spec_fn(OrlLogView) -> bool {
    |v: OrlLogView| log_key(v) == key
}

/// The records as mathematics sees them.
pub open spec fn log_views(logs: Seq<OrlLog<Raw>>) -> Seq<OrlLogView> {
    logs.map_values(|l: OrlLog<Raw>| l@)
}

impl JsonFileTarget {
    /// What tells this file from the others.
    pub open spec fn key(self) -> TargetKey {
        key_of(self.channel_name@, self.day)
    }

    /// The name of the file: the day and `.jsonl`.
    pub fn file_name(&self) -> (r: String)
        ensures
            r@ == day_text(self.day.date()) + ".jsonl"@,
    {
        let mut r = self.day.format_day();
        push_text(&mut r, ".jsonl");
        r
    }

    /// Whether a record at `ts` in `channel` goes to this file.
    pub fn holds(&self, channel: &str, ts: &Timestamp) -> (r: bool)
        ensures
            r == (self.key() == key_of(channel@, *ts)),
    {
        let a = self.day.civil();
        let b = ts.civil();
        a.year == b.year && a.month == b.month && a.day == b.day && same_text(
            self.channel_name.as_str(),
            channel,
        )
    }
}

/// What the record of a log must be: the log normalized, as a record of
/// kind `orl-log/1.0` under its id.
pub open spec fn record_of(log: OrlLogView, record: UnifiedMessageLog) -> bool {
    let clean = normalized(log);
    &&& record matches UnifiedMessageLog::OrlLog1_0(r)
    &&& r.key.id@ == id_text(clean)
    &&& r.key.timestamp == clean.ts.millis()
    &&& r.username@ == clean.username
    &&& r.channel_name@ == clean.channel
    &&& r.text@ == clean.text
}

impl JsonFileWriteBatch<'_> {
    /// What is appended to the file: one record for each log of the group,
    /// in the order of the group. Each record becomes one line.
    pub fn records(&self) -> (r: Vec<UnifiedMessageLog>)
        ensures
            r.len() == self.logs.len(),
            forall|i: int| 0 <= i < r.len() ==> record_of(self.logs[i]@, #[trigger] r[i]),
    {
        let mut r: Vec<UnifiedMessageLog> = Vec::new();
        let mut i: usize = 0;
        while i < self.logs.len()
            invariant
                i <= self.logs.len(),
                r.len() == i,
                forall|k: int| 0 <= k < i ==> record_of(self.logs[k]@, #[trigger] r[k]),
            decreases self.logs.len() - i,
        {
            let clean = self.logs[i].normalize();
            r.push(UnifiedMessageLog::OrlLog1_0(clean.to_unified()));
            i += 1;
        }
        r
    }

    /// The directory of the file, below the root, and the name of the file
    /// in it.
    pub fn get_path(&self) -> (r: (String, String))
        ensures
            r.0@ == self.target.channel_name@,
            r.1@ == day_text(self.target.day.date()) + ".jsonl"@,
    {
        (self.target.channel_name.clone(), self.target.file_name())
    }
}

/// What the groups of a batch must be: every group holds, in the order in
/// which they came, all records of the batch that go to its file, and at
/// least one; no two groups are for the same file; and every record of the
/// batch goes to the file of some group.
pub open spec fn grouped(logs: Seq<OrlLogView>, groups: Seq<(TargetKey, Seq<OrlLogView>)>) -> bool {
    &&& forall|g: int|
        0 <= g < groups.len() ==> (#[trigger] groups[g]).1 == logs.filter(goes_to(groups[g].0))
            && groups[g].1.len() > 0
    &&& forall|g: int, h: int|
        0 <= g < h < groups.len() ==> (#[trigger] groups[g]).0 != (#[trigger] groups[h]).0
    &&& forall|k: int|
        0 <= k < logs.len() ==> exists|g: int|
            0 <= g < groups.len() && (#[trigger] groups[g]).0 == log_key(#[trigger] logs[k])
}

/// The groups as mathematics sees them.
pub open spec fn group_views(groups: Seq<JsonFileWriteBatch>) -> Seq<(TargetKey, Seq<OrlLogView>)> {
    groups.map_values(|b: JsonFileWriteBatch| (b.target.key(), log_views(b.logs@)))
}

/// Nothing is left of a sequence when nothing in it is wanted.
proof fn lemma_filter_none(s: Seq<OrlLogView>, key: TargetKey)
    requires
        forall|k: int| 0 <= k < s.len() ==> log_key(#[trigger] s[k]) != key,
    ensures
        s.filter(goes_to(key)).len() == 0,
    decreases s.len(),
{
    reveal(Seq::filter);
    if s.len() > 0 {
        lemma_filter_none(s.drop_last(), key);
    }
}

/// Sorts the records of a batch into the files that they go to, one group
/// for each file, the groups in the order in which their first record came.
pub fn group_logs(batch: JsonInputBatch) -> (r: Vec<JsonFileWriteBatch>)
    ensures
        grouped(log_views(batch.logs@), group_views(r@)),
        forall|g: int| 0 <= g < r.len() ==> (#[trigger] r[g]).ctx == batch.ctx,
{
    let ctx = batch.ctx;
    let logs = batch.logs;
    let ghost all = log_views(logs@);
    let mut groups: Vec<JsonFileWriteBatch> = Vec::new();
    let mut i: usize = 0;
    while i < logs.len()
        invariant
            i <= logs.len(),
            all == log_views(logs@),
            grouped(all.take(i as int), group_views(groups@)),
            forall|g: int| 0 <= g < groups.len() ==> (#[trigger] groups[g]).ctx == ctx,
        decreases logs.len() - i,
    {
        let log = logs[i].clone();
        let ghost x = log@;
        let ghost key = log_key(x);
        let ghost before = all.take(i as int);
        let ghost after = all.take(i + 1);
        let ghost old_groups = group_views(groups@);
        proof {
            assert(x == all[i as int]);
            assert(after =~= before.push(x));
            assert(after.drop_last() =~= before);
            reveal(Seq::filter);
            assert forall|g: int| 0 <= g < old_groups.len() implies after.filter(
                goes_to(#[trigger] old_groups[g].0),
            ) == if old_groups[g].0 == key {
                before.filter(goes_to(old_groups[g].0)).push(x)
            } else {
                before.filter(goes_to(old_groups[g].0))
            } by {}
        }
        let mut found: Option<usize> = None;
        let mut j: usize = 0;
        let ghost groups_before = groups@;
        while j < groups.len()
            invariant_except_break
                found is None,
            invariant
                j <= groups.len(),
                key == log_key(x),
                x == log@,
                forall|g: int| 0 <= g < j ==> (#[trigger] groups[g]).target.key() != key,
            ensures
                found matches Some(at) ==> at < groups.len() && groups[at as int].target.key()
                    == key,
                found is None ==> forall|g: int|
                    0 <= g < groups.len() ==> (#[trigger] groups[g]).target.key() != key,
            decreases groups.len() - j,
        {
            if groups[j].target.holds(log.channel.as_str(), &log.ts) {
                found = Some(j);
                break ;
            }
            j += 1;
        }
        match found {
            Some(at) => {
                let mut group = groups.remove(at);
                let ghost group_before = log_views(group.logs@);
                group.logs.push(log);
                assert(log_views(group.logs@) =~= group_before.push(x));
                groups.insert(at, group);
                proof {
                    let new_groups = group_views(groups@);
                    assert(new_groups.len() == old_groups.len());
                    assert forall|g: int| 0 <= g < new_groups.len() implies (
                    #[trigger] new_groups[g]).0 == old_groups[g].0 by {}
                    assert forall|g: int| 0 <= g < new_groups.len() implies (
                    #[trigger] new_groups[g]).1 == after.filter(goes_to(new_groups[g].0))
                        && new_groups[g].1.len() > 0 by {
                        if g == at {
                        } else {
                            assert(old_groups[g].0 != old_groups[at as int].0);
                            assert(new_groups[g].1 == old_groups[g].1);
                        }
                    }
                    assert forall|k: int| 0 <= k < after.len() implies exists|g: int|
                        0 <= g < new_groups.len() && (#[trigger] new_groups[g]).0 == log_key(
                            #[trigger] after[k],
                        ) by {
                        if k < i {
                            assert(after[k] == before[k]);
                            let g = choose|g: int|
                                0 <= g < old_groups.len() && (#[trigger] old_groups[g]).0
                                    == log_key(before[k]);
                            assert(new_groups[g].0 == log_key(after[k]));
                        } else {
                            assert(new_groups[at as int].0 == key);
                        }
                    }
                }
            },
            None => {
                let mut first: Vec<OrlLog<Raw>> = Vec::new();
                let target = JsonFileTarget { channel_name: log.channel.clone(), day: log.ts };
                first.push(log);
                assert(log_views(first@) =~= seq![x]);
                groups.push(JsonFileWriteBatch { ctx, target, logs: first });
                proof {
                    let new_groups = group_views(groups@);
                    assert(new_groups =~= old_groups.push((key, seq![x])));
                    assert forall|k: int| 0 <= k < before.len() implies log_key(
                        #[trigger] before[k],
                    ) != key by {
                        let g = choose|g: int|
                            0 <= g < old_groups.len() && (#[trigger] old_groups[g]).0 == log_key(
                                before[k],
                            );
                        assert(groups_before[g].target.key() != key);
                    }
                    lemma_filter_none(before, key);
                    assert(before.filter(goes_to(key)) =~= Seq::<OrlLogView>::empty());
                    assert(after.filter(goes_to(key)) =~= seq![x]);
                    assert forall|g: int| 0 <= g < new_groups.len() implies (
                    #[trigger] new_groups[g]).1 == after.filter(goes_to(new_groups[g].0))
                        && new_groups[g].1.len() > 0 by {
                        if g < old_groups.len() {
                            assert(groups_before[g].target.key() != key);
                            assert(new_groups[g] == old_groups[g]);
                        }
                    }
                    assert forall|g: int, h: int| 0 <= g < h < new_groups.len() implies (
                    #[trigger] new_groups[g]).0 != (#[trigger] new_groups[h]).0 by {
                        if h == old_groups.len() {
                            assert(groups_before[g].target.key() != key);
                        } else {
                            assert(new_groups[g] == old_groups[g]);
                            assert(new_groups[h] == old_groups[h]);
                        }
                    }
                    assert forall|k: int| 0 <= k < after.len() implies exists|g: int|
                        0 <= g < new_groups.len() && (#[trigger] new_groups[g]).0 == log_key(
                            #[trigger] after[k],
                        ) by {
                        if k < i {
                            assert(after[k] == before[k]);
                            let g = choose|g: int|
                                0 <= g < old_groups.len() && (#[trigger] old_groups[g]).0
                                    == log_key(before[k]);
                            assert(new_groups[g] == old_groups[g]);
                        } else {
                            assert(new_groups[old_groups.len() as int].0 == key);
                        }
                    }
                }
            },
        }
        i += 1;
    }
    assert(all.take(logs.len() as int) =~= all);
    groups
}

} // verus!
