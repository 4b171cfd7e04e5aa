//! The fan-out of the live pipeline: which sinks an event is handed to, and
//! which sinks are taken out of rotation. Whoever runs the pipeline owns
//! the sinks and does the writing; the dispatcher keeps the books.

use crate::settings::WritersSettings;
use vstd::prelude::*;

verus! {

/// The kinds of sinks that the live pipeline can feed.
#[derive(Clone, Copy, Debug, PartialEq, Eq, Structural)]
pub enum WriterKind {
    Elasticsearch,
    File,
    Console,
    ConsoleMetrics,
    Clickhouse,
    UsernameTracker,
}

/// The sinks that the settings turn on, in the order in which they are
/// registered.
pub open spec fn enabled_spec(settings: WritersSettings) -> Seq<WriterKind> {
    (if settings.elasticsearch.enabled {
        seq![WriterKind::Elasticsearch]
    } else {
        Seq::empty()
    }) + (if settings.filesystem.enabled {
        seq![WriterKind::File]
    } else {
        Seq::empty()
    }) + (if settings.console.enabled {
        seq![WriterKind::Console]
    } else {
        Seq::empty()
    }) + (if settings.console_metrics.enabled {
        seq![WriterKind::ConsoleMetrics]
    } else {
        Seq::empty()
    }) + (if settings.clickhouse.enabled {
        seq![WriterKind::Clickhouse]
    } else {
        Seq::empty()
    }) + (if settings.username_tracker.enabled {
        seq![WriterKind::UsernameTracker]
    } else {
        Seq::empty()
    })
}

/// The sinks that the settings turn on, in the order in which they are
/// registered.
pub fn enabled_writers(settings: &WritersSettings) -> (r: Vec<WriterKind>)
    ensures
        r@ == enabled_spec(*settings),
{
    let mut r: Vec<WriterKind> = Vec::new();
    if settings.elasticsearch.enabled {
        r.push(WriterKind::Elasticsearch);
    }
    if settings.filesystem.enabled {
        r.push(WriterKind::File);
    }
    if settings.console.enabled {
        r.push(WriterKind::Console);
    }
    if settings.console_metrics.enabled {
        r.push(WriterKind::ConsoleMetrics);
    }
    if settings.clickhouse.enabled {
        r.push(WriterKind::Clickhouse);
    }
    if settings.username_tracker.enabled {
        r.push(WriterKind::UsernameTracker);
    }
    r
}

/// The books of the fan-out: for each sink, in the order in which the sinks
/// were registered, whether it is still in rotation.
#[derive(Clone, Debug, PartialEq, Eq)]
pub struct Dispatcher {
    pub active: Vec<bool>,
}

/// Whether the numbers rise strictly.
pub open spec fn rising(v: Seq<usize>) -> bool {
    forall|j: int, k: int| 0 <= j < k < v.len() ==> v[j] < v[k]
}

/// The books after the sinks `failed` have failed: each of them has left
/// the rotation, and the others are as they were.
pub open spec fn quarantined(active: Seq<bool>, failed: Seq<usize>) -> Seq<bool> {
    Seq::new(active.len(), |i: int| active[i] && !failed.contains(i as usize))
}

/// The books after several events, given for each event the sinks that
/// failed on it.
pub open spec fn after_rounds(active: Seq<bool>, rounds: Seq<Seq<usize>>) -> Seq<bool>
    decreases rounds.len(),
{
    if rounds.len() == 0 {
        active
    } else {
        quarantined(after_rounds(active, rounds.drop_last()), rounds.last())
    }
}

impl Dispatcher {
    /// The books for `sinks` sinks, all of them in rotation.
    pub fn new(sinks: usize) -> (r: Dispatcher)
        ensures
            r.active.len() == sinks,
            forall|i: int| 0 <= i < sinks ==> r.active[i],
    {
        let mut active: Vec<bool> = Vec::new();
        let mut i: usize = 0;
        while i < sinks
            invariant
                i <= sinks,
                active.len() == i,
                forall|k: int| 0 <= k < i ==> active[k],
            decreases sinks - i,
        {
            active.push(true);
            i += 1;
        }
        Dispatcher { active }
    }

    /// Whether the sink `i` is still in rotation.
    pub fn is_active(&self, i: usize) -> (r: bool)
        ensures
            r == (i < self.active.len() && self.active[i as int]),
    {
        i < self.active.len() && self.active[i]
    }

    /// The sinks that the next event is handed to: every sink that is still
    /// in rotation, once, in the order of registration, and no other.
    pub fn targets(&self) -> (r: Vec<usize>)
        ensures
            rising(r@),
            forall|i: usize| r@.contains(i) <==> (i < self.active.len() && self.active[i as int]),
    {
        let mut r: Vec<usize> = Vec::new();
        let mut i: usize = 0;
        while i < self.active.len()
            invariant
                i <= self.active.len(),
                rising(r@),
                forall|k: int| 0 <= k < r.len() ==> r[k] < i,
                forall|j: usize| r@.contains(j) <==> (j < i && self.active[j as int]),
            decreases self.active.len() - i,
        {
            let ghost before = r@;
            if self.active[i] {
                r.push(i);
                proof {
                    assert(r@[before.len() as int] == i);
                    assert forall|j: usize| r@.contains(j) <==> (j < i + 1
                        && self.active[j as int]) by {
                        if before.contains(j) {
                            let k = choose|k: int| 0 <= k < before.len() && before[k] == j;
                            assert(r@[k] == j);
                        }
                        if r@.contains(j) {
                            let k = choose|k: int| 0 <= k < r@.len() && r@[k] == j;
                            if k < before.len() {
                                assert(before[k] == j);
                            }
                        }
                    }
                }
            }
            i += 1;
        }
        r
    }

    /// Records the sinks whose `write` has failed for an event: each of them
    /// leaves the rotation, for good; the others stay as they are. The
    /// result names the sinks that left just now, in rising order.
    pub fn quarantine(&mut self, failed: &Vec<usize>) -> (removed: Vec<usize>)
        ensures
            final(self).active@ == quarantined(old(self).active@, failed@),
            rising(removed@),
            forall|i: usize|
                removed@.contains(i) <==> (i < old(self).active.len() && old(self).active[i as int]
                    && failed@.contains(i)),
    {
        let mut removed: Vec<usize> = Vec::new();
        let mut i: usize = 0;
        let n = self.active.len();
        while i < n
            invariant
                n == old(self).active.len(),
                self.active.len() == n,
                i <= n,
                forall|k: int|
                    0 <= k < i ==> self.active[k] == (old(self).active[k] && !failed@.contains(
                        k as usize,
                    )),
                forall|k: int| i <= k < n ==> self.active[k] == old(self).active[k],
                rising(removed@),
                forall|k: int| 0 <= k < removed.len() ==> removed[k] < i,
                forall|j: usize|
                    removed@.contains(j) <==> (j < i && old(self).active[j as int]
                        && failed@.contains(j)),
            decreases n - i,
        {
            let ghost before = removed@;
            let mut has_failed = false;
            let mut k: usize = 0;
            while k < failed.len()
                invariant
                    k <= failed.len(),
                    has_failed == exists|j: int| 0 <= j < k && failed[j] == i,
                decreases failed.len() - k,
            {
                if failed[k] == i {
                    has_failed = true;
                }
                k += 1;
            }
            assert(has_failed == failed@.contains(i));
            let leaves = self.active[i] && has_failed;
            if leaves {
                self.active.set(i, false);
                removed.push(i);
            }
            proof {
                if leaves {
                    assert(removed@[before.len() as int] == i);
                }
                assert forall|j: usize| removed@.contains(j) <==> (j < i + 1 && old(
                    self,
                ).active[j as int] && failed@.contains(j)) by {
                    if before.contains(j) {
                        let k = choose|k: int| 0 <= k < before.len() && before[k] == j;
                        assert(removed@[k] == j);
                    }
                    if removed@.contains(j) {
                        let k = choose|k: int| 0 <= k < removed@.len() && removed@[k] == j;
                        if k < before.len() {
                            assert(before[k] == j);
                        }
                    }
                }
            }
            i += 1;
        }
        removed
    }
}

/// After any number of events, a sink is in rotation exactly if it was at
/// first and has failed on none of them: one failure takes a sink out for
/// all events that follow, and the failures of a sink touch no other sink.
pub proof fn lemma_quarantine(active: Seq<bool>, rounds: Seq<Seq<usize>>, i: int)
    requires
        0 <= i < active.len(),
    ensures
        after_rounds(active, rounds).len() == active.len(),
        after_rounds(active, rounds)[i] == (active[i] && forall|r: int|
            0 <= r < rounds.len() ==> !(#[trigger] rounds[r]).contains(i as usize)),
    decreases rounds.len(),
{
    if rounds.len() > 0 {
        let earlier = rounds.drop_last();
        lemma_quarantine(active, earlier, i);
        assert(forall|r: int| 0 <= r < earlier.len() ==> earlier[r] == rounds[r]);
        if after_rounds(active, rounds)[i] {
            assert forall|r: int| 0 <= r < rounds.len() implies !(#[trigger] rounds[r]).contains(
                i as usize,
            ) by {
                if r < earlier.len() {
                    assert(earlier[r] == rounds[r]);
                }
            }
        } else if active[i] && after_rounds(active, earlier)[i] {
            assert(rounds[rounds.len() - 1].contains(i as usize));
        } else if active[i] {
            let r = choose|r: int| 0 <= r < earlier.len() && (#[trigger] earlier[r]).contains(i as usize);
            assert(rounds[r].contains(i as usize));
        }
    }
}

} // verus!
