//! The sink that appends lines to text files,
//! `<root>/<channel>/<day>.txt`: how a message is written, where it goes,
//! and when what was queued is flushed. The caller owns the files and the
//! clock.

use crate::events::SimpleMessage;
use crate::events::SimpleMessageView;
use crate::text::push_text;
use crate::text::same_text;
use crate::time::day_text;
use crate::time::orl_text;
use crate::time::OrlDate;
use crate::time::Timestamp;
use vstd::prelude::*;

verus! {

/// How many queued lines of a channel cause a flush.
pub const QUEUE_CAPACITY: usize = 50;

/// After how many seconds since the last flush the next line causes one.
pub const FLUSH_PERIOD_SECONDS: u64 = 5;

/// A log line: `[<timestamp>] <username>: <text>`.
pub open spec fn line_text(d: OrlDate, username: Seq<char>, text: Seq<char>) -> Seq<char> {
    seq!['['] + orl_text(d) + seq![']', ' '] + username + seq![':', ' '] + text
}

/// The line of a message, normalized.
pub open spec fn message_line(m: SimpleMessageView) -> Seq<char> {
    let n = m.normalized();
    line_text(n.timestamp.date(), n.username.text(), n.text)
}

/// A log line.
pub fn format_line(ts: &Timestamp, username: &str, text: &str) -> (r: String)
    ensures
        r@ == line_text(ts.date(), username@, text@),
{
    let stamp = ts.format_orl();
    let mut r = String::new();
    proof {
        reveal_strlit("[");
        reveal_strlit("] ");
        reveal_strlit(": ");
        assert("["@ =~= seq!['[']);
        assert("] "@ =~= seq![']', ' ']);
        assert(": "@ =~= seq![':', ' ']);
    }
    push_text(&mut r, "[");
    push_text(&mut r, stamp.as_str());
    push_text(&mut r, "] ");
    push_text(&mut r, username);
    push_text(&mut r, ": ");
    push_text(&mut r, text);
    r
}

/// A line and the file that it goes to.
#[derive(Clone, Debug, PartialEq, Eq)]
pub struct FileLine {
    /// The directory of the file, below the root: the channel.
    pub channel: String,
    /// The name of the file: the day and `.txt`.
    pub file_name: String,
    pub line: String,
}

/// The line of a message and where it goes: the message is normalized, and
/// the file is that of its channel and of the day of its time.
pub fn file_line(msg: &SimpleMessage) -> (r: FileLine)
    ensures
        r.channel@ == msg@.normalized().channel,
        r.file_name@ == day_text(msg.timestamp.date()) + ".txt"@,
        r.line@ == message_line(msg@),
{
    let n = msg.normalize();
    let name = n.username.to_string();
    let line = format_line(&n.timestamp, name.as_str(), n.text.as_str());
    let mut file_name = n.timestamp.format_day();
    push_text(&mut file_name, ".txt");
    FileLine { channel: n.channel, file_name, line }
}

/// The lines that wait for one file.
#[derive(Clone, Debug, PartialEq, Eq)]
pub struct QueuedFile {
    pub path: String,
    pub lines: Vec<String>,
}

/// The lines of one channel that wait to be written, file by file.
#[derive(Clone, Debug, PartialEq, Eq)]
pub struct QueuedAppender {
    pub channel: String,
    pub period_seconds: u64,
    pub capacity: usize,
    pub queue: Vec<QueuedFile>,
}

/// What is appended to one file.
#[derive(Clone, Debug, PartialEq, Eq)]
pub struct FileAppend {
    pub path: String,
    pub content: String,
}

/// The lines, each followed by a newline.
pub open spec fn joined(lines: Seq<String>) -> Seq<char>
    decreases lines.len(),
{
    if lines.len() == 0 {
        Seq::empty()
    } else {
        joined(lines.drop_last()) + lines.last()@ + seq!['\n']
    }
}

/// What a flush of the queue appends, as paths and contents: one entry for
/// each file that has lines waiting, in the order of the queue.
pub open spec fn appends_of(queue: Seq<QueuedFile>) -> Seq<(Seq<char>, Seq<char>)>
    decreases queue.len(),
{
    if queue.len() == 0 {
        Seq::empty()
    } else if queue.last().lines.len() > 0 {
        appends_of(queue.drop_last()).push((queue.last().path@, joined(queue.last().lines@)))
    } else {
        appends_of(queue.drop_last())
    }
}

/// Appends as paths and contents.
pub open spec fn append_views(appends: Seq<FileAppend>) -> Seq<(Seq<char>, Seq<char>)> {
    appends.map_values(|a: FileAppend| (a.path@, a.content@))
}

/// How many lines wait in the first `n` files.
pub open spec fn queued_lines(queue: Seq<QueuedFile>, n: int) -> int
    decreases n,
{
    if n <= 0 {
        0
    } else {
        queued_lines(queue, n - 1) + queue[n - 1].lines.len()
    }
}

/// The index of the file `path` in the queue, from `i` on; the length of
/// the queue where it is not in it.
pub open spec fn position_of(queue: Seq<QueuedFile>, path: Seq<char>, i: int) -> int
    decreases queue.len() - i,
{
    if i < 0 || i >= queue.len() {
        queue.len() as int
    } else if queue[i].path@ == path {
        i
    } else {
        position_of(queue, path, i + 1)
    }
}

/// What queueing `line` for the file `path` makes of the queue: the line
/// stands behind the lines that wait for that file, or it is the first line
/// of a file that joins the queue at its end; nothing else changes.
pub open spec fn queued(
    before: Seq<QueuedFile>,
    after: Seq<QueuedFile>,
    path: Seq<char>,
    line: String,
) -> bool {
    let at = position_of(before, path, 0);
    &&& after.len() == before.len() + (if at < before.len() {
        0int
    } else {
        1int
    })
    &&& after[at].path@ == path
    &&& after[at].lines@ == (if at < before.len() {
        before[at].lines@.push(line)
    } else {
        seq![line]
    })
    &&& forall|k: int| 0 <= k < before.len() && k != at ==> after[k] == before[k]
}

/// The lines that wait for the file `path`, in the order in which they were
/// queued.
pub open spec fn lines_for(queue: Seq<QueuedFile>, path: Seq<char>) -> Seq<String> {
    let at = position_of(queue, path, 0);
    if 0 <= at < queue.len() {
        queue[at].lines@
    } else {
        Seq::empty()
    }
}

impl QueuedAppender {
    /// An empty queue for `channel` that is flushed at `capacity` lines or
    /// `period_seconds` after the last flush.
    pub fn new(channel: String, capacity: usize, period_seconds: u64) -> (r: Self)
        ensures
            r.channel == channel,
            r.capacity == capacity,
            r.period_seconds == period_seconds,
            r.queue@.len() == 0,
    {
        QueuedAppender { channel, period_seconds, capacity, queue: Vec::new() }
    }

    /// How many lines wait.
    pub fn queue_len(&self) -> (r: usize)
        requires
            queued_lines(self.queue@, self.queue.len() as int) <= usize::MAX,
        ensures
            r == queued_lines(self.queue@, self.queue.len() as int),
    {
        let mut sum: usize = 0;
        let mut i: usize = 0;
        while i < self.queue.len()
            invariant
                i <= self.queue.len(),
                sum == queued_lines(self.queue@, i as int),
                queued_lines(self.queue@, self.queue.len() as int) <= usize::MAX,
            decreases self.queue.len() - i,
        {
            proof {
                lemma_queued_lines_grow(self.queue@, i + 1, self.queue.len() as int);
            }
            sum = sum + self.queue[i].lines.len();
            i += 1;
        }
        sum
    }

    /// Whether enough time has gone by since the last flush.
    pub fn time_ready(&self, elapsed_seconds: u64) -> (r: bool)
        ensures
            r == (elapsed_seconds >= self.period_seconds),
    {
        elapsed_seconds >= self.period_seconds
    }

    /// Queues a line for the file `path`: behind the lines that wait for
    /// that file, or as the first line of a file that joins the queue.
    /// Returns whether the queue is to be flushed now, `elapsed_seconds`
    /// after the last flush.
    pub fn write(&mut self, path: String, line: String, elapsed_seconds: u64) -> (flush: bool)
        requires
            queued_lines(old(self).queue@, old(self).queue.len() as int) < usize::MAX,
        ensures
            final(self).channel == old(self).channel,
            final(self).capacity == old(self).capacity,
            final(self).period_seconds == old(self).period_seconds,
            queued_lines(final(self).queue@, final(self).queue.len() as int) == queued_lines(
                old(self).queue@,
                old(self).queue.len() as int,
            ) + 1,
            flush == (queued_lines(final(self).queue@, final(self).queue.len() as int) >= old(
                self,
            ).capacity || elapsed_seconds >= old(self).period_seconds),
            queued(old(self).queue@, final(self).queue@, path@, line),
    {
        let mut at: usize = 0;
        while at < self.queue.len() && !same_text(self.queue[at].path.as_str(), path.as_str())
            invariant
                at <= self.queue.len(),
                position_of(self.queue@, path@, 0) == position_of(self.queue@, path@, at as int),
            decreases self.queue.len() - at,
        {
            at += 1;
        }
        let ghost before = self.queue@;
        if at < self.queue.len() {
            let mut file = self.queue.remove(at);
            file.lines.push(line);
            self.queue.insert(at, file);
            proof {
                lemma_queued_lines_update(before, self.queue@, at as int, before.len() as int);
            }
        } else {
            let mut lines: Vec<String> = Vec::new();
            lines.push(line);
            self.queue.push(QueuedFile { path, lines });
            proof {
                lemma_queued_lines_same(before, self.queue@, before.len() as int);
            }
        }
        let queue_len = self.queue_len();
        queue_len >= self.capacity || self.time_ready(elapsed_seconds)
    }

    /// What a flush appends: for each file that has lines waiting, in the
    /// order of the queue, its lines, each followed by a newline.
    pub fn flush(&self) -> (r: Vec<FileAppend>)
        ensures
            append_views(r@) == appends_of(self.queue@),
    {
        let mut r: Vec<FileAppend> = Vec::new();
        let mut q: usize = 0;
        while q < self.queue.len()
            invariant
                q <= self.queue.len(),
                append_views(r@) == appends_of(self.queue@.take(q as int)),
            decreases self.queue.len() - q,
        {
            let file = &self.queue[q];
            let ghost before = append_views(r@);
            proof {
                assert(self.queue@.take(q + 1).drop_last() =~= self.queue@.take(q as int));
            }
            if file.lines.len() > 0 {
                let content = join_lines(&file.lines);
                r.push(FileAppend { path: file.path.clone(), content });
                assert(append_views(r@) =~= before.push((file.path@, joined(file.lines@))));
            }
            q += 1;
        }
        assert(self.queue@.take(self.queue.len() as int) =~= self.queue@);
        r
    }

    /// Called when a flush has gone well: nothing waits any more.
    pub fn flushed(&mut self)
        ensures
            final(self).channel == old(self).channel,
            final(self).capacity == old(self).capacity,
            final(self).period_seconds == old(self).period_seconds,
            final(self).queue@.len() == 0,
    {
        self.queue.clear();
    }
}

/// The lines, each followed by a newline.
pub fn join_lines(lines: &Vec<String>) -> (r: String)
    ensures
        r@ == joined(lines@),
{
    let mut r = String::new();
    let mut i: usize = 0;
    proof {
        reveal_strlit("\n");
        assert("\n"@ =~= seq!['\n']);
    }
    while i < lines.len()
        invariant
            i <= lines.len(),
            r@ == joined(lines@.take(i as int)),
            "\n"@ == seq!['\n'],
        decreases lines.len() - i,
    {
        proof {
            assert(lines@.take(i + 1).drop_last() =~= lines@.take(i as int));
        }
        push_text(&mut r, lines[i].as_str());
        push_text(&mut r, "\n");
        i += 1;
    }
    assert(lines@.take(lines.len() as int) =~= lines@);
    r
}

/// Where a file stands in the queue: at the first entry with its path, and
/// at the end if there is none.
proof fn lemma_position_of(queue: Seq<QueuedFile>, path: Seq<char>, i: int)
    requires
        0 <= i <= queue.len(),
    ensures
        i <= position_of(queue, path, i) <= queue.len(),
        forall|k: int| i <= k < position_of(queue, path, i) ==> (#[trigger] queue[k]).path@ != path,
        position_of(queue, path, i) < queue.len() ==> queue[position_of(queue, path, i)].path@
            == path,
    decreases queue.len() - i,
{
    if i < queue.len() && queue[i].path@ != path {
        lemma_position_of(queue, path, i + 1);
    }
}

/// The first entry with the path, from `i` on, is at `at`.
proof fn lemma_position_is(queue: Seq<QueuedFile>, path: Seq<char>, i: int, at: int)
    requires
        0 <= i <= at <= queue.len(),
        forall|k: int| i <= k < at ==> (#[trigger] queue[k]).path@ != path,
        at < queue.len() ==> queue[at].path@ == path,
    ensures
        position_of(queue, path, i) == at,
    decreases at - i,
{
    if i < at {
        lemma_position_is(queue, path, i + 1, at);
    }
}

/// The lines of a file wait in the order in which they were queued: a line
/// that is queued for a file stands behind the lines that waited for it,
/// and the lines of every other file are as they were.
pub proof fn lemma_lines_keep_their_order(
    before: Seq<QueuedFile>,
    after: Seq<QueuedFile>,
    path: Seq<char>,
    line: String,
    other: Seq<char>,
)
    requires
        queued(before, after, path, line),
    ensures
        lines_for(after, path) == lines_for(before, path).push(line),
        other != path ==> lines_for(after, other) == lines_for(before, other),
{
    let at = position_of(before, path, 0);
    lemma_position_of(before, path, 0);
    assert forall|k: int| 0 <= k < at implies (#[trigger] after[k]).path@ != path by {
        assert(after[k] == before[k]);
    }
    lemma_position_is(after, path, 0, at);
    if at >= before.len() {
        assert(lines_for(before, path).push(line) =~= seq![line]);
    }
    if other != path {
        let there = position_of(before, other, 0);
        lemma_position_of(before, other, 0);
        if there < before.len() {
            assert(there != at);
            assert forall|k: int| 0 <= k < there implies (#[trigger] after[k]).path@ != other by {
                if k != at {
                    assert(after[k] == before[k]);
                }
            }
            assert(after[there] == before[there]);
            lemma_position_is(after, other, 0, there);
        } else {
            assert forall|k: int| 0 <= k < after.len() implies (#[trigger] after[k]).path@
                != other by {
                if k != at {
                    assert(after[k] == before[k]);
                }
            }
            lemma_position_is(after, other, 0, after.len() as int);
        }
    }
}

/// The count of waiting lines never shrinks from fewer files to more.
proof fn lemma_queued_lines_grow(queue: Seq<QueuedFile>, n: int, m: int)
    requires
        0 <= n <= m <= queue.len(),
    ensures
        queued_lines(queue, n) <= queued_lines(queue, m),
    decreases m - n,
{
    if n < m {
        lemma_queued_lines_grow(queue, n, m - 1);
    }
}

/// Files that hold the same lines hold as many.
proof fn lemma_queued_lines_same(before: Seq<QueuedFile>, after: Seq<QueuedFile>, n: int)
    requires
        0 <= n <= before.len(),
        n <= after.len(),
        forall|k: int| 0 <= k < n ==> before[k].lines.len() == after[k].lines.len(),
    ensures
        queued_lines(before, n) == queued_lines(after, n),
    decreases n,
{
    if n > 0 {
        lemma_queued_lines_same(before, after, n - 1);
    }
}

/// One more line in one file is one more line in all.
proof fn lemma_queued_lines_update(
    before: Seq<QueuedFile>,
    after: Seq<QueuedFile>,
    at: int,
    n: int,
)
    requires
        0 <= at < before.len(),
        before.len() == after.len(),
        0 <= n <= before.len(),
        after[at].lines.len() == before[at].lines.len() + 1,
        forall|k: int| 0 <= k < before.len() && k != at ==> before[k] == after[k],
    ensures
        queued_lines(after, n) == queued_lines(before, n) + if at < n {
            1int
        } else {
            0int
        },
    decreases n,
{
    if n > 0 {
        lemma_queued_lines_update(before, after, at, n - 1);
    }
}

} // verus!
