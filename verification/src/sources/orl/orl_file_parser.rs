//! The files of a directory of ORL logs, `<root>/<channel>/<day>.txt` or
//! `<day>.txt.gz`, and the records in them.

use crate::formats::orl::Clean;
use crate::formats::orl::OrlLog;
use crate::sources::orl::line_parser::parse_orl_log;
use crate::sources::orl::line_parser::parsed_line;
use crate::sources::orl::line_parser::LineRecord;
use crate::text::ends_with;
use crate::text::ends_with_spec;
use crate::text::has_extension;
use crate::text::has_extension_spec;
use crate::text::lines;
use crate::text::normal_channel;
use crate::text::lines_spec;
use crate::text::trim;
use crate::text::trim_spec;
use vstd::prelude::*;

verus! {

/// A file of logs and the channel that it belongs to.
#[derive(Clone, Debug, PartialEq, Eq)]
pub struct OrlDirFile {
    pub path: String,
    pub channel: String,
}

/// One line of a file and the channel that it belongs to, not yet read.
#[derive(Clone, Debug, PartialEq, Eq)]
pub struct MinimalOrlLine {
    pub channel: String,
    pub line: String,
}

/// Whether a file name is that of a file of logs: it ends with `.txt` or
/// with `.txt.gz`.
pub open spec fn is_orl_file_spec(path: Seq<char>) -> bool {
    ends_with_spec(path, ".txt"@) || ends_with_spec(path, ".txt.gz"@)
}

/// Whether a file name is that of a file of logs.
pub fn is_orl_file(path: &str) -> (r: bool)
    ensures
        r == is_orl_file_spec(path@),
{
    ends_with(path, ".txt") || ends_with(path, ".txt.gz")
}

/// Whether a file is to be read through gzip: its extension is `gz`.
pub fn is_gzip_file(path: &str) -> (r: bool)
    ensures
        r == has_extension_spec(path@, "gz"@),
{
    has_extension(path, "gz")
}

/// The files of logs among the entries of the directory of `channel`, in
/// the order of the entries.
pub fn orl_files_of(entries: &Vec<String>, channel: &str) -> (r: Vec<OrlDirFile>)
    ensures
        r@.map_values(|f: OrlDirFile| f.path@) == crate::text::views(entries@).filter(
            |p: Seq<char>| is_orl_file_spec(p),
        ),
        forall|i: int| 0 <= i < r.len() ==> (#[trigger] r[i]).channel@ == channel@,
{
    let mut r: Vec<OrlDirFile> = Vec::new();
    let mut i: usize = 0;
    let ghost keep = |p: Seq<char>| is_orl_file_spec(p);
    while i < entries.len()
        invariant
            i <= entries.len(),
            keep == |p: Seq<char>| is_orl_file_spec(p),
            r@.map_values(|f: OrlDirFile| f.path@) == crate::text::views(entries@.take(i as int)).filter(
                keep,
            ),
            forall|k: int| 0 <= k < r.len() ==> (#[trigger] r[k]).channel@ == channel@,
        decreases entries.len() - i,
    {
        let ghost before = crate::text::views(entries@.take(i as int));
        let ghost after = crate::text::views(entries@.take(i + 1));
        let ghost paths = r@.map_values(|f: OrlDirFile| f.path@);
        proof {
            assert(after =~= before.push(entries@[i as int]@));
            assert(after.drop_last() =~= before);
            reveal(Seq::filter);
        }
        if is_orl_file(entries[i].as_str()) {
            r.push(OrlDirFile { path: entries[i].clone(), channel: channel.to_owned() });
            assert(r@.map_values(|f: OrlDirFile| f.path@) =~= paths.push(entries@[i as int]@));
        }
        i += 1;
    }
    assert(entries@.take(entries.len() as int) =~= entries@);
    r
}

/// The lines of a file, each with the channel of the file.
pub fn parse_minimal_lines(contents: String, channel: &str) -> (r: Vec<MinimalOrlLine>)
    ensures
        r@.map_values(|l: MinimalOrlLine| l.line@) == lines_spec(contents@),
        forall|i: int| 0 <= i < r.len() ==> (#[trigger] r[i]).channel@ == channel@,
{
    let all = lines(contents.as_str());
    let mut r: Vec<MinimalOrlLine> = Vec::new();
    let mut i: usize = 0;
    while i < all.len()
        invariant
            i <= all.len(),
            r.len() == i,
            forall|k: int| 0 <= k < i ==> (#[trigger] r[k]).line@ == all[k]@,
            forall|k: int| 0 <= k < i ==> (#[trigger] r[k]).channel@ == channel@,
        decreases all.len() - i,
    {
        r.push(MinimalOrlLine { line: all[i].clone(), channel: channel.to_owned() });
        i += 1;
    }
    assert(r@.map_values(|l: MinimalOrlLine| l.line@) =~= crate::text::views(all@));
    r
}

/// Whether a line, trimmed, is a log line.
pub open spec fn is_log_line(line: Seq<char>) -> bool {
    parsed_line(trim_spec(line)) is Some
}

/// What the record of a line of the file of `channel` must be.
pub open spec fn record_of(line: Seq<char>, channel: Seq<char>, log: OrlLog<Clean>) -> bool {
    &&& log.ts.wf()
    &&& parsed_line(trim_spec(line)) == Some(
        LineRecord { date: log.ts.date(), username: log.username@, text: log.text@ },
    )
    &&& log.channel@ == normal_channel(channel)
}

/// The records of a file of `channel`: one for each line that is a log
/// line, in the order of the lines. The other lines are passed over.
pub fn parse_contents_to_logs(contents: String, channel: &str) -> (r: Vec<OrlLog<Clean>>)
    ensures
        r.len() == lines_spec(contents@).filter(|l: Seq<char>| is_log_line(l)).len(),
        forall|i: int|
            0 <= i < r.len() ==> record_of(
                lines_spec(contents@).filter(|l: Seq<char>| is_log_line(l))[i],
                channel@,
                #[trigger] r[i],
            ),
{
    let all = lines(contents.as_str());
    let mut r: Vec<OrlLog<Clean>> = Vec::new();
    let mut i: usize = 0;
    let ghost keep = |l: Seq<char>| is_log_line(l);
    let ghost texts = crate::text::views(all@);
    while i < all.len()
        invariant
            i <= all.len(),
            keep == |l: Seq<char>| is_log_line(l),
            texts == crate::text::views(all@),
            r.len() == texts.take(i as int).filter(keep).len(),
            forall|k: int|
                0 <= k < r.len() ==> record_of(
                    texts.take(i as int).filter(keep)[k],
                    channel@,
                    #[trigger] r[k],
                ),
        decreases all.len() - i,
    {
        let ghost before = texts.take(i as int);
        let ghost after = texts.take(i + 1);
        proof {
            assert(after =~= before.push(all@[i as int]@));
            assert(after.drop_last() =~= before);
            reveal(Seq::filter);
        }
        let line = trim(all[i].as_str());
        match parse_orl_log(channel.to_owned(), line.as_str()) {
            Ok(log) => {
                assert(after.filter(keep) =~= before.filter(keep).push(all@[i as int]@));
                r.push(log);
            },
            Err(_) => {
                assert(after.filter(keep) =~= before.filter(keep));
            },
        }
        i += 1;
    }
    assert(texts.take(all.len() as int) =~= texts);
    r
}

} // verus!
