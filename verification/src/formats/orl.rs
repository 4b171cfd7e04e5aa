//! A log record of an ORL file, raw as read or clean as stored.

use crate::formats::unified::CommonKey;
use crate::formats::unified::OrlLog1_0;
use crate::text::hex_fixed;
use crate::text::lemma_normal_channel_idempotent;
use crate::text::normal_channel;
use crate::text::normalize_channel;
use crate::text::plain_initial;
use crate::text::int_text;
use crate::text::lemma_lower_idempotent;
use crate::text::lemma_trim_idempotent;
use crate::text::lemma_trim_lower;
use crate::text::lemma_trim_trimmed;
use crate::text::lower_spec;
use crate::text::push_hex_fixed;
use crate::text::push_int;
use crate::text::push_text;
use crate::text::to_ascii_lowercase;
use crate::text::trim;
use crate::text::trim_spec;
use crate::time::Timestamp;
use std::marker::PhantomData;
use vstd::prelude::*;

verus! {

/// What one line of an ORL file holds.
#[derive(Debug, PartialEq, Eq)]
pub struct RawOrlLog {
    pub ts: Timestamp,
    pub username: String,
    pub text: String,
}

/// Marks a record whose fields are as they were read.
#[derive(Debug, Clone, PartialEq)]
pub struct Raw;

/// Marks a record whose fields went through normalization.
#[derive(Debug, Clone, PartialEq)]
pub struct Clean;

/// A log record: who said what, where and when.
#[derive(Debug, PartialEq, Eq)]
pub struct OrlLog<S = Raw> {
    pub ts: Timestamp,
    pub username: String,
    pub text: String,
    pub channel: String,
    pub _s: PhantomData<S>,
}

/// A record as mathematics sees it, whatever its mark.
pub struct OrlLogView {
    pub ts: Timestamp,
    pub username: Seq<char>,
    pub text: Seq<char>,
    pub channel: Seq<char>,
}

impl<S> View for OrlLog<S> {
    type V = OrlLogView;

    open spec fn view(&self) -> OrlLogView {
        OrlLogView {
            ts: self.ts,
            username: self.username@,
            text: self.text@,
            channel: self.channel@,
        }
    }
}

impl<S> Clone for OrlLog<S> {
    fn clone(&self) -> (r: Self)
        ensures
            r@ == self@,
    {
        OrlLog {
            ts: self.ts,
            username: self.username.clone(),
            text: self.text.clone(),
            channel: self.channel.clone(),
            _s: PhantomData,
        }
    }
}

/// How a user name is normalized: trimmed, then ASCII lower-cased.
pub open spec fn normal_username(s: Seq<char>) -> Seq<char> {
    lower_spec(trim_spec(s))
}

/// How the text of a record is normalized: trimmed, and otherwise kept.
pub open spec fn normal_text(s: Seq<char>) -> Seq<char> {
    trim_spec(s)
}

/// The normalized form of a record: the user name trimmed and ASCII
/// lower-cased, the text trimmed, the channel name trimmed and its first
/// letter capitalized. The time is kept.
pub open spec fn normalized(v: OrlLogView) -> OrlLogView {
    OrlLogView {
        ts: v.ts,
        username: normal_username(v.username),
        text: normal_text(v.text),
        channel: normal_channel(v.channel),
    }
}

/// The 32-bit xxHash, seed 0, of a text as `str` feeds it to a hasher.
pub uninterp spec fn xx_hash32(s: Seq<char>) -> u32;

/// The `max_characters` leading hexadecimal digits of the hash of `s`.
pub open spec fn squashed(s: Seq<char>, max_characters: nat) -> Seq<char> {
    hex_fixed((xx_hash32(s) >> ((32 - 4 * max_characters) as u32)) as nat, max_characters)
}

/// The id of a record: its time in milliseconds and the hashes of channel,
/// user name and text, joined by `-`.
pub open spec fn id_text(v: OrlLogView) -> Seq<char> {
    int_text(v.ts.millis()) + seq!['-'] + squashed(v.channel, 8) + seq!['-'] + squashed(
        v.username,
        8,
    ) + seq!['-'] + squashed(v.text, 8)
}

/// `fasthash::xx::Hasher32`, fed by `Hash for str` and finished: a function
/// of the text alone.
#[verifier::external_body]
fn hash(t: &str) -> (h: u32)
    ensures
        h == xx_hash32(t@),
{
    let mut s: fasthash::xx::Hasher32 = Default::default();
    std::hash::Hash::hash(t, &mut s);
    std::hash::Hasher::finish(&s) as u32
}

/// The `max_characters` leading hexadecimal digits of the hash of `s`, zero
/// padded.
pub fn squash_hash(s: &str, max_characters: u8) -> (r: String)
    requires
        1 <= max_characters <= 8,
    ensures
        r@ == squashed(s@, max_characters as nat),
{
    let hash_result: u32 = hash(s);
    let less_precision: u32 = 32 - (max_characters as u32) * 4;
    let reduced_hash: u32 = hash_result >> less_precision;
    let mut r = String::new();
    push_hex_fixed(&mut r, reduced_hash, max_characters);
    r
}

impl OrlLog<Raw> {
    /// The record with its fields normalized: the user name trimmed and
    /// ASCII lower-cased, the text trimmed, the channel name trimmed and
    /// its first letter capitalized. A newline inside the text stays: it
    /// is the reader of log lines that makes it a space.
    pub fn normalize(&self) -> (r: OrlLog<Clean>)
        ensures
            r@ == normalized(self@),
    {
        let trimmed_name = trim(self.username.as_str());
        OrlLog {
            ts: self.ts,
            username: to_ascii_lowercase(trimmed_name.as_str()),
            text: trim(self.text.as_str()),
            channel: normalize_channel(self.channel.as_str()),
            _s: PhantomData::<Clean>,
        }
    }
}

impl OrlLog<Clean> {
    /// The id under which the record is stored.
    pub fn get_id(&self) -> (r: String)
        ensures
            r@ == id_text(self@),
    {
        let hash_channel = squash_hash(self.channel.as_str(), 8);
        let hash_username = squash_hash(self.username.as_str(), 8);
        let hash_text = squash_hash(self.text.as_str(), 8);
        let mut r = String::new();
        push_int(&mut r, self.ts.timestamp_millis());
        push_text(&mut r, "-");
        push_text(&mut r, hash_channel.as_str());
        push_text(&mut r, "-");
        push_text(&mut r, hash_username.as_str());
        push_text(&mut r, "-");
        push_text(&mut r, hash_text.as_str());
        proof {
            reveal_strlit("-");
            assert("-"@ =~= seq!['-']);
        }
        r
    }

    /// The record as one of kind `orl-log/1.0`.
    pub fn to_unified(self) -> (r: OrlLog1_0)
        ensures
            r.key.id@ == id_text(self@),
            r.key.timestamp == self.ts.millis(),
            r.username@ == self.username@,
            r.channel_name@ == self.channel@,
            r.text@ == self.text@,
    {
        OrlLog1_0 {
            key: CommonKey { id: self.get_id(), timestamp: self.get_unix_millis() },
            username: self.username,
            channel_name: self.channel,
            text: self.text,
        }
    }
}

impl<S> OrlLog<S> {
    /// The record that a line of the file of `channel` stands for.
    pub fn from_raw(raw: RawOrlLog, channel: &str) -> (r: OrlLog<Raw>)
        ensures
            r@ == (OrlLogView {
                ts: raw.ts,
                username: raw.username@,
                text: raw.text@,
                channel: channel@,
            }),
    {
        OrlLog {
            channel: channel.to_owned(),
            ts: raw.ts,
            username: raw.username,
            text: raw.text,
            _s: PhantomData::<Raw>,
        }
    }

    /// The time of the record in milliseconds from the Unix epoch.
    pub fn get_unix_millis(&self) -> (ms: i64)
        ensures
            ms == self.ts.millis(),
    {
        self.ts.timestamp_millis()
    }
}

/// A normalized user name is left as it is when it is normalized again.
pub proof fn lemma_normal_username_idempotent(s: Seq<char>)
    ensures
        normal_username(normal_username(s)) == normal_username(s),
{
    let t = trim_spec(s);
    lemma_trim_lower(t);
    lemma_trim_idempotent(s);
    lemma_trim_lower(s);
    lemma_trim_trimmed(lower_spec(t));
    lemma_lower_idempotent(t);
}

/// A normalized text is left as it is when it is normalized again.
pub proof fn lemma_normal_text_idempotent(s: Seq<char>)
    ensures
        normal_text(normal_text(s)) == normal_text(s),
{
    lemma_trim_idempotent(s);
}

/// Normalizing twice is normalizing once, for every record whose channel
/// name, trimmed, is empty or starts with an ASCII character.
pub proof fn lemma_normalize_idempotent(v: OrlLogView)
    requires
        plain_initial(v.channel),
    ensures
        normalized(normalized(v)) == normalized(v),
{
    lemma_normal_username_idempotent(v.username);
    lemma_normal_text_idempotent(v.text);
    lemma_normal_channel_idempotent(v.channel);
}

/// The id of a normalized record is the id of the record normalized again:
/// the id depends on the normalized fields alone. This holds for every
/// record whose channel name, trimmed, is empty or starts with an ASCII
/// character.
pub proof fn lemma_id_of_normalized(v: OrlLogView)
    requires
        plain_initial(v.channel),
    ensures
        id_text(normalized(normalized(v))) == id_text(normalized(v)),
{
    lemma_normalize_idempotent(v);
}

} // verus!
