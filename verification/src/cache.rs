//! The rules of the store that keeps one entry per repository: where an
//! entry lies, how its timestamp is written down, when it has expired, and
//! in which order its records are written.

use crate::model::{opt_view, AppError};
use crate::text::texts_of;
use crate::time::{
    expired, format_rfc3339, is_expired_at, parse_rfc3339, rfc3339_instant, rfc3339_text, trim,
    trimmed, Timestamp,
};
use vstd::prelude::*;
use vstd::string::StringExecFns;

verus! {

/// The file of an entry that holds the instant of its last fetch.
pub const TIMESTAMP_FILE: &'static str = ".current";

/// The file of an entry that holds its releases.
pub const RELEASES_FILE: &'static str = ".json";

/// The file of an entry that holds its rendered page.
pub const HTML_FILE: &'static str = "index.html";

/// The directory below the cache directory in which all entries lie.
pub const ENTRIES_DIR: &'static str = "repo";

/// An entry is fresh at `now` if it has a timestamp and that timestamp has
/// not expired.
pub open spec fn fresh(cached_at: Option<Timestamp>, now: Timestamp, ttl_hours: i64) -> bool {
    match cached_at {
        Some(t) => !expired(t, now, ttl_hours),
        None => false,
    }
}

/// Where the cache lies and for how many hours an entry stays fresh. The
/// time-to-live is one for the whole store.
#[derive(Clone, Debug, PartialEq, Eq)]
pub struct CacheManager {
    pub cache_dir: String,
    pub cache_hours: i64,
}

impl CacheManager {
    /// A store in `cache_dir` whose entries stay fresh for `cache_hours`
    /// hours.
    pub fn new(cache_dir: String, cache_hours: i64) -> (m: CacheManager)
        ensures
            m.cache_dir == cache_dir,
            m.cache_hours == cache_hours,
    {
        CacheManager { cache_dir, cache_hours }
    }

    /// The directory of a repository's entry, as the components of its
    /// path: the cache directory, `repo`, then host, owner and repository.
    pub fn get_repo_dir(&self, host: &str, owner: &str, repo: &str) -> (dir: Vec<String>)
        ensures
            texts_of(dir@) == seq![self.cache_dir@, ENTRIES_DIR@, host@, owner@, repo@],
    {
        let mut dir: Vec<String> = Vec::new();
        dir.push(self.cache_dir.clone());
        dir.push(String::from_str(ENTRIES_DIR));
        dir.push(String::from_str(host));
        dir.push(String::from_str(owner));
        dir.push(String::from_str(repo));
        assert(texts_of(dir@) =~= seq![self.cache_dir@, ENTRIES_DIR@, host@, owner@, repo@]);
        dir
    }

    /// Whether an entry fetched at `cached_at` has expired at `now`: whether
    /// more than the time-to-live lies between the two.
    pub fn is_expired(&self, cached_at: Timestamp, now: Timestamp) -> (r: bool)
        ensures
            r == expired(cached_at, now, self.cache_hours),
    {
        is_expired_at(cached_at, now, self.cache_hours)
    }

    /// Whether an entry with the timestamp `cached_at`, if it has one, can be
    /// served at `now` without asking upstream.
    pub fn is_fresh(&self, cached_at: Option<Timestamp>, now: Timestamp) -> (r: bool)
        ensures
            r == fresh(cached_at, now, self.cache_hours),
    {
        match cached_at {
            Some(t) => !self.is_expired(t, now),
            None => false,
        }
    }
}

/// The message with which an unreadable timestamp is reported.
pub const BAD_TIMESTAMP: &'static str = "Failed to parse timestamp";

/// What a stored timestamp stands for, given what reading it as RFC 3339
/// gave: the instant, or the error that reports malformed stored data.
pub fn timestamp_or_error(parsed: Result<Timestamp, chrono::ParseError>) -> (r: Result<
    Timestamp,
    AppError,
>)
    ensures
        match parsed {
            Ok(t) => r == Ok::<Timestamp, AppError>(t),
            Err(_) => r matches Err(AppError::CacheError(m)) && m@ == BAD_TIMESTAMP@,
        },
{
    match parsed {
        Ok(t) => Ok(t),
        Err(_) => Err(AppError::CacheError(String::from_str(BAD_TIMESTAMP))),
    }
}

/// Reads the content of a timestamp file: the instant that the content,
/// without the white space around it, denotes in the RFC 3339 notation.
/// Content that denotes none is reported as malformed.
pub fn decode_timestamp(content: &str) -> (r: Result<Timestamp, AppError>)
    ensures
        match rfc3339_instant(trimmed(content@)) {
            Some(t) => r == Ok::<Timestamp, AppError>(t),
            None => r matches Err(AppError::CacheError(m)) && m@ == BAD_TIMESTAMP@,
        },
{
    timestamp_or_error(parse_rfc3339(trim(content)))
}

/// The content of the timestamp file for an entry fetched at `now`: the
/// instant in the RFC 3339 notation. There is none for an instant outside
/// the dates that the notation's writer can hold.
pub fn encode_timestamp(now: Timestamp) -> (r: Option<String>)
    ensures
        opt_view(r) == rfc3339_text(now),
{
    format_rfc3339(now)
}

/// One of the three records of an entry.
#[derive(Clone, Copy, Debug, PartialEq, Eq, Structural)]
pub enum Record {
    /// The releases.
    Releases,
    /// The rendered page.
    Html,
    /// The instant of the fetch.
    Timestamp,
}

/// What lies in the store for one key: for each record, the instant of the
/// fetch from which it comes, if the record is there.
pub struct Stored {
    pub releases: Option<Timestamp>,
    pub html: Option<Timestamp>,
    pub timestamp: Option<Timestamp>,
}

/// The order in which a fetch writes its records: the payload first, the
/// timestamp last.
pub open spec fn write_order() -> Seq<Record> {
    seq![Record::Releases, Record::Html, Record::Timestamp]
}

/// The record to write next, if any. `written` is the number of records
/// that have been written so far, and `last_succeeded` tells whether the
/// last attempt to write succeeded. The records are written in the write
/// order, and a failed write ends the writing: what follows the failed
/// record is not written, so that a timestamp is never written over a
/// payload that is not there.
pub open spec fn next_write_of(written: nat, last_succeeded: bool) -> Option<Record> {
    if last_succeeded && written < write_order().len() {
        Some(write_order()[written as int])
    } else {
        None
    }
}

/// The record to write next, if any.
pub fn next_write(written: usize, last_succeeded: bool) -> (r: Option<Record>)
    ensures
        r == next_write_of(written as nat, last_succeeded),
{
    if !last_succeeded {
        None
    } else if written == 0 {
        Some(Record::Releases)
    } else if written == 1 {
        Some(Record::Html)
    } else if written == 2 {
        Some(Record::Timestamp)
    } else {
        None
    }
}

/// The store after the fetch made at `at` has written one record.
pub open spec fn after_write(s: Stored, record: Record, at: Timestamp) -> Stored {
    match record {
        Record::Releases => Stored { releases: Some(at), ..s },
        Record::Html => Stored { html: Some(at), ..s },
        Record::Timestamp => Stored { timestamp: Some(at), ..s },
    }
}

/// The store after the fetch made at `at` has written these records, one
/// after the other.
pub open spec fn after_writes(s: Stored, records: Seq<Record>, at: Timestamp) -> Stored
    decreases records.len(),
{
    if records.len() == 0 {
        s
    } else {
        after_write(after_writes(s, records.drop_last(), at), records.last(), at)
    }
}

/// `record`, if it is there, comes from a fetch made at `t` or later.
pub open spec fn not_older(record: Option<Timestamp>, t: Timestamp) -> bool {
    match record {
        Some(r) => r.instant() >= t.instant(),
        None => false,
    }
}

/// The timestamp never runs ahead of the payload: where there is a
/// timestamp, releases and page are there and come from the fetch that the
/// timestamp names, or from a later one.
pub open spec fn timestamp_protects_payload(s: Stored) -> bool {
    match s.timestamp {
        Some(t) => not_older(s.releases, t) && not_older(s.html, t),
        None => true,
    }
}

/// Writing in the write order is safe at every step. Let the store be in
/// order, and let a fetch made no earlier than the stored timestamp write
/// its records. Then after each of its writes, and so for every reader
/// that looks between two writes, the timestamp does not run ahead of the
/// payload; and once the new timestamp can be seen, the new releases and
/// the new page can be seen.
pub proof fn lemma_write_order_is_safe(s: Stored, at: Timestamp, written: int)
    requires
        timestamp_protects_payload(s),
        s.timestamp matches Some(t) ==> t.instant() <= at.instant(),
        0 <= written <= write_order().len(),
    ensures
        timestamp_protects_payload(after_writes(s, write_order().take(written), at)),
        after_writes(s, write_order().take(written), at).timestamp == Some(at) && s.timestamp
            != Some(at) ==> after_writes(s, write_order().take(written), at).releases == Some(at)
            && after_writes(s, write_order().take(written), at).html == Some(at),
{
    let order = write_order();
    assert(order.take(0) =~= Seq::<Record>::empty());
    assert(order.take(1).drop_last() =~= order.take(0));
    assert(order.take(2).drop_last() =~= order.take(1));
    assert(order.take(3).drop_last() =~= order.take(2));
    let s0 = after_writes(s, order.take(0), at);
    let s1 = after_writes(s, order.take(1), at);
    let s2 = after_writes(s, order.take(2), at);
    let s3 = after_writes(s, order.take(3), at);
    assert(s0 == s);
    assert(s1 == after_write(s0, Record::Releases, at));
    assert(s2 == after_write(s1, Record::Html, at));
    assert(s3 == after_write(s2, Record::Timestamp, at));
}

} // verus!
