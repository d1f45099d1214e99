//! The layout of the store that keeps every fetch as a snapshot file of its
//! own, of which the newest is read.

use crate::cache::{fresh, CacheManager};
use crate::model::{opt_view, CachedReleases};
use crate::text::{
    chars_equal, last_index_of, last_position, lemma_last_index_of, str_chars, sub_chars,
};
use crate::time::{format_with, formatted_text, Timestamp};
use vstd::prelude::*;
use vstd::string::StringExecFns;

verus! {

/// The beginning of a snapshot's file name.
pub const SNAPSHOT_PREFIX: &'static str = "cache-";

/// The ending of a snapshot's file name.
pub const SNAPSHOT_SUFFIX: &'static str = ".json";

/// The form of the instant in a snapshot's file name.
pub const SNAPSHOT_STAMP: &'static str = "%Y%m%d_%H%M%S";

/// The extension that marks a snapshot.
pub const SNAPSHOT_EXTENSION: &'static str = "json";

/// The name of the snapshot file of a fetch made at `now`.
pub open spec fn snapshot_name_of(now: Timestamp) -> Option<Seq<char>> {
    match formatted_text(now, SNAPSHOT_STAMP@) {
        Some(stamp) => Some(SNAPSHOT_PREFIX@ + stamp + SNAPSHOT_SUFFIX@),
        None => None,
    }
}

/// The name of the snapshot file of a fetch made at `now`: `cache-`, the
/// instant to the second, and `.json`. There is none for an instant that
/// cannot be written as a date.
pub fn snapshot_file_name(now: Timestamp) -> (r: Option<String>)
    ensures
        opt_view(r) == snapshot_name_of(now),
{
    match format_with(now, SNAPSHOT_STAMP) {
        Some(stamp) => {
            let mut name = String::from_str(SNAPSHOT_PREFIX);
            name.append(stamp.as_str());
            name.append(SNAPSHOT_SUFFIX);
            Some(name)
        },
        None => None,
    }
}

/// A file is a snapshot if its name has the extension `json`: if `json` is
/// all that follows its last dot, and that dot does not begin the name.
pub open spec fn is_snapshot_name(name: Seq<char>) -> bool {
    match last_index_of(name, '.') {
        Some(p) => p > 0 && name.skip(p + 1) == SNAPSHOT_EXTENSION@,
        None => false,
    }
}

/// Whether a file name is that of a snapshot.
pub fn names_snapshot(name: &str) -> (r: bool)
    ensures
        r == is_snapshot_name(name@),
{
    let chars = str_chars(name);
    match last_position(&chars, '.') {
        Some(p) => {
            assert(p < chars.len()) by {
                lemma_last_index_of(chars@, '.');
            }
            p > 0 && chars_equal(
                &sub_chars(&chars, p + 1, chars.len()),
                &str_chars(SNAPSHOT_EXTENSION),
            )
        },
        None => false,
    }
}

/// A file of an entry's directory: its name and the instant at which it
/// was last modified.
#[derive(Clone, Debug, PartialEq, Eq)]
pub struct StoredFile {
    pub name: String,
    pub modified: Timestamp,
}

/// The file at `i` is the newest snapshot: it is a snapshot, no snapshot
/// was modified later, and of the snapshots modified at the same instant
/// it is the last.
pub open spec fn is_newest_snapshot(files: Seq<StoredFile>, i: int) -> bool {
    &&& 0 <= i < files.len()
    &&& is_snapshot_name(files[i].name@)
    &&& forall|j: int|
        0 <= j < files.len() && is_snapshot_name((#[trigger] files[j]).name@)
            ==> files[j].modified.instant() <= files[i].modified.instant()
    &&& forall|j: int|
        i < j < files.len() && is_snapshot_name((#[trigger] files[j]).name@)
            ==> files[j].modified.instant() < files[i].modified.instant()
}

/// Picks the snapshot to read: the one modified last and, of several
/// modified at the same instant, the last in the listing. There is none
/// exactly when no file is a snapshot.
pub fn latest_snapshot(files: &Vec<StoredFile>) -> (r: Option<usize>)
    ensures
        match r {
            Some(i) => is_newest_snapshot(files@, i as int),
            None => forall|j: int|
                0 <= j < files.len() ==> !is_snapshot_name((#[trigger] files@[j]).name@),
        },
{
    let mut best: Option<usize> = None;
    let mut i: usize = 0;
    while i < files.len()
        invariant
            i <= files.len(),
            match best {
                Some(b) => b < i && is_newest_snapshot(files@.take(i as int), b as int),
                None => forall|j: int|
                    0 <= j < i ==> !is_snapshot_name((#[trigger] files@[j]).name@),
            },
        decreases files.len() - i,
    {
        let ghost seen = files@.take(i as int);
        let ghost more = files@.take(i + 1);
        assert(forall|j: int| 0 <= j < i ==> seen[j] == more[j]);
        assert(more[i as int] == files@[i as int]);
        if names_snapshot(files[i].name.as_str()) {
            let newer = match best {
                Some(b) => files[i].modified.nanos_since_epoch()
                    >= files[b].modified.nanos_since_epoch(),
                None => true,
            };
            if newer {
                best = Some(i);
            }
        }
        i += 1;
    }
    assert(files@.take(files@.len() as int) == files@);
    best
}

/// What a reader serves of a stored entry: the entry, if it is fresh at
/// `now` by the store's time-to-live, else nothing.
pub fn serve_if_fresh(manager: &CacheManager, entry: CachedReleases, now: Timestamp) -> (r:
    Option<CachedReleases>)
    ensures
        r == if fresh(Some(entry.cached_at), now, manager.cache_hours) {
            Some(entry)
        } else {
            None
        },
{
    if manager.is_expired(entry.cached_at, now) {
        None
    } else {
        Some(entry)
    }
}

} // verus!
