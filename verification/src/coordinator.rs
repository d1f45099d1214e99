//! The fetch coordinator: for a repository key it decides whether cached
//! data is served, a placeholder is served, an error is served, or a fetch
//! is started, and it sees to it that a key never has two fetches in
//! flight.
//!
//! The coordinator neither fetches nor touches the disk. Its caller reads
//! the entry's timestamp and the clock and hands both in; it performs the
//! fetch that a decision asks for and reports how the fetch ended. Every
//! decision takes the coordinator by `&mut`, so the test for a fetch in
//! flight and the entry into the set of pending keys are one step.

use crate::cache::{fresh, CacheManager};
use crate::keys::{ErrorMap, KeySet};
use crate::model::{AppError, CachedReleases, Release, RepoPath};
use crate::time::Timestamp;
use vstd::prelude::*;

verus! {

/// The coordinator's state: the store's settings, the keys with a fetch in
/// flight, and the last failure of the keys whose fetch failed.
pub struct AppState {
    pub cache: CacheManager,
    pub pending_repos: KeySet,
    pub failed_repos: ErrorMap,
}

/// The coordinator's state as mathematics.
pub struct CoordinatorView {
    pub ttl_hours: i64,
    pub pending: Set<Seq<char>>,
    pub failed: Map<Seq<char>, Seq<char>>,
}

impl View for AppState {
    type V = CoordinatorView;

    open spec fn view(&self) -> CoordinatorView {
        CoordinatorView {
            ttl_hours: self.cache.cache_hours,
            pending: self.pending_repos@,
            failed: self.failed_repos@,
        }
    }
}

/// The state of a key, as a request finds it.
pub enum KeyState {
    /// The entry has a timestamp that has not expired.
    Fresh,
    /// No fresh entry, and the last fetch failed with this message.
    Failed(Seq<char>),
    /// No fresh entry, no failure on record, and a fetch is in flight.
    Pending,
    /// No fresh entry, no failure on record, no fetch in flight.
    Stale,
}

/// How a request for a key is answered.
#[derive(Clone, Debug, PartialEq, Eq)]
pub enum FetchResult {
    /// Serve what the store holds.
    Cached,
    /// Serve the placeholder: a fetch is under way.
    Processing,
    /// Serve the error page with this message.
    Error(String),
}

/// The answer to a request, and whether the caller is to start a fetch.
#[derive(Clone, Debug, PartialEq, Eq)]
pub struct FetchPlan {
    pub result: FetchResult,
    pub spawn: bool,
}

/// The state in which a request at `now` finds `key`, whose entry has the
/// timestamp `cached_at` if it has one. Freshness comes first, then a
/// recorded failure, then a fetch in flight.
pub open spec fn key_state(
    s: CoordinatorView,
    key: Seq<char>,
    cached_at: Option<Timestamp>,
    now: Timestamp,
) -> KeyState {
    if fresh(cached_at, now, s.ttl_hours) {
        KeyState::Fresh
    } else if s.failed.contains_key(key) {
        KeyState::Failed(s.failed[key])
    } else if s.pending.contains(key) {
        KeyState::Pending
    } else {
        KeyState::Stale
    }
}

/// The coordinator after a request: a stale key becomes pending, and
/// nothing else changes.
pub open spec fn after_request(
    s: CoordinatorView,
    key: Seq<char>,
    cached_at: Option<Timestamp>,
    now: Timestamp,
) -> CoordinatorView {
    if key_state(s, key, cached_at, now) is Stale {
        CoordinatorView { pending: s.pending.insert(key), ..s }
    } else {
        s
    }
}

/// The coordinator after the fetch for `key` has ended, with `error` if it
/// failed: the key is no longer pending, and its failure is recorded or
/// cleared.
pub open spec fn after_fetch(
    s: CoordinatorView,
    key: Seq<char>,
    error: Option<Seq<char>>,
) -> CoordinatorView {
    CoordinatorView {
        pending: s.pending.remove(key),
        failed: match error {
            Some(m) => s.failed.insert(key, m),
            None => s.failed.remove(key),
        },
        ..s
    }
}

/// The coordinator after a fetch outside the pending set has ended: only
/// the record of failures changes.
pub open spec fn after_blocking_fetch(
    s: CoordinatorView,
    key: Seq<char>,
    error: Option<Seq<char>>,
) -> CoordinatorView {
    CoordinatorView {
        failed: match error {
            Some(m) => s.failed.insert(key, m),
            None => s.failed.remove(key),
        },
        ..s
    }
}

/// The answer that goes with a state: cached data for a fresh key, the
/// recorded message for a failed one, the placeholder otherwise.
pub open spec fn answers(r: FetchResult, state: KeyState) -> bool {
    match state {
        KeyState::Fresh => r is Cached,
        KeyState::Failed(m) => r matches FetchResult::Error(e) && e@ == m,
        KeyState::Pending => r is Processing,
        KeyState::Stale => r is Processing,
    }
}

/// The message of a failed fetch, if it failed.
pub open spec fn error_of<T>(outcome: Result<T, String>) -> Option<Seq<char>> {
    match outcome {
        Ok(_) => None,
        Err(m) => Some(m@),
    }
}

impl AppState {
    /// A coordinator with no fetch in flight and no failure on record.
    pub fn new(cache_dir: String, cache_hours: i64) -> (s: AppState)
        ensures
            s.cache.cache_dir == cache_dir,
            s@.ttl_hours == cache_hours,
            s@.pending == Set::<Seq<char>>::empty(),
            s@.failed == Map::<Seq<char>, Seq<char>>::empty(),
    {
        AppState {
            cache: CacheManager::new(cache_dir, cache_hours),
            pending_repos: KeySet::new(),
            failed_repos: ErrorMap::new(),
        }
    }
}

/// Answers a request for `repo` at `now`, where `cached_at` is the timestamp
/// of the repository's entry, if the store has one that can be read.
///
/// A fresh entry is served. Else a recorded failure is served, without a new
/// attempt and in preference to an expired entry that may still lie in the
/// store. Else, if a fetch is in flight, the placeholder is served. Else
/// the key becomes pending, the placeholder is served, and the caller is
/// told to start the fetch: `spawn` is true in this case and in no other.
pub fn get_or_spawn_fetch(
    state: &mut AppState,
    repo: &RepoPath,
    cached_at: Option<Timestamp>,
    now: Timestamp,
) -> (plan: FetchPlan)
    ensures
        answers(plan.result, key_state(old(state)@, repo.key(), cached_at, now)),
        plan.spawn == (key_state(old(state)@, repo.key(), cached_at, now) is Stale),
        final(state)@ == after_request(old(state)@, repo.key(), cached_at, now),
        final(state).cache == old(state).cache,
{
    if state.cache.is_fresh(cached_at, now) {
        return FetchPlan { result: FetchResult::Cached, spawn: false };
    }
    let key = repo.cache_key();
    match state.failed_repos.get(&key) {
        Some(message) => {
            return FetchPlan { result: FetchResult::Error(message), spawn: false };
        },
        None => {},
    }
    if state.pending_repos.contains(&key) {
        return FetchPlan { result: FetchResult::Processing, spawn: false };
    }
    state.pending_repos.insert(key);
    FetchPlan { result: FetchResult::Processing, spawn: true }
}

/// Records the end of the fetch that `get_or_spawn_fetch` asked for. The key
/// leaves the pending set, however the fetch ended. A success clears the
/// key's failure; a failure is recorded with its message. No other key is
/// touched.
pub fn finish_fetch(state: &mut AppState, repo: &RepoPath, outcome: Result<(), String>)
    ensures
        final(state)@ == after_fetch(old(state)@, repo.key(), error_of(outcome)),
        final(state).cache == old(state).cache,
{
    let key = repo.cache_key();
    state.pending_repos.remove(&key);
    match outcome {
        Ok(_) => {
            state.failed_repos.remove(&key);
        },
        Err(message) => {
            state.failed_repos.insert(key, message);
        },
    }
}

/// The entry to store for releases fetched at `now`.
pub fn new_entry(repo: &RepoPath, releases: Vec<Release>, now: Timestamp) -> (entry: CachedReleases)
    ensures
        entry.releases == releases,
        entry.cached_at == now,
        entry.repo_path@ == repo.key(),
{
    CachedReleases { releases, cached_at: now, repo_path: repo.cache_key() }
}

/// Ends a fetch that was made for one caller who waits for its result, and
/// that never entered the pending set. Fetched releases come back as the
/// entry to store, and clear the key's failure. A failure comes back as the
/// caller's error, with its message, and is recorded. The pending set is
/// left as it is: the slot of a key belongs to the fetch that took it.
pub fn finish_blocking_fetch(
    state: &mut AppState,
    repo: &RepoPath,
    fetched: Result<Vec<Release>, String>,
    now: Timestamp,
) -> (r: Result<CachedReleases, AppError>)
    ensures
        final(state)@ == after_blocking_fetch(old(state)@, repo.key(), error_of(fetched)),
        final(state).cache == old(state).cache,
        match fetched {
            Ok(releases) => r matches Ok(entry) && entry.releases == releases && entry.cached_at
                == now && entry.repo_path@ == repo.key(),
            Err(message) => r matches Err(AppError::HttpError(m)) && m@ == message@,
        },
{
    let key = repo.cache_key();
    match fetched {
        Ok(releases) => {
            state.failed_repos.remove(&key);
            Ok(CachedReleases { releases, cached_at: now, repo_path: key })
        },
        Err(message) => {
            state.failed_repos.insert(key, message.clone());
            Err(AppError::HttpError(message))
        },
    }
}

/// Takes the slot of `repo` for a fetch whose caller waits, or refuses
/// because a fetch is in flight: `AlreadyProcessing` if and only if the key
/// was pending.
pub fn try_begin_fetch(state: &mut AppState, repo: &RepoPath) -> (r: Result<(), AppError>)
    ensures
        final(state).cache == old(state).cache,
        final(state)@.failed == old(state)@.failed,
        final(state)@.pending == old(state)@.pending.insert(repo.key()),
        r is Err <==> old(state)@.pending.contains(repo.key()),
        r matches Err(e) ==> e is AlreadyProcessing,
{
    let key = repo.cache_key();
    if state.pending_repos.contains(&key) {
        assert(old(state)@.pending.insert(repo.key()) =~= old(state)@.pending);
        return Err(AppError::AlreadyProcessing);
    }
    state.pending_repos.insert(key);
    Ok(())
}

/// Gives back the slot that `try_begin_fetch` took.
pub fn end_fetch(state: &mut AppState, repo: &RepoPath)
    ensures
        final(state).cache == old(state).cache,
        final(state)@.failed == old(state)@.failed,
        final(state)@.pending == old(state)@.pending.remove(repo.key()),
{
    let key = repo.cache_key();
    state.pending_repos.remove(&key);
}

} // verus!
