use checkup::coordinator::{
    end_fetch, finish_blocking_fetch, finish_fetch, get_or_spawn_fetch, new_entry,
    try_begin_fetch, AppState, FetchPlan, FetchResult,
};
use checkup::model::{AppError, Asset, Release, RepoPath};
use checkup::time::Timestamp;

const HOUR: i64 = 3600;

fn key(host: &str, owner: &str, repo: &str) -> RepoPath {
    RepoPath { host: host.to_string(), owner: owner.to_string(), repo: repo.to_string() }
}

fn at(secs: i64) -> Timestamp {
    Timestamp::new(secs, 0)
}

fn release(tag: &str) -> Release {
    Release {
        tag_name: tag.to_string(),
        name: Some(format!("Release {}", tag)),
        published_at: at(1_700_000_000),
        html_url: format!("https://example.org/r/{}", tag),
        body: None,
        prerelease: false,
        draft: false,
        assets: vec![Asset {
            name: format!("tool-{}-linux.tar.gz", tag),
            url: format!("https://example.org/d/{}", tag),
            content_type: None,
            size: 0,
            download_count: 0,
        }],
        source_tarball: None,
        source_zipball: None,
    }
}

fn processing(spawn: bool) -> FetchPlan {
    FetchPlan { result: FetchResult::Processing, spawn }
}

fn cached() -> FetchPlan {
    FetchPlan { result: FetchResult::Cached, spawn: false }
}

fn failed(message: &str) -> FetchPlan {
    FetchPlan { result: FetchResult::Error(message.to_string()), spawn: false }
}

#[test]
fn first_request_starts_a_fetch() {
    let mut state = AppState::new("data/cache".to_string(), 24);
    let k = key("github.com", "sharkdp", "bat");
    assert_eq!(get_or_spawn_fetch(&mut state, &k, None, at(1000)), processing(true));
    assert!(state.pending_repos.contains(&k.cache_key()));
}

#[test]
fn requests_for_a_pending_key_start_no_second_fetch() {
    let mut state = AppState::new("data/cache".to_string(), 24);
    let k = key("github.com", "sharkdp", "bat");
    let mut started = 0;
    for i in 0..50 {
        let plan = get_or_spawn_fetch(&mut state, &k, None, at(1000 + i));
        assert_eq!(plan.result, FetchResult::Processing);
        if plan.spawn {
            started += 1;
        }
    }
    assert_eq!(started, 1);
}

#[test]
fn requests_for_an_expired_key_start_one_fetch() {
    let mut state = AppState::new("data/cache".to_string(), 1);
    let k = key("codeberg.org", "forgejo", "forgejo");
    let stored = Some(at(0));
    let mut started = 0;
    for i in 0..20 {
        let plan = get_or_spawn_fetch(&mut state, &k, stored, at(HOUR + 1 + i));
        assert_eq!(plan.result, FetchResult::Processing);
        if plan.spawn {
            started += 1;
        }
    }
    assert_eq!(started, 1);
}

#[test]
fn fresh_entry_is_served_without_a_fetch() {
    let mut state = AppState::new("data/cache".to_string(), 24);
    let k = key("github.com", "sharkdp", "bat");
    assert_eq!(get_or_spawn_fetch(&mut state, &k, Some(at(1000)), at(1000)), cached());
    assert_eq!(get_or_spawn_fetch(&mut state, &k, Some(at(1000)), at(1000 + 24 * HOUR)), cached());
    assert!(!state.pending_repos.contains(&k.cache_key()));
}

#[test]
fn fresh_entry_wins_over_failure_and_pending() {
    let mut state = AppState::new("data/cache".to_string(), 24);
    let k = key("github.com", "sharkdp", "bat");
    assert_eq!(get_or_spawn_fetch(&mut state, &k, None, at(0)), processing(true));
    assert_eq!(get_or_spawn_fetch(&mut state, &k, Some(at(0)), at(10)), cached());
    finish_fetch(&mut state, &k, Err("boom".to_string()));
    assert_eq!(get_or_spawn_fetch(&mut state, &k, Some(at(0)), at(10)), cached());
    assert_eq!(get_or_spawn_fetch(&mut state, &k, Some(at(0)), at(25 * HOUR)), failed("boom"));
}

#[test]
fn failure_is_served_without_a_new_attempt() {
    let mut state = AppState::new("data/cache".to_string(), 24);
    let k = key("github.com", "nobody", "nothing");
    assert_eq!(get_or_spawn_fetch(&mut state, &k, None, at(0)), processing(true));
    finish_fetch(&mut state, &k, Err("GitHub API returned status: 404 Not Found".to_string()));
    assert!(!state.pending_repos.contains(&k.cache_key()));
    for i in 0..5 {
        assert_eq!(
            get_or_spawn_fetch(&mut state, &k, None, at(i)),
            failed("GitHub API returned status: 404 Not Found")
        );
    }
    assert!(!state.pending_repos.contains(&k.cache_key()));
}

#[test]
fn failure_comes_before_pending() {
    let mut state = AppState::new("data/cache".to_string(), 24);
    let k = key("github.com", "a", "b");
    assert!(try_begin_fetch(&mut state, &k).is_ok());
    assert!(finish_blocking_fetch(&mut state, &k, Err("down".to_string()), at(0)).is_err());
    assert!(state.pending_repos.contains(&k.cache_key()));
    assert_eq!(get_or_spawn_fetch(&mut state, &k, None, at(1)), failed("down"));
}

#[test]
fn success_clears_the_failure() {
    let mut state = AppState::new("data/cache".to_string(), 24);
    let k = key("github.com", "a", "b");
    get_or_spawn_fetch(&mut state, &k, None, at(0));
    finish_fetch(&mut state, &k, Err("first".to_string()));
    assert_eq!(state.failed_repos.get(&k.cache_key()), Some("first".to_string()));
    let entry = finish_blocking_fetch(&mut state, &k, Ok(vec![release("v1")]), at(5)).unwrap();
    assert_eq!(entry.releases, vec![release("v1")]);
    assert_eq!(entry.cached_at, at(5));
    assert_eq!(entry.repo_path, "github.com/a/b");
    assert_eq!(state.failed_repos.get(&k.cache_key()), None);
    assert_eq!(get_or_spawn_fetch(&mut state, &k, None, at(6)), processing(true));
}

#[test]
fn later_failure_replaces_the_message() {
    let mut state = AppState::new("data/cache".to_string(), 24);
    let k = key("github.com", "a", "b");
    finish_fetch(&mut state, &k, Err("first".to_string()));
    finish_fetch(&mut state, &k, Err("second".to_string()));
    assert_eq!(get_or_spawn_fetch(&mut state, &k, None, at(0)), failed("second"));
}

#[test]
fn blocking_failure_is_the_callers_error() {
    let mut state = AppState::new("data/cache".to_string(), 24);
    let k = key("gitlab.com", "a", "b");
    let r = finish_blocking_fetch(&mut state, &k, Err("GitLab API returned status: 500".to_string()), at(0));
    assert_eq!(r, Err(AppError::HttpError("GitLab API returned status: 500".to_string())));
    assert_eq!(
        state.failed_repos.get(&k.cache_key()),
        Some("GitLab API returned status: 500".to_string())
    );
    assert!(!state.pending_repos.contains(&k.cache_key()));
}

#[test]
fn blocking_fetch_leaves_the_pending_set_alone() {
    let mut state = AppState::new("data/cache".to_string(), 24);
    let k = key("github.com", "a", "b");
    assert_eq!(get_or_spawn_fetch(&mut state, &k, None, at(0)), processing(true));
    assert!(finish_blocking_fetch(&mut state, &k, Ok(vec![]), at(1)).is_ok());
    assert!(state.pending_repos.contains(&k.cache_key()));
    assert_eq!(get_or_spawn_fetch(&mut state, &k, None, at(2)), processing(false));
}

#[test]
fn failing_fetch_leaves_other_keys_alone() {
    let mut state = AppState::new("data/cache".to_string(), 24);
    let k1 = key("github.com", "a", "one");
    let pending = key("github.com", "a", "two");
    let fresh = key("github.com", "a", "three");
    let stale = key("github.com", "a", "four");
    let broken = key("github.com", "a", "five");
    get_or_spawn_fetch(&mut state, &k1, None, at(0));
    get_or_spawn_fetch(&mut state, &pending, None, at(0));
    finish_fetch(&mut state, &broken, Err("old".to_string()));

    finish_fetch(&mut state, &k1, Err("new".to_string()));

    assert_eq!(get_or_spawn_fetch(&mut state, &k1, None, at(1)), failed("new"));
    assert_eq!(get_or_spawn_fetch(&mut state, &pending, None, at(1)), processing(false));
    assert_eq!(get_or_spawn_fetch(&mut state, &fresh, Some(at(0)), at(1)), cached());
    assert_eq!(get_or_spawn_fetch(&mut state, &broken, None, at(1)), failed("old"));
    assert_eq!(get_or_spawn_fetch(&mut state, &stale, None, at(1)), processing(true));
}

#[test]
fn end_to_end_scenario() {
    let ttl_hours = 24;
    let mut state = AppState::new("data/cache".to_string(), ttl_hours);
    let k = key("github.com", "sharkdp", "bat");
    let mut fetches = 0;

    // No cache yet: the placeholder, and the fetch starts.
    let first = get_or_spawn_fetch(&mut state, &k, None, at(100));
    assert_eq!(first.result, FetchResult::Processing);
    assert!(first.spawn);
    fetches += 1;

    // The fetch completes at 200 and is stored.
    let entry = new_entry(&k, vec![release("v0.26.1")], at(200));
    let stored_at = Some(entry.cached_at);
    finish_fetch(&mut state, &k, Ok(()));

    // A second request is served from the cache.
    let second = get_or_spawn_fetch(&mut state, &k, stored_at, at(300));
    assert_eq!(second, cached());
    assert_eq!(entry.releases, vec![release("v0.26.1")]);

    // After the time-to-live a third request starts one more fetch and is
    // answered with the placeholder, not with an error.
    let later = 200 + ttl_hours * HOUR + 1;
    let third = get_or_spawn_fetch(&mut state, &k, stored_at, at(later));
    assert_eq!(third.result, FetchResult::Processing);
    assert!(third.spawn);
    fetches += 1;
    for i in 0..10 {
        assert_eq!(get_or_spawn_fetch(&mut state, &k, stored_at, at(later + i)), processing(false));
    }
    assert_eq!(fetches, 2);
}

#[test]
fn exclusive_fetch_refuses_a_second_caller() {
    let mut state = AppState::new("data/cache".to_string(), 24);
    let k = key("github.com", "a", "b");
    let other = key("github.com", "a", "c");
    assert_eq!(try_begin_fetch(&mut state, &k), Ok(()));
    assert_eq!(try_begin_fetch(&mut state, &k), Err(AppError::AlreadyProcessing));
    assert_eq!(try_begin_fetch(&mut state, &other), Ok(()));
    end_fetch(&mut state, &k);
    assert_eq!(try_begin_fetch(&mut state, &k), Ok(()));
    assert_eq!(try_begin_fetch(&mut state, &other), Err(AppError::AlreadyProcessing));
}

#[test]
fn entry_for_storing_holds_releases_instant_and_key() {
    let k = key("git.kernel.org", "", "pub/scm/linux/kernel/git/stable/linux.git");
    let entry = new_entry(&k, vec![release("v6.19.2"), release("v6.19.1")], Timestamp::new(7, 9));
    assert_eq!(entry.releases, vec![release("v6.19.2"), release("v6.19.1")]);
    assert_eq!(entry.cached_at, Timestamp::new(7, 9));
    assert_eq!(entry.repo_path, "git.kernel.org//pub/scm/linux/kernel/git/stable/linux.git");
}

#[test]
fn new_coordinator_is_empty() {
    let state = AppState::new("somewhere".to_string(), 3);
    assert_eq!(state.cache.cache_dir, "somewhere");
    assert_eq!(state.cache.cache_hours, 3);
    assert!(!state.pending_repos.contains(&"github.com/a/b".to_string()));
    assert_eq!(state.failed_repos.get(&"github.com/a/b".to_string()), None);
}
