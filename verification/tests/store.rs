use skatebit_bot::fetcher::FetchFailure;
use skatebit_bot::mod_cache::ModCache;
use skatebit_bot::paginator::{RefreshError, RefreshOutcome};
use skatebit_bot::store::{CacheStore, RefreshReport};
use skatebit_bot::types::{ModEntry, ModVersionBranch};

fn entry(title: &str) -> ModEntry {
    ModEntry {
        title: title.to_string(),
        author: None,
        working_version: None,
        game_version: None,
        keybind: None,
        features: None,
        note: None,
        download_links: None,
    }
}

fn failed() -> RefreshOutcome<ModEntry> {
    RefreshOutcome::Failed(RefreshError::Fetch { page: 3, failure: FetchFailure::Status(503) })
}

#[test]
fn a_new_store_is_cold_and_empty() {
    let store: CacheStore<ModEntry> = CacheStore::new();
    assert!(!store.is_populated());
    assert_eq!(store.len(), 0);
    assert!(store.read().is_empty());
}

#[test]
fn replace_publishes_the_whole_new_snapshot() {
    let mut store = CacheStore::new();
    store.replace(vec![entry("a"), entry("b")]);
    assert!(store.is_populated());
    assert_eq!(store.len(), 2);
    assert_eq!(*store.read(), vec![entry("a"), entry("b")]);
    store.replace(vec![entry("c")]);
    assert_eq!(*store.read(), vec![entry("c")]);
    store.replace(vec![]);
    assert!(store.read().is_empty());
    assert!(store.is_populated());
}

#[test]
fn a_reader_keeps_the_snapshot_it_got() {
    let mut store = CacheStore::new();
    store.replace(vec![entry("old 1"), entry("old 2")]);
    let before = store.read();
    store.replace(vec![entry("new")]);
    let after = store.read();
    assert_eq!(*before, vec![entry("old 1"), entry("old 2")]);
    assert_eq!(*after, vec![entry("new")]);
}

#[test]
fn read_shows_the_latest_successful_run_and_never_a_mix() {
    let mut store = CacheStore::new();
    assert_eq!(
        store.apply(RefreshOutcome::Loaded(vec![entry("a1"), entry("a2")])),
        RefreshReport::Swapped { count: 2 }
    );
    assert_eq!(
        store.apply(failed()),
        RefreshReport::Retained {
            error: RefreshError::Fetch { page: 3, failure: FetchFailure::Status(503) }
        }
    );
    assert_eq!(*store.read(), vec![entry("a1"), entry("a2")]);
    assert_eq!(
        store.apply(RefreshOutcome::Loaded(vec![entry("b1")])),
        RefreshReport::Swapped { count: 1 }
    );
    assert_eq!(*store.read(), vec![entry("b1")]);
    store.apply(failed());
    store.apply(RefreshOutcome::Failed(RefreshError::PageBoundExceeded { max_pages: 100 }));
    assert_eq!(*store.read(), vec![entry("b1")]);
}

#[test]
fn an_empty_success_replaces_a_full_snapshot() {
    let mut store = CacheStore::new();
    store.replace(vec![entry("a")]);
    assert_eq!(store.apply(RefreshOutcome::Empty), RefreshReport::Swapped { count: 0 });
    assert!(store.read().is_empty());
    assert!(store.is_populated());
}

#[test]
fn a_failure_on_a_cold_store_leaves_it_cold() {
    let mut store: CacheStore<ModEntry> = CacheStore::new();
    store.apply(failed());
    assert!(!store.is_populated());
    assert!(store.read().is_empty());
}

#[test]
fn the_mod_cache_keeps_one_snapshot_for_each_branch() {
    let mut cache = ModCache::new();
    assert!(!cache.is_populated(ModVersionBranch::Alpha));
    assert!(!cache.is_populated(ModVersionBranch::BetaPublic));
    assert!(cache.read(ModVersionBranch::Alpha).is_empty());

    let report = cache.apply(ModVersionBranch::Alpha, RefreshOutcome::Loaded(vec![entry("a")]));
    assert_eq!(report, RefreshReport::Swapped { count: 1 });
    assert_eq!(*cache.read(ModVersionBranch::Alpha), vec![entry("a")]);
    assert!(cache.is_populated(ModVersionBranch::Alpha));
    assert!(!cache.is_populated(ModVersionBranch::BetaPublic));
    assert!(cache.read(ModVersionBranch::BetaPublic).is_empty());

    cache.apply(ModVersionBranch::BetaPublic, RefreshOutcome::Loaded(vec![entry("b"), entry("c")]));
    assert_eq!(*cache.read(ModVersionBranch::Alpha), vec![entry("a")]);
    assert_eq!(*cache.read(ModVersionBranch::BetaPublic), vec![entry("b"), entry("c")]);

    cache.apply(ModVersionBranch::BetaPublic, failed());
    assert_eq!(*cache.read(ModVersionBranch::BetaPublic), vec![entry("b"), entry("c")]);
    assert_eq!(*cache.read(ModVersionBranch::Alpha), vec![entry("a")]);
}
