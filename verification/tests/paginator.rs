use skatebit_bot::fetcher::{FetchFailure, PageResult};
use skatebit_bot::paginator::{replay, run, Paginator, Progress, RefreshError, RefreshOutcome};
use std::cell::RefCell;
use skatebit_bot::store::{CacheStore, RefreshReport};
use skatebit_bot::query::find_exact;
use skatebit_bot::types::ModEntry;

fn entry(title: &str) -> ModEntry {
    ModEntry {
        title: title.to_string(),
        author: None,
        working_version: None,
        game_version: None,
        keybind: None,
        features: None,
        note: None,
        download_links: None,
    }
}

#[test]
fn data_then_an_empty_page_publishes_the_data() {
    let r1 = entry("r1");
    let r2 = entry("r2");
    let pages = vec![PageResult::Data(vec![r1.clone(), r2.clone()]), PageResult::Data(vec![])];
    let outcome = replay(pages, 100, 100).expect("the run ends within the recorded pages");
    assert_eq!(outcome, RefreshOutcome::Loaded(vec![r1.clone(), r2.clone()]));

    let mut store = CacheStore::new();
    let report = store.apply(outcome);
    assert_eq!(report, RefreshReport::Swapped { count: 2 });
    assert_eq!(*store.read(), vec![r1, r2]);
}

#[test]
fn a_transient_error_on_the_second_page_keeps_a_cold_store_cold() {
    let r1 = entry("r1");
    let pages = vec![
        PageResult::Data(vec![r1]),
        PageResult::TransientError(FetchFailure::Status(500)),
    ];
    let outcome = replay(pages, 100, 100).expect("the run ends within the recorded pages");
    assert_eq!(
        outcome,
        RefreshOutcome::Failed(RefreshError::Fetch { page: 2, failure: FetchFailure::Status(500) })
    );

    let mut store: CacheStore<ModEntry> = CacheStore::new();
    let report = store.apply(outcome);
    assert_eq!(
        report,
        RefreshReport::Retained {
            error: RefreshError::Fetch { page: 2, failure: FetchFailure::Status(500) }
        }
    );
    assert!(store.read().is_empty());
    assert!(!store.is_populated());
}

#[test]
fn a_transient_error_keeps_an_earlier_snapshot() {
    let old = entry("old");
    let mut store = CacheStore::new();
    store.replace(vec![old.clone()]);
    let pages = vec![
        PageResult::Data(vec![entry("new")]),
        PageResult::TransientError(FetchFailure::Network("timed out".to_string())),
    ];
    let outcome = replay(pages, 100, 0).unwrap();
    store.apply(outcome);
    assert_eq!(*store.read(), vec![old]);
    assert!(store.is_populated());
}

#[test]
fn not_found_on_the_first_page_publishes_an_empty_snapshot() {
    let pages: Vec<PageResult<ModEntry>> = vec![PageResult::NotFound];
    let outcome = replay(pages, 100, 100).unwrap();
    assert_eq!(outcome, RefreshOutcome::Empty);

    let mut store = CacheStore::new();
    let report = store.apply(outcome);
    assert_eq!(report, RefreshReport::Swapped { count: 0 });
    assert!(store.read().is_empty());
    assert!(store.is_populated());
    assert_eq!(find_exact(&store.read(), "anything"), None);
}

#[test]
fn transient_error_on_first_page_fails_the_run() {
    let pages: Vec<PageResult<ModEntry>> =
        vec![PageResult::TransientError(FetchFailure::Parse("bad json".to_string()))];
    assert_eq!(
        replay(pages, 100, 100),
        Some(RefreshOutcome::Failed(RefreshError::Fetch {
            page: 1,
            failure: FetchFailure::Parse("bad json".to_string())
        }))
    );
}

#[test]
fn pages_are_gathered_in_order_until_not_found() {
    let pages = vec![
        PageResult::Data(vec![entry("a"), entry("b")]),
        PageResult::Data(vec![entry("c")]),
        PageResult::NotFound,
        PageResult::Data(vec![entry("never asked for")]),
    ];
    assert_eq!(
        replay(pages, 100, 100),
        Some(RefreshOutcome::Loaded(vec![entry("a"), entry("b"), entry("c")]))
    );
}

#[test]
fn reaching_the_page_bound_is_a_failure_of_its_own() {
    let pages = vec![PageResult::Data(vec![entry("a")]), PageResult::Data(vec![entry("b")])];
    assert_eq!(
        replay(pages, 2, 100),
        Some(RefreshOutcome::Failed(RefreshError::PageBoundExceeded { max_pages: 2 }))
    );
}

#[test]
fn end_of_data_on_the_last_allowed_page_is_a_success() {
    let pages = vec![PageResult::Data(vec![entry("a")]), PageResult::Data(vec![])];
    assert_eq!(replay(pages, 2, 100), Some(RefreshOutcome::Loaded(vec![entry("a")])));
}

#[test]
fn a_bound_of_zero_pages_fails_before_any_fetch() {
    let pages: Vec<PageResult<ModEntry>> = vec![PageResult::NotFound];
    assert_eq!(
        replay(pages, 0, 100),
        Some(RefreshOutcome::Failed(RefreshError::PageBoundExceeded { max_pages: 0 }))
    );
    assert!(matches!(
        Paginator::<ModEntry>::start(0, 100),
        Progress::Done(RefreshOutcome::Failed(RefreshError::PageBoundExceeded { max_pages: 0 }))
    ));
}

#[test]
fn a_run_that_needs_more_pages_than_recorded_has_no_outcome() {
    let pages = vec![PageResult::Data(vec![entry("a")])];
    assert_eq!(replay(pages, 100, 100), None);
    let none: Vec<PageResult<ModEntry>> = vec![];
    assert_eq!(replay(none, 100, 100), None);
}

#[test]
fn the_first_page_is_asked_for_at_once_and_later_pages_after_the_delay() {
    let progress = Paginator::start(100, 250);
    let paginator = match progress {
        Progress::Next { paginator, page, delay_ms } => {
            assert_eq!(page, 1);
            assert_eq!(delay_ms, 0);
            paginator
        }
        Progress::Done(_) => panic!("the run must ask for page 1"),
    };
    let paginator = match paginator.on_page(PageResult::Data(vec![entry("a")])) {
        Progress::Next { paginator, page, delay_ms } => {
            assert_eq!(page, 2);
            assert_eq!(delay_ms, 250);
            paginator
        }
        Progress::Done(_) => panic!("the run must ask for page 2"),
    };
    let paginator = match paginator.on_page(PageResult::Data(vec![entry("b")])) {
        Progress::Next { paginator, page, delay_ms } => {
            assert_eq!(page, 3);
            assert_eq!(delay_ms, 250);
            paginator
        }
        Progress::Done(_) => panic!("the run must ask for page 3"),
    };
    match paginator.on_page(PageResult::Data(vec![])) {
        Progress::Done(outcome) => {
            assert_eq!(outcome, RefreshOutcome::Loaded(vec![entry("a"), entry("b")]))
        }
        Progress::Next { .. } => panic!("an empty page ends the run"),
    }
}

#[test]
fn run_asks_for_pages_in_increasing_order_until_the_data_ends() {
    let asked = RefCell::new(Vec::new());
    let waits = RefCell::new(Vec::new());
    let outcome = run(
        |page: u32| {
            asked.borrow_mut().push(page);
            match page {
                1 => PageResult::Data(vec![entry("a"), entry("b")]),
                2 => PageResult::Data(vec![entry("c")]),
                _ => PageResult::Data(vec![]),
            }
        },
        |ms: u64| waits.borrow_mut().push(ms),
        100,
        100,
    );
    assert_eq!(outcome, RefreshOutcome::Loaded(vec![entry("a"), entry("b"), entry("c")]));
    assert_eq!(*asked.borrow(), vec![1, 2, 3]);
    assert_eq!(*waits.borrow(), vec![100, 100]);
}

#[test]
fn run_stops_at_the_first_failed_page() {
    let asked = RefCell::new(Vec::new());
    let outcome = run(
        |page: u32| {
            asked.borrow_mut().push(page);
            if page == 2 {
                PageResult::TransientError(FetchFailure::Status(500))
            } else {
                PageResult::Data(vec![entry("x")])
            }
        },
        |_ms: u64| {},
        100,
        0,
    );
    assert_eq!(
        outcome,
        RefreshOutcome::Failed(RefreshError::Fetch { page: 2, failure: FetchFailure::Status(500) })
    );
    assert_eq!(*asked.borrow(), vec![1, 2]);
}

#[test]
fn run_never_asks_for_more_pages_than_the_bound() {
    let asked = RefCell::new(Vec::new());
    let outcome = run(
        |page: u32| {
            asked.borrow_mut().push(page);
            PageResult::Data(vec![entry("again")])
        },
        |_ms: u64| {},
        5,
        0,
    );
    assert_eq!(outcome, RefreshOutcome::Failed(RefreshError::PageBoundExceeded { max_pages: 5 }));
    assert_eq!(*asked.borrow(), vec![1, 2, 3, 4, 5]);
}

#[test]
fn run_without_delay_never_waits() {
    let waits = RefCell::new(Vec::new());
    let outcome = run(
        |page: u32| {
            if page < 3 {
                PageResult::Data(vec![entry("x")])
            } else {
                PageResult::<ModEntry>::NotFound
            }
        },
        |ms: u64| waits.borrow_mut().push(ms),
        100,
        0,
    );
    assert_eq!(outcome, RefreshOutcome::Loaded(vec![entry("x"), entry("x")]));
    assert!(waits.borrow().is_empty());
}

#[test]
fn run_and_replay_agree() {
    let script = vec![
        PageResult::Data(vec![entry("a")]),
        PageResult::Data(vec![entry("b")]),
        PageResult::NotFound,
    ];
    let by_run = run(|page: u32| script[(page - 1) as usize].clone(), |_ms: u64| {}, 100, 100);
    assert_eq!(Some(by_run), replay(script.clone(), 100, 100));
}
