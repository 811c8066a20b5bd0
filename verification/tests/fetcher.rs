use skatebit_bot::fetcher::{
    classify_reply, classify_status, classify_unanswered, page_url, FetchFailure, PageResult,
    StatusClass, MAP_PAGES_ENDPOINT,
};
use skatebit_bot::fetcher::REQUEST_TIMEOUT_SECS;
use skatebit_bot::map_cache::{is_expected_item_type, EXPECTED_ITEM_TYPE};
use skatebit_bot::paginator::{single_page_outcome, RefreshError, RefreshOutcome};

#[test]
fn status_404_is_not_found() {
    assert_eq!(classify_status(404), StatusClass::NotFound);
}

#[test]
fn statuses_200_to_299_are_success() {
    assert_eq!(classify_status(200), StatusClass::Success);
    assert_eq!(classify_status(204), StatusClass::Success);
    assert_eq!(classify_status(299), StatusClass::Success);
}

#[test]
fn every_other_status_is_a_failure() {
    for status in [0u16, 100, 199, 300, 301, 400, 403, 405, 429, 500, 503, 999, u16::MAX] {
        assert_eq!(classify_status(status), StatusClass::Failure, "status {}", status);
    }
}

#[test]
fn a_success_with_a_decoded_body_is_data() {
    assert_eq!(classify_reply(200, Ok(vec![1, 2, 3])), PageResult::Data(vec![1, 2, 3]));
    assert_eq!(classify_reply(200, Ok(Vec::<u8>::new())), PageResult::Data(vec![]));
}

#[test]
fn a_success_with_an_undecodable_body_is_a_parse_failure() {
    let page: PageResult<u8> = classify_reply(200, Err("expected value".to_string()));
    assert_eq!(
        page,
        PageResult::TransientError(FetchFailure::Parse("expected value".to_string()))
    );
}

#[test]
fn a_not_found_ends_the_data_whatever_the_body() {
    assert_eq!(classify_reply(404, Ok(vec![1])), PageResult::NotFound);
    assert_eq!(classify_reply::<u8>(404, Err("no body".to_string())), PageResult::NotFound);
}

#[test]
fn another_status_is_a_status_failure_whatever_the_body() {
    assert_eq!(
        classify_reply(500, Ok(vec![1])),
        PageResult::TransientError(FetchFailure::Status(500))
    );
    assert_eq!(
        classify_reply::<u8>(301, Err(String::new())),
        PageResult::TransientError(FetchFailure::Status(301))
    );
}

#[test]
fn a_request_without_answer_is_a_network_failure() {
    let page: PageResult<u8> = classify_unanswered("operation timed out".to_string());
    assert_eq!(
        page,
        PageResult::TransientError(FetchFailure::Network("operation timed out".to_string()))
    );
}

#[test]
fn page_addresses_hold_the_page_number_in_decimal() {
    assert_eq!(
        page_url(MAP_PAGES_ENDPOINT, 1),
        "https://modio-cache.vercel.app/maps_v2/page_1.json"
    );
    assert_eq!(page_url("x/", 10), "x/10.json");
    assert_eq!(page_url("", 100), "100.json");
    assert_eq!(page_url("p", u32::MAX), "p4294967295.json");
}

#[test]
fn a_single_document_with_records_is_loaded() {
    assert_eq!(
        single_page_outcome(PageResult::Data(vec![7, 8])),
        RefreshOutcome::Loaded(vec![7, 8])
    );
}

#[test]
fn an_empty_or_missing_single_document_is_an_empty_success() {
    assert_eq!(single_page_outcome(PageResult::Data(Vec::<u8>::new())), RefreshOutcome::Empty);
    assert_eq!(single_page_outcome(PageResult::<u8>::NotFound), RefreshOutcome::Empty);
}

#[test]
fn a_failed_single_document_fails_the_refresh() {
    assert_eq!(
        single_page_outcome(PageResult::<u8>::TransientError(FetchFailure::Status(502))),
        RefreshOutcome::Failed(RefreshError::Fetch { page: 1, failure: FetchFailure::Status(502) })
    );
}

#[test]
fn the_map_list_announces_its_item_type() {
    assert_eq!(EXPECTED_ITEM_TYPE, "maps");
    assert!(is_expected_item_type("maps"));
    assert!(!is_expected_item_type("Maps"));
    assert!(!is_expected_item_type("mods"));
    assert!(!is_expected_item_type(""));
    assert_eq!(REQUEST_TIMEOUT_SECS, 30);
}
