use foodpanda_etl::clients::pool::ClientPool;
use foodpanda_etl::config::{ApiConfig, MinioConfig, Settings};
use foodpanda_etl::error::Error;
use foodpanda_etl::models::{JsonText, Vendor};
use foodpanda_etl::services::api::{ApiService, Endpoint};
use foodpanda_etl::services::vendor::{
    BatchAction, BatchEvent, BatchState, Phase, VendorService, FACET_JITTER_MS, FACET_PAUSE_MS,
    ITEM_JITTER_MS, ITEM_PAUSE_MS,
};
use std::sync::Arc;

fn service() -> VendorService {
    let settings = Settings::new(
        vec![],
        MinioConfig {
            endpoint: String::new(),
            access_key: String::new(),
            secret_key: String::new(),
            bucket: String::new(),
            region: String::new(),
        },
        ApiConfig { headers: vec![] },
    );
    VendorService::new(ApiService::new(Arc::new(ClientPool::new(&settings))))
}

fn doc(text: &str) -> JsonText {
    JsonText::parse(text.as_bytes()).unwrap()
}

fn codes(list: &[&str]) -> Vec<String> {
    list.iter().map(|c| c.to_string()).collect()
}

fn step(service: &VendorService, state: &mut BatchState, event: BatchEvent) -> BatchAction {
    assert!(state.expects(&event));
    service.process_vendor_batch(state, event)
}

#[test]
fn pacing_constants_are_the_configured_intervals() {
    assert_eq!((ITEM_PAUSE_MS, ITEM_JITTER_MS), (1500, 1000));
    assert_eq!((FACET_PAUSE_MS, FACET_JITTER_MS), (800, 400));
}

#[test]
fn empty_page_is_complete_at_once() {
    let service = service();
    let (state, action) = service.begin_batch(vec![], 1);
    assert!(matches!(state.phase, Phase::Done));
    assert!(matches!(action, BatchAction::Finish));
    assert!(!state.expects(&BatchEvent::Written));
    assert!(!state.expects(&BatchEvent::Resumed { now: 0 }));
}

#[test]
fn vendor_with_details_gets_enrichments_and_a_full_record() {
    let service = service();
    let (mut state, action) = service.begin_batch(codes(&["s1ab"]), 3);
    assert!(matches!(action, BatchAction::Pause { base_ms: 1500, jitter_ms: 1000 }));
    assert!(matches!(state.phase, Phase::Pacing));

    let action = step(&service, &mut state, BatchEvent::Resumed { now: 100 });
    match action {
        BatchAction::FetchDetails(fetch) => {
            assert_eq!(fetch.endpoint, Endpoint::Details);
            assert!(fetch.url.contains("/vendors/s1ab?"));
            assert_eq!(fetch.attempt, 1);
        }
        other => panic!("unexpected action {:?}", other),
    }
    assert!(matches!(state.phase, Phase::Detail { started_at: 100 }));

    let body = b"{\"data\": {\"name\": \"Savour Foods\", \"city\": \"Islamabad\"}}".to_vec();
    let action =
        step(&service, &mut state, BatchEvent::DetailFetched { body: Some(body), now: 101 });
    match action {
        BatchAction::FetchFacets { base_ms, jitter_ms, reviews, ratings } => {
            assert_eq!((base_ms, jitter_ms), (800, 400));
            assert_eq!(reviews.endpoint, Endpoint::Reviews);
            assert!(reviews.url.contains("/reviews/vendor/s1ab?"));
            assert_eq!(ratings.endpoint, Endpoint::Ratings);
            assert!(ratings.url.contains("/ratings-distribution/vendor/s1ab?"));
        }
        other => panic!("unexpected action {:?}", other),
    }

    let ratings =
        b"{\"totalCount\": 1, \"createdAt\": \"c\", \"updatedAt\": \"u\", \"ratings\": []}".to_vec();
    let action = step(
        &service,
        &mut state,
        BatchEvent::FacetsFetched {
            reviews: Some(b"{\"data\": [{\"r\": 1}]}".to_vec()),
            ratings: Some(ratings),
            now: 107,
        },
    );
    match action {
        BatchAction::Write(vendor) => {
            assert_eq!(vendor.code, "s1ab");
            assert_eq!(vendor.name, "Savour Foods");
            assert_eq!(
                vendor.details.as_ref().map(|d| d.as_str()),
                Some("{\"city\":\"Islamabad\",\"name\":\"Savour Foods\"}")
            );
            assert_eq!(vendor.batch_number, 3);
            assert_eq!(vendor.reviews.as_ref().map(|r| r.len()), Some(1));
            assert_eq!(vendor.ratings.as_ref().map(|r| r.total_count), Some(1));
            assert_eq!(vendor.extraction_started_at, 100);
            assert_eq!(vendor.extraction_completed_at, 107);
        }
        other => panic!("unexpected action {:?}", other),
    }
    assert!(matches!(state.phase, Phase::Writing));

    let action = step(&service, &mut state, BatchEvent::Written);
    assert!(matches!(action, BatchAction::Finish));
    assert!(matches!(state.phase, Phase::Done));
    assert_eq!(state.position, 1);
}

#[test]
fn failed_enrichments_are_stored_as_absent() {
    let service = service();
    let (mut state, _) = service.begin_batch(codes(&["x"]), 1);
    step(&service, &mut state, BatchEvent::Resumed { now: 5 });
    step(
        &service,
        &mut state,
        BatchEvent::DetailFetched { body: Some(b"{\"data\":{\"name\":7}}".to_vec()), now: 6 },
    );
    let action = step(
        &service,
        &mut state,
        BatchEvent::FacetsFetched { reviews: None, ratings: None, now: 7 },
    );
    match action {
        BatchAction::Write(vendor) => {
            assert_eq!(vendor.name, "Unknown");
            assert!(vendor.details.is_some());
            assert!(vendor.reviews.is_none());
            assert!(vendor.ratings.is_none());
        }
        other => panic!("unexpected action {:?}", other),
    }
}

#[test]
fn soft_miss_gives_a_minimal_record_and_no_enrichment() {
    let service = service();
    let (mut state, _) = service.begin_batch(codes(&["V9", "next"]), 1);
    step(&service, &mut state, BatchEvent::Resumed { now: 50 });
    let action = step(&service, &mut state, BatchEvent::DetailFetched { body: None, now: 52 });
    match action {
        BatchAction::Write(vendor) => {
            assert_eq!(vendor.code, "V9");
            assert_eq!(vendor.name, "Unknown");
            assert!(vendor.details.is_none());
            assert!(vendor.reviews.is_none());
            assert!(vendor.ratings.is_none());
            assert_eq!(vendor.batch_number, 1);
            assert_eq!(vendor.extraction_started_at, 50);
            assert_eq!(vendor.extraction_completed_at, 52);
        }
        other => panic!("unexpected action {:?}", other),
    }
    let action = step(&service, &mut state, BatchEvent::Written);
    assert!(matches!(action, BatchAction::Pause { base_ms: 1500, jitter_ms: 1000 }));
    assert_eq!(state.position, 1);
    assert!(matches!(state.phase, Phase::Pacing));
}

#[test]
fn failed_details_give_up_the_batch() {
    let service = service();
    let (mut state, _) = service.begin_batch(codes(&["a", "b"]), 1);
    step(&service, &mut state, BatchEvent::Resumed { now: 1 });
    let action = step(&service, &mut state, BatchEvent::DetailFailed(Error::MaxRetriesExceeded));
    assert!(matches!(action, BatchAction::Abort(Error::MaxRetriesExceeded)));
    assert!(matches!(state.phase, Phase::Failed));
    assert_eq!(state.position, 0);
    assert!(!state.expects(&BatchEvent::Written));
}

#[test]
fn completion_is_never_before_the_start() {
    let early = VendorService::soft_miss_record("a".to_string(), 1, 100, 90);
    assert_eq!(early.extraction_started_at, 100);
    assert_eq!(early.extraction_completed_at, 100);
    let full = VendorService::full_record(
        "a".to_string(),
        doc("{}"),
        1,
        None,
        None,
        i64::MAX,
        i64::MIN,
    );
    assert_eq!(full.extraction_completed_at, i64::MAX);
    assert_eq!(full.name, "Unknown");
}

#[test]
fn events_are_only_taken_in_their_phase() {
    let service = service();
    let (mut state, _) = service.begin_batch(codes(&["a"]), 1);
    assert!(state.expects(&BatchEvent::Resumed { now: 0 }));
    assert!(!state.expects(&BatchEvent::Written));
    assert!(!state.expects(&BatchEvent::DetailFetched { body: None, now: 0 }));
    step(&service, &mut state, BatchEvent::Resumed { now: 0 });
    assert!(state.expects(&BatchEvent::DetailFailed(Error::Forbidden)));
    assert!(state.expects(&BatchEvent::DetailFetched { body: None, now: 0 }));
    assert!(!state.expects(&BatchEvent::Resumed { now: 0 }));
    assert!(!state.expects(&BatchEvent::FacetsFetched { reviews: None, ratings: None, now: 0 }));
}

fn run_page(service: &VendorService, page: &[&str], batch: i32, missing: &str) -> Vec<Vendor> {
    let mut written = Vec::new();
    let mut clock = 1000;
    let (mut state, mut action) = service.begin_batch(codes(page), batch);
    loop {
        clock += 1;
        let event = match action {
            BatchAction::Pause { .. } => BatchEvent::Resumed { now: clock },
            BatchAction::FetchDetails(fetch) => {
                if fetch.url.contains(&format!("/vendors/{}?", missing)) {
                    BatchEvent::DetailFetched { body: None, now: clock }
                } else {
                    BatchEvent::DetailFetched {
                        body: Some(b"{\"data\":{\"name\":\"Some Name\"}}".to_vec()),
                        now: clock,
                    }
                }
            }
            BatchAction::FetchFacets { .. } => BatchEvent::FacetsFetched {
                reviews: Some(b"{\"data\":[{\"stars\":5}]}".to_vec()),
                ratings: None,
                now: clock,
            },
            BatchAction::Write(vendor) => {
                written.push(vendor);
                BatchEvent::Written
            }
            BatchAction::Finish => return written,
            BatchAction::Abort(e) => panic!("batch failed: {:?}", e),
        };
        action = step(service, &mut state, event);
    }
}

#[test]
fn every_vendor_of_a_page_is_written_once_and_in_order() {
    let service = service();
    let page = ["V7", "V8", "V9", "V10"];
    let written = run_page(&service, &page, 2, "V9");
    let order: Vec<&str> = written.iter().map(|v| v.code.as_str()).collect();
    assert_eq!(order, page.to_vec());
    for vendor in &written {
        assert_eq!(vendor.batch_number, 2);
        assert!(vendor.extraction_started_at <= vendor.extraction_completed_at);
        if vendor.code == "V9" {
            assert_eq!(vendor.name, "Unknown");
            assert!(vendor.details.is_none() && vendor.reviews.is_none() && vendor.ratings.is_none());
        } else {
            assert_eq!(vendor.name, "Some Name");
            assert!(vendor.details.is_some());
            assert!(vendor.reviews.is_some());
        }
    }
}

#[test]
fn body_that_spells_no_details_gives_up_the_batch() {
    let service = service();
    let (mut state, _) = service.begin_batch(codes(&["a"]), 1);
    step(&service, &mut state, BatchEvent::Resumed { now: 1 });
    let action = step(
        &service,
        &mut state,
        BatchEvent::DetailFetched { body: Some(b"<html>".to_vec()), now: 2 },
    );
    assert!(matches!(action, BatchAction::Abort(Error::Json(_))));
    assert!(matches!(state.phase, Phase::Failed));
}

#[test]
fn unreadable_enrichments_are_stored_as_absent() {
    let service = service();
    let (mut state, _) = service.begin_batch(codes(&["a"]), 1);
    step(&service, &mut state, BatchEvent::Resumed { now: 1 });
    step(
        &service,
        &mut state,
        BatchEvent::DetailFetched { body: Some(b"{\"data\":{\"name\":\"A\"}}".to_vec()), now: 2 },
    );
    let action = step(
        &service,
        &mut state,
        BatchEvent::FacetsFetched {
            reviews: Some(b"{\"data\":{}}".to_vec()),
            ratings: Some(b"{\"totalCount\":\"many\"}".to_vec()),
            now: 3,
        },
    );
    match action {
        BatchAction::Write(vendor) => {
            assert_eq!(vendor.name, "A");
            assert!(vendor.reviews.is_none());
            assert!(vendor.ratings.is_none());
            assert_eq!(vendor.details.as_ref().map(|d: &JsonText| d.as_str()), Some("{\"name\":\"A\"}"));
        }
        other => panic!("unexpected action {:?}", other),
    }
}

#[test]
fn record_that_the_sink_did_not_take_gives_up_the_batch() {
    let service = service();
    let (mut state, _) = service.begin_batch(codes(&["a", "b"]), 1);
    step(&service, &mut state, BatchEvent::Resumed { now: 1 });
    step(&service, &mut state, BatchEvent::DetailFetched { body: None, now: 2 });
    let action =
        step(&service, &mut state, BatchEvent::WriteFailed(Error::Io("disk full".to_string())));
    match action {
        BatchAction::Abort(Error::Io(reason)) => assert_eq!(reason, "disk full"),
        other => panic!("unexpected action {:?}", other),
    }
    assert_eq!(state.position, 0);
    assert!(matches!(state.phase, Phase::Failed));
    assert!(!state.expects(&BatchEvent::Written));
    assert!(!state.expects(&BatchEvent::Resumed { now: 3 }));
}

#[test]
fn write_failure_on_the_last_vendor_does_not_complete_the_batch() {
    let service = service();
    let (mut state, _) = service.begin_batch(codes(&["only"]), 4);
    step(&service, &mut state, BatchEvent::Resumed { now: 1 });
    step(&service, &mut state, BatchEvent::DetailFetched { body: None, now: 2 });
    let action = step(
        &service,
        &mut state,
        BatchEvent::WriteFailed(Error::Storage("the sink is closed".to_string())),
    );
    assert!(matches!(action, BatchAction::Abort(Error::Storage(_))));
    assert!(!matches!(state.phase, Phase::Done));
}

#[test]
fn batch_states_made_by_hand_are_checked() {
    let state = |position, phase| BatchState {
        codes: codes(&["a", "b"]),
        batch_number: 1,
        position,
        phase,
    };
    assert!(state(0, Phase::Pacing).is_valid());
    assert!(state(1, Phase::Writing).is_valid());
    assert!(!state(2, Phase::Writing).is_valid());
    assert!(state(2, Phase::Done).is_valid());
    assert!(!state(1, Phase::Done).is_valid());
    assert!(state(2, Phase::Failed).is_valid());
    assert!(!state(3, Phase::Failed).is_valid());
}
