use foodpanda_etl::error::Error;
use foodpanda_etl::pipeline::{
    advance, total_pages, RunAction, RunEvent, RunPhase, FIRST_PAGE_LIMIT, PAGE_JITTER_MS,
    PAGE_PAUSE_MS,
};

fn page(first: usize, count: usize, returned: i32, available: i32) -> Vec<u8> {
    let items: Vec<String> =
        (first..first + count).map(|i| format!("{{\"code\":\"V{}\"}}", i)).collect();
    format!(
        "{{\"data\":{{\"items\":[{}],\"returned_count\":{},\"available_count\":{}}}}}",
        items.join(","),
        returned,
        available
    )
    .into_bytes()
}

fn step(phase: RunPhase, event: RunEvent) -> (RunPhase, RunAction) {
    assert!(phase.expects(&event));
    advance(phase, event)
}

#[test]
fn page_count_is_the_quotient_rounded_up() {
    assert_eq!(total_pages(100, 48), Some(3));
    assert_eq!(total_pages(96, 48), Some(2));
    assert_eq!(total_pages(97, 48), Some(3));
    assert_eq!(total_pages(1, 48), Some(1));
    assert_eq!(total_pages(48, 48), Some(1));
    assert_eq!(total_pages(49, 48), Some(2));
    assert_eq!(total_pages(i32::MAX, 1), Some(i32::MAX));
    assert_eq!(total_pages(i32::MAX, 2), Some(1 << 30));
    assert_eq!(total_pages(i32::MAX, i32::MAX), Some(1));
    assert_eq!(total_pages(5, i32::MAX), Some(1));
}

#[test]
fn empty_listing_has_no_pages_and_impossible_counts_have_none() {
    assert_eq!(total_pages(0, 48), Some(0));
    assert_eq!(total_pages(0, 0), Some(0));
    assert_eq!(total_pages(0, -1), None);
    assert_eq!(total_pages(10, 0), None);
    assert_eq!(total_pages(10, -3), None);
    assert_eq!(total_pages(-1, 48), None);
    assert_eq!(total_pages(i32::MIN, i32::MIN), None);
}

#[test]
fn pauses_between_pages_are_the_configured_interval() {
    assert_eq!(FIRST_PAGE_LIMIT, 48);
    assert_eq!((PAGE_PAUSE_MS, PAGE_JITTER_MS), (2000, 1000));
}

#[test]
fn hundred_vendors_in_pages_of_forty_eight_take_three_pages() {
    let (phase, action) = step(RunPhase::Init, RunEvent::Started);
    assert_eq!(phase, RunPhase::FetchFirstPage);
    assert!(matches!(action, RunAction::FetchPage { offset: 0, limit: 48 }));

    let mut visited = Vec::new();
    let mut fetched = vec![(0, 48)];
    let mut pauses = 0;
    let (mut phase, mut action) = step(phase, RunEvent::PageFetched(page(0, 48, 48, 100)));
    loop {
        let event = match action {
            RunAction::ProcessBatch { vendor_codes, batch_number, total_batches } => {
                assert_eq!(total_batches, 3);
                visited.push((batch_number, vendor_codes.len(), vendor_codes[0].clone()));
                RunEvent::BatchDone
            }
            RunAction::Pause { base_ms, jitter_ms } => {
                assert_eq!((base_ms, jitter_ms), (2000, 1000));
                pauses += 1;
                RunEvent::Resumed
            }
            RunAction::FetchPage { offset, limit } => {
                fetched.push((offset, limit));
                let left = 100 - offset;
                let count = if left < limit { left } else { limit };
                RunEvent::PageFetched(page(offset as usize, count as usize, count, 100))
            }
            RunAction::FinishSink => RunEvent::SinkFinished,
            RunAction::Encode => RunEvent::Encoded,
            RunAction::Upload => RunEvent::Uploaded,
            RunAction::Finish => break,
            RunAction::Abort(e) => panic!("run failed: {:?}", e),
        };
        let next = step(phase, event);
        phase = next.0;
        action = next.1;
    }
    assert_eq!(phase, RunPhase::Done);
    assert_eq!(
        visited,
        vec![(1, 48, "V0".to_string()), (2, 48, "V48".to_string()), (3, 4, "V96".to_string())]
    );
    assert_eq!(fetched, vec![(0, 48), (48, 48), (96, 48)]);
    assert_eq!(pauses, 2);
}

#[test]
fn phases_follow_each_other_in_the_order_of_the_run() {
    let (phase, _) = step(RunPhase::Init, RunEvent::Started);
    let (phase, action) = step(phase, RunEvent::PageFetched(page(0, 2, 2, 2)));
    assert_eq!(phase, RunPhase::ProcessPage { page: 0, total_pages: 1, page_size: 2 });
    assert!(matches!(action, RunAction::ProcessBatch { batch_number: 1, total_batches: 1, .. }));
    let (phase, action) = step(phase, RunEvent::BatchDone);
    assert_eq!(phase, RunPhase::Finalize);
    assert!(matches!(action, RunAction::FinishSink));
    let (phase, action) = step(phase, RunEvent::SinkFinished);
    assert_eq!(phase, RunPhase::Encode);
    assert!(matches!(action, RunAction::Encode));
    let (phase, action) = step(phase, RunEvent::Encoded);
    assert_eq!(phase, RunPhase::Upload);
    assert!(matches!(action, RunAction::Upload));
    let (phase, action) = step(phase, RunEvent::Uploaded);
    assert_eq!(phase, RunPhase::Done);
    assert!(matches!(action, RunAction::Finish));
    assert!(!phase.expects(&RunEvent::Started));
    assert!(!phase.expects(&RunEvent::Failed(Error::Forbidden)));
}

#[test]
fn empty_listing_goes_straight_to_the_closing_of_the_sink() {
    let (phase, action) = step(RunPhase::FetchFirstPage, RunEvent::PageFetched(page(0, 0, 0, 0)));
    assert_eq!(phase, RunPhase::Finalize);
    assert!(matches!(action, RunAction::FinishSink));
}

#[test]
fn impossible_counts_fail_the_run() {
    for (returned, available) in [(0, 10), (-1, 10), (48, -1)] {
        let (phase, action) =
            step(RunPhase::FetchFirstPage, RunEvent::PageFetched(page(0, 1, returned, available)));
        assert_eq!(phase, RunPhase::Failed);
        assert!(matches!(action, RunAction::Abort(Error::Json(_))));
    }
}

#[test]
fn failure_is_reachable_from_every_phase_before_the_end() {
    let phases = [
        RunPhase::Init,
        RunPhase::FetchFirstPage,
        RunPhase::Pacing { page: 1, total_pages: 3, page_size: 48 },
        RunPhase::FetchPage { page: 1, total_pages: 3, page_size: 48 },
        RunPhase::ProcessPage { page: 0, total_pages: 3, page_size: 48 },
        RunPhase::Finalize,
        RunPhase::Encode,
        RunPhase::Upload,
    ];
    for phase in phases {
        let (next, action) = step(phase, RunEvent::Failed(Error::MaxRetriesExceeded));
        assert_eq!(next, RunPhase::Failed);
        assert!(matches!(action, RunAction::Abort(Error::MaxRetriesExceeded)));
    }
    assert!(!RunPhase::Failed.expects(&RunEvent::Failed(Error::Forbidden)));
    assert!(!RunPhase::Done.expects(&RunEvent::Uploaded));
}

#[test]
fn later_pages_are_asked_for_at_their_offset() {
    let waiting = RunPhase::Pacing { page: 2, total_pages: 3, page_size: 48 };
    let (phase, action) = step(waiting, RunEvent::Resumed);
    assert_eq!(phase, RunPhase::FetchPage { page: 2, total_pages: 3, page_size: 48 });
    assert!(matches!(action, RunAction::FetchPage { offset: 96, limit: 48 }));
    let (phase, action) = step(phase, RunEvent::PageFetched(page(96, 4, 4, 100)));
    assert_eq!(phase, RunPhase::ProcessPage { page: 2, total_pages: 3, page_size: 48 });
    match action {
        RunAction::ProcessBatch { vendor_codes, batch_number, total_batches } => {
            assert_eq!(vendor_codes, vec!["V96", "V97", "V98", "V99"]);
            assert_eq!(batch_number, 3);
            assert_eq!(total_batches, 3);
        }
        other => panic!("unexpected action {:?}", other),
    }
}

#[test]
fn body_that_spells_no_page_fails_the_run() {
    let (phase, action) =
        step(RunPhase::FetchFirstPage, RunEvent::PageFetched(b"<html>".to_vec()));
    assert_eq!(phase, RunPhase::Failed);
    match action {
        RunAction::Abort(Error::Json(words)) => assert!(words.ends_with(" in body: <html>")),
        other => panic!("unexpected action {:?}", other),
    }
    let counts = b"{\"data\":{\"items\":[],\"returned_count\":0,\"available_count\":5}}";
    let (phase, action) = step(RunPhase::FetchFirstPage, RunEvent::PageFetched(counts.to_vec()));
    assert_eq!(phase, RunPhase::Failed);
    match action {
        RunAction::Abort(Error::Json(words)) => assert_eq!(
            words,
            format!("page counts out of range in body: {}", String::from_utf8_lossy(counts))
        ),
        other => panic!("unexpected action {:?}", other),
    }
    let later = RunPhase::FetchPage { page: 1, total_pages: 3, page_size: 48 };
    let (phase, action) = step(later, RunEvent::PageFetched(b"{\"data\":{}}".to_vec()));
    assert_eq!(phase, RunPhase::Failed);
    assert!(matches!(action, RunAction::Abort(Error::Json(_))));
}

#[test]
fn phases_made_by_hand_are_checked() {
    assert!(RunPhase::Init.is_valid());
    assert!(RunPhase::ProcessPage { page: 0, total_pages: 3, page_size: 48 }.is_valid());
    assert!(!RunPhase::ProcessPage { page: 3, total_pages: 3, page_size: 48 }.is_valid());
    assert!(!RunPhase::ProcessPage { page: -1, total_pages: 3, page_size: 48 }.is_valid());
    assert!(!RunPhase::ProcessPage { page: 0, total_pages: 3, page_size: 0 }.is_valid());
    assert!(!RunPhase::Pacing { page: 0, total_pages: 3, page_size: 48 }.is_valid());
    assert!(RunPhase::Pacing { page: 2, total_pages: 3, page_size: 48 }.is_valid());
    assert!(RunPhase::FetchPage { page: 1, total_pages: 2, page_size: i32::MAX }.is_valid());
    assert!(!RunPhase::FetchPage { page: 1, total_pages: 3, page_size: i32::MAX }.is_valid());
    assert!(!RunPhase::FetchPage { page: 1, total_pages: i32::MAX, page_size: 2 }.is_valid());
}
