use zester::RETRY_DELAY_SECS;
use zester::errors::FatalError;
use zester::events::ZestingEvent;
use zester::paginator::{fetch_all, FetchOutcome, FetchResult, PagState, Paginator};
use zester::records::Page;

fn page(items: Vec<u64>, next: Option<&str>) -> FetchOutcome<u64> {
    FetchOutcome::Arrived(Page { items, next_cursor: next.map(|s| s.to_string()) })
}

#[test]
fn two_pages_with_one_transient_error() {
    // Pages [ [a,b], TransientError, [c] ]: one pause event, collection [a,b,c].
    let outcomes = vec![
        page(vec![10, 20], Some("cursor-1")),
        FetchOutcome::Transient,
        page(vec![30], None),
    ];
    let (result, events) = fetch_all(outcomes);
    assert_eq!(result, FetchResult::Complete(vec![10, 20, 30]));
    assert_eq!(
        events,
        vec![
            ZestingEvent::MoreItemsDownloaded { count: 2 },
            ZestingEvent::PausedAfterServerError { delay_secs: RETRY_DELAY_SECS },
            ZestingEvent::MoreItemsDownloaded { count: 1 },
        ]
    );
}

#[test]
fn immediate_success_equals_retried_success() {
    // Retry is content- and order-idempotent: transient errors anywhere in
    // the run leave the collection exactly as an error-free run.
    let smooth = vec![page(vec![1, 2], Some("a")), page(vec![3], None)];
    let bumpy = vec![
        FetchOutcome::Transient,
        page(vec![1, 2], Some("a")),
        FetchOutcome::Transient,
        FetchOutcome::Transient,
        page(vec![3], None),
    ];
    let (smooth_result, _) = fetch_all(smooth);
    let (bumpy_result, bumpy_events) = fetch_all(bumpy);
    assert_eq!(smooth_result, FetchResult::Complete(vec![1, 2, 3]));
    assert_eq!(bumpy_result, FetchResult::Complete(vec![1, 2, 3]));
    let pauses = bumpy_events
        .iter()
        .filter(|e| matches!(e, ZestingEvent::PausedAfterServerError { .. }))
        .count();
    assert_eq!(pauses, 3);
}

#[test]
fn collection_length_is_sum_of_page_lengths() {
    let outcomes = vec![
        page(vec![1, 2, 3], Some("a")),
        page(vec![], Some("b")),
        page(vec![4, 5], None),
    ];
    let (result, events) = fetch_all(outcomes);
    assert_eq!(result, FetchResult::Complete(vec![1, 2, 3, 4, 5]));
    assert_eq!(
        events,
        vec![
            ZestingEvent::MoreItemsDownloaded { count: 3 },
            ZestingEvent::MoreItemsDownloaded { count: 0 },
            ZestingEvent::MoreItemsDownloaded { count: 2 },
        ]
    );
}

#[test]
fn fatal_error_aborts_with_no_partial_collection() {
    let outcomes = vec![
        page(vec![1, 2], Some("a")),
        FetchOutcome::Fatal(FatalError::AuthFailure),
        page(vec![3], None),
    ];
    let (result, events) = fetch_all(outcomes);
    assert_eq!(result, FetchResult::Failed(FatalError::AuthFailure));
    // The page before the abort was reported, but no collection came out.
    assert_eq!(events, vec![ZestingEvent::MoreItemsDownloaded { count: 2 }]);
}

#[test]
fn exhausted_replies_leave_the_fetch_starved() {
    let outcomes = vec![page(vec![1], Some("more-to-come"))];
    let (result, events) = fetch_all::<u64>(outcomes);
    assert_eq!(result, FetchResult::Starved);
    assert_eq!(events, vec![ZestingEvent::MoreItemsDownloaded { count: 1 }]);
}

#[test]
fn step_machine_retries_the_same_cursor() {
    let mut pag: Paginator<u64> = Paginator::new();
    let mut events = Vec::new();
    assert!(pag.is_running());
    assert_eq!(pag.cursor, None);
    pag.on_outcome(page(vec![7], Some("cursor-7")), &mut events);
    assert_eq!(pag.cursor, Some("cursor-7".to_string()));
    // A transient error keeps the cursor: the retry asks for the same page.
    pag.on_outcome(FetchOutcome::Transient, &mut events);
    assert_eq!(pag.cursor, Some("cursor-7".to_string()));
    assert!(pag.is_running());
    pag.on_outcome(page(vec![8], None), &mut events);
    assert_eq!(pag.state, PagState::Complete);
    assert_eq!(pag.items, vec![7, 8]);
}
