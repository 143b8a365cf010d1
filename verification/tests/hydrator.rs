use zester::RETRY_DELAY_SECS;
use zester::events::{ItemError, ZestingEvent};
use zester::hydrator::{hydrate_all, HydrateOutcome};
use zester::records::{Playlist, PlaylistSummary, Track};

fn summary(id: u64, title: &str) -> PlaylistSummary {
    PlaylistSummary { id, title: title.to_string() }
}

fn track(id: u64, title: &str) -> Track {
    Track { id, title: title.to_string() }
}

#[test]
fn output_length_is_input_length_minus_errors() {
    let summaries = vec![summary(1, "one"), summary(2, "two"), summary(3, "three")];
    let outcomes = vec![
        HydrateOutcome::Fetched { tracks: vec![track(11, "a")] },
        HydrateOutcome::FetchError,
        HydrateOutcome::Fetched { tracks: vec![track(31, "b"), track(32, "c")] },
    ];
    let (playlists, events) = hydrate_all(summaries, outcomes);
    let errors = events
        .iter()
        .filter(|e| matches!(e, ZestingEvent::ItemFetchError { .. }))
        .count();
    assert_eq!(playlists.len(), 3 - errors);
    assert_eq!(playlists.len(), 2);
    assert_eq!(playlists[0].id, 1);
    assert_eq!(playlists[0].tracks, vec![track(11, "a")]);
    assert_eq!(playlists[1].id, 3);
    assert_eq!(playlists[1].tracks, vec![track(31, "b"), track(32, "c")]);
}

#[test]
fn every_omission_has_exactly_one_error_event() {
    let summaries = vec![summary(1, "one"), summary(2, "two"), summary(3, "three")];
    let outcomes = vec![
        HydrateOutcome::FetchError,
        HydrateOutcome::Fetched { tracks: vec![] },
        HydrateOutcome::CompletionError,
    ];
    let (playlists, events) = hydrate_all(summaries, outcomes);
    assert_eq!(playlists.len(), 1);
    let errors: Vec<&ZestingEvent> = events
        .iter()
        .filter(|e| matches!(e, ZestingEvent::ItemFetchError { .. }))
        .collect();
    assert_eq!(errors.len(), 2);
    assert_eq!(
        *errors[0],
        ZestingEvent::ItemFetchError { summary: summary(1, "one"), error: ItemError::FetchFailed }
    );
    assert_eq!(
        *errors[1],
        ZestingEvent::ItemFetchError {
            summary: summary(3, "three"),
            error: ItemError::CompletionFailed,
        }
    );
}

#[test]
fn empty_playlist_is_valid_and_distinct_from_absent() {
    // A fetched record with zero tracks still becomes a playlist.
    let summaries = vec![summary(5, "empty")];
    let outcomes = vec![HydrateOutcome::Fetched { tracks: vec![] }];
    let (playlists, events) = hydrate_all(summaries, outcomes);
    assert_eq!(
        playlists,
        vec![Playlist { id: 5, title: "empty".to_string(), tracks: vec![] }]
    );
    assert_eq!(
        events,
        vec![
            ZestingEvent::StartItemFetch { summary: summary(5, "empty") },
            ZestingEvent::FinishItemFetch { summary: summary(5, "empty") },
        ]
    );
}

#[test]
fn transient_errors_pause_and_retry_the_same_item() {
    let summaries = vec![summary(9, "nine")];
    let outcomes = vec![
        HydrateOutcome::Transient,
        HydrateOutcome::Transient,
        HydrateOutcome::Fetched { tracks: vec![track(91, "t")] },
    ];
    let (playlists, events) = hydrate_all(summaries, outcomes);
    assert_eq!(playlists.len(), 1);
    assert_eq!(
        events,
        vec![
            ZestingEvent::StartItemFetch { summary: summary(9, "nine") },
            ZestingEvent::PausedAfterServerError { delay_secs: RETRY_DELAY_SECS },
            ZestingEvent::PausedAfterServerError { delay_secs: RETRY_DELAY_SECS },
            ZestingEvent::FinishItemFetch { summary: summary(9, "nine") },
        ]
    );
}

#[test]
fn failure_on_one_item_does_not_disturb_later_items() {
    let summaries = vec![summary(1, "one"), summary(2, "two"), summary(3, "three")];
    let good = vec![
        HydrateOutcome::Fetched { tracks: vec![] },
        HydrateOutcome::Fetched { tracks: vec![] },
        HydrateOutcome::Fetched { tracks: vec![] },
    ];
    let bad = vec![
        HydrateOutcome::Fetched { tracks: vec![] },
        HydrateOutcome::FetchError,
        HydrateOutcome::Fetched { tracks: vec![] },
    ];
    let (_, good_events) = hydrate_all(summaries.clone(), good);
    let (_, bad_events) = hydrate_all(summaries, bad);
    // Events for item three are still emitted, in the same relative order.
    assert_eq!(good_events[4..], bad_events[4..]);
    assert_eq!(
        bad_events[4..],
        [
            ZestingEvent::StartItemFetch { summary: summary(3, "three") },
            ZestingEvent::FinishItemFetch { summary: summary(3, "three") },
        ]
    );
}

#[test]
fn exhausted_replies_stop_the_batch_after_the_open_item() {
    // The replies run out after the first item: the second item's fetch is
    // opened but never settles, and the batch returns what it has.
    let summaries = vec![summary(1, "one"), summary(2, "two")];
    let outcomes = vec![HydrateOutcome::Fetched { tracks: vec![] }];
    let (playlists, events) = hydrate_all(summaries, outcomes);
    assert_eq!(playlists.len(), 1);
    assert_eq!(
        events,
        vec![
            ZestingEvent::StartItemFetch { summary: summary(1, "one") },
            ZestingEvent::FinishItemFetch { summary: summary(1, "one") },
            ZestingEvent::StartItemFetch { summary: summary(2, "two") },
        ]
    );
}
