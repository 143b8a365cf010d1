use std::collections::HashMap;

use zester::RETRY_DELAY_SECS;
use zester::downloader::{download_playlists, download_tracks, DownloadOutcome};
use zester::errors::FatalError;
use zester::events::{TrackError, ZestingEvent};
use zester::records::{Playlist, PlaylistSummary, Track};

fn track(id: u64, title: &str) -> Track {
    Track { id, title: title.to_string() }
}

fn summary(id: u64, title: &str) -> PlaylistSummary {
    PlaylistSummary { id, title: title.to_string() }
}

#[test]
fn limit_two_attempts_only_the_first_two_tracks() {
    // Tracks [T1,T2,T3], limit 2: NumTracksToDownload{2}, attempts T1 and T2 only.
    let tracks = vec![track(1, "T1"), track(2, "T2"), track(3, "T3")];
    let outcomes = vec![DownloadOutcome::Done, DownloadOutcome::Done];
    let report = download_tracks(tracks, 2, outcomes);
    assert_eq!(report.result, Ok(()));
    assert_eq!(
        report.events,
        vec![
            ZestingEvent::NumTracksToDownload { count: 2 },
            ZestingEvent::StartTrackDownload { track: track(1, "T1"), playlist: None },
            ZestingEvent::FinishTrackDownload { track: track(1, "T1"), playlist: None },
            ZestingEvent::StartTrackDownload { track: track(2, "T2"), playlist: None },
            ZestingEvent::FinishTrackDownload { track: track(2, "T2"), playlist: None },
        ]
    );
}

#[test]
fn limit_counts_attempts_not_successes() {
    // limit = k yields min(k, len) attempts no matter how many of them fail.
    let tracks = vec![track(1, "T1"), track(2, "T2"), track(3, "T3")];
    let outcomes = vec![
        DownloadOutcome::Skipped(TrackError::NoPlayableMedia),
        DownloadOutcome::Skipped(TrackError::StreamOpenFailed),
    ];
    let report = download_tracks(tracks, 2, outcomes);
    assert_eq!(report.result, Ok(()));
    let starts = report
        .events
        .iter()
        .filter(|e| matches!(e, ZestingEvent::StartTrackDownload { .. }))
        .count();
    assert_eq!(starts, 2);
    assert!(report.completed.is_empty());
}

#[test]
fn limit_larger_than_input_selects_everything() {
    let tracks = vec![track(1, "T1"), track(2, "T2")];
    let outcomes = vec![DownloadOutcome::Done, DownloadOutcome::Done];
    let report = download_tracks(tracks, u64::MAX, outcomes);
    assert_eq!(report.events[0], ZestingEvent::NumTracksToDownload { count: 2 });
    assert_eq!(report.completed, vec![track(1, "T1"), track(2, "T2")]);
}

#[test]
fn transient_error_pauses_and_retries_the_same_track() {
    let tracks = vec![track(1, "T1")];
    let outcomes = vec![DownloadOutcome::Transient, DownloadOutcome::Done];
    let report = download_tracks(tracks, 1, outcomes);
    assert_eq!(
        report.events,
        vec![
            ZestingEvent::NumTracksToDownload { count: 1 },
            ZestingEvent::StartTrackDownload { track: track(1, "T1"), playlist: None },
            ZestingEvent::PausedAfterServerError { delay_secs: RETRY_DELAY_SECS },
            ZestingEvent::FinishTrackDownload { track: track(1, "T1"), playlist: None },
        ]
    );
}

#[test]
fn per_track_failure_is_reported_once_and_skipped() {
    let tracks = vec![track(1, "T1"), track(2, "T2"), track(3, "T3")];
    let outcomes = vec![
        DownloadOutcome::Done,
        DownloadOutcome::Skipped(TrackError::StreamOpenFailed),
        DownloadOutcome::Done,
    ];
    let report = download_tracks(tracks, 3, outcomes);
    // The run is not aborted: its result is Ok, the failing track is
    // skipped, and the tracks after it keep their order.
    assert_eq!(report.result, Ok(()));
    assert_eq!(report.completed, vec![track(1, "T1"), track(3, "T3")]);
    assert_eq!(
        report.events[2..],
        [
            ZestingEvent::FinishTrackDownload { track: track(1, "T1"), playlist: None },
            ZestingEvent::StartTrackDownload { track: track(2, "T2"), playlist: None },
            ZestingEvent::TrackDownloadError {
                track: track(2, "T2"),
                error: TrackError::StreamOpenFailed,
                playlist: None,
            },
            ZestingEvent::StartTrackDownload { track: track(3, "T3"), playlist: None },
            ZestingEvent::FinishTrackDownload { track: track(3, "T3"), playlist: None },
        ]
    );
}

#[test]
fn rerun_does_not_corrupt_unrelated_files() {
    // Three tracks; track 2's stream open fails permanently. Tracks 1 and 3
    // must be written with their own bytes, and a re-run against the same
    // output must leave them byte-for-byte intact.
    let tracks = vec![track(1, "T1"), track(2, "T2"), track(3, "T3")];
    let outcomes = || {
        vec![
            DownloadOutcome::Done,
            DownloadOutcome::Skipped(TrackError::StreamOpenFailed),
            DownloadOutcome::Done,
        ]
    };
    let payload = |t: &Track| -> Vec<u8> { t.title.as_bytes().to_vec() };

    let mut files: HashMap<u64, Vec<u8>> = HashMap::new();
    let first = download_tracks(tracks.clone(), 3, outcomes());
    for t in &first.completed {
        files.insert(t.id, payload(t));
    }
    assert_eq!(files.len(), 2);
    assert_eq!(files[&1], b"T1".to_vec());
    assert_eq!(files[&3], b"T3".to_vec());
    assert!(!files.contains_key(&2));

    let second = download_tracks(tracks, 3, outcomes());
    for t in &second.completed {
        files.insert(t.id, payload(t));
    }
    // Only the tracks whose own replies said so were rewritten; nothing
    // else changed and no half-written entry appeared for track 2.
    assert_eq!(files.len(), 2);
    assert_eq!(files[&1], b"T1".to_vec());
    assert_eq!(files[&3], b"T3".to_vec());
    assert!(!files.contains_key(&2));
}

#[test]
fn fatal_error_aborts_the_whole_run() {
    let tracks = vec![track(1, "T1"), track(2, "T2")];
    let outcomes = vec![DownloadOutcome::Done, DownloadOutcome::Fatal(FatalError::AuthFailure)];
    let report = download_tracks(tracks, 2, outcomes);
    assert_eq!(report.result, Err(FatalError::AuthFailure));
    assert_eq!(report.completed, vec![track(1, "T1")]);
    // No event is emitted for the abort itself, and none after it.
    assert_eq!(
        report.events,
        vec![
            ZestingEvent::NumTracksToDownload { count: 2 },
            ZestingEvent::StartTrackDownload { track: track(1, "T1"), playlist: None },
            ZestingEvent::FinishTrackDownload { track: track(1, "T1"), playlist: None },
            ZestingEvent::StartTrackDownload { track: track(2, "T2"), playlist: None },
        ]
    );
}

#[test]
fn playlist_run_wraps_track_events_with_the_owning_playlist() {
    let playlists = vec![
        Playlist { id: 10, title: "P1".to_string(), tracks: vec![track(1, "T1")] },
        Playlist { id: 20, title: "P2".to_string(), tracks: vec![track(2, "T2")] },
    ];
    let outcomes = vec![DownloadOutcome::Done, DownloadOutcome::Skipped(TrackError::SinkFailed)];
    let report = download_playlists(playlists, u64::MAX, outcomes);
    assert_eq!(report.result, Ok(()));
    assert_eq!(report.completed, vec![track(1, "T1")]);
    assert_eq!(
        report.events,
        vec![
            ZestingEvent::StartPlaylistDownload { playlist: summary(10, "P1") },
            ZestingEvent::NumTracksToDownload { count: 1 },
            ZestingEvent::StartTrackDownload {
                track: track(1, "T1"),
                playlist: Some(summary(10, "P1")),
            },
            ZestingEvent::FinishTrackDownload {
                track: track(1, "T1"),
                playlist: Some(summary(10, "P1")),
            },
            ZestingEvent::FinishPlaylistDownload { playlist: summary(10, "P1") },
            ZestingEvent::StartPlaylistDownload { playlist: summary(20, "P2") },
            ZestingEvent::NumTracksToDownload { count: 1 },
            ZestingEvent::StartTrackDownload {
                track: track(2, "T2"),
                playlist: Some(summary(20, "P2")),
            },
            ZestingEvent::TrackDownloadError {
                track: track(2, "T2"),
                error: TrackError::SinkFailed,
                playlist: Some(summary(20, "P2")),
            },
            ZestingEvent::FinishPlaylistDownload { playlist: summary(20, "P2") },
        ]
    );
}

#[test]
fn playlist_limit_selects_the_most_recent_playlists() {
    let playlists = vec![
        Playlist { id: 10, title: "P1".to_string(), tracks: vec![track(1, "T1")] },
        Playlist { id: 20, title: "P2".to_string(), tracks: vec![track(2, "T2")] },
    ];
    let outcomes = vec![DownloadOutcome::Done];
    let report = download_playlists(playlists, 1, outcomes);
    assert_eq!(report.result, Ok(()));
    assert_eq!(report.completed, vec![track(1, "T1")]);
    assert!(report
        .events
        .iter()
        .all(|e| !matches!(e, ZestingEvent::StartPlaylistDownload { playlist } if playlist.id == 20)));
}

#[test]
fn fatal_error_inside_a_playlist_aborts_the_nested_run() {
    let playlists = vec![
        Playlist { id: 10, title: "P1".to_string(), tracks: vec![track(1, "T1")] },
        Playlist { id: 20, title: "P2".to_string(), tracks: vec![track(2, "T2")] },
    ];
    let outcomes = vec![DownloadOutcome::Fatal(FatalError::StorageUnavailable)];
    let report = download_playlists(playlists, u64::MAX, outcomes);
    assert_eq!(report.result, Err(FatalError::StorageUnavailable));
    assert!(report.completed.is_empty());
    assert_eq!(
        report.events,
        vec![
            ZestingEvent::StartPlaylistDownload { playlist: summary(10, "P1") },
            ZestingEvent::NumTracksToDownload { count: 1 },
            ZestingEvent::StartTrackDownload {
                track: track(1, "T1"),
                playlist: Some(summary(10, "P1")),
            },
        ]
    );
}

#[test]
fn step_machine_walks_tracks_in_order() {
    let mut dl = zester::downloader::Downloader::new(vec![track(1, "T1"), track(2, "T2")], None);
    let mut events = Vec::new();
    let mut completed = Vec::new();
    assert!(!dl.started);
    dl.begin_track(&mut events);
    assert_eq!(dl.current().id, 1);
    // A transient reply keeps the same track current.
    let aborted = dl.on_outcome(DownloadOutcome::Transient, &mut events, &mut completed);
    assert_eq!(aborted, None);
    assert_eq!(dl.current().id, 1);
    dl.begin_track(&mut events); // already open: emits nothing
    let aborted = dl.on_outcome(DownloadOutcome::Done, &mut events, &mut completed);
    assert_eq!(aborted, None);
    assert_eq!(dl.current().id, 2);
    dl.begin_track(&mut events);
    let aborted = dl.on_outcome(
        DownloadOutcome::Fatal(FatalError::MalformedResponse),
        &mut events,
        &mut completed,
    );
    assert_eq!(aborted, Some(FatalError::MalformedResponse));
    assert_eq!(completed, vec![track(1, "T1")]);
    assert_eq!(
        events,
        vec![
            ZestingEvent::StartTrackDownload { track: track(1, "T1"), playlist: None },
            ZestingEvent::PausedAfterServerError { delay_secs: RETRY_DELAY_SECS },
            ZestingEvent::FinishTrackDownload { track: track(1, "T1"), playlist: None },
            ZestingEvent::StartTrackDownload { track: track(2, "T2"), playlist: None },
        ]
    );
}
