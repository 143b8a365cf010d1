//! The event vocabulary: one tagged union describing every observable step
//! of a run. Events are handed to an observer exactly as produced; the
//! observer never influences control flow.

use vstd::prelude::*;
use crate::RETRY_DELAY_SECS;
use crate::records::{PlaylistSummary, Track};

verus! {

/// Why a single playlist could not be hydrated. The two variants separate
/// "could not fetch the full record" from "fetched it, but it could not be
/// completed" (the detail record was malformed or incomplete).
#[derive(Debug, PartialEq, Eq, Clone, Copy)]
pub enum ItemError {
    FetchFailed,
    CompletionFailed,
}

/// Why a single track download was skipped. Each variant is scoped to that
/// one track; none of them aborts the surrounding run.
#[derive(Debug, PartialEq, Eq, Clone, Copy)]
pub enum TrackError {
    NoPlayableMedia,
    StreamOpenFailed,
    SinkFailed,
}

/// One observable step of a run, reported synchronously while fetching,
/// hydrating or downloading. Track-level events carry the owning playlist's
/// identity when they arise inside a playlist download.
#[derive(Debug, PartialEq, Eq)]
pub enum ZestingEvent {
    /// A page of a collection listing arrived with this many items.
    MoreItemsDownloaded { count: usize },
    /// A transient server error was absorbed; the engine pauses this many
    /// seconds and then retries the same request.
    PausedAfterServerError { delay_secs: u64 },
    /// Hydration of one playlist summary begins.
    StartItemFetch { summary: PlaylistSummary },
    /// Hydration of one playlist summary succeeded.
    FinishItemFetch { summary: PlaylistSummary },
    /// Hydration of one playlist summary failed; the item is omitted.
    ItemFetchError { summary: PlaylistSummary, error: ItemError },
    /// A flat download run begins with this many tracks selected.
    NumTracksToDownload { count: usize },
    /// One track's download is attempted.
    StartTrackDownload { track: Track, playlist: Option<PlaylistSummary> },
    /// One track's media was fully copied to its sink.
    FinishTrackDownload { track: Track, playlist: Option<PlaylistSummary> },
    /// One track's download failed for a permanent reason and was skipped.
    TrackDownloadError { track: Track, error: TrackError, playlist: Option<PlaylistSummary> },
    /// Downloading of one playlist's tracks begins.
    StartPlaylistDownload { playlist: PlaylistSummary },
    /// Downloading of one playlist's tracks ended.
    FinishPlaylistDownload { playlist: PlaylistSummary },
}

/// `n` pause events in a row: what a run reports while it absorbs `n`
/// consecutive transient server errors.
pub open spec fn spec_pauses(n: nat) -> Seq<ZestingEvent> {
    Seq::new(n, |i: int| ZestingEvent::PausedAfterServerError { delay_secs: RETRY_DELAY_SECS })
}

} // verus!
