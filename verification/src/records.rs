//! Value records of the archive: credentials, the user profile, tracks,
//! playlists and server pages. All are plain data with no back-references.

use vstd::prelude::*;

verus! {

/// The credential pair for a run: a session token and an application
/// identifier. Owned by the caller; the transport borrows it for each call.
pub struct Credentials {
    pub oauth_token: String,
    pub client_id: String,
}

/// User-level counts, fetched once before a run to size progress reporting.
pub struct Profile {
    pub likes_count: u64,
    pub playlist_count: u64,
    pub private_playlists_count: u64,
}

impl Profile {
    /// Total number of playlists of either visibility, saturating at the
    /// largest representable count.
    pub fn total_playlist_count(&self) -> (r: u64)
        ensures
            r == if self.playlist_count + self.private_playlists_count <= u64::MAX {
                self.playlist_count + self.private_playlists_count
            } else {
                u64::MAX as int
            },
    {
        if self.playlist_count <= u64::MAX - self.private_playlists_count {
            self.playlist_count + self.private_playlists_count
        } else {
            u64::MAX
        }
    }
}

/// One track: identity and title. The media stream behind it is opened by
/// the transport; the engine only hands the track across that boundary.
#[derive(Debug, PartialEq, Eq)]
pub struct Track {
    pub id: u64,
    pub title: String,
}

impl Clone for Track {
    fn clone(&self) -> (r: Self)
        ensures
            r == *self,
    {
        Track { id: self.id, title: self.title.clone() }
    }
}

/// The lightweight identity of a playlist, enough to request its full record.
#[derive(Debug, PartialEq, Eq)]
pub struct PlaylistSummary {
    pub id: u64,
    pub title: String,
}

impl Clone for PlaylistSummary {
    fn clone(&self) -> (r: Self)
        ensures
            r == *self,
    {
        PlaylistSummary { id: self.id, title: self.title.clone() }
    }
}

/// A full playlist record: identity plus its ordered tracks. A playlist with
/// zero tracks is valid, and distinct from a failed hydration (absent).
#[derive(Debug, PartialEq, Eq)]
pub struct Playlist {
    pub id: u64,
    pub title: String,
    pub tracks: Vec<Track>,
}

/// One server response page: the items it carries, in server order, and the
/// continuation cursor, absent on the last page of a listing.
#[derive(Debug, PartialEq, Eq)]
pub struct Page<T> {
    pub items: Vec<T>,
    pub next_cursor: Option<String>,
}

} // verus!
