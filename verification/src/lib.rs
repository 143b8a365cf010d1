//! Core engine of a streaming-service archiver: pagination with retry,
//! playlist hydration with per-item fault isolation, and a fault-isolated
//! media-download engine, all reporting progress through a typed event stream.

pub mod downloader;
pub mod errors;
pub mod events;
pub mod hydrator;
pub mod paginator;
pub mod records;
pub mod storage;

use vstd::prelude::*;

verus! {

/// Fixed retry policy: how many seconds the engine waits after a transient
/// server error before retrying the same request.
pub const RETRY_DELAY_SECS: u64 = 5;

/// Fixed pacing policy: how many seconds the caller waits after each
/// settled track before starting the next download, to reduce the
/// likelihood of triggering server-side rate limiting.
pub const PACING_DELAY_SECS: u64 = 1;

/// Picks the session secret to use: an explicitly supplied value wins over
/// one found in the environment; if neither is present, the caller must
/// prompt interactively.
pub fn resolve_secret(explicit: Option<String>, from_env: Option<String>) -> (r: Option<String>)
    ensures
        explicit is Some ==> r == explicit,
        explicit is None ==> r == from_env,
{
    match explicit {
        Some(s) => Some(s),
        None => from_env,
    }
}

} // verus!
