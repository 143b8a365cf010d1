//! The media-download engine: walks a sequence of tracks, flat (likes) or
//! grouped by playlist, asking the transport to open and copy each track's
//! byte stream. Transient server errors pause and retry the same track;
//! permanent per-track failures are reported and skipped; only a fatal
//! error aborts the run. After every settled track the caller applies the
//! fixed pacing delay [`crate::PACING_DELAY_SECS`] before the next request.

use vstd::prelude::*;
use crate::RETRY_DELAY_SECS;
use crate::errors::FatalError;
use crate::events::{spec_pauses, TrackError, ZestingEvent};
use crate::records::{Playlist, PlaylistSummary, Track};

verus! {

/// How one attempt at one track ended, as the transport reports it.
#[derive(Debug, PartialEq, Eq)]
pub enum DownloadOutcome {
    /// A transient server error; the same track is retried.
    Transient,
    /// The stream was opened and fully copied into the track's sink.
    Done,
    /// A permanent per-track failure; the track is skipped.
    Skipped(TrackError),
    /// A non-recoverable failure; the whole run is aborted.
    Fatal(FatalError),
}

/// The events a flat run over `rem` reports, after its opening count event.
/// `started` says whether the current track's start event is already out;
/// `ctx` is the owning playlist, carried into every track-level event.
pub open spec fn spec_dl_events(
    rem: Seq<Track>,
    outs: Seq<DownloadOutcome>,
    started: bool,
    ctx: Option<PlaylistSummary>,
) -> Seq<ZestingEvent>
    decreases outs.len(), rem.len(),
{
    if rem.len() == 0 {
        Seq::empty()
    } else {
        let pre: Seq<ZestingEvent> = if started {
            Seq::empty()
        } else {
            seq![ZestingEvent::StartTrackDownload { track: rem[0], playlist: ctx }]
        };
        if outs.len() == 0 {
            pre
        } else {
            match outs[0] {
                DownloadOutcome::Transient => pre + seq![
                    ZestingEvent::PausedAfterServerError { delay_secs: RETRY_DELAY_SECS },
                ] + spec_dl_events(rem, outs.drop_first(), true, ctx),
                DownloadOutcome::Done => pre + seq![
                    ZestingEvent::FinishTrackDownload { track: rem[0], playlist: ctx },
                ] + spec_dl_events(rem.drop_first(), outs.drop_first(), false, ctx),
                DownloadOutcome::Skipped(te) => pre + seq![
                    ZestingEvent::TrackDownloadError { track: rem[0], error: te, playlist: ctx },
                ] + spec_dl_events(rem.drop_first(), outs.drop_first(), false, ctx),
                DownloadOutcome::Fatal(_) => pre,
            }
        }
    }
}

/// The tracks a flat run writes: those whose stream was fully copied, in
/// input order. A skipped track leaves no trace here, and a fatal abort
/// writes nothing further.
pub open spec fn spec_dl_completed(rem: Seq<Track>, outs: Seq<DownloadOutcome>) -> Seq<Track>
    decreases outs.len(), rem.len(),
{
    if rem.len() == 0 || outs.len() == 0 {
        Seq::empty()
    } else {
        match outs[0] {
            DownloadOutcome::Transient => spec_dl_completed(rem, outs.drop_first()),
            DownloadOutcome::Done => seq![rem[0]] + spec_dl_completed(
                rem.drop_first(),
                outs.drop_first(),
            ),
            DownloadOutcome::Skipped(_) => spec_dl_completed(rem.drop_first(), outs.drop_first()),
            DownloadOutcome::Fatal(_) => Seq::empty(),
        }
    }
}

/// The fatal error a flat run hits, if any.
pub open spec fn spec_dl_failure(
    rem: Seq<Track>,
    outs: Seq<DownloadOutcome>,
) -> Option<FatalError>
    decreases outs.len(), rem.len(),
{
    if rem.len() == 0 || outs.len() == 0 {
        None
    } else {
        match outs[0] {
            DownloadOutcome::Transient => spec_dl_failure(rem, outs.drop_first()),
            DownloadOutcome::Done => spec_dl_failure(rem.drop_first(), outs.drop_first()),
            DownloadOutcome::Skipped(_) => spec_dl_failure(rem.drop_first(), outs.drop_first()),
            DownloadOutcome::Fatal(e) => Some(e),
        }
    }
}

/// How many transport replies a flat run consumes.
pub open spec fn spec_dl_used(rem: Seq<Track>, outs: Seq<DownloadOutcome>) -> nat
    decreases outs.len(), rem.len(),
{
    if rem.len() == 0 || outs.len() == 0 {
        0
    } else {
        match outs[0] {
            DownloadOutcome::Transient => 1 + spec_dl_used(rem, outs.drop_first()),
            DownloadOutcome::Done => 1 + spec_dl_used(rem.drop_first(), outs.drop_first()),
            DownloadOutcome::Skipped(_) => 1 + spec_dl_used(rem.drop_first(), outs.drop_first()),
            DownloadOutcome::Fatal(_) => 1,
        }
    }
}

/// Whether the replies settle every track without a fatal abort.
pub open spec fn spec_dl_concludes(rem: Seq<Track>, outs: Seq<DownloadOutcome>) -> bool
    decreases outs.len(), rem.len(),
{
    if rem.len() == 0 {
        true
    } else if outs.len() == 0 {
        false
    } else {
        match outs[0] {
            DownloadOutcome::Transient => spec_dl_concludes(rem, outs.drop_first()),
            DownloadOutcome::Done => spec_dl_concludes(rem.drop_first(), outs.drop_first()),
            DownloadOutcome::Skipped(_) => spec_dl_concludes(rem.drop_first(), outs.drop_first()),
            DownloadOutcome::Fatal(_) => false,
        }
    }
}

/// How many tracks a limit of `limit` selects from an input of length `len`.
pub open spec fn spec_limited(limit: u64, len: nat) -> int {
    if limit as int <= len {
        limit as int
    } else {
        len as int
    }
}

/// What a download run produced: its overall result, which is `Ok` exactly
/// when no fatal error occurred; the tracks actually written, in order; and
/// every event reported.
#[derive(Debug)]
pub struct DownloadReport {
    pub result: Result<(), FatalError>,
    pub completed: Vec<Track>,
    pub events: Vec<ZestingEvent>,
}

/// Copies the owning-playlist context for one more event.
fn clone_ctx(ctx: &Option<PlaylistSummary>) -> (r: Option<PlaylistSummary>)
    ensures
        r == *ctx,
{
    match ctx {
        Some(s) => Some(s.clone()),
        None => None,
    }
}

/// Opening a track only moves its start event to the front of its block.
proof fn lemma_dl_start_prefix(
    rem: Seq<Track>,
    outs: Seq<DownloadOutcome>,
    ctx: Option<PlaylistSummary>,
)
    requires
        rem.len() > 0,
    ensures
        spec_dl_events(rem, outs, false, ctx) == seq![
            ZestingEvent::StartTrackDownload { track: rem[0], playlist: ctx },
        ] + spec_dl_events(rem, outs, true, ctx),
{
    assert(spec_dl_events(rem, outs, false, ctx) =~= seq![
        ZestingEvent::StartTrackDownload { track: rem[0], playlist: ctx },
    ] + spec_dl_events(rem, outs, true, ctx));
}

/// Unfolds each interpreter one step past the current track's reply.
proof fn lemma_dl_step(rem: Seq<Track>, outs: Seq<DownloadOutcome>, ctx: Option<PlaylistSummary>)
    requires
        rem.len() > 0,
        outs.len() > 0,
    ensures
        match outs[0] {
            DownloadOutcome::Transient => {
                &&& spec_dl_events(rem, outs, true, ctx) == seq![
                    ZestingEvent::PausedAfterServerError { delay_secs: RETRY_DELAY_SECS },
                ] + spec_dl_events(rem, outs.drop_first(), true, ctx)
                &&& spec_dl_completed(rem, outs) == spec_dl_completed(rem, outs.drop_first())
                &&& spec_dl_failure(rem, outs) == spec_dl_failure(rem, outs.drop_first())
                &&& spec_dl_used(rem, outs) == 1 + spec_dl_used(rem, outs.drop_first())
            },
            DownloadOutcome::Done => {
                &&& spec_dl_events(rem, outs, true, ctx) == seq![
                    ZestingEvent::FinishTrackDownload { track: rem[0], playlist: ctx },
                ] + spec_dl_events(rem.drop_first(), outs.drop_first(), false, ctx)
                &&& spec_dl_completed(rem, outs) == seq![rem[0]] + spec_dl_completed(
                    rem.drop_first(),
                    outs.drop_first(),
                )
                &&& spec_dl_failure(rem, outs) == spec_dl_failure(
                    rem.drop_first(),
                    outs.drop_first(),
                )
                &&& spec_dl_used(rem, outs) == 1 + spec_dl_used(rem.drop_first(), outs.drop_first())
            },
            DownloadOutcome::Skipped(te) => {
                &&& spec_dl_events(rem, outs, true, ctx) == seq![
                    ZestingEvent::TrackDownloadError { track: rem[0], error: te, playlist: ctx },
                ] + spec_dl_events(rem.drop_first(), outs.drop_first(), false, ctx)
                &&& spec_dl_completed(rem, outs) == spec_dl_completed(
                    rem.drop_first(),
                    outs.drop_first(),
                )
                &&& spec_dl_failure(rem, outs) == spec_dl_failure(
                    rem.drop_first(),
                    outs.drop_first(),
                )
                &&& spec_dl_used(rem, outs) == 1 + spec_dl_used(rem.drop_first(), outs.drop_first())
            },
            DownloadOutcome::Fatal(e) => {
                &&& spec_dl_events(rem, outs, true, ctx) == Seq::<ZestingEvent>::empty()
                &&& spec_dl_completed(rem, outs) == Seq::<Track>::empty()
                &&& spec_dl_failure(rem, outs) == Some(e)
                &&& spec_dl_used(rem, outs) == 1
            },
        },
{
    match outs[0] {
        DownloadOutcome::Transient => {
            assert(spec_dl_events(rem, outs, true, ctx) =~= seq![
                ZestingEvent::PausedAfterServerError { delay_secs: RETRY_DELAY_SECS },
            ] + spec_dl_events(rem, outs.drop_first(), true, ctx));
        },
        DownloadOutcome::Done => {
            assert(spec_dl_events(rem, outs, true, ctx) =~= seq![
                ZestingEvent::FinishTrackDownload { track: rem[0], playlist: ctx },
            ] + spec_dl_events(rem.drop_first(), outs.drop_first(), false, ctx));
        },
        DownloadOutcome::Skipped(te) => {
            assert(spec_dl_events(rem, outs, true, ctx) =~= seq![
                ZestingEvent::TrackDownloadError { track: rem[0], error: te, playlist: ctx },
            ] + spec_dl_events(rem.drop_first(), outs.drop_first(), false, ctx));
        },
        DownloadOutcome::Fatal(_) => {
            assert(spec_dl_events(rem, outs, true, ctx) =~= Seq::<ZestingEvent>::empty());
        },
    }
}

/// The flat download engine over one sequence of tracks. `pending` holds
/// the tracks still to settle, current track first; `context` the owning
/// playlist, stamped into every event; `started` whether the current
/// track's start event has been emitted.
#[derive(Debug)]
pub struct Downloader {
    pub pending: Vec<Track>,
    pub context: Option<PlaylistSummary>,
    pub started: bool,
}

impl Downloader {
    /// A fresh engine over the given tracks, in download order.
    pub fn new(tracks: Vec<Track>, context: Option<PlaylistSummary>) -> (d: Self)
        ensures
            d.pending == tracks,
            d.context == context,
            !d.started,
    {
        Downloader { pending: tracks, context, started: false }
    }

    /// The track whose stream the caller should request next.
    pub fn current(&self) -> (t: &Track)
        requires
            self.pending@.len() > 0,
        ensures
            *t == self.pending@[0],
    {
        &self.pending[0]
    }

    /// Opens the current track: emits its `StartTrackDownload` event, once.
    pub fn begin_track(&mut self, events: &mut Vec<ZestingEvent>)
        requires
            old(self).pending@.len() > 0,
        ensures
            final(self).pending == old(self).pending,
            final(self).context == old(self).context,
            final(self).started,
            old(self).started ==> final(events)@ == old(events)@,
            !old(self).started ==> final(events)@ == old(events)@.push(
                ZestingEvent::StartTrackDownload {
                    track: old(self).pending@[0],
                    playlist: old(self).context,
                },
            ),
    {
        if !self.started {
            let t = self.pending[0].clone();
            events.push(
                ZestingEvent::StartTrackDownload { track: t, playlist: clone_ctx(&self.context) },
            );
            self.started = true;
        }
    }

    /// Feeds the transport's reply for the current track into the engine.
    ///
    /// A transient error only logs a pause: the same track stays current
    /// and is retried. A copied stream finishes the track and records it in
    /// `completed`; a permanent per-track failure logs exactly one error
    /// event and skips the track. A fatal error halts the engine and is
    /// handed back for the caller to abort the run.
    pub fn on_outcome(
        &mut self,
        outcome: DownloadOutcome,
        events: &mut Vec<ZestingEvent>,
        completed: &mut Vec<Track>,
    ) -> (aborted: Option<FatalError>)
        requires
            old(self).pending@.len() > 0,
            old(self).started,
        ensures
            match outcome {
                DownloadOutcome::Transient => {
                    &&& *final(self) == *old(self)
                    &&& final(events)@ == old(events)@.push(
                        ZestingEvent::PausedAfterServerError { delay_secs: RETRY_DELAY_SECS },
                    )
                    &&& final(completed)@ == old(completed)@
                    &&& aborted is None
                },
                DownloadOutcome::Done => {
                    &&& final(self).pending@ == old(self).pending@.drop_first()
                    &&& final(self).context == old(self).context
                    &&& !final(self).started
                    &&& final(events)@ == old(events)@.push(
                        ZestingEvent::FinishTrackDownload {
                            track: old(self).pending@[0],
                            playlist: old(self).context,
                        },
                    )
                    &&& final(completed)@ == old(completed)@.push(old(self).pending@[0])
                    &&& aborted is None
                },
                DownloadOutcome::Skipped(te) => {
                    &&& final(self).pending@ == old(self).pending@.drop_first()
                    &&& final(self).context == old(self).context
                    &&& !final(self).started
                    &&& final(events)@ == old(events)@.push(
                        ZestingEvent::TrackDownloadError {
                            track: old(self).pending@[0],
                            error: te,
                            playlist: old(self).context,
                        },
                    )
                    &&& final(completed)@ == old(completed)@
                    &&& aborted is None
                },
                DownloadOutcome::Fatal(e) => {
                    &&& *final(self) == *old(self)
                    &&& final(events)@ == old(events)@
                    &&& final(completed)@ == old(completed)@
                    &&& aborted == Some(e)
                },
            },
    {
        match outcome {
            DownloadOutcome::Transient => {
                events.push(
                    ZestingEvent::PausedAfterServerError { delay_secs: RETRY_DELAY_SECS },
                );
                None
            },
            DownloadOutcome::Done => {
                let t = self.pending.remove(0);
                proof {
                    assert(self.pending@ =~= old(self).pending@.drop_first());
                }
                let finished = t.clone();
                completed.push(t);
                events.push(
                    ZestingEvent::FinishTrackDownload {
                        track: finished,
                        playlist: clone_ctx(&self.context),
                    },
                );
                self.started = false;
                None
            },
            DownloadOutcome::Skipped(te) => {
                let t = self.pending.remove(0);
                proof {
                    assert(self.pending@ =~= old(self).pending@.drop_first());
                }
                events.push(
                    ZestingEvent::TrackDownloadError {
                        track: t,
                        error: te,
                        playlist: clone_ctx(&self.context),
                    },
                );
                self.started = false;
                None
            },
            DownloadOutcome::Fatal(e) => Some(e),
        }
    }
}

/// One flat run: reports how many tracks it will attempt, then drives a
/// fresh [`Downloader`] over them, consuming one transport reply per
/// attempt from the front of `outs`. Appends to `events` and `completed`;
/// returns the fatal error that aborted the run, if any.
fn run_flat(
    tracks: Vec<Track>,
    ctx: Option<PlaylistSummary>,
    outs: &mut Vec<DownloadOutcome>,
    events: &mut Vec<ZestingEvent>,
    completed: &mut Vec<Track>,
) -> (failure: Option<FatalError>)
    ensures
        final(events)@ == old(events)@ + seq![
            ZestingEvent::NumTracksToDownload { count: tracks@.len() as usize },
        ] + spec_dl_events(tracks@, old(outs)@, false, ctx),
        final(completed)@ == old(completed)@ + spec_dl_completed(tracks@, old(outs)@),
        final(outs)@ == old(outs)@.skip(spec_dl_used(tracks@, old(outs)@) as int),
        failure == spec_dl_failure(tracks@, old(outs)@),
{
    let ghost t0 = tracks@;
    let ghost o0 = outs@;
    let ghost events0 = events@;
    let ghost completed0 = completed@;
    let count = tracks.len();
    let mut dl = Downloader::new(tracks, ctx);
    events.push(ZestingEvent::NumTracksToDownload { count });
    let ghost mut used: nat = 0nat;
    loop
        invariant
            t0 == tracks@,
            o0 == old(outs)@,
            events0 == old(events)@,
            completed0 == old(completed)@,
            dl.context == ctx,
            dl.started ==> dl.pending@.len() > 0,
            events@ + spec_dl_events(dl.pending@, outs@, dl.started, ctx) == events0 + seq![
                ZestingEvent::NumTracksToDownload { count: t0.len() as usize },
            ] + spec_dl_events(t0, o0, false, ctx),
            completed@ + spec_dl_completed(dl.pending@, outs@) == completed0 + spec_dl_completed(
                t0,
                o0,
            ),
            spec_dl_failure(dl.pending@, outs@) == spec_dl_failure(t0, o0),
            used + outs@.len() == o0.len(),
            outs@ == o0.skip(used as int),
            spec_dl_used(t0, o0) == used + spec_dl_used(dl.pending@, outs@),
        ensures
            events@ == events0 + seq![
                ZestingEvent::NumTracksToDownload { count: t0.len() as usize },
            ] + spec_dl_events(t0, o0, false, ctx),
            completed@ == completed0 + spec_dl_completed(t0, o0),
            outs@ == o0.skip(spec_dl_used(t0, o0) as int),
            spec_dl_failure(t0, o0) is None,
        decreases outs.len(),
    {
        if dl.pending.len() == 0 {
            proof {
                assert(spec_dl_events(dl.pending@, outs@, dl.started, ctx)
                    =~= Seq::<ZestingEvent>::empty());
                assert(events@ + Seq::<ZestingEvent>::empty() =~= events@);
                assert(spec_dl_completed(dl.pending@, outs@) =~= Seq::<Track>::empty());
                assert(completed@ + Seq::<Track>::empty() =~= completed@);
            }
            break;
        }
        dl.begin_track(events);
        proof {
            lemma_dl_start_prefix(dl.pending@, outs@, ctx);
            assert(events@ + spec_dl_events(dl.pending@, outs@, true, ctx) =~= events0 + seq![
                ZestingEvent::NumTracksToDownload { count: t0.len() as usize },
            ] + spec_dl_events(t0, o0, false, ctx));
        }
        if outs.len() == 0 {
            proof {
                assert(spec_dl_events(dl.pending@, outs@, dl.started, ctx)
                    =~= Seq::<ZestingEvent>::empty());
                assert(events@ + Seq::<ZestingEvent>::empty() =~= events@);
                assert(spec_dl_completed(dl.pending@, outs@) =~= Seq::<Track>::empty());
                assert(completed@ + Seq::<Track>::empty() =~= completed@);
            }
            break;
        }
        let ghost outs_pre = outs@;
        let ghost pending_pre = dl.pending@;
        let o = outs.remove(0);
        proof {
            assert(outs@ =~= outs_pre.drop_first());
            used = used + 1;
            assert(used <= o0.len());
            assert(outs@ =~= o0.skip(used as int));
            lemma_dl_step(pending_pre, outs_pre, ctx);
        }
        match dl.on_outcome(o, events, completed) {
            Some(e) => {
                proof {
                    assert(spec_dl_events(pending_pre, outs_pre, true, ctx)
                        =~= Seq::<ZestingEvent>::empty());
                    assert(events@ + Seq::<ZestingEvent>::empty() =~= events@);
                    assert(spec_dl_completed(pending_pre, outs_pre) =~= Seq::<Track>::empty());
                    assert(completed@ + Seq::<Track>::empty() =~= completed@);
                }
                return Some(e);
            },
            None => {},
        }
    }
    None
}

/// Downloads a flat sequence of tracks (the likes shape): selects the first
/// `limit` tracks, reports how many were selected, and settles each in
/// order, reading one transport reply per attempt from `outcomes`.
///
/// The result is `Ok` exactly when no fatal error occurred: per-track
/// failures are reported through events, never escalated. `completed`
/// holds exactly the tracks whose media was fully written, in order.
pub fn download_tracks(
    tracks: Vec<Track>,
    limit: u64,
    outcomes: Vec<DownloadOutcome>,
) -> (r: DownloadReport)
    ensures
        r.events@ == seq![
            ZestingEvent::NumTracksToDownload {
                count: spec_limited(limit, tracks@.len()) as usize,
            },
        ] + spec_dl_events(
            tracks@.take(spec_limited(limit, tracks@.len())),
            outcomes@,
            false,
            None,
        ),
        r.completed@ == spec_dl_completed(
            tracks@.take(spec_limited(limit, tracks@.len())),
            outcomes@,
        ),
        r.result == (match spec_dl_failure(
            tracks@.take(spec_limited(limit, tracks@.len())),
            outcomes@,
        ) {
            Some(e) => Err::<(), FatalError>(e),
            None => Ok::<(), FatalError>(()),
        }),
{
    let ghost whole = tracks@;
    let mut selected = tracks;
    if limit < selected.len() as u64 {
        let n = limit as usize;
        selected.truncate(n);
        proof {
            assert(selected@ =~= whole.take(spec_limited(limit, whole.len())));
        }
    } else {
        proof {
            assert(selected@ =~= whole.take(spec_limited(limit, whole.len())));
        }
    }
    let mut outs = outcomes;
    let mut events: Vec<ZestingEvent> = Vec::new();
    let mut completed: Vec<Track> = Vec::new();
    let failure = run_flat(selected, None, &mut outs, &mut events, &mut completed);
    let result = match failure {
        Some(e) => Err(e),
        None => Ok(()),
    };
    DownloadReport { result, completed, events }
}

/// The identity under which a playlist's track events are reported.
pub open spec fn spec_pl_summary(p: Playlist) -> PlaylistSummary {
    PlaylistSummary { id: p.id, title: p.title }
}

/// The events a nested run reports: for each selected playlist, its start
/// event, the inner flat run over its tracks (each track event carrying the
/// playlist's identity), and its finish event - unless a fatal error ends
/// the whole run inside that playlist.
pub open spec fn spec_pl_events(pls: Seq<Playlist>, outs: Seq<DownloadOutcome>) -> Seq<
    ZestingEvent,
>
    decreases pls.len(),
{
    if pls.len() == 0 {
        Seq::empty()
    } else {
        let s = spec_pl_summary(pls[0]);
        let tr = pls[0].tracks@;
        let head = seq![
            ZestingEvent::StartPlaylistDownload { playlist: s },
            ZestingEvent::NumTracksToDownload { count: tr.len() as usize },
        ] + spec_dl_events(tr, outs, false, Some(s));
        if spec_dl_failure(tr, outs) is Some {
            head
        } else {
            head + seq![ZestingEvent::FinishPlaylistDownload { playlist: s }] + spec_pl_events(
                pls.drop_first(),
                outs.skip(spec_dl_used(tr, outs) as int),
            )
        }
    }
}

/// The tracks a nested run writes, in order.
pub open spec fn spec_pl_completed(pls: Seq<Playlist>, outs: Seq<DownloadOutcome>) -> Seq<Track>
    decreases pls.len(),
{
    if pls.len() == 0 {
        Seq::empty()
    } else {
        let tr = pls[0].tracks@;
        let c = spec_dl_completed(tr, outs);
        if spec_dl_failure(tr, outs) is Some {
            c
        } else {
            c + spec_pl_completed(pls.drop_first(), outs.skip(spec_dl_used(tr, outs) as int))
        }
    }
}

/// The fatal error a nested run hits, if any.
pub open spec fn spec_pl_failure(pls: Seq<Playlist>, outs: Seq<DownloadOutcome>) -> Option<
    FatalError,
>
    decreases pls.len(),
{
    if pls.len() == 0 {
        None
    } else {
        let tr = pls[0].tracks@;
        match spec_dl_failure(tr, outs) {
            Some(e) => Some(e),
            None => spec_pl_failure(
                pls.drop_first(),
                outs.skip(spec_dl_used(tr, outs) as int),
            ),
        }
    }
}

/// Unfolds the nested interpreters one playlist, in the shape the runner
/// produces its events.
proof fn lemma_pl_step(pls: Seq<Playlist>, outs: Seq<DownloadOutcome>)
    requires
        pls.len() > 0,
    ensures
        spec_dl_failure(pls[0].tracks@, outs) is Some ==> {
            &&& spec_pl_events(pls, outs) == seq![
                ZestingEvent::StartPlaylistDownload { playlist: spec_pl_summary(pls[0]) },
            ] + (seq![
                ZestingEvent::NumTracksToDownload { count: pls[0].tracks@.len() as usize },
            ] + spec_dl_events(pls[0].tracks@, outs, false, Some(spec_pl_summary(pls[0]))))
            &&& spec_pl_completed(pls, outs) == spec_dl_completed(pls[0].tracks@, outs)
            &&& spec_pl_failure(pls, outs) == spec_dl_failure(pls[0].tracks@, outs)
        },
        spec_dl_failure(pls[0].tracks@, outs) is None ==> {
            &&& spec_pl_events(pls, outs) == seq![
                ZestingEvent::StartPlaylistDownload { playlist: spec_pl_summary(pls[0]) },
            ] + (seq![
                ZestingEvent::NumTracksToDownload { count: pls[0].tracks@.len() as usize },
            ] + spec_dl_events(pls[0].tracks@, outs, false, Some(spec_pl_summary(pls[0])))) + seq![
                ZestingEvent::FinishPlaylistDownload { playlist: spec_pl_summary(pls[0]) },
            ] + spec_pl_events(
                pls.drop_first(),
                outs.skip(spec_dl_used(pls[0].tracks@, outs) as int),
            )
            &&& spec_pl_completed(pls, outs) == spec_dl_completed(pls[0].tracks@, outs)
                + spec_pl_completed(
                pls.drop_first(),
                outs.skip(spec_dl_used(pls[0].tracks@, outs) as int),
            )
            &&& spec_pl_failure(pls, outs) == spec_pl_failure(
                pls.drop_first(),
                outs.skip(spec_dl_used(pls[0].tracks@, outs) as int),
            )
        },
{
    let s = spec_pl_summary(pls[0]);
    let tr = pls[0].tracks@;
    let head = seq![
        ZestingEvent::StartPlaylistDownload { playlist: s },
        ZestingEvent::NumTracksToDownload { count: tr.len() as usize },
    ] + spec_dl_events(tr, outs, false, Some(s));
    assert(head =~= seq![ZestingEvent::StartPlaylistDownload { playlist: s }] + (seq![
        ZestingEvent::NumTracksToDownload { count: tr.len() as usize },
    ] + spec_dl_events(tr, outs, false, Some(s))));
    if spec_dl_failure(tr, outs) is None {
        assert(spec_pl_events(pls, outs) =~= seq![
            ZestingEvent::StartPlaylistDownload { playlist: s },
        ] + (seq![
            ZestingEvent::NumTracksToDownload { count: tr.len() as usize },
        ] + spec_dl_events(tr, outs, false, Some(s))) + seq![
            ZestingEvent::FinishPlaylistDownload { playlist: s },
        ] + spec_pl_events(pls.drop_first(), outs.skip(spec_dl_used(tr, outs) as int)));
    }
}

/// Downloads tracks grouped by playlist (the playlists shape): selects the
/// first `limit` playlists and walks each playlist's tracks as an inner
/// flat run, wrapping it in start and finish events and stamping every
/// track event with the owning playlist's identity. A fatal error aborts
/// the whole run; per-track failures only skip their track.
#[verifier::rlimit(50)]
pub fn download_playlists(
    playlists: Vec<Playlist>,
    limit: u64,
    outcomes: Vec<DownloadOutcome>,
) -> (r: DownloadReport)
    ensures
        r.events@ == spec_pl_events(
            playlists@.take(spec_limited(limit, playlists@.len())),
            outcomes@,
        ),
        r.completed@ == spec_pl_completed(
            playlists@.take(spec_limited(limit, playlists@.len())),
            outcomes@,
        ),
        r.result == (match spec_pl_failure(
            playlists@.take(spec_limited(limit, playlists@.len())),
            outcomes@,
        ) {
            Some(e) => Err::<(), FatalError>(e),
            None => Ok::<(), FatalError>(()),
        }),
{
    let ghost whole = playlists@;
    let mut pls = playlists;
    if limit < pls.len() as u64 {
        let n = limit as usize;
        pls.truncate(n);
        proof {
            assert(pls@ =~= whole.take(spec_limited(limit, whole.len())));
        }
    } else {
        proof {
            assert(pls@ =~= whole.take(spec_limited(limit, whole.len())));
        }
    }
    let ghost p0 = pls@;
    let mut outs = outcomes;
    let ghost o0 = outs@;
    let mut events: Vec<ZestingEvent> = Vec::new();
    let mut completed: Vec<Track> = Vec::new();
    loop
        invariant
            whole == playlists@,
            p0 == whole.take(spec_limited(limit, whole.len())),
            o0 == outcomes@,
            events@ + spec_pl_events(pls@, outs@) == spec_pl_events(p0, o0),
            completed@ + spec_pl_completed(pls@, outs@) == spec_pl_completed(p0, o0),
            spec_pl_failure(pls@, outs@) == spec_pl_failure(p0, o0),
        ensures
            events@ == spec_pl_events(p0, o0),
            completed@ == spec_pl_completed(p0, o0),
            spec_pl_failure(p0, o0) is None,
        decreases pls.len(),
    {
        if pls.len() == 0 {
            proof {
                assert(spec_pl_events(pls@, outs@) =~= Seq::<ZestingEvent>::empty());
                assert(events@ + Seq::<ZestingEvent>::empty() =~= events@);
                assert(spec_pl_completed(pls@, outs@) =~= Seq::<Track>::empty());
                assert(completed@ + Seq::<Track>::empty() =~= completed@);
            }
            break;
        }
        let ghost pls_pre = pls@;
        let ghost outs_pre = outs@;
        let ghost events_pre = events@;
        let ghost completed_pre = completed@;
        let pl = pls.remove(0);
        proof {
            assert(pls@ =~= pls_pre.drop_first());
        }
        let Playlist { id, title, tracks } = pl;
        let ghost tr = tracks@;
        let summary = PlaylistSummary { id, title };
        let ghost s_sp = spec_pl_summary(pls_pre[0]);
        proof {
            assert(summary == s_sp);
            assert(tr == pls_pre[0].tracks@);
        }
        let finish_summary = summary.clone();
        events.push(ZestingEvent::StartPlaylistDownload { playlist: summary.clone() });
        let failure = run_flat(tracks, Some(summary), &mut outs, &mut events, &mut completed);
        let ghost dl = spec_dl_events(tr, outs_pre, false, Some(s_sp));
        proof {
            lemma_pl_step(pls_pre, outs_pre);
            assert(events@ =~= events_pre + (seq![
                ZestingEvent::StartPlaylistDownload { playlist: s_sp },
            ] + (seq![
                ZestingEvent::NumTracksToDownload { count: tr.len() as usize },
            ] + dl)));
            assert(completed@ =~= completed_pre + spec_dl_completed(tr, outs_pre));
        }
        match failure {
            Some(e) => {
                proof {
                    assert(spec_pl_events(pls_pre, outs_pre) == seq![
                        ZestingEvent::StartPlaylistDownload { playlist: s_sp },
                    ] + (seq![
                        ZestingEvent::NumTracksToDownload { count: tr.len() as usize },
                    ] + dl));
                    assert(events@ =~= events_pre + spec_pl_events(pls_pre, outs_pre));
                    assert(events@ =~= spec_pl_events(p0, o0));
                    assert(spec_pl_completed(pls_pre, outs_pre) == spec_dl_completed(
                        tr,
                        outs_pre,
                    ));
                    assert(completed@ =~= spec_pl_completed(p0, o0));
                }
                return DownloadReport { result: Err(e), completed, events };
            },
            None => {
                events.push(ZestingEvent::FinishPlaylistDownload { playlist: finish_summary });
                proof {
                    assert(events@ =~= events_pre + (seq![
                        ZestingEvent::StartPlaylistDownload { playlist: s_sp },
                    ] + (seq![
                        ZestingEvent::NumTracksToDownload { count: tr.len() as usize },
                    ] + dl) + seq![
                        ZestingEvent::FinishPlaylistDownload { playlist: s_sp },
                    ]));
                    assert(spec_pl_events(pls_pre, outs_pre) == seq![
                        ZestingEvent::StartPlaylistDownload { playlist: s_sp },
                    ] + (seq![
                        ZestingEvent::NumTracksToDownload { count: tr.len() as usize },
                    ] + dl) + seq![
                        ZestingEvent::FinishPlaylistDownload { playlist: s_sp },
                    ] + spec_pl_events(pls@, outs@));
                    assert(events@ + spec_pl_events(pls@, outs@) =~= events_pre
                        + spec_pl_events(pls_pre, outs_pre));
                    assert(completed@ + spec_pl_completed(pls@, outs@) =~= completed_pre
                        + spec_pl_completed(pls_pre, outs_pre));
                }
            },
        }
    }
    DownloadReport { result: Ok(()), completed, events }
}

/// How many download attempts a run reports.
pub open spec fn spec_count_track_starts(evs: Seq<ZestingEvent>) -> nat
    decreases evs.len(),
{
    if evs.len() == 0 {
        0
    } else {
        (if evs[0] is StartTrackDownload {
            1nat
        } else {
            0nat
        }) + spec_count_track_starts(evs.drop_first())
    }
}

proof fn lemma_start_counts_add(a: Seq<ZestingEvent>, b: Seq<ZestingEvent>)
    ensures
        spec_count_track_starts(a + b) == spec_count_track_starts(a) + spec_count_track_starts(b),
    decreases a.len(),
{
    if a.len() == 0 {
        assert(a + b =~= b);
    } else {
        assert((a + b)[0] == a[0]);
        assert((a + b).drop_first() =~= a.drop_first() + b);
        lemma_start_counts_add(a.drop_first(), b);
    }
}

proof fn lemma_start_counts_one(e: ZestingEvent)
    ensures
        spec_count_track_starts(seq![e]) == if e is StartTrackDownload {
            1nat
        } else {
            0nat
        },
{
    assert(seq![e].drop_first() =~= Seq::<ZestingEvent>::empty());
    assert(spec_count_track_starts(seq![e].drop_first()) == 0);
}

/// Every track of a run that settles each of its tracks is attempted
/// exactly once: the run reports one `StartTrackDownload` per track, no
/// matter how many of them later fail.
pub proof fn lemma_every_track_is_attempted(
    rem: Seq<Track>,
    outs: Seq<DownloadOutcome>,
    started: bool,
    ctx: Option<PlaylistSummary>,
)
    requires
        spec_dl_concludes(rem, outs),
        started ==> rem.len() > 0,
    ensures
        spec_count_track_starts(spec_dl_events(rem, outs, started, ctx)) + (if started {
            1nat
        } else {
            0nat
        }) == rem.len(),
    decreases outs.len(), rem.len(),
{
    if rem.len() == 0 {
        assert(spec_dl_events(rem, outs, started, ctx) =~= Seq::<ZestingEvent>::empty());
    } else {
        let pre: Seq<ZestingEvent> = if started {
            Seq::empty()
        } else {
            seq![ZestingEvent::StartTrackDownload { track: rem[0], playlist: ctx }]
        };
        if !started {
            lemma_start_counts_one(
                ZestingEvent::StartTrackDownload { track: rem[0], playlist: ctx },
            );
        }
        assert(spec_count_track_starts(pre) == if started {
            0nat
        } else {
            1nat
        });
        match outs[0] {
            DownloadOutcome::Transient => {
                let e = ZestingEvent::PausedAfterServerError { delay_secs: RETRY_DELAY_SECS };
                lemma_every_track_is_attempted(rem, outs.drop_first(), true, ctx);
                lemma_start_counts_one(e);
                lemma_start_counts_add(pre, seq![e]);
                lemma_start_counts_add(
                    pre + seq![e],
                    spec_dl_events(rem, outs.drop_first(), true, ctx),
                );
            },
            DownloadOutcome::Done => {
                let e = ZestingEvent::FinishTrackDownload { track: rem[0], playlist: ctx };
                lemma_every_track_is_attempted(rem.drop_first(), outs.drop_first(), false, ctx);
                lemma_start_counts_one(e);
                lemma_start_counts_add(pre, seq![e]);
                lemma_start_counts_add(
                    pre + seq![e],
                    spec_dl_events(rem.drop_first(), outs.drop_first(), false, ctx),
                );
            },
            DownloadOutcome::Skipped(te) => {
                let e = ZestingEvent::TrackDownloadError {
                    track: rem[0],
                    error: te,
                    playlist: ctx,
                };
                lemma_every_track_is_attempted(rem.drop_first(), outs.drop_first(), false, ctx);
                lemma_start_counts_one(e);
                lemma_start_counts_add(pre, seq![e]);
                lemma_start_counts_add(
                    pre + seq![e],
                    spec_dl_events(rem.drop_first(), outs.drop_first(), false, ctx),
                );
            },
            DownloadOutcome::Fatal(_) => {
                assert(false);
            },
        }
    }
}

/// Law: a limit of `k` attempts exactly `min(k, len)` tracks. A flat run
/// over the selected tracks reports exactly that many `StartTrackDownload`
/// events, regardless of how many of the attempts later fail.
pub proof fn lemma_limit_caps_attempts(
    tracks: Seq<Track>,
    limit: u64,
    outs: Seq<DownloadOutcome>,
    ctx: Option<PlaylistSummary>,
)
    requires
        spec_dl_concludes(tracks.take(spec_limited(limit, tracks.len())), outs),
    ensures
        spec_count_track_starts(
            spec_dl_events(tracks.take(spec_limited(limit, tracks.len())), outs, false, ctx),
        ) == spec_limited(limit, tracks.len()),
{
    lemma_every_track_is_attempted(
        tracks.take(spec_limited(limit, tracks.len())),
        outs,
        false,
        ctx,
    );
}

/// One track's worth of transport replies: any number of transient errors,
/// then the reply that settles the track, one way or the other.
pub open spec fn spec_is_track_script(seg: Seq<DownloadOutcome>) -> bool {
    &&& seg.len() > 0
    &&& forall|i: int| 0 <= i < seg.len() - 1 ==> seg[i] is Transient
    &&& (seg.last() is Done || seg.last() is Skipped)
}

/// The event that settles one track, for the reply that settled it.
pub open spec fn spec_track_final_event(
    track: Track,
    o: DownloadOutcome,
    ctx: Option<PlaylistSummary>,
) -> ZestingEvent {
    match o {
        DownloadOutcome::Done => ZestingEvent::FinishTrackDownload { track, playlist: ctx },
        DownloadOutcome::Skipped(te) => ZestingEvent::TrackDownloadError {
            track,
            error: te,
            playlist: ctx,
        },
        _ => ZestingEvent::PausedAfterServerError { delay_secs: RETRY_DELAY_SECS },
    }
}

/// The event block one track contributes: its start event, one pause per
/// retry, and the event that settled it.
pub open spec fn spec_track_events(
    track: Track,
    ctx: Option<PlaylistSummary>,
    seg: Seq<DownloadOutcome>,
) -> Seq<ZestingEvent> {
    seq![ZestingEvent::StartTrackDownload { track, playlist: ctx }] + spec_pauses(
        (seg.len() - 1) as nat,
    ) + seq![spec_track_final_event(track, seg.last(), ctx)]
}

/// What one track contributes to the written output: itself if its stream
/// was fully copied, nothing if it was skipped.
pub open spec fn spec_track_completed(track: Track, seg: Seq<DownloadOutcome>) -> Seq<Track> {
    if seg.last() is Done {
        seq![track]
    } else {
        Seq::empty()
    }
}

/// Peels the first track's replies off a flat run.
proof fn lemma_dl_peel(
    rem: Seq<Track>,
    seg: Seq<DownloadOutcome>,
    rest: Seq<DownloadOutcome>,
    ctx: Option<PlaylistSummary>,
)
    requires
        rem.len() > 0,
        spec_is_track_script(seg),
    ensures
        spec_dl_events(rem, seg + rest, true, ctx) == spec_pauses((seg.len() - 1) as nat) + seq![
            spec_track_final_event(rem[0], seg.last(), ctx),
        ] + spec_dl_events(rem.drop_first(), rest, false, ctx),
        spec_dl_completed(rem, seg + rest) == spec_track_completed(rem[0], seg)
            + spec_dl_completed(rem.drop_first(), rest),
    decreases seg.len(),
{
    let outs = seg + rest;
    assert(outs[0] == seg[0]);
    if seg.len() == 1 {
        assert(outs.drop_first() =~= rest);
        assert(seg.last() == seg[0]);
        assert(spec_pauses(0) =~= Seq::<ZestingEvent>::empty());
        match seg[0] {
            DownloadOutcome::Done => {
                assert(spec_dl_events(rem, outs, true, ctx) =~= spec_pauses(0) + seq![
                    spec_track_final_event(rem[0], seg.last(), ctx),
                ] + spec_dl_events(rem.drop_first(), rest, false, ctx));
                assert(spec_dl_completed(rem, outs) =~= spec_track_completed(rem[0], seg)
                    + spec_dl_completed(rem.drop_first(), rest));
            },
            DownloadOutcome::Skipped(te) => {
                assert(spec_dl_events(rem, outs, true, ctx) =~= spec_pauses(0) + seq![
                    spec_track_final_event(rem[0], seg.last(), ctx),
                ] + spec_dl_events(rem.drop_first(), rest, false, ctx));
                assert(spec_dl_completed(rem, outs) =~= spec_track_completed(rem[0], seg)
                    + spec_dl_completed(rem.drop_first(), rest));
            },
            _ => {
                assert(false);
            },
        }
    } else {
        assert(seg[0] is Transient);
        let seg1 = seg.drop_first();
        assert(outs.drop_first() =~= seg1 + rest);
        assert(seg1.last() == seg.last());
        assert(spec_is_track_script(seg1)) by {
            assert(forall|i: int| 0 <= i < seg1.len() - 1 ==> seg1[i] == seg[i + 1]);
        }
        lemma_dl_peel(rem, seg1, rest, ctx);
        let pause = ZestingEvent::PausedAfterServerError { delay_secs: RETRY_DELAY_SECS };
        assert(seq![pause] + spec_pauses((seg1.len() - 1) as nat) =~= spec_pauses(
            (seg.len() - 1) as nat,
        ));
        assert(spec_dl_events(rem, outs, true, ctx) =~= spec_pauses((seg.len() - 1) as nat)
            + seq![
            spec_track_final_event(rem[0], seg.last(), ctx),
        ] + spec_dl_events(rem.drop_first(), rest, false, ctx));
        assert(spec_track_completed(rem[0], seg1) == spec_track_completed(rem[0], seg));
    }
}

/// Law (per-track failure isolation): a flat run is the concatenation of
/// independent per-track blocks. Over scripts with one segment of replies
/// per track, the run's events are exactly the per-track event blocks in
/// input order, and the tracks written are exactly the per-track
/// contributions in input order. Each block depends only on its own track
/// and its own segment: injecting a failure on track `i` neither prevents
/// nor reorders the events of tracks `i+1..`, and leaves every other
/// track's written output untouched - re-running a batch can only rewrite
/// the tracks whose own replies say so.
pub proof fn lemma_download_isolation(
    tracks: Seq<Track>,
    segs: Seq<Seq<DownloadOutcome>>,
    ctx: Option<PlaylistSummary>,
)
    requires
        segs.len() == tracks.len(),
        forall|i: int| 0 <= i < segs.len() ==> spec_is_track_script(#[trigger] segs[i]),
    ensures
        spec_dl_events(tracks, segs.flatten(), false, ctx) == Seq::new(
            segs.len(),
            |i: int| spec_track_events(tracks[i], ctx, segs[i]),
        ).flatten(),
        spec_dl_completed(tracks, segs.flatten()) == Seq::new(
            segs.len(),
            |i: int| spec_track_completed(tracks[i], segs[i]),
        ).flatten(),
    decreases segs.len(),
{
    let blocks = Seq::new(segs.len(), |i: int| spec_track_events(tracks[i], ctx, segs[i]));
    let outblocks = Seq::new(segs.len(), |i: int| spec_track_completed(tracks[i], segs[i]));
    if segs.len() == 0 {
        assert(segs.flatten() =~= Seq::<DownloadOutcome>::empty());
        assert(blocks.flatten() =~= Seq::<ZestingEvent>::empty());
        assert(outblocks.flatten() =~= Seq::<Track>::empty());
    } else {
        let seg0 = segs[0];
        let rest = segs.drop_first().flatten();
        assert(segs.flatten() == seg0 + rest);
        lemma_dl_start_prefix(tracks, seg0 + rest, ctx);
        lemma_dl_peel(tracks, seg0, rest, ctx);
        assert(segs.drop_first() =~= Seq::new((segs.len() - 1) as nat, |i: int| segs[i + 1]));
        lemma_download_isolation(tracks.drop_first(), segs.drop_first(), ctx);
        assert(Seq::new((segs.len() - 1) as nat, |i: int| spec_track_events(
            tracks.drop_first()[i],
            ctx,
            segs.drop_first()[i],
        )) =~= blocks.drop_first());
        assert(Seq::new((segs.len() - 1) as nat, |i: int| spec_track_completed(
            tracks.drop_first()[i],
            segs.drop_first()[i],
        )) =~= outblocks.drop_first());
        assert(blocks.flatten() == blocks[0] + blocks.drop_first().flatten());
        assert(outblocks.flatten() == outblocks[0] + outblocks.drop_first().flatten());
        assert(spec_dl_events(tracks, segs.flatten(), false, ctx) =~= blocks.flatten());
        assert(spec_dl_completed(tracks, segs.flatten()) =~= outblocks.flatten());
    }
}

} // verus!
