//! Two-phase hydration: given the lightweight summaries of playlists, fetch
//! each full record in order, isolating per-item failure. A batch never
//! fails as a whole: a summary whose record cannot be fetched, or whose
//! record arrives but cannot be completed, is reported through exactly one
//! error event and omitted from the output, and the batch goes on.

use vstd::prelude::*;
use crate::RETRY_DELAY_SECS;
use crate::events::{spec_pauses, ItemError, ZestingEvent};
use crate::records::{Playlist, PlaylistSummary, Track};

verus! {

/// One reply of the transport to a full-record request.
#[derive(Debug, PartialEq, Eq)]
pub enum HydrateOutcome {
    /// The full record arrived, carrying the playlist's tracks.
    Fetched { tracks: Vec<Track> },
    /// A transient server error; the same item is retried.
    Transient,
    /// The record could not be fetched; this item is skipped.
    FetchError,
    /// The record arrived but could not be completed; this item is skipped.
    CompletionError,
}

/// The events a hydration batch reports. `started` says whether the current
/// item's `StartItemFetch` has already been emitted; each item contributes
/// its start event, one pause per absorbed transient error, and one finish
/// or error event.
pub open spec fn spec_hyd_events(
    rem: Seq<PlaylistSummary>,
    outs: Seq<HydrateOutcome>,
    started: bool,
) -> Seq<ZestingEvent>
    decreases outs.len(), rem.len(),
{
    if rem.len() == 0 {
        Seq::empty()
    } else {
        let pre: Seq<ZestingEvent> = if started {
            Seq::empty()
        } else {
            seq![ZestingEvent::StartItemFetch { summary: rem[0] }]
        };
        if outs.len() == 0 {
            pre
        } else {
            match outs[0] {
                HydrateOutcome::Transient => pre + seq![
                    ZestingEvent::PausedAfterServerError { delay_secs: RETRY_DELAY_SECS },
                ] + spec_hyd_events(rem, outs.drop_first(), true),
                HydrateOutcome::Fetched { tracks } => pre + seq![
                    ZestingEvent::FinishItemFetch { summary: rem[0] },
                ] + spec_hyd_events(rem.drop_first(), outs.drop_first(), false),
                HydrateOutcome::FetchError => pre + seq![
                    ZestingEvent::ItemFetchError {
                        summary: rem[0],
                        error: ItemError::FetchFailed,
                    },
                ] + spec_hyd_events(rem.drop_first(), outs.drop_first(), false),
                HydrateOutcome::CompletionError => pre + seq![
                    ZestingEvent::ItemFetchError {
                        summary: rem[0],
                        error: ItemError::CompletionFailed,
                    },
                ] + spec_hyd_events(rem.drop_first(), outs.drop_first(), false),
            }
        }
    }
}

/// The playlists a hydration batch yields: one per summary whose record
/// arrived, in input order, built from the summary's identity and the
/// fetched tracks. Failed items leave no trace here.
pub open spec fn spec_hyd_playlists(
    rem: Seq<PlaylistSummary>,
    outs: Seq<HydrateOutcome>,
) -> Seq<Playlist>
    decreases outs.len(), rem.len(),
{
    if rem.len() == 0 || outs.len() == 0 {
        Seq::empty()
    } else {
        match outs[0] {
            HydrateOutcome::Transient => spec_hyd_playlists(rem, outs.drop_first()),
            HydrateOutcome::Fetched { tracks } => seq![
                Playlist { id: rem[0].id, title: rem[0].title, tracks },
            ] + spec_hyd_playlists(rem.drop_first(), outs.drop_first()),
            HydrateOutcome::FetchError => spec_hyd_playlists(rem.drop_first(), outs.drop_first()),
            HydrateOutcome::CompletionError => spec_hyd_playlists(
                rem.drop_first(),
                outs.drop_first(),
            ),
        }
    }
}

/// The summaries a hydration batch omits, in input order: those whose reply
/// was a fetch or completion error.
pub open spec fn spec_hyd_omitted(
    rem: Seq<PlaylistSummary>,
    outs: Seq<HydrateOutcome>,
) -> Seq<PlaylistSummary>
    decreases outs.len(), rem.len(),
{
    if rem.len() == 0 || outs.len() == 0 {
        Seq::empty()
    } else {
        match outs[0] {
            HydrateOutcome::Transient => spec_hyd_omitted(rem, outs.drop_first()),
            HydrateOutcome::Fetched { tracks } => spec_hyd_omitted(
                rem.drop_first(),
                outs.drop_first(),
            ),
            HydrateOutcome::FetchError => seq![rem[0]] + spec_hyd_omitted(
                rem.drop_first(),
                outs.drop_first(),
            ),
            HydrateOutcome::CompletionError => seq![rem[0]] + spec_hyd_omitted(
                rem.drop_first(),
                outs.drop_first(),
            ),
        }
    }
}

/// Whether the replies settle every item: each summary eventually gets a
/// non-transient reply.
pub open spec fn spec_hyd_concludes(
    rem: Seq<PlaylistSummary>,
    outs: Seq<HydrateOutcome>,
) -> bool
    decreases outs.len(), rem.len(),
{
    if rem.len() == 0 {
        true
    } else if outs.len() == 0 {
        false
    } else {
        match outs[0] {
            HydrateOutcome::Transient => spec_hyd_concludes(rem, outs.drop_first()),
            HydrateOutcome::Fetched { tracks } => spec_hyd_concludes(
                rem.drop_first(),
                outs.drop_first(),
            ),
            HydrateOutcome::FetchError => spec_hyd_concludes(rem.drop_first(), outs.drop_first()),
            HydrateOutcome::CompletionError => spec_hyd_concludes(
                rem.drop_first(),
                outs.drop_first(),
            ),
        }
    }
}

/// The hydration engine. `pending` holds the summaries still to hydrate,
/// current item first; `playlists` the output assembled so far; `started`
/// whether the current item's start event has been emitted.
#[derive(Debug)]
pub struct Hydrator {
    pub pending: Vec<PlaylistSummary>,
    pub playlists: Vec<Playlist>,
    pub started: bool,
}

impl Hydrator {
    /// A fresh engine over the given summaries, in the order they are to be
    /// hydrated.
    pub fn new(summaries: Vec<PlaylistSummary>) -> (h: Self)
        ensures
            h.pending == summaries,
            h.playlists@ == Seq::<Playlist>::empty(),
            !h.started,
    {
        Hydrator { pending: summaries, playlists: Vec::new(), started: false }
    }

    /// The summary whose full record the caller should request next.
    pub fn current(&self) -> (s: &PlaylistSummary)
        requires
            self.pending@.len() > 0,
        ensures
            *s == self.pending@[0],
    {
        &self.pending[0]
    }

    /// Opens the current item: emits its `StartItemFetch` event, once.
    pub fn begin_item(&mut self, events: &mut Vec<ZestingEvent>)
        requires
            old(self).pending@.len() > 0,
        ensures
            final(self).pending == old(self).pending,
            final(self).playlists == old(self).playlists,
            final(self).started,
            old(self).started ==> final(events)@ == old(events)@,
            !old(self).started ==> final(events)@ == old(events)@.push(
                ZestingEvent::StartItemFetch { summary: old(self).pending@[0] },
            ),
    {
        if !self.started {
            events.push(ZestingEvent::StartItemFetch { summary: self.pending[0].clone() });
            self.started = true;
        }
    }

    /// Feeds the transport's reply for the current item into the engine.
    ///
    /// A transient error only logs a pause: the same item stays current and
    /// is retried. A fetched record becomes a playlist in the output; a
    /// fetch or completion error logs exactly one error event and omits the
    /// item. Either way the engine moves on to the next summary.
    pub fn on_outcome(&mut self, outcome: HydrateOutcome, events: &mut Vec<ZestingEvent>)
        requires
            old(self).pending@.len() > 0,
            old(self).started,
        ensures
            match outcome {
                HydrateOutcome::Transient => {
                    &&& *final(self) == *old(self)
                    &&& final(events)@ == old(events)@.push(
                        ZestingEvent::PausedAfterServerError { delay_secs: RETRY_DELAY_SECS },
                    )
                },
                HydrateOutcome::Fetched { tracks } => {
                    &&& final(self).pending@ == old(self).pending@.drop_first()
                    &&& final(self).playlists@ == old(self).playlists@.push(
                        Playlist {
                            id: old(self).pending@[0].id,
                            title: old(self).pending@[0].title,
                            tracks,
                        },
                    )
                    &&& !final(self).started
                    &&& final(events)@ == old(events)@.push(
                        ZestingEvent::FinishItemFetch { summary: old(self).pending@[0] },
                    )
                },
                HydrateOutcome::FetchError => {
                    &&& final(self).pending@ == old(self).pending@.drop_first()
                    &&& final(self).playlists == old(self).playlists
                    &&& !final(self).started
                    &&& final(events)@ == old(events)@.push(
                        ZestingEvent::ItemFetchError {
                            summary: old(self).pending@[0],
                            error: ItemError::FetchFailed,
                        },
                    )
                },
                HydrateOutcome::CompletionError => {
                    &&& final(self).pending@ == old(self).pending@.drop_first()
                    &&& final(self).playlists == old(self).playlists
                    &&& !final(self).started
                    &&& final(events)@ == old(events)@.push(
                        ZestingEvent::ItemFetchError {
                            summary: old(self).pending@[0],
                            error: ItemError::CompletionFailed,
                        },
                    )
                },
            },
    {
        match outcome {
            HydrateOutcome::Transient => {
                events.push(
                    ZestingEvent::PausedAfterServerError { delay_secs: RETRY_DELAY_SECS },
                );
            },
            HydrateOutcome::Fetched { tracks } => {
                let summary = self.pending.remove(0);
                let event_summary = summary.clone();
                self.playlists.push(
                    Playlist { id: summary.id, title: summary.title, tracks },
                );
                events.push(ZestingEvent::FinishItemFetch { summary: event_summary });
                self.started = false;
                proof {
                    assert(self.pending@ =~= old(self).pending@.drop_first());
                }
            },
            HydrateOutcome::FetchError => {
                let summary = self.pending.remove(0);
                events.push(
                    ZestingEvent::ItemFetchError {
                        summary,
                        error: ItemError::FetchFailed,
                    },
                );
                self.started = false;
                proof {
                    assert(self.pending@ =~= old(self).pending@.drop_first());
                }
            },
            HydrateOutcome::CompletionError => {
                let summary = self.pending.remove(0);
                events.push(
                    ZestingEvent::ItemFetchError {
                        summary,
                        error: ItemError::CompletionFailed,
                    },
                );
                self.started = false;
                proof {
                    assert(self.pending@ =~= old(self).pending@.drop_first());
                }
            },
        }
    }
}

/// Opening an item only moves its start event to the front: the rest of the
/// batch reads the same whether or not the event is already out.
proof fn lemma_hyd_start_prefix(rem: Seq<PlaylistSummary>, outs: Seq<HydrateOutcome>)
    requires
        rem.len() > 0,
    ensures
        spec_hyd_events(rem, outs, false) == seq![
            ZestingEvent::StartItemFetch { summary: rem[0] },
        ] + spec_hyd_events(rem, outs, true),
{
    assert(spec_hyd_events(rem, outs, false) =~= seq![
        ZestingEvent::StartItemFetch { summary: rem[0] },
    ] + spec_hyd_events(rem, outs, true));
}

/// Hydrates a whole batch: drives a fresh [`Hydrator`] over the summaries,
/// reading one transport reply per attempt from `outcomes`, and returns the
/// hydrated playlists together with every event reported. If the replies
/// run out mid-batch, the playlists settled so far are returned; the batch
/// itself never fails.
pub fn hydrate_all(
    summaries: Vec<PlaylistSummary>,
    outcomes: Vec<HydrateOutcome>,
) -> (r: (Vec<Playlist>, Vec<ZestingEvent>))
    ensures
        r.0@ == spec_hyd_playlists(summaries@, outcomes@),
        r.1@ == spec_hyd_events(summaries@, outcomes@, false),
{
    let ghost summaries0 = summaries@;
    let mut outs = outcomes;
    let ghost outs0 = outs@;
    let mut hyd = Hydrator::new(summaries);
    let mut events: Vec<ZestingEvent> = Vec::new();
    loop
        invariant
            hyd.started ==> hyd.pending@.len() > 0,
            hyd.playlists@ + spec_hyd_playlists(hyd.pending@, outs@) == spec_hyd_playlists(
                summaries0,
                outs0,
            ),
            events@ + spec_hyd_events(hyd.pending@, outs@, hyd.started) == spec_hyd_events(
                summaries0,
                outs0,
                false,
            ),
        ensures
            hyd.playlists@ == spec_hyd_playlists(summaries0, outs0),
            events@ == spec_hyd_events(summaries0, outs0, false),
        decreases outs.len(),
    {
        if hyd.pending.len() == 0 {
            proof {
                assert(spec_hyd_playlists(hyd.pending@, outs@) =~= Seq::<Playlist>::empty());
                assert(spec_hyd_events(hyd.pending@, outs@, hyd.started)
                    =~= Seq::<ZestingEvent>::empty());
                assert(hyd.playlists@ + Seq::<Playlist>::empty() =~= hyd.playlists@);
                assert(events@ + Seq::<ZestingEvent>::empty() =~= events@);
            }
            break;
        }
        hyd.begin_item(&mut events);
        proof {
            lemma_hyd_start_prefix(hyd.pending@, outs@);
            assert(events@ + spec_hyd_events(hyd.pending@, outs@, true) =~= spec_hyd_events(
                summaries0,
                outs0,
                false,
            ));
        }
        if outs.len() == 0 {
            proof {
                assert(spec_hyd_playlists(hyd.pending@, outs@) =~= Seq::<Playlist>::empty());
                assert(spec_hyd_events(hyd.pending@, outs@, true) =~= Seq::<ZestingEvent>::empty());
                assert(hyd.playlists@ + Seq::<Playlist>::empty() =~= hyd.playlists@);
                assert(events@ + Seq::<ZestingEvent>::empty() =~= events@);
            }
            break;
        }
        let ghost outs_pre = outs@;
        let ghost pending_pre = hyd.pending@;
        let o = outs.remove(0);
        proof {
            assert(outs@ =~= outs_pre.drop_first());
        }
        hyd.on_outcome(o, &mut events);
        proof {
            lemma_hyd_step(pending_pre, outs_pre);
        }
    }
    (hyd.playlists, events)
}

/// Unfolds each interpreter one step past the current item's reply, so that
/// a caller that consumed the reply can carry its accounting across the
/// step.
proof fn lemma_hyd_step(rem: Seq<PlaylistSummary>, outs: Seq<HydrateOutcome>)
    requires
        rem.len() > 0,
        outs.len() > 0,
    ensures
        match outs[0] {
            HydrateOutcome::Transient => {
                &&& spec_hyd_events(rem, outs, true) == seq![
                    ZestingEvent::PausedAfterServerError { delay_secs: RETRY_DELAY_SECS },
                ] + spec_hyd_events(rem, outs.drop_first(), true)
                &&& spec_hyd_playlists(rem, outs) == spec_hyd_playlists(rem, outs.drop_first())
            },
            HydrateOutcome::Fetched { tracks } => {
                &&& spec_hyd_events(rem, outs, true) == seq![
                    ZestingEvent::FinishItemFetch { summary: rem[0] },
                ] + spec_hyd_events(rem.drop_first(), outs.drop_first(), false)
                &&& spec_hyd_playlists(rem, outs) == seq![
                    Playlist { id: rem[0].id, title: rem[0].title, tracks },
                ] + spec_hyd_playlists(rem.drop_first(), outs.drop_first())
            },
            HydrateOutcome::FetchError => {
                &&& spec_hyd_events(rem, outs, true) == seq![
                    ZestingEvent::ItemFetchError {
                        summary: rem[0],
                        error: ItemError::FetchFailed,
                    },
                ] + spec_hyd_events(rem.drop_first(), outs.drop_first(), false)
                &&& spec_hyd_playlists(rem, outs) == spec_hyd_playlists(
                    rem.drop_first(),
                    outs.drop_first(),
                )
            },
            HydrateOutcome::CompletionError => {
                &&& spec_hyd_events(rem, outs, true) == seq![
                    ZestingEvent::ItemFetchError {
                        summary: rem[0],
                        error: ItemError::CompletionFailed,
                    },
                ] + spec_hyd_events(rem.drop_first(), outs.drop_first(), false)
                &&& spec_hyd_playlists(rem, outs) == spec_hyd_playlists(
                    rem.drop_first(),
                    outs.drop_first(),
                )
            },
        },
{
    match outs[0] {
        HydrateOutcome::Transient => {
            assert(spec_hyd_events(rem, outs, true) =~= seq![
                ZestingEvent::PausedAfterServerError { delay_secs: RETRY_DELAY_SECS },
            ] + spec_hyd_events(rem, outs.drop_first(), true));
        },
        HydrateOutcome::Fetched { tracks } => {
            assert(spec_hyd_events(rem, outs, true) =~= seq![
                ZestingEvent::FinishItemFetch { summary: rem[0] },
            ] + spec_hyd_events(rem.drop_first(), outs.drop_first(), false));
        },
        HydrateOutcome::FetchError => {
            assert(spec_hyd_events(rem, outs, true) =~= seq![
                ZestingEvent::ItemFetchError {
                    summary: rem[0],
                    error: ItemError::FetchFailed,
                },
            ] + spec_hyd_events(rem.drop_first(), outs.drop_first(), false));
        },
        HydrateOutcome::CompletionError => {
            assert(spec_hyd_events(rem, outs, true) =~= seq![
                ZestingEvent::ItemFetchError {
                    summary: rem[0],
                    error: ItemError::CompletionFailed,
                },
            ] + spec_hyd_events(rem.drop_first(), outs.drop_first(), false));
        },
    }
}

/// How many per-item error events a run reported.
pub open spec fn spec_count_item_errors(evs: Seq<ZestingEvent>) -> nat
    decreases evs.len(),
{
    if evs.len() == 0 {
        0
    } else {
        (if evs[0] is ItemFetchError {
            1nat
        } else {
            0nat
        }) + spec_count_item_errors(evs.drop_first())
    }
}

/// The summaries named by a run's per-item error events, in report order.
pub open spec fn spec_error_summaries(evs: Seq<ZestingEvent>) -> Seq<PlaylistSummary>
    decreases evs.len(),
{
    if evs.len() == 0 {
        Seq::empty()
    } else {
        (match evs[0] {
            ZestingEvent::ItemFetchError { summary, error } => seq![summary],
            _ => Seq::empty(),
        }) + spec_error_summaries(evs.drop_first())
    }
}

proof fn lemma_error_counts_add(a: Seq<ZestingEvent>, b: Seq<ZestingEvent>)
    ensures
        spec_count_item_errors(a + b) == spec_count_item_errors(a) + spec_count_item_errors(b),
        spec_error_summaries(a + b) == spec_error_summaries(a) + spec_error_summaries(b),
    decreases a.len(),
{
    if a.len() == 0 {
        assert(a + b =~= b);
        assert(spec_error_summaries(a) + spec_error_summaries(b) =~= spec_error_summaries(b));
    } else {
        assert((a + b)[0] == a[0]);
        assert((a + b).drop_first() =~= a.drop_first() + b);
        lemma_error_counts_add(a.drop_first(), b);
        assert(spec_error_summaries(a + b) =~= spec_error_summaries(a) + spec_error_summaries(b));
    }
}

proof fn lemma_error_counts_one(e: ZestingEvent)
    ensures
        spec_count_item_errors(seq![e]) == if e is ItemFetchError {
            1nat
        } else {
            0nat
        },
        spec_error_summaries(seq![e]) == (match e {
            ZestingEvent::ItemFetchError { summary, error } => seq![summary],
            _ => Seq::<PlaylistSummary>::empty(),
        }),
{
    assert(seq![e].drop_first() =~= Seq::<ZestingEvent>::empty());
    assert(spec_count_item_errors(seq![e].drop_first()) == 0);
    assert(spec_error_summaries(seq![e].drop_first()) =~= Seq::<PlaylistSummary>::empty());
    assert(spec_error_summaries(seq![e]) =~= (match e {
        ZestingEvent::ItemFetchError { summary, error } => seq![summary],
        _ => Seq::<PlaylistSummary>::empty(),
    }));
}

/// Law: hydration accounts for every summary. When every item gets a final
/// reply, the batch yields one playlist per settled summary and one error
/// event per omitted summary: the output length is the input length minus
/// the number of `ItemFetchError` events, and the error events name exactly
/// the omitted summaries, in order.
pub proof fn lemma_hydrator_accounting(
    rem: Seq<PlaylistSummary>,
    outs: Seq<HydrateOutcome>,
    started: bool,
)
    requires
        spec_hyd_concludes(rem, outs),
    ensures
        spec_hyd_playlists(rem, outs).len() + spec_count_item_errors(
            spec_hyd_events(rem, outs, started),
        ) == rem.len(),
        spec_error_summaries(spec_hyd_events(rem, outs, started)) == spec_hyd_omitted(rem, outs),
    decreases outs.len(), rem.len(),
{
    if rem.len() == 0 {
        assert(spec_hyd_events(rem, outs, started) =~= Seq::<ZestingEvent>::empty());
    } else {
        let pre: Seq<ZestingEvent> = if started {
            Seq::empty()
        } else {
            seq![ZestingEvent::StartItemFetch { summary: rem[0] }]
        };
        if !started {
            lemma_error_counts_one(ZestingEvent::StartItemFetch { summary: rem[0] });
        }
        assert(spec_count_item_errors(pre) == 0);
        assert(spec_error_summaries(pre) =~= Seq::<PlaylistSummary>::empty());
        match outs[0] {
            HydrateOutcome::Transient => {
                let e = ZestingEvent::PausedAfterServerError { delay_secs: RETRY_DELAY_SECS };
                lemma_hydrator_accounting(rem, outs.drop_first(), true);
                let tail = spec_hyd_events(rem, outs.drop_first(), true);
                lemma_error_counts_one(e);
                lemma_error_counts_add(pre, seq![e]);
                lemma_error_counts_add(pre + seq![e], tail);
            },
            HydrateOutcome::Fetched { tracks } => {
                let e = ZestingEvent::FinishItemFetch { summary: rem[0] };
                lemma_hydrator_accounting(rem.drop_first(), outs.drop_first(), false);
                let tail = spec_hyd_events(rem.drop_first(), outs.drop_first(), false);
                lemma_error_counts_one(e);
                lemma_error_counts_add(pre, seq![e]);
                lemma_error_counts_add(pre + seq![e], tail);
            },
            HydrateOutcome::FetchError => {
                let e = ZestingEvent::ItemFetchError {
                    summary: rem[0],
                    error: ItemError::FetchFailed,
                };
                lemma_hydrator_accounting(rem.drop_first(), outs.drop_first(), false);
                let tail = spec_hyd_events(rem.drop_first(), outs.drop_first(), false);
                lemma_error_counts_one(e);
                lemma_error_counts_add(pre, seq![e]);
                lemma_error_counts_add(pre + seq![e], tail);
                assert(spec_error_summaries(spec_hyd_events(rem, outs, started)) =~= seq![rem[0]]
                    + spec_hyd_omitted(rem.drop_first(), outs.drop_first()));
            },
            HydrateOutcome::CompletionError => {
                let e = ZestingEvent::ItemFetchError {
                    summary: rem[0],
                    error: ItemError::CompletionFailed,
                };
                lemma_hydrator_accounting(rem.drop_first(), outs.drop_first(), false);
                let tail = spec_hyd_events(rem.drop_first(), outs.drop_first(), false);
                lemma_error_counts_one(e);
                lemma_error_counts_add(pre, seq![e]);
                lemma_error_counts_add(pre + seq![e], tail);
                assert(spec_error_summaries(spec_hyd_events(rem, outs, started)) =~= seq![rem[0]]
                    + spec_hyd_omitted(rem.drop_first(), outs.drop_first()));
            },
        }
    }
}

/// One item's worth of transport replies: any number of transient errors,
/// then the reply that settles the item.
pub open spec fn spec_is_item_script(seg: Seq<HydrateOutcome>) -> bool {
    &&& seg.len() > 0
    &&& forall|i: int| 0 <= i < seg.len() - 1 ==> seg[i] is Transient
    &&& !(seg.last() is Transient)
}

/// The event that settles one item, for the reply that settled it.
pub open spec fn spec_item_final_event(summary: PlaylistSummary, o: HydrateOutcome) -> ZestingEvent {
    match o {
        HydrateOutcome::Fetched { tracks } => ZestingEvent::FinishItemFetch { summary },
        HydrateOutcome::FetchError => ZestingEvent::ItemFetchError {
            summary,
            error: ItemError::FetchFailed,
        },
        HydrateOutcome::CompletionError => ZestingEvent::ItemFetchError {
            summary,
            error: ItemError::CompletionFailed,
        },
        HydrateOutcome::Transient => ZestingEvent::PausedAfterServerError {
            delay_secs: RETRY_DELAY_SECS,
        },
    }
}

/// The event block one item contributes: its start event, one pause per
/// retry, and the event that settled it. The block depends on nothing but
/// the item's own summary and its own replies.
pub open spec fn spec_item_events(
    summary: PlaylistSummary,
    seg: Seq<HydrateOutcome>,
) -> Seq<ZestingEvent> {
    seq![ZestingEvent::StartItemFetch { summary }] + spec_pauses((seg.len() - 1) as nat) + seq![
        spec_item_final_event(summary, seg.last()),
    ]
}

/// The output one item contributes: one playlist if its record arrived,
/// nothing otherwise.
pub open spec fn spec_item_playlists(
    summary: PlaylistSummary,
    seg: Seq<HydrateOutcome>,
) -> Seq<Playlist> {
    match seg.last() {
        HydrateOutcome::Fetched { tracks } => seq![
            Playlist { id: summary.id, title: summary.title, tracks },
        ],
        _ => Seq::empty(),
    }
}

/// Peels the first item's replies off a batch: after the start event, the
/// batch reports that item's pauses and settling event, then continues as a
/// fresh batch over the remaining summaries.
proof fn lemma_hyd_peel(
    rem: Seq<PlaylistSummary>,
    seg: Seq<HydrateOutcome>,
    rest: Seq<HydrateOutcome>,
)
    requires
        rem.len() > 0,
        spec_is_item_script(seg),
    ensures
        spec_hyd_events(rem, seg + rest, true) == spec_pauses((seg.len() - 1) as nat) + seq![
            spec_item_final_event(rem[0], seg.last()),
        ] + spec_hyd_events(rem.drop_first(), rest, false),
        spec_hyd_playlists(rem, seg + rest) == spec_item_playlists(rem[0], seg)
            + spec_hyd_playlists(rem.drop_first(), rest),
    decreases seg.len(),
{
    let outs = seg + rest;
    assert(outs[0] == seg[0]);
    if seg.len() == 1 {
        assert(outs.drop_first() =~= rest);
        assert(seg.last() == seg[0]);
        assert(spec_pauses(0) =~= Seq::<ZestingEvent>::empty());
        match seg[0] {
            HydrateOutcome::Transient => {
                assert(false);
            },
            HydrateOutcome::Fetched { tracks } => {
                assert(spec_hyd_events(rem, outs, true) =~= spec_pauses(0) + seq![
                    spec_item_final_event(rem[0], seg.last()),
                ] + spec_hyd_events(rem.drop_first(), rest, false));
                assert(spec_hyd_playlists(rem, outs) =~= spec_item_playlists(rem[0], seg)
                    + spec_hyd_playlists(rem.drop_first(), rest));
            },
            HydrateOutcome::FetchError => {
                assert(spec_hyd_events(rem, outs, true) =~= spec_pauses(0) + seq![
                    spec_item_final_event(rem[0], seg.last()),
                ] + spec_hyd_events(rem.drop_first(), rest, false));
                assert(spec_hyd_playlists(rem, outs) =~= spec_item_playlists(rem[0], seg)
                    + spec_hyd_playlists(rem.drop_first(), rest));
            },
            HydrateOutcome::CompletionError => {
                assert(spec_hyd_events(rem, outs, true) =~= spec_pauses(0) + seq![
                    spec_item_final_event(rem[0], seg.last()),
                ] + spec_hyd_events(rem.drop_first(), rest, false));
                assert(spec_hyd_playlists(rem, outs) =~= spec_item_playlists(rem[0], seg)
                    + spec_hyd_playlists(rem.drop_first(), rest));
            },
        }
    } else {
        assert(seg[0] is Transient);
        let seg1 = seg.drop_first();
        assert(outs.drop_first() =~= seg1 + rest);
        assert(seg1.last() == seg.last());
        assert(spec_is_item_script(seg1)) by {
            assert(forall|i: int| 0 <= i < seg1.len() - 1 ==> seg1[i] == seg[i + 1]);
        }
        lemma_hyd_peel(rem, seg1, rest);
        let pause = ZestingEvent::PausedAfterServerError { delay_secs: RETRY_DELAY_SECS };
        assert(seq![pause] + spec_pauses((seg1.len() - 1) as nat) =~= spec_pauses(
            (seg.len() - 1) as nat,
        ));
        assert(spec_hyd_events(rem, outs, true) =~= spec_pauses((seg.len() - 1) as nat) + seq![
            spec_item_final_event(rem[0], seg.last()),
        ] + spec_hyd_events(rem.drop_first(), rest, false));
        assert(spec_item_playlists(rem[0], seg1) == spec_item_playlists(rem[0], seg));
    }
}

/// Law (per-item failure isolation): a hydration batch is the concatenation
/// of independent per-item blocks. Over scripts with one segment of replies
/// per summary, the batch's events are exactly the per-item event blocks in
/// input order, and its output the per-item outputs in input order. Each
/// block depends only on its own summary and its own segment, so changing
/// one item's outcome - injecting a failure on item `i` - leaves every
/// other item's events and output unchanged, in content and in relative
/// order.
pub proof fn lemma_hydrator_isolation(
    summaries: Seq<PlaylistSummary>,
    segs: Seq<Seq<HydrateOutcome>>,
)
    requires
        segs.len() == summaries.len(),
        forall|i: int| 0 <= i < segs.len() ==> spec_is_item_script(#[trigger] segs[i]),
    ensures
        spec_hyd_events(summaries, segs.flatten(), false) == Seq::new(
            segs.len(),
            |i: int| spec_item_events(summaries[i], segs[i]),
        ).flatten(),
        spec_hyd_playlists(summaries, segs.flatten()) == Seq::new(
            segs.len(),
            |i: int| spec_item_playlists(summaries[i], segs[i]),
        ).flatten(),
    decreases segs.len(),
{
    let blocks = Seq::new(segs.len(), |i: int| spec_item_events(summaries[i], segs[i]));
    let outblocks = Seq::new(segs.len(), |i: int| spec_item_playlists(summaries[i], segs[i]));
    if segs.len() == 0 {
        assert(segs.flatten() =~= Seq::<HydrateOutcome>::empty());
        assert(blocks.flatten() =~= Seq::<ZestingEvent>::empty());
        assert(outblocks.flatten() =~= Seq::<Playlist>::empty());
    } else {
        let seg0 = segs[0];
        let rest = segs.drop_first().flatten();
        assert(segs.flatten() == seg0 + rest);
        lemma_hyd_start_prefix(summaries, seg0 + rest);
        lemma_hyd_peel(summaries, seg0, rest);
        assert(segs.drop_first() =~= Seq::new(
            (segs.len() - 1) as nat,
            |i: int| segs[i + 1],
        ));
        lemma_hydrator_isolation(summaries.drop_first(), segs.drop_first());
        assert(Seq::new((segs.len() - 1) as nat, |i: int| spec_item_events(
            summaries.drop_first()[i],
            segs.drop_first()[i],
        )) =~= blocks.drop_first());
        assert(Seq::new((segs.len() - 1) as nat, |i: int| spec_item_playlists(
            summaries.drop_first()[i],
            segs.drop_first()[i],
        )) =~= outblocks.drop_first());
        assert(blocks.flatten() == blocks[0] + blocks.drop_first().flatten());
        assert(outblocks.flatten() == outblocks[0] + outblocks.drop_first().flatten());
        assert(spec_hyd_events(summaries, segs.flatten(), false) =~= blocks.flatten());
        assert(spec_hyd_playlists(summaries, segs.flatten()) =~= outblocks.flatten());
    }
}

} // verus!
