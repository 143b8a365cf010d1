//! Pagination with retry: assembles a complete ordered collection from
//! successive server pages, absorbing transient server errors by retrying
//! the same cursor, and aborting on any other error with no partial result.
//!
//! The engine is a step machine: the caller requests the page named by
//! [`Paginator::cursor`] from the transport and reports what came back
//! through [`Paginator::on_outcome`]. [`fetch_all`] drives the machine over
//! a whole sequence of transport replies at once.

use vstd::prelude::*;
use crate::RETRY_DELAY_SECS;
use crate::errors::FatalError;
use crate::events::ZestingEvent;
use crate::records::Page;

verus! {

/// One reply of the transport to a page request.
#[derive(Debug, PartialEq, Eq)]
pub enum FetchOutcome<T> {
    /// The page arrived.
    Arrived(Page<T>),
    /// A transient server error; the same request can be retried.
    Transient,
    /// A non-recoverable error; the whole fetch is aborted.
    Fatal(FatalError),
}

/// Where a paginated fetch stands.
#[derive(Debug, PartialEq, Eq)]
pub enum PagState {
    /// More pages are wanted; the next request uses the current cursor.
    Running,
    /// The last page arrived; the collection is complete.
    Complete,
    /// A fatal error aborted the fetch.
    Failed(FatalError),
}

/// The pagination engine. `items` is the collection assembled so far, in
/// server order; `cursor` is the continuation token for the next request
/// (`None` meaning the beginning of the listing) and is only meaningful
/// while `state` is `Running`.
#[derive(Debug)]
pub struct Paginator<T> {
    pub items: Vec<T>,
    pub cursor: Option<String>,
    pub state: PagState,
}

/// The collection that a sequence of transport replies yields: the items of
/// every page consumed, in arrival order. A fatal reply yields no partial
/// collection; replies after the final page are never consumed.
pub open spec fn spec_pag_items<T>(outs: Seq<FetchOutcome<T>>) -> Seq<T>
    decreases outs.len(),
{
    if outs.len() == 0 {
        Seq::empty()
    } else {
        match outs[0] {
            FetchOutcome::Arrived(p) => if p.next_cursor is Some {
                p.items@ + spec_pag_items(outs.drop_first())
            } else {
                p.items@
            },
            FetchOutcome::Transient => spec_pag_items(outs.drop_first()),
            FetchOutcome::Fatal(_) => Seq::empty(),
        }
    }
}

/// The items of each page consumed, one inner sequence per page.
pub open spec fn spec_pag_pages<T>(outs: Seq<FetchOutcome<T>>) -> Seq<Seq<T>>
    decreases outs.len(),
{
    if outs.len() == 0 {
        Seq::empty()
    } else {
        match outs[0] {
            FetchOutcome::Arrived(p) => if p.next_cursor is Some {
                seq![p.items@] + spec_pag_pages(outs.drop_first())
            } else {
                seq![p.items@]
            },
            FetchOutcome::Transient => spec_pag_pages(outs.drop_first()),
            FetchOutcome::Fatal(_) => Seq::empty(),
        }
    }
}

/// The events a paginated fetch reports: one progress event per page, one
/// pause event per absorbed transient error, nothing for a fatal abort.
pub open spec fn spec_pag_events<T>(outs: Seq<FetchOutcome<T>>) -> Seq<ZestingEvent>
    decreases outs.len(),
{
    if outs.len() == 0 {
        Seq::empty()
    } else {
        match outs[0] {
            FetchOutcome::Arrived(p) => seq![
                ZestingEvent::MoreItemsDownloaded { count: p.items@.len() as usize },
            ] + if p.next_cursor is Some {
                spec_pag_events(outs.drop_first())
            } else {
                Seq::empty()
            },
            FetchOutcome::Transient => seq![
                ZestingEvent::PausedAfterServerError { delay_secs: RETRY_DELAY_SECS },
            ] + spec_pag_events(outs.drop_first()),
            FetchOutcome::Fatal(_) => Seq::empty(),
        }
    }
}

/// Whether the replies carry the fetch to completion (a page with no
/// continuation arrives before any fatal reply).
pub open spec fn spec_pag_complete<T>(outs: Seq<FetchOutcome<T>>) -> bool
    decreases outs.len(),
{
    if outs.len() == 0 {
        false
    } else {
        match outs[0] {
            FetchOutcome::Arrived(p) => if p.next_cursor is Some {
                spec_pag_complete(outs.drop_first())
            } else {
                true
            },
            FetchOutcome::Transient => spec_pag_complete(outs.drop_first()),
            FetchOutcome::Fatal(_) => false,
        }
    }
}

/// The fatal error the replies run into, if any, before completion.
pub open spec fn spec_pag_failure<T>(outs: Seq<FetchOutcome<T>>) -> Option<FatalError>
    decreases outs.len(),
{
    if outs.len() == 0 {
        None
    } else {
        match outs[0] {
            FetchOutcome::Arrived(p) => if p.next_cursor is Some {
                spec_pag_failure(outs.drop_first())
            } else {
                None
            },
            FetchOutcome::Transient => spec_pag_failure(outs.drop_first()),
            FetchOutcome::Fatal(e) => Some(e),
        }
    }
}

impl<T> Paginator<T> {
    /// A fresh engine, positioned at the beginning of the listing.
    pub fn new() -> (p: Self)
        ensures
            p.items@ == Seq::<T>::empty(),
            p.cursor is None,
            p.state == PagState::Running,
    {
        Paginator { items: Vec::new(), cursor: None, state: PagState::Running }
    }

    /// Whether the engine still wants another page.
    pub fn is_running(&self) -> (b: bool)
        ensures
            b == (self.state is Running),
    {
        match self.state {
            PagState::Running => true,
            _ => false,
        }
    }

    /// Feeds one transport reply into the engine.
    ///
    /// A page is appended to the collection and reported; a page without a
    /// continuation completes the fetch. A transient error changes nothing
    /// but the event log: the cursor is kept, so the retry asks for the
    /// same page and no item is skipped or duplicated. A fatal error drops
    /// the partial collection and ends the fetch.
    pub fn on_outcome(&mut self, outcome: FetchOutcome<T>, events: &mut Vec<ZestingEvent>)
        requires
            old(self).state is Running,
        ensures
            match outcome {
                FetchOutcome::Arrived(p) => {
                    &&& final(self).items@ == old(self).items@ + p.items@
                    &&& final(self).cursor == p.next_cursor
                    &&& final(self).state == if p.next_cursor is Some {
                        PagState::Running
                    } else {
                        PagState::Complete
                    }
                    &&& final(events)@ == old(events)@.push(
                        ZestingEvent::MoreItemsDownloaded { count: p.items@.len() as usize },
                    )
                },
                FetchOutcome::Transient => {
                    &&& *final(self) == *old(self)
                    &&& final(events)@ == old(events)@.push(
                        ZestingEvent::PausedAfterServerError { delay_secs: RETRY_DELAY_SECS },
                    )
                },
                FetchOutcome::Fatal(e) => {
                    &&& final(self).items@ == Seq::<T>::empty()
                    &&& final(self).cursor == old(self).cursor
                    &&& final(self).state == PagState::Failed(e)
                    &&& *final(events) == *old(events)
                },
            },
    {
        match outcome {
            FetchOutcome::Arrived(p) => {
                let Page { mut items, next_cursor } = p;
                let count = items.len();
                self.items.append(&mut items);
                events.push(ZestingEvent::MoreItemsDownloaded { count });
                match next_cursor {
                    Some(c) => {
                        self.cursor = Some(c);
                    },
                    None => {
                        self.cursor = None;
                        self.state = PagState::Complete;
                    },
                }
            },
            FetchOutcome::Transient => {
                events.push(
                    ZestingEvent::PausedAfterServerError { delay_secs: RETRY_DELAY_SECS },
                );
            },
            FetchOutcome::Fatal(e) => {
                self.items = Vec::new();
                self.state = PagState::Failed(e);
            },
        }
    }
}

/// How a whole paginated fetch ended.
#[derive(Debug, PartialEq, Eq)]
pub enum FetchResult<T> {
    /// The complete collection, in server order.
    Complete(Vec<T>),
    /// A fatal error aborted the fetch; no partial collection is produced.
    Failed(FatalError),
    /// The transport replies ran out before the listing ended.
    Starved,
}

/// Drives a fresh [`Paginator`] over a sequence of transport replies and
/// returns how the fetch ended together with every event it reported.
pub fn fetch_all<T>(outcomes: Vec<FetchOutcome<T>>) -> (r: (FetchResult<T>, Vec<ZestingEvent>))
    ensures
        r.1@ == spec_pag_events(outcomes@),
        spec_pag_complete(outcomes@) ==> (r.0 matches FetchResult::Complete(items) && items@
            == spec_pag_items(outcomes@)),
        spec_pag_failure(outcomes@) matches Some(e) ==> r.0 == FetchResult::<T>::Failed(e),
        !spec_pag_complete(outcomes@) && spec_pag_failure(outcomes@) is None ==> r.0
            == FetchResult::<T>::Starved,
{
    let mut outs = outcomes;
    let ghost outs0 = outs@;
    let mut pag = Paginator::<T>::new();
    let mut events: Vec<ZestingEvent> = Vec::new();
    loop
        invariant
            pag.state is Running ==> {
                &&& pag.items@ + spec_pag_items(outs@) == spec_pag_items(outs0)
                &&& events@ + spec_pag_events(outs@) == spec_pag_events(outs0)
                &&& spec_pag_complete(outs@) == spec_pag_complete(outs0)
                &&& spec_pag_failure(outs@) == spec_pag_failure(outs0)
            },
            pag.state is Complete ==> {
                &&& pag.items@ == spec_pag_items(outs0)
                &&& events@ == spec_pag_events(outs0)
                &&& spec_pag_complete(outs0)
            },
            pag.state matches PagState::Failed(e) ==> {
                &&& events@ == spec_pag_events(outs0)
                &&& spec_pag_failure(outs0) == Some(e)
            },
        ensures
            pag.state is Running ==> outs@.len() == 0,
            pag.state is Running ==> events@ == spec_pag_events(outs0)
                && !spec_pag_complete(outs0) && spec_pag_failure(outs0) is None,
            pag.state is Complete ==> pag.items@ == spec_pag_items(outs0) && events@
                == spec_pag_events(outs0) && spec_pag_complete(outs0),
            pag.state matches PagState::Failed(e) ==> events@ == spec_pag_events(outs0)
                && spec_pag_failure(outs0) == Some(e),
        decreases outs.len(),
    {
        if !pag.is_running() {
            break;
        }
        if outs.len() == 0 {
            proof {
                assert(spec_pag_items(outs@) =~= Seq::<T>::empty());
                assert(pag.items@ + spec_pag_items(outs@) =~= pag.items@);
                assert(events@ + spec_pag_events(outs@) =~= events@);
            }
            break;
        }
        let ghost outs_pre = outs@;
        let o = outs.remove(0);
        proof {
            assert(outs@ =~= outs_pre.drop_first());
        }
        pag.on_outcome(o, &mut events);
        proof {
            lemma_pag_step(outs_pre);
        }
    }
    proof {
        lemma_pag_complete_excludes_failure(outs0);
    }
    let result = match pag.state {
        PagState::Running => FetchResult::Starved,
        PagState::Complete => FetchResult::Complete(pag.items),
        PagState::Failed(e) => FetchResult::Failed(e),
    };
    (result, events)
}

/// Unfolds each interpreter one step, so that a caller that consumed the
/// first reply can carry its accounting across the step.
proof fn lemma_pag_step<T>(outs: Seq<FetchOutcome<T>>)
    requires
        outs.len() > 0,
    ensures
        match outs[0] {
            FetchOutcome::Arrived(p) => {
                &&& spec_pag_items(outs) == if p.next_cursor is Some {
                    p.items@ + spec_pag_items(outs.drop_first())
                } else {
                    p.items@
                }
                &&& spec_pag_events(outs) == seq![
                    ZestingEvent::MoreItemsDownloaded { count: p.items@.len() as usize },
                ] + if p.next_cursor is Some {
                    spec_pag_events(outs.drop_first())
                } else {
                    Seq::empty()
                }
                &&& spec_pag_complete(outs) == if p.next_cursor is Some {
                    spec_pag_complete(outs.drop_first())
                } else {
                    true
                }
                &&& spec_pag_failure(outs) == if p.next_cursor is Some {
                    spec_pag_failure(outs.drop_first())
                } else {
                    None::<FatalError>
                }
            },
            FetchOutcome::Transient => {
                &&& spec_pag_items(outs) == spec_pag_items(outs.drop_first())
                &&& spec_pag_events(outs) == seq![
                    ZestingEvent::PausedAfterServerError { delay_secs: RETRY_DELAY_SECS },
                ] + spec_pag_events(outs.drop_first())
                &&& spec_pag_complete(outs) == spec_pag_complete(outs.drop_first())
                &&& spec_pag_failure(outs) == spec_pag_failure(outs.drop_first())
            },
            FetchOutcome::Fatal(e) => {
                &&& spec_pag_items(outs) == Seq::<T>::empty()
                &&& spec_pag_events(outs) == Seq::<ZestingEvent>::empty()
                &&& !spec_pag_complete(outs)
                &&& spec_pag_failure(outs) == Some(e)
            },
        },
{
}

/// A fetch that completes never runs into a fatal reply first: the two ways
/// a run can end exclude each other.
pub proof fn lemma_pag_complete_excludes_failure<T>(outs: Seq<FetchOutcome<T>>)
    ensures
        spec_pag_complete(outs) ==> spec_pag_failure(outs) is None,
    decreases outs.len(),
{
    if outs.len() > 0 {
        match outs[0] {
            FetchOutcome::Arrived(p) => {
                if p.next_cursor is Some {
                    lemma_pag_complete_excludes_failure(outs.drop_first());
                }
            },
            FetchOutcome::Transient => {
                lemma_pag_complete_excludes_failure(outs.drop_first());
            },
            FetchOutcome::Fatal(_) => {},
        }
    }
}

/// The total number of items the pages of a run carry.
pub open spec fn sum_page_lens<T>(pages: Seq<Seq<T>>) -> nat
    decreases pages.len(),
{
    if pages.len() == 0 {
        0
    } else {
        pages[0].len() + sum_page_lens(pages.drop_first())
    }
}

/// Law: a paginated fetch drops nothing and reorders nothing. The collection
/// is exactly the concatenation of the consumed pages, in arrival order, and
/// its length is the sum of the page lengths.
pub proof fn lemma_collection_is_pages_in_order<T>(outs: Seq<FetchOutcome<T>>)
    ensures
        spec_pag_items(outs) == spec_pag_pages(outs).flatten(),
        spec_pag_items(outs).len() == sum_page_lens(spec_pag_pages(outs)),
    decreases outs.len(),
{
    if outs.len() == 0 {
        assert(spec_pag_pages(outs).flatten() =~= Seq::<T>::empty());
    } else {
        match outs[0] {
            FetchOutcome::Arrived(p) => {
                if p.next_cursor is Some {
                    lemma_collection_is_pages_in_order(outs.drop_first());
                    let rest = spec_pag_pages(outs.drop_first());
                    let whole = seq![p.items@] + rest;
                    assert(whole[0] == p.items@);
                    assert(whole.drop_first() =~= rest);
                    assert(whole.flatten() == p.items@ + rest.flatten());
                } else {
                    let whole = seq![p.items@];
                    whole.lemma_flatten_one_element();
                    assert(whole.drop_first() =~= Seq::<Seq<T>>::empty());
                    assert(sum_page_lens(whole.drop_first()) == 0);
                }
            },
            FetchOutcome::Transient => {
                lemma_collection_is_pages_in_order(outs.drop_first());
            },
            FetchOutcome::Fatal(_) => {
                assert(spec_pag_pages(outs).flatten() =~= Seq::<T>::empty());
            },
        }
    }
}

/// The same replies with every transient error removed.
pub open spec fn spec_drop_transients<T>(outs: Seq<FetchOutcome<T>>) -> Seq<FetchOutcome<T>>
    decreases outs.len(),
{
    if outs.len() == 0 {
        Seq::empty()
    } else if outs[0] is Transient {
        spec_drop_transients(outs.drop_first())
    } else {
        seq![outs[0]] + spec_drop_transients(outs.drop_first())
    }
}

/// Law: retrying after transient errors is content- and order-idempotent.
/// Any number of transient errors, anywhere in the run, leaves the
/// collection and the way the fetch ends exactly as if every page had
/// arrived at the first attempt.
pub proof fn lemma_retry_is_invisible<T>(outs: Seq<FetchOutcome<T>>)
    ensures
        spec_pag_items(spec_drop_transients(outs)) == spec_pag_items(outs),
        spec_pag_complete(spec_drop_transients(outs)) == spec_pag_complete(outs),
        spec_pag_failure(spec_drop_transients(outs)) == spec_pag_failure(outs),
    decreases outs.len(),
{
    if outs.len() == 0 {
    } else if outs[0] is Transient {
        lemma_retry_is_invisible(outs.drop_first());
    } else {
        lemma_retry_is_invisible(outs.drop_first());
        let kept = seq![outs[0]] + spec_drop_transients(outs.drop_first());
        assert(kept[0] == outs[0]);
        assert(kept.drop_first() =~= spec_drop_transients(outs.drop_first()));
    }
}

} // verus!
