//! The snapshot store: the records that readers see, replaced as a whole.
//!
//! A snapshot is handed out as a shared handle, so a reader keeps the
//! snapshot it got for as long as it likes while the store moves on. Shared
//! access reads, exclusive access replaces: a store that many tasks use lives
//! behind a readers-writer lock, held only for the copy or the swap of the
//! handle.

use crate::fetcher::PageView;
use crate::paginator::{
    full_pages, lemma_transient_error_fails_run, run_outcome, OutcomeView, RefreshError,
    RefreshOutcome,
};
use std::sync::Arc;
use vstd::prelude::*;

verus! {

/// Calls `Arc::clone`. Trusted: the new handle points to the same value.
#[verifier::external_body]
fn share<T>(handle: &Arc<T>) -> (shared: Arc<T>)
    ensures
        shared == *handle,
{
    Arc::clone(handle)
}

/// Holds the current snapshot of one dataset.
#[derive(Debug)]
pub struct CacheStore<R> {
    current: Arc<Vec<R>>,
    populated: bool,
}

/// What became of a refresh outcome that was offered to a store.
#[derive(Clone, Debug, PartialEq, Eq)]
pub enum RefreshReport {
    /// The snapshot was replaced by one of `count` records.
    Swapped { count: usize },
    /// The run had failed and the snapshot stays as it was.
    Retained { error: RefreshError },
}

/// The snapshot that a store shows after it was offered `outcome` while it
/// showed `before`: the new records after a success, `before` after a
/// failure.
pub open spec fn snapshot_after<R>(before: Seq<R>, outcome: OutcomeView<R>) -> Seq<R> {
    match outcome {
        OutcomeView::Success(records) => records,
        OutcomeView::Failed(_) => before,
    }
}

impl<R> CacheStore<R> {
    #[verifier::type_invariant]
    spec fn inv(self) -> bool {
        !self.populated ==> self.current@.len() == 0
    }

    /// The records of the current snapshot, in order. Empty while cold.
    pub closed spec fn snapshot(self) -> Seq<R> {
        self.current@
    }

    /// Whether a refresh has ever been published to this store.
    pub closed spec fn populated(self) -> bool {
        self.populated
    }

    /// A cold store: no refresh has been published, and readers see no
    /// records.
    pub fn new() -> (store: Self)
        ensures
            store.snapshot() == Seq::<R>::empty(),
            !store.populated(),
    {
        CacheStore { current: Arc::new(Vec::new()), populated: false }
    }

    /// The current snapshot, whole. The handle stays valid and unchanged
    /// whatever is published afterwards.
    pub fn read(&self) -> (snapshot: Arc<Vec<R>>)
        ensures
            snapshot@ == self.snapshot(),
    {
        share(&self.current)
    }

    /// Whether a refresh has ever been published. `false` means that an empty
    /// snapshot stands for data that is not there yet.
    pub fn is_populated(&self) -> (populated: bool)
        ensures
            populated == self.populated(),
    {
        self.populated
    }

    /// The number of records in the current snapshot.
    pub fn len(&self) -> (count: usize)
        ensures
            count == self.snapshot().len(),
    {
        self.current.len()
    }

    /// Publishes `records` as the new snapshot, in one step.
    pub fn replace(&mut self, records: Vec<R>)
        ensures
            final(self).snapshot() == records@,
            final(self).populated(),
    {
        self.populated = true;
        self.current = Arc::new(records);
    }

    /// Offers the outcome of a refresh run. A clean outcome, with or without
    /// records, replaces the snapshot; a failed one leaves the store exactly
    /// as it was and is handed back in the report.
    pub fn apply(&mut self, outcome: RefreshOutcome<R>) -> (report: RefreshReport)
        ensures
            final(self).snapshot() == snapshot_after(old(self).snapshot(), outcome@),
            final(self).populated() == (old(self).populated() || outcome@ is Success),
            match outcome@ {
                OutcomeView::Success(records) => report == (RefreshReport::Swapped {
                    count: records.len() as usize,
                }),
                OutcomeView::Failed(error) => report == (RefreshReport::Retained { error }),
            },
    {
        match outcome {
            RefreshOutcome::Loaded(records) => {
                let count = records.len();
                self.replace(records);
                RefreshReport::Swapped { count }
            },
            RefreshOutcome::Empty => {
                self.replace(Vec::new());
                RefreshReport::Swapped { count: 0 }
            },
            RefreshOutcome::Failed(error) => RefreshReport::Retained { error },
        }
    }
}

/// The snapshot that a store shows after it was offered each of `outcomes`
/// in turn, the earliest first, having shown `before`.
pub open spec fn snapshot_after_all<R>(before: Seq<R>, outcomes: Seq<OutcomeView<R>>) -> Seq<R>
    decreases outcomes.len(),
{
    if outcomes.len() == 0 {
        before
    } else {
        snapshot_after(snapshot_after_all(before, outcomes.drop_last()), outcomes.last())
    }
}

/// Every one of the runs failed.
pub open spec fn all_failed<R>(outcomes: Seq<OutcomeView<R>>) -> bool {
    forall|i: int| 0 <= i < outcomes.len() ==> (#[trigger] outcomes[i]) is Failed
}

/// The run at `at` succeeded and every later run failed.
pub open spec fn is_latest_success<R>(outcomes: Seq<OutcomeView<R>>, at: int) -> bool {
    &&& 0 <= at < outcomes.len()
    &&& outcomes[at] is Success
    &&& forall|later: int| at < later < outcomes.len() ==> (#[trigger] outcomes[later]) is Failed
}

/// After any number of refresh runs a store shows one whole record set: that
/// of the latest run that succeeded, or what it showed before the runs when
/// none of them succeeded. It never shows a mix of two sets.
pub proof fn lemma_snapshot_is_latest_success<R>(before: Seq<R>, outcomes: Seq<OutcomeView<R>>)
    ensures
        all_failed(outcomes) ==> snapshot_after_all(before, outcomes) == before,
        forall|at: int| #[trigger]
            is_latest_success(outcomes, at) ==> snapshot_after_all(before, outcomes)
                == outcomes[at]->Success_0,
    decreases outcomes.len(),
{
    if outcomes.len() > 0 {
        let earlier = outcomes.drop_last();
        lemma_snapshot_is_latest_success(before, earlier);
        assert forall|at: int| #[trigger] is_latest_success(outcomes, at) implies snapshot_after_all(
            before,
            outcomes,
        ) == outcomes[at]->Success_0 by {
            if at < outcomes.len() - 1 {
                assert(is_latest_success(earlier, at)) by {
                    assert(earlier[at] == outcomes[at]);
                    assert forall|later: int| at < later < earlier.len() implies (
                    #[trigger] earlier[later]) is Failed by {
                        assert(earlier[later] == outcomes[later]);
                    }
                }
            }
        }
        if all_failed(outcomes) {
            assert(all_failed(earlier)) by {
                assert forall|i: int| 0 <= i < earlier.len() implies (#[trigger] earlier[i]) is Failed by {
                    assert(earlier[i] == outcomes[i]);
                }
            }
        }
    }
}

/// A run in which a page fails with a transient error leaves the snapshot
/// exactly as it was before the run: nothing of the pages gathered before
/// the failure reaches the store.
pub proof fn lemma_failed_page_keeps_snapshot<R>(
    before: Seq<R>,
    pages: Seq<PageView<R>>,
    failing: int,
    max_pages: nat,
)
    requires
        0 <= failing < pages.len(),
        failing < max_pages,
        full_pages(pages, failing),
        pages[failing] is TransientError,
    ensures
        run_outcome(pages, max_pages) is Some,
        run_outcome(pages, max_pages)->Some_0 is Failed,
        snapshot_after(before, run_outcome(pages, max_pages)->Some_0) == before,
{
    lemma_transient_error_fails_run(pages, failing, max_pages);
}

} // verus!
