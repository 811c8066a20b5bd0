//! The mod lists of the two game branches, each with a snapshot of its own.

use crate::paginator::{OutcomeView, RefreshOutcome};
use crate::store::{snapshot_after, CacheStore, RefreshReport};
use crate::types::{ModEntry, ModVersionBranch};
use std::sync::Arc;
use vstd::prelude::*;

verus! {

/// One snapshot store for each branch.
#[derive(Debug)]
pub struct ModCache {
    alpha: CacheStore<ModEntry>,
    beta_public: CacheStore<ModEntry>,
}

impl ModCache {
    /// The current mod list of a branch. Empty while cold.
    pub closed spec fn snapshot(self, branch: ModVersionBranch) -> Seq<ModEntry> {
        match branch {
            ModVersionBranch::Alpha => self.alpha.snapshot(),
            ModVersionBranch::BetaPublic => self.beta_public.snapshot(),
        }
    }

    /// Whether a refresh of the branch has ever been published.
    pub closed spec fn populated(self, branch: ModVersionBranch) -> bool {
        match branch {
            ModVersionBranch::Alpha => self.alpha.populated(),
            ModVersionBranch::BetaPublic => self.beta_public.populated(),
        }
    }

    /// A cold cache: no branch has data.
    pub fn new() -> (cache: Self)
        ensures
            forall|branch: ModVersionBranch|
                #![trigger cache.snapshot(branch)]
                #![trigger cache.populated(branch)]
                cache.snapshot(branch) == Seq::<ModEntry>::empty() && !cache.populated(branch),
    {
        ModCache { alpha: CacheStore::new(), beta_public: CacheStore::new() }
    }

    /// The current mod list of a branch, whole.
    pub fn read(&self, branch: ModVersionBranch) -> (snapshot: Arc<Vec<ModEntry>>)
        ensures
            snapshot@ == self.snapshot(branch),
    {
        match branch {
            ModVersionBranch::Alpha => self.alpha.read(),
            ModVersionBranch::BetaPublic => self.beta_public.read(),
        }
    }

    /// Whether a refresh of the branch has ever been published: `false`
    /// means that its data is not there yet.
    pub fn is_populated(&self, branch: ModVersionBranch) -> (populated: bool)
        ensures
            populated == self.populated(branch),
    {
        match branch {
            ModVersionBranch::Alpha => self.alpha.is_populated(),
            ModVersionBranch::BetaPublic => self.beta_public.is_populated(),
        }
    }

    /// Offers the outcome of a refresh of one branch. A clean outcome
    /// replaces that branch's list; a failed one changes nothing. The other
    /// branch is never touched.
    pub fn apply(&mut self, branch: ModVersionBranch, outcome: RefreshOutcome<ModEntry>) -> (report:
        RefreshReport)
        ensures
            final(self).snapshot(branch) == snapshot_after(old(self).snapshot(branch), outcome@),
            final(self).populated(branch) == (old(self).populated(branch) || outcome@ is Success),
            forall|other: ModVersionBranch|
                other != branch ==> #[trigger] final(self).snapshot(other) == old(self).snapshot(
                    other,
                ) && final(self).populated(other) == old(self).populated(other),
            match outcome@ {
                OutcomeView::Success(records) => report == (RefreshReport::Swapped {
                    count: records.len() as usize,
                }),
                OutcomeView::Failed(error) => report == (RefreshReport::Retained { error }),
            },
    {
        match branch {
            ModVersionBranch::Alpha => self.alpha.apply(outcome),
            ModVersionBranch::BetaPublic => self.beta_public.apply(outcome),
        }
    }
}

} // verus!
