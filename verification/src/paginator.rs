//! One refresh run: pages are asked for in increasing order and gathered
//! until the data ends, a page fails, or the page bound is reached.
//!
//! Fetching and waiting are the caller's work. [`Paginator::start`] and
//! [`Paginator::on_page`] decide what comes next: the page to fetch and the
//! delay to keep before it, or the outcome of the run.

use crate::fetcher::{FetchFailure, PageResult, PageView};
use vstd::prelude::*;

verus! {

/// Why a refresh run gave no snapshot.
#[derive(Clone, Debug, PartialEq, Eq)]
pub enum RefreshError {
    /// The named page failed; what the pages before it held is discarded.
    Fetch { page: u32, failure: FetchFailure },
    /// `max_pages` pages were gathered and the data had still not ended.
    PageBoundExceeded { max_pages: u32 },
}

/// The result of one refresh run.
#[derive(Clone, Debug, PartialEq, Eq)]
pub enum RefreshOutcome<R> {
    /// The data ended cleanly after these records, of which there is at
    /// least one.
    Loaded(Vec<R>),
    /// The data ended cleanly before any record.
    Empty,
    /// The run failed and has nothing to publish.
    Failed(RefreshError),
}

/// A refresh outcome as contracts see it.
pub ghost enum OutcomeView<R> {
    /// A clean end of data after these records, possibly none.
    Success(Seq<R>),
    Failed(RefreshError),
}

impl<R> View for RefreshOutcome<R> {
    type V = OutcomeView<R>;

    open spec fn view(&self) -> OutcomeView<R> {
        match *self {
            RefreshOutcome::Loaded(records) => OutcomeView::Success(records@),
            RefreshOutcome::Empty => OutcomeView::Success(Seq::empty()),
            RefreshOutcome::Failed(error) => OutcomeView::Failed(error),
        }
    }
}

impl<R> RefreshOutcome<R> {
    /// `Loaded` holds at least one record.
    pub open spec fn wf(&self) -> bool {
        match *self {
            RefreshOutcome::Loaded(records) => records@.len() > 0,
            _ => true,
        }
    }
}

/// The failure of a run that gathered `max_pages` pages without reaching the
/// end of the data.
pub open spec fn bound_exceeded<R>(max_pages: nat) -> OutcomeView<R> {
    OutcomeView::Failed(RefreshError::PageBoundExceeded { max_pages: max_pages as u32 })
}

/// The failure of a run whose page `page` failed with `failure`.
pub open spec fn page_failed<R>(page: nat, failure: FetchFailure) -> OutcomeView<R> {
    OutcomeView::Failed(RefreshError::Fetch { page: page as u32, failure })
}

/// The outcome of a run that has gathered `acc` from its first `fetched`
/// pages, when the source answers the request for page `i + 1` with
/// `pages[i]`. `None` when the run needs a page that `pages` does not hold.
pub open spec fn run_from<R>(
    pages: Seq<PageView<R>>,
    fetched: nat,
    acc: Seq<R>,
    max_pages: nat,
) -> Option<OutcomeView<R>>
    decreases max_pages - fetched,
{
    if fetched >= max_pages {
        Some(bound_exceeded(max_pages))
    } else if fetched >= pages.len() {
        None
    } else {
        match pages[fetched as int] {
            PageView::Data(records) => if records.len() == 0 {
                Some(OutcomeView::Success(acc))
            } else {
                run_from(pages, fetched + 1, acc + records, max_pages)
            },
            PageView::NotFound => Some(OutcomeView::Success(acc)),
            PageView::TransientError(failure) => Some(page_failed(fetched + 1, failure)),
        }
    }
}

/// The outcome of a whole run against a source that answers the request for
/// page `i + 1` with `pages[i]`.
pub open spec fn run_outcome<R>(pages: Seq<PageView<R>>, max_pages: nat) -> Option<
    OutcomeView<R>,
> {
    run_from(pages, 0, Seq::empty(), max_pages)
}

/// The views of a sequence of page results.
pub open spec fn page_views<R>(pages: Seq<PageResult<R>>) -> Seq<PageView<R>> {
    pages.map_values(|page: PageResult<R>| page@)
}

/// A refresh run that waits for the result of a page it has asked for.
#[derive(Debug)]
pub struct Paginator<R> {
    max_pages: u32,
    delay_ms: u64,
    fetched: u32,
    acc: Vec<R>,
}

/// What a refresh run asks of its driver.
#[derive(Debug)]
pub enum Progress<R> {
    /// Wait `delay_ms` milliseconds, fetch `page`, and hand its result to
    /// `paginator`.
    Next { paginator: Paginator<R>, page: u32, delay_ms: u64 },
    /// The run is over.
    Done(RefreshOutcome<R>),
}

impl<R> Progress<R> {
    /// The run is over with an outcome whose view is `outcome`.
    pub open spec fn ends_with(self, outcome: OutcomeView<R>) -> bool {
        self matches Progress::Done(got) && got@ == outcome && got.wf()
    }

    /// The run asks for `page` after `wait_ms` milliseconds, having gathered
    /// `gathered` from its first `fetched` pages.
    pub open spec fn asks_for(
        self,
        page: nat,
        wait_ms: u64,
        fetched: nat,
        gathered: Seq<R>,
        max_pages: nat,
        run_delay_ms: u64,
    ) -> bool {
        self matches Progress::Next { paginator, page: asked, delay_ms } && asked == page
            && delay_ms == wait_ms && paginator.fetched() == fetched && paginator.gathered()
            == gathered && paginator.max_pages() == max_pages && paginator.delay_ms()
            == run_delay_ms
    }

    /// The outcome that the run will have when the pages still to come are
    /// answered from `pages`, by page index.
    pub open spec fn outcome_on(self, pages: Seq<PageView<R>>) -> Option<OutcomeView<R>> {
        match self {
            Progress::Next { paginator, .. } => paginator.outcome_on(pages),
            Progress::Done(outcome) => Some(outcome@),
        }
    }
}

impl<R> Paginator<R> {
    #[verifier::type_invariant]
    spec fn inv(self) -> bool {
        self.fetched < self.max_pages
    }

    /// The number of pages gathered so far; the run waits for the next one.
    pub closed spec fn fetched(self) -> nat {
        self.fetched as nat
    }

    /// The records gathered so far, in page order.
    pub closed spec fn gathered(self) -> Seq<R> {
        self.acc@
    }

    /// The bound on the number of pages of one run.
    pub closed spec fn max_pages(self) -> nat {
        self.max_pages as nat
    }

    /// The delay kept before every page but the first, in milliseconds.
    pub closed spec fn delay_ms(self) -> u64 {
        self.delay_ms
    }

    /// The outcome that the run will have when the pages still to come are
    /// answered from `pages`, by page index.
    pub open spec fn outcome_on(self, pages: Seq<PageView<R>>) -> Option<OutcomeView<R>> {
        run_from(pages, self.fetched(), self.gathered(), self.max_pages())
    }

    /// Begins a run of at most `max_pages` pages that keeps
    /// `inter_page_delay_ms` between pages. The run asks for page 1 at once;
    /// with a bound of zero pages it is over before it asks for anything.
    pub fn start(max_pages: u32, inter_page_delay_ms: u64) -> (progress: Progress<R>)
        ensures
            max_pages == 0 ==> progress.ends_with(bound_exceeded(0)),
            max_pages > 0 ==> progress.asks_for(
                1,
                0,
                0,
                Seq::empty(),
                max_pages as nat,
                inter_page_delay_ms,
            ),
    {
        if max_pages == 0 {
            Progress::Done(RefreshOutcome::Failed(RefreshError::PageBoundExceeded { max_pages }))
        } else {
            Progress::Next {
                paginator: Paginator {
                    max_pages,
                    delay_ms: inter_page_delay_ms,
                    fetched: 0,
                    acc: Vec::new(),
                },
                page: 1,
                delay_ms: 0,
            }
        }
    }

    /// Takes the result of the page that the run waits for.
    ///
    /// A page with records is appended and the next page is asked for after
    /// the delay, unless the bound is reached, which fails the run. An empty
    /// page or a not-found ends the run with what was gathered. A transient
    /// error fails the run, and what was gathered is dropped.
    pub fn on_page(self, result: PageResult<R>) -> (progress: Progress<R>)
        ensures
            match result@ {
                PageView::Data(records) => if records.len() == 0 {
                    progress.ends_with(OutcomeView::Success(self.gathered()))
                } else if self.fetched() + 1 < self.max_pages() {
                    progress.asks_for(
                        self.fetched() + 2,
                        self.delay_ms(),
                        self.fetched() + 1,
                        self.gathered() + records,
                        self.max_pages(),
                        self.delay_ms(),
                    )
                } else {
                    progress.ends_with(bound_exceeded(self.max_pages()))
                },
                PageView::NotFound => progress.ends_with(OutcomeView::Success(self.gathered())),
                PageView::TransientError(failure) => progress.ends_with(
                    page_failed(self.fetched() + 1, failure),
                ),
            },
            forall|pages: Seq<PageView<R>>|
                self.fetched() < pages.len() && pages[self.fetched() as int] == result@
                    ==> #[trigger] self.outcome_on(pages) == progress.outcome_on(pages),
    {
        proof {
            use_type_invariant(&self);
        }
        let ghost before = self;
        let ghost answer = result@;
        let Paginator { max_pages, delay_ms, fetched, acc } = self;
        let progress = match result {
            PageResult::Data(records) => {
                if records.len() == 0 {
                    Progress::Done(finish(acc))
                } else {
                    let mut acc = acc;
                    let mut records = records;
                    acc.append(&mut records);
                    if fetched + 1 < max_pages {
                        Progress::Next {
                            paginator: Paginator { max_pages, delay_ms, fetched: fetched + 1, acc },
                            page: fetched + 2,
                            delay_ms,
                        }
                    } else {
                        Progress::Done(
                            RefreshOutcome::Failed(RefreshError::PageBoundExceeded { max_pages }),
                        )
                    }
                }
            },
            PageResult::NotFound => Progress::Done(finish(acc)),
            PageResult::TransientError(failure) => Progress::Done(
                RefreshOutcome::Failed(RefreshError::Fetch { page: fetched + 1, failure }),
            ),
        };
        proof {
            assert forall|pages: Seq<PageView<R>>|
                before.fetched() < pages.len() && pages[before.fetched() as int]
                    == answer implies #[trigger] before.outcome_on(pages) == progress.outcome_on(
                pages,
            ) by {
                reveal_with_fuel(run_from, 2);
            }
        }
        progress
    }
}

/// Runs a whole refresh against recorded answers: `pages[i]` answers the
/// request for page `i + 1`. Gives the outcome of the run, or `None` when the
/// run asks for a page beyond the recorded ones. Answers that the run never
/// asks for are ignored.
pub fn replay<R>(pages: Vec<PageResult<R>>, max_pages: u32, inter_page_delay_ms: u64) -> (outcome:
    Option<RefreshOutcome<R>>)
    ensures
        match run_outcome(page_views(pages@), max_pages as nat) {
            Some(expected) => outcome matches Some(got) && got@ == expected && got.wf(),
            None => outcome is None,
        },
{
    let ghost script = page_views(pages@);
    let ghost recorded = pages@;
    let mut progress: Progress<R> = Paginator::start(max_pages, inter_page_delay_ms);
    for page in it: pages
        invariant
            it.seq() == recorded,
            script == page_views(recorded),
            progress.outcome_on(script) == run_outcome(script, max_pages as nat),
            progress matches Progress::Next { paginator, .. } ==> paginator.fetched()
                == it.index(),
            progress matches Progress::Done(got) ==> got.wf(),
    {
        match progress {
            Progress::Done(outcome) => {
                return Some(outcome);
            },
            Progress::Next { paginator, .. } => {
                progress = paginator.on_page(page);
            },
        }
    }
    match progress {
        Progress::Done(outcome) => Some(outcome),
        Progress::Next { paginator, .. } => {
            proof {
                use_type_invariant(&paginator);
            }
            None
        },
    }
}

/// `answers[i]` is an answer that `fetch` may give for page `i + 1`.
pub open spec fn answered_by<R, F: Fn(u32) -> PageResult<R>>(
    fetch: F,
    answers: Seq<PageResult<R>>,
) -> bool {
    forall|i: int|
        0 <= i < answers.len() ==> call_ensures(fetch, ((i + 1) as u32,), #[trigger] answers[i])
}

/// Runs a whole refresh with a fetcher that answers at once: asks `fetch`
/// for page 1, 2, and so on, calls `wait` with the delay before every page
/// but the first, and stops at the end of the data, at the first page that
/// fails, or at the bound.
pub fn run<R, F: Fn(u32) -> PageResult<R>, W: Fn(u64) -> ()>(
    fetch: F,
    wait: W,
    max_pages: u32,
    inter_page_delay_ms: u64,
) -> (outcome: RefreshOutcome<R>)
    requires
        forall|page: u32| 1 <= page <= max_pages ==> call_requires(fetch, (page,)),
        call_requires(wait, (inter_page_delay_ms,)),
    ensures
        outcome.wf(),
        exists|answers: Seq<PageResult<R>>|
            answered_by(fetch, answers) && #[trigger] run_outcome(
                page_views(answers),
                max_pages as nat,
            ) == Some(outcome@),
{
    let ghost mut answers: Seq<PageResult<R>> = Seq::empty();
    let mut progress: Progress<R> = Paginator::start(max_pages, inter_page_delay_ms);
    loop
        invariant
            forall|page: u32| 1 <= page <= max_pages ==> call_requires(fetch, (page,)),
            call_requires(wait, (inter_page_delay_ms,)),
            answered_by(fetch, answers),
            progress matches Progress::Done(got) ==> got.wf(),
            progress matches Progress::Next { paginator, page, delay_ms } ==> paginator.fetched()
                == answers.len() && page == answers.len() + 1 && paginator.max_pages()
                == max_pages && paginator.delay_ms() == inter_page_delay_ms && (delay_ms == 0
                || delay_ms == inter_page_delay_ms),
            forall|later: Seq<PageView<R>>|
                page_views(answers).is_prefix_of(later) ==> #[trigger] run_outcome(
                    later,
                    max_pages as nat,
                ) == progress.outcome_on(later),
        decreases
            match progress {
                Progress::Next { paginator, .. } => max_pages - paginator.fetched() + 1,
                Progress::Done(_) => 0,
            },
    {
        match progress {
            Progress::Done(outcome) => {
                proof {
                    assert(run_outcome(page_views(answers), max_pages as nat) == Some(outcome@));
                }
                return outcome;
            },
            Progress::Next { paginator, page, delay_ms } => {
                proof {
                    use_type_invariant(&paginator);
                }
                if delay_ms > 0 {
                    wait(delay_ms);
                }
                let answer = fetch(page);
                let ghost before = answers;
                proof {
                    answers = answers.push(answer);
                }
                progress = paginator.on_page(answer);
                proof {
                    assert forall|later: Seq<PageView<R>>|
                        page_views(answers).is_prefix_of(later) implies #[trigger] run_outcome(
                        later,
                        max_pages as nat,
                    ) == progress.outcome_on(later) by {
                        let asked = before.len() as int;
                        assert(later[asked] == page_views(answers)[asked]);
                    }
                }
            },
        }
    }
}

/// The outcome of refreshing from a source that serves its whole data as
/// one document: the run over a first page that is the document and a second
/// page that is not there.
pub fn single_page_outcome<R>(page: PageResult<R>) -> (outcome: RefreshOutcome<R>)
    ensures
        outcome.wf(),
        Some(outcome@) == run_outcome(seq![page@, PageView::NotFound], 2),
{
    proof {
        reveal_with_fuel(run_from, 3);
    }
    match page {
        PageResult::Data(records) => {
            finish(records)
        },
        PageResult::NotFound => RefreshOutcome::Empty,
        PageResult::TransientError(failure) => RefreshOutcome::Failed(
            RefreshError::Fetch { page: 1, failure },
        ),
    }
}

/// The outcome of a run whose data ended cleanly after `records`.
fn finish<R>(records: Vec<R>) -> (outcome: RefreshOutcome<R>)
    ensures
        outcome.wf(),
        outcome@ == OutcomeView::Success(records@),
{
    if records.len() == 0 {
        assert(records@ =~= Seq::empty());
        RefreshOutcome::Empty
    } else {
        RefreshOutcome::Loaded(records)
    }
}

/// The records that the pages before page `upto + 1` hold, in page order.
pub open spec fn gathered_before<R>(pages: Seq<PageView<R>>, upto: int) -> Seq<R>
    decreases upto,
{
    if upto <= 0 {
        Seq::empty()
    } else {
        gathered_before(pages, upto - 1) + pages[upto - 1].records()
    }
}

/// Every one of the first `count` pages holds records, so a run gets past
/// all of them.
pub open spec fn full_pages<R>(pages: Seq<PageView<R>>, count: int) -> bool {
    forall|j: int| 0 <= j < count ==> (#[trigger] pages[j]).has_records()
}

proof fn lemma_run_passes_full_pages<R>(
    pages: Seq<PageView<R>>,
    upto: int,
    max_pages: nat,
    fetched: nat,
)
    requires
        fetched <= upto <= pages.len(),
        upto <= max_pages,
        full_pages(pages, upto),
    ensures
        run_from(pages, fetched, gathered_before(pages, fetched as int), max_pages) == run_from(
            pages,
            upto as nat,
            gathered_before(pages, upto),
            max_pages,
        ),
    decreases upto - fetched,
{
    if fetched < upto {
        lemma_run_passes_full_pages(pages, upto, max_pages, fetched + 1);
    }
}

/// A run whose first pages hold records and whose next page ends the data
/// succeeds with the records of all those pages, in page order.
pub proof fn lemma_end_of_data_publishes_all<R>(
    pages: Seq<PageView<R>>,
    ending: int,
    max_pages: nat,
)
    requires
        0 <= ending < pages.len(),
        ending < max_pages,
        full_pages(pages, ending),
        pages[ending].ends_data(),
    ensures
        run_outcome(pages, max_pages) == Some(
            OutcomeView::Success(gathered_before(pages, ending)),
        ),
{
    lemma_run_passes_full_pages(pages, ending, max_pages, 0);
}

/// A transient error on a page that the run gets to fails the run with that
/// page's failure, whatever the pages before it held and whatever would have
/// come after.
pub proof fn lemma_transient_error_fails_run<R>(
    pages: Seq<PageView<R>>,
    failing: int,
    max_pages: nat,
)
    requires
        0 <= failing < pages.len(),
        failing < max_pages,
        full_pages(pages, failing),
        pages[failing] is TransientError,
    ensures
        run_outcome(pages, max_pages) == Some(
            page_failed::<R>((failing + 1) as nat, pages[failing]->TransientError_0),
        ),
{
    lemma_run_passes_full_pages(pages, failing, max_pages, 0);
}

/// A run that finds records on every page up to the bound fails: reaching
/// the bound is never taken for the end of the data.
pub proof fn lemma_full_pages_up_to_the_bound_fail_run<R>(pages: Seq<PageView<R>>, max_pages: nat)
    requires
        max_pages <= pages.len(),
        full_pages(pages, max_pages as int),
    ensures
        run_outcome(pages, max_pages) == Some(bound_exceeded::<R>(max_pages)),
{
    lemma_run_passes_full_pages(pages, max_pages as int, max_pages, 0);
}

proof fn lemma_success_has_end_signal<R>(
    pages: Seq<PageView<R>>,
    max_pages: nat,
    fetched: nat,
    records: Seq<R>,
)
    requires
        fetched <= pages.len(),
        full_pages(pages, fetched as int),
        run_from(pages, fetched, gathered_before(pages, fetched as int), max_pages) == Some(
            OutcomeView::Success(records),
        ),
    ensures
        exists|ending: int|
            0 <= ending < pages.len() && ending < max_pages && full_pages(pages, ending)
                && (#[trigger] pages[ending]).ends_data() && records == gathered_before(
                pages,
                ending,
            ),
    decreases max_pages - fetched,
{
    if fetched < max_pages && fetched < pages.len() {
        if pages[fetched as int].has_records() {
            lemma_success_has_end_signal(pages, max_pages, fetched + 1, records);
        }
    }
}

/// A run succeeds only on a clean end of data: behind every success stands a
/// page that ended the data, after pages that all held records, and the
/// records published are exactly those of these pages.
pub proof fn lemma_success_needs_end_of_data<R>(
    pages: Seq<PageView<R>>,
    max_pages: nat,
    records: Seq<R>,
)
    requires
        run_outcome(pages, max_pages) == Some(OutcomeView::Success(records)),
    ensures
        exists|ending: int|
            0 <= ending < pages.len() && ending < max_pages && full_pages(pages, ending)
                && (#[trigger] pages[ending]).ends_data() && records == gathered_before(
                pages,
                ending,
            ),
{
    lemma_success_has_end_signal(pages, max_pages, 0, records);
}

} // verus!
