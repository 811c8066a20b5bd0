//! Classification of one page request: what the answer of the upstream
//! source means for the refresh run that asked for the page.

use crate::decimal::{decimal, write_decimal};
use vstd::prelude::*;
use vstd::string::StringExecFns;

verus! {

/// What the status line of an answered page request means for the run.
#[derive(Clone, Copy, Debug, PartialEq, Eq, Structural)]
pub enum StatusClass {
    /// A 2xx answer: the body holds the page.
    Success,
    /// 404: the upstream source has no such page, which ends the data.
    NotFound,
    /// Any other status: the page cannot be trusted.
    Failure,
}

/// Why a page could not be had.
#[derive(Clone, Debug, PartialEq, Eq)]
pub enum FetchFailure {
    /// No answer arrived: connection failure or timeout.
    Network(String),
    /// The source answered with a status that is neither 2xx nor 404.
    Status(u16),
    /// The body of a 2xx answer could not be decoded.
    Parse(String),
}

/// The tagged result of fetching one page.
#[derive(Clone, Debug, PartialEq, Eq)]
pub enum PageResult<R> {
    /// The page was fetched and decoded; it may hold no records.
    Data(Vec<R>),
    /// The source says that there is no such page.
    NotFound,
    /// The fetch failed in a way that a later run may not.
    TransientError(FetchFailure),
}

/// A page result as contracts see it: the records as a sequence.
pub ghost enum PageView<R> {
    Data(Seq<R>),
    NotFound,
    TransientError(FetchFailure),
}

impl<R> View for PageResult<R> {
    type V = PageView<R>;

    open spec fn view(&self) -> PageView<R> {
        match *self {
            PageResult::Data(records) => PageView::Data(records@),
            PageResult::NotFound => PageView::NotFound,
            PageResult::TransientError(failure) => PageView::TransientError(failure),
        }
    }
}

impl<R> PageView<R> {
    /// The records that the page holds; none for a page that is not there or
    /// that failed.
    pub open spec fn records(self) -> Seq<R> {
        match self {
            PageView::Data(records) => records,
            _ => Seq::empty(),
        }
    }

    /// The page holds at least one record, so the run goes on after it.
    pub open spec fn has_records(self) -> bool {
        match self {
            PageView::Data(records) => records.len() > 0,
            _ => false,
        }
    }

    /// The page tells the run that the data has ended: it holds no records,
    /// or the source has no such page.
    pub open spec fn ends_data(self) -> bool {
        match self {
            PageView::Data(records) => records.len() == 0,
            PageView::NotFound => true,
            PageView::TransientError(_) => false,
        }
    }
}

/// 404 is not-found, 200 to 299 is success, every other status is failure.
pub open spec fn status_class(status: u16) -> StatusClass {
    if status == 404 {
        StatusClass::NotFound
    } else if 200 <= status <= 299 {
        StatusClass::Success
    } else {
        StatusClass::Failure
    }
}

/// The page result that an answer with `status` stands for, where `body` is
/// what decoding the answer's body gave. The body counts only under a
/// success status.
pub open spec fn reply_result<R>(status: u16, body: Result<Vec<R>, String>) -> PageView<R> {
    match status_class(status) {
        StatusClass::NotFound => PageView::NotFound,
        StatusClass::Failure => PageView::TransientError(FetchFailure::Status(status)),
        StatusClass::Success => match body {
            Ok(records) => PageView::Data(records@),
            Err(detail) => PageView::TransientError(FetchFailure::Parse(detail)),
        },
    }
}

/// Sorts a response status into success, not-found and failure.
pub fn classify_status(status: u16) -> (class: StatusClass)
    ensures
        class == status_class(status),
{
    if status == 404 {
        StatusClass::NotFound
    } else if 200 <= status && status < 300 {
        StatusClass::Success
    } else {
        StatusClass::Failure
    }
}

/// Turns an answered request into a page result. A 404 ends the data, any
/// other status outside 2xx fails the page whatever the body says, and under
/// a 2xx status the decoded records are the page, or the decoding error
/// fails it.
pub fn classify_reply<R>(status: u16, body: Result<Vec<R>, String>) -> (page: PageResult<R>)
    ensures
        page@ == reply_result(status, body),
{
    match classify_status(status) {
        StatusClass::NotFound => PageResult::NotFound,
        StatusClass::Failure => PageResult::TransientError(FetchFailure::Status(status)),
        StatusClass::Success => match body {
            Ok(records) => PageResult::Data(records),
            Err(detail) => PageResult::TransientError(FetchFailure::Parse(detail)),
        },
    }
}

/// The page result of a request that got no answer.
pub fn classify_unanswered<R>(detail: String) -> (page: PageResult<R>)
    ensures
        page@ == PageView::<R>::TransientError(FetchFailure::Network(detail)),
{
    PageResult::TransientError(FetchFailure::Network(detail))
}

/// The longest that one page request may take, in seconds; a request that
/// takes longer counts as unanswered.
pub const REQUEST_TIMEOUT_SECS: u64 = 30;

/// The address of the paged map files, up to the page number.
pub const MAP_PAGES_ENDPOINT: &'static str = "https://modio-cache.vercel.app/maps_v2/page_";

/// The address of page `page` of a paged source whose pages are named by
/// `base`, the page number and `.json`.
pub open spec fn page_address(base: Seq<char>, page: u32) -> Seq<char> {
    base + decimal(page as nat) + ".json"@
}

/// The address of a page of a paged source. Pages are counted from 1.
pub fn page_url(base: &str, page: u32) -> (url: String)
    requires
        page >= 1,
    ensures
        url@ == page_address(base@, page),
{
    let mut url = String::from_str(base);
    url.append(write_decimal(page as u64).as_str());
    url.append(".json");
    url
}

} // verus!
