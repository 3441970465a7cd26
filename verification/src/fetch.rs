//! Collecting the repository listing page by page.
//!
//! The hosting service hands out its listing in pages. A `Fetcher` says which
//! page to ask for, takes the answer, and decides whether the listing is
//! complete: a page shorter than the page size is the last one.

use crate::repo::{names_of, Repo, Repos};
use vstd::prelude::*;

verus! {

/// One call of the listing API: page `page`, counted from 1, of at most
/// `limit` repositories.
#[derive(Clone, Copy, Debug, PartialEq, Eq, Structural)]
pub struct PageRequest {
    pub page: u64,
    pub limit: u64,
}

/// The listing could not be read: the request for page `page` failed for
/// `reason`. Nothing of what was collected before is kept.
#[derive(Debug, PartialEq, Eq)]
pub struct FetchError {
    pub page: u64,
    pub reason: String,
}

/// A fetch in progress, as the contracts see it.
pub struct FetcherView {
    /// The size of a full page.
    pub page_size: nat,
    /// The page to ask for next, counted from 1.
    pub page: nat,
    /// The names of all earlier pages, in order.
    pub collected: Seq<Seq<char>>,
}

/// What a fetch comes to after one answer, as the contracts see it.
pub enum FetchStepView {
    /// The page was full: ask for the next one.
    Request(FetcherView),
    /// The page was short: these are all the names.
    Done(Seq<Seq<char>>),
    /// The request for page `page` failed.
    Failed { page: nat, reason: Seq<char> },
}

/// A fetch before its first request: page 1 is next and nothing is collected.
pub open spec fn fetch_start(page_size: nat) -> FetcherView {
    FetcherView { page_size, page: 1, collected: Seq::empty() }
}

/// The rule of the fetch. A failed request ends it with nothing. Otherwise
/// the names of the page are appended; a page with fewer names than the page
/// size, an empty one too, ends the fetch, and any other page is followed by
/// a request for the next.
pub open spec fn fetch_step(
    fetcher: FetcherView,
    response: Result<Seq<Seq<char>>, Seq<char>>,
) -> FetchStepView {
    match response {
        Err(reason) => FetchStepView::Failed { page: fetcher.page, reason },
        Ok(names) => if names.len() < fetcher.page_size {
            FetchStepView::Done(fetcher.collected + names)
        } else {
            FetchStepView::Request(
                FetcherView {
                    page_size: fetcher.page_size,
                    page: fetcher.page + 1,
                    collected: fetcher.collected + names,
                },
            )
        },
    }
}

/// The answer to a page request as the contracts see it: the names of the
/// page, or the reason of the failure.
pub open spec fn response_view(response: Result<Vec<String>, String>) -> Result<
    Seq<Seq<char>>,
    Seq<char>,
> {
    match response {
        Ok(names) => Ok(names@.map_values(|name: String| name@)),
        Err(reason) => Err(reason@),
    }
}

/// A fetch in progress.
#[derive(Debug)]
pub struct Fetcher {
    page_size: u64,
    page: u64,
    collected: Vec<Repo>,
}

impl View for Fetcher {
    type V = FetcherView;

    closed spec fn view(&self) -> FetcherView {
        FetcherView {
            page_size: self.page_size as nat,
            page: self.page as nat,
            collected: names_of(self.collected@),
        }
    }
}

/// What to do after an answer was handed to a `Fetcher`.
#[derive(Debug)]
pub enum FetchStep {
    /// Make the request of this fetcher and hand it the answer.
    Request(Fetcher),
    /// The listing is complete.
    Done(Repos),
    /// The fetch is over without a result.
    Failed(FetchError),
}

impl View for FetchStep {
    type V = FetchStepView;

    open spec fn view(&self) -> FetchStepView {
        match self {
            FetchStep::Request(fetcher) => FetchStepView::Request(fetcher@),
            FetchStep::Done(repos) => FetchStepView::Done(repos@),
            FetchStep::Failed(error) => FetchStepView::Failed {
                page: error.page as nat,
                reason: error.reason@,
            },
        }
    }
}

impl Fetcher {
    /// A fetch that has not asked for anything yet.
    pub fn new(page_size: u64) -> (fetcher: Fetcher)
        ensures
            fetcher@ == fetch_start(page_size as nat),
    {
        let fetcher = Fetcher { page_size, page: 1, collected: Vec::new() };
        proof {
            assert(fetcher@.collected =~= Seq::empty());
        }
        fetcher
    }

    /// The request to make next.
    pub fn request(&self) -> (request: PageRequest)
        ensures
            request.page == self@.page,
            request.limit == self@.page_size,
    {
        PageRequest { page: self.page, limit: self.page_size }
    }

    /// How many repositories the earlier pages held.
    pub fn collected(&self) -> (count: usize)
        ensures
            count == self@.collected.len(),
    {
        self.collected.len()
    }

    /// Whether the page counter has room for one more page, as `on_page`
    /// asks. It has, unless all of `u64::MAX - 1` pages before were full.
    pub fn counter_has_room(&self) -> (room: bool)
        ensures
            room == (self@.page < u64::MAX),
    {
        self.page < u64::MAX
    }

    /// Takes the answer to `self.request()` and decides how the fetch goes on,
    /// by the rule `fetch_step`.
    ///
    /// The page counter must have room for one more page.
    pub fn on_page(self, response: Result<Vec<String>, String>) -> (step: FetchStep)
        requires
            self@.page < u64::MAX,
        ensures
            step@ == fetch_step(self@, response_view(response)),
            response is Err ==> step is Failed,
            response is Ok && response->Ok_0@.len() < self@.page_size ==> step is Done,
            response is Ok && response->Ok_0@.len() >= self@.page_size ==> step is Request,
    {
        match response {
            Err(reason) => FetchStep::Failed(FetchError { page: self.page, reason }),
            Ok(names) => {
                let ghost before = names_of(self.collected@);
                let ghost page = names@.map_values(|name: String| name@);
                let short = (names.len() as u64) < self.page_size;
                let mut collected = self.collected;
                for name in listed: names
                    invariant
                        page.len() == listed.seq().len(),
                        forall|i: int| 0 <= i < page.len() ==> page[i] == listed.seq()[i]@,
                        names_of(collected@) == before + page.take(listed.index() as int),
                {
                    let ghost i = listed.index() as int;
                    let ghost earlier = collected@;
                    collected.push(Repo::new(name));
                    proof {
                        assert(names_of(collected@) =~= names_of(earlier).push(page[i]));
                    }
                }
                proof {
                    assert(page.take(page.len() as int) =~= page);
                }
                if short {
                    FetchStep::Done(Repos(collected))
                } else {
                    FetchStep::Request(
                        Fetcher { page_size: self.page_size, page: self.page + 1, collected },
                    )
                }
            },
        }
    }
}

} // verus!
