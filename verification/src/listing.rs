//! A fetch run against a whole listing.
//!
//! The hosting service is taken to hold a fixed sequence of repository names
//! and to answer every request for a page with the names at that page's
//! place. Against such a service a fetch asks for `total / page_size + 1`
//! pages and returns every name once, in the service's order.

use crate::fetch::{fetch_start, fetch_step, FetchStepView, FetcherView};
use vstd::prelude::*;

verus! {

/// The names that a service holding `listing` answers to a request for page
/// `page`, counted from 1, of at most `limit` names.
pub open spec fn page_of(listing: Seq<Seq<char>>, page: nat, limit: nat) -> Seq<Seq<char>> {
    let first = (page - 1) * limit;
    let end = page * limit;
    if first >= listing.len() {
        Seq::empty()
    } else if end >= listing.len() {
        listing.subrange(first, listing.len() as int)
    } else {
        listing.subrange(first, end as int)
    }
}

/// Where a fetch with pages of `page_size` stands after the service has
/// answered `answers` of its requests. A fetch that has ended stays as it is.
pub open spec fn fetch_after(listing: Seq<Seq<char>>, page_size: nat, answers: nat) -> FetchStepView
    decreases answers,
{
    if answers == 0 {
        FetchStepView::Request(fetch_start(page_size))
    } else {
        match fetch_after(listing, page_size, (answers - 1) as nat) {
            FetchStepView::Request(fetcher) => fetch_step(
                fetcher,
                Ok(page_of(listing, fetcher.page, fetcher.page_size)),
            ),
            ended => ended,
        }
    }
}

/// The number of requests that a listing of `total` names takes: one for
/// every full page and one more for the short page that ends the fetch.
pub open spec fn requests_needed(total: nat, page_size: nat) -> nat {
    total / page_size + 1
}

/// The number of pages that hold `total` names between them.
pub open spec fn pages_holding(total: nat, page_size: nat) -> nat {
    (total + page_size - 1) as nat / page_size
}

proof fn lemma_full_pages(total: nat, page_size: nat, pages: nat)
    requires
        page_size >= 1,
        pages <= total / page_size,
    ensures
        pages * page_size <= total,
        pages < total / page_size ==> (pages + 1) * page_size <= total,
        pages == total / page_size ==> total < (pages + 1) * page_size,
        pages == total / page_size ==> total - pages * page_size == total % page_size,
{
    let full = total / page_size;
    vstd::arithmetic::div_mod::lemma_fundamental_div_mod(total as int, page_size as int);
    assert(pages * page_size <= full * page_size) by (nonlinear_arith)
        requires
            pages <= full,
    ;
    if pages < full {
        assert((pages + 1) * page_size <= full * page_size) by (nonlinear_arith)
            requires
                pages + 1 <= full,
        ;
    }
    if pages == full {
        assert((pages + 1) * page_size == pages * page_size + page_size) by (nonlinear_arith);
    }
}

/// As long as only full pages have come in, the fetch goes on: after
/// `answers` of them it holds the first `answers * page_size` names of the
/// listing and asks for page `answers + 1`.
pub proof fn lemma_fetch_in_progress(listing: Seq<Seq<char>>, page_size: nat, answers: nat)
    requires
        page_size >= 1,
        answers <= listing.len() / page_size,
    ensures
        answers * page_size <= listing.len(),
        fetch_after(listing, page_size, answers) == FetchStepView::Request(
            FetcherView {
                page_size,
                page: answers + 1,
                collected: listing.take((answers * page_size) as int),
            },
        ),
    decreases answers,
{
    lemma_full_pages(listing.len(), page_size, answers);
    if answers == 0 {
        assert(0 * page_size == 0) by (nonlinear_arith);
        assert(listing.take((answers * page_size) as int) =~= Seq::empty());
    } else {
        let earlier = (answers - 1) as nat;
        lemma_fetch_in_progress(listing, page_size, earlier);
        lemma_full_pages(listing.len(), page_size, earlier);
        let first = earlier * page_size;
        let end = answers * page_size;
        assert(end == first + page_size) by (nonlinear_arith)
            requires
                end == answers * page_size,
                first == (answers - 1) * page_size,
        ;
        let page = page_of(listing, answers, page_size);
        assert(listing.take(first as int) + page =~= listing.take(end as int));
    }
}

/// Against a service that holds `listing`, a fetch with pages of `page_size`
/// is still asking after every answer before the last, and the answer number
/// `total / page_size + 1` ends it with exactly the names of the listing, in
/// the service's order.
pub proof fn theorem_fetch_returns_whole_listing(listing: Seq<Seq<char>>, page_size: nat)
    requires
        page_size >= 1,
    ensures
        fetch_after(listing, page_size, requests_needed(listing.len(), page_size))
            == FetchStepView::Done(listing),
        forall|answers: nat|
            answers < requests_needed(listing.len(), page_size) ==> #[trigger] fetch_after(
                listing,
                page_size,
                answers,
            ) is Request,
{
    let full = listing.len() / page_size;
    lemma_fetch_in_progress(listing, page_size, full);
    lemma_full_pages(listing.len(), page_size, full);
    let first = full * page_size;
    let page = page_of(listing, full + 1, page_size);
    assert(listing.take(first as int) + page =~= listing);
    assert forall|answers: nat| answers < requests_needed(listing.len(), page_size) implies (
    #[trigger] fetch_after(listing, page_size, answers)) is Request by {
        lemma_fetch_in_progress(listing, page_size, answers);
    }
}

/// The number of requests is the number of pages that hold the listing,
/// unless the listing fills its last page to the brim: then, and for an empty
/// listing, one more request is made, which an empty page answers.
pub proof fn theorem_request_count(total: nat, page_size: nat)
    requires
        page_size >= 1,
    ensures
        total == 0 ==> requests_needed(total, page_size) == 1,
        total % page_size != 0 ==> requests_needed(total, page_size) == pages_holding(
            total,
            page_size,
        ),
        total % page_size == 0 ==> requests_needed(total, page_size) == pages_holding(
            total,
            page_size,
        ) + 1,
{
    let full = total / page_size;
    let rest = total % page_size;
    vstd::arithmetic::div_mod::lemma_fundamental_div_mod(total as int, page_size as int);
    vstd::arithmetic::div_mod::lemma_mod_bound(total as int, page_size as int);
    let padded = total + page_size - 1;
    if rest != 0 {
        assert(padded == page_size * (full + 1) + (rest - 1)) by (nonlinear_arith)
            requires
                padded == total + page_size - 1,
                total == page_size * full + rest,
        ;
        vstd::arithmetic::div_mod::lemma_fundamental_div_mod_converse(
            padded,
            page_size as int,
            (full + 1) as int,
            rest - 1,
        );
    } else {
        vstd::arithmetic::div_mod::lemma_fundamental_div_mod_converse(
            padded,
            page_size as int,
            full as int,
            page_size - 1,
        );
    }
}

} // verus!
