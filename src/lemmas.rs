use vstd::prelude::*;
use crate::response::{
    ErrorResponse, Reply, SearchError, SearchResponse, Verdict, has_marker, is_outcome,
    verdict_of, STATUS_BAD_REQUEST, STATUS_NOT_FOUND, STATUS_TOO_MANY_REQUESTS,
};
use crate::schedule::{
    PageScheduler, SchedulerView, completion, expected_pages, pages_for, start_view, view_wf,
};
use crate::searcher::discovery_step_ok;

verus! {

/// A discovery page reporting at most one page of results leaves nothing to
/// fetch: the fresh scheduler hands out no page, and never page 0.
pub proof fn lemma_single_page_fetches_nothing(first: SearchResponse, limit: u8)
    requires
        pages_for(first.size as nat) <= 1,
    ensures
        start_view(first, limit).next > start_view(first, limit).total,
        view_wf(start_view(first, limit)),
{
    assert(start_view(first, limit).outstanding.no_duplicates());
}

/// The number of page requests in flight never exceeds the configured limit.
pub proof fn lemma_in_flight_bounded(v: SchedulerView)
    requires
        view_wf(v),
    ensures
        v.outstanding.len() <= v.limit,
        forall|i: int| 0 <= i < v.outstanding.len() ==> 2 <= #[trigger] v.outstanding[i] <= v.total,
{
}

/// A rejected discovery request ends the search with `InvalidQuery` and
/// starts no pagination, so no page request follows it.
pub proof fn lemma_rejected_discovery_is_fatal(
    status: u16,
    body: Seq<u8>,
    first: Result<SearchResponse, SearchError>,
    threads: u8,
    next: Result<PageScheduler, SearchError>,
)
    requires
        status == STATUS_BAD_REQUEST || status == STATUS_NOT_FOUND,
        is_outcome(Reply::Rejected, first),
        discovery_step_ok(first, threads, next),
    ensures
        verdict_of(status, body) == Verdict::Reject,
        next matches Err(SearchError::InvalidQuery),
{
}

/// A throttled page request calls for the backoff, fails with
/// `LimitExceeded`, and completing it drops that page: the fetched pages stay
/// as they were and the failure is recorded against the page.
pub proof fn lemma_throttled_page_is_dropped(
    body: Seq<u8>,
    o: SchedulerView,
    page: u32,
    result: Result<SearchResponse, SearchError>,
    f: SchedulerView,
    done: bool,
)
    requires
        view_wf(o),
        o.outstanding.contains(page),
        is_outcome(Reply::Throttled, result),
        completion(o, page, result, f, done),
    ensures
        verdict_of(STATUS_TOO_MANY_REQUESTS, body) == Verdict::Backoff,
        done,
        f.pages == o.pages,
        f.failures.len() == o.failures.len() + 1,
        f.failures.last().0 == page,
        f.failures.last().1 is LimitExceeded,
        !f.outstanding.contains(page),
{
    let k = o.outstanding.index_of(page);
    o.outstanding.index_of_first_ensures(page);
    if f.outstanding.contains(page) {
        let j = choose|j: int| 0 <= j < f.outstanding.len() && f.outstanding[j] == page;
        let j2 = if j < k { j } else { j + 1 };
        assert(f.outstanding[j] == o.outstanding[j2]);
    }
}

/// Apart from throttling and rejection, which the status decides, a body
/// holding the error-envelope marker is decoded as the error envelope, never
/// as a result page, and once decoded yields `LimitExceeded` with its message.
pub proof fn lemma_marker_yields_limit_exceeded(
    status: u16,
    body: Seq<u8>,
    envelope: ErrorResponse,
    r: Result<SearchResponse, SearchError>,
)
    requires
        status != STATUS_TOO_MANY_REQUESTS,
        status != STATUS_BAD_REQUEST,
        status != STATUS_NOT_FOUND,
        has_marker(body),
        is_outcome(Reply::ErrorBody(Ok(envelope)), r),
    ensures
        verdict_of(status, body) == Verdict::DecodeError,
        r matches Err(SearchError::LimitExceeded(m)) && m == envelope.errmsg,
{
}

/// Searching carries nothing over between calls: two searches whose
/// discovery returned the same page start the same fresh pagination, holding
/// that page alone, with no failures and nothing in flight.
pub proof fn lemma_searches_are_independent(
    first: SearchResponse,
    threads: u8,
    a: Result<PageScheduler, SearchError>,
    b: Result<PageScheduler, SearchError>,
)
    requires
        !first.error,
        discovery_step_ok(Ok(first), threads, a),
        discovery_step_ok(Ok(first), threads, b),
    ensures
        a matches Ok(sa) && b matches Ok(sb) && sa@ == sb@ && sa@.pages == seq![first]
            && sa@.failures.len() == 0 && sa@.outstanding.len() == 0,
{
}

/// No page is lost: once a search is finished, every page it has is either
/// among the fetched pages or among the failures, and when none failed the
/// fetched pages number exactly the pages of the search.
pub proof fn lemma_finished_search_loses_no_page(v: SchedulerView)
    requires
        view_wf(v),
        v.outstanding.len() == 0,
        v.next > v.total,
    ensures
        v.pages.len() + v.failures.len() == expected_pages(v),
        v.failures.len() == 0 ==> v.pages.len() == expected_pages(v),
{
}

} // verus!
