use vstd::prelude::*;
use crate::response::{SearchError, SearchResponse};

verus! {

/// Number of entries on a full result page.
pub const PAGE_SIZE: u32 = 100;

/// Number of pages that `size` results fill: `size / 100` rounded up.
pub open spec fn pages_for(size: nat) -> nat {
    ((size + 99) / 100) as nat
}

/// Number of pages needed for `size` results, rounded up.
pub fn total_pages(size: u32) -> (r: u32)
    ensures
        r as nat == pages_for(size as nat),
{
    let q = size / PAGE_SIZE;
    if size % PAGE_SIZE == 0 {
        q
    } else {
        q + 1
    }
}

/// What a scheduler holds, as plain values.
pub struct SchedulerView {
    /// Most requests that may be in flight at once.
    pub limit: nat,
    /// Pages the search has in all.
    pub total: nat,
    /// The next page to hand out.
    pub next: nat,
    /// Pages handed out and not yet completed.
    pub outstanding: Seq<u32>,
    /// Pages fetched successfully, the discovery page first.
    pub pages: Seq<SearchResponse>,
    /// Pages that failed, with their errors.
    pub failures: Seq<(u32, SearchError)>,
}

/// The fresh state of a search whose discovery page is `first`.
pub open spec fn start_view(first: SearchResponse, limit: u8) -> SchedulerView {
    SchedulerView {
        limit: limit as nat,
        total: pages_for(first.size as nat),
        next: 2,
        outstanding: Seq::empty(),
        pages: seq![first],
        failures: Seq::empty(),
    }
}

/// The number of pages the search ends with, fetched or failed.
pub open spec fn expected_pages(v: SchedulerView) -> nat {
    if v.total <= 1 { 1 } else { v.total }
}

/// Hands out the pages after discovery under a limit on requests in flight,
/// and gathers what each request returns.
pub struct PageScheduler {
    limit: u8,
    total: u32,
    next: u32,
    outstanding: Vec<u32>,
    pages: Vec<SearchResponse>,
    failures: Vec<(u32, SearchError)>,
}

impl View for PageScheduler {
    type V = SchedulerView;

    closed spec fn view(&self) -> SchedulerView {
        SchedulerView {
            limit: self.limit as nat,
            total: self.total as nat,
            next: self.next as nat,
            outstanding: self.outstanding@,
            pages: self.pages@,
            failures: self.failures@,
        }
    }
}

/// The invariant of a scheduler view: at most `limit` pages in flight, each
/// handed out once from `2..next`, pages handed out in order up to the total,
/// and every page accounted for exactly once: fetched, failed or in flight.
pub open spec fn view_wf(v: SchedulerView) -> bool {
    &&& v.outstanding.len() <= v.limit
    &&& 2 <= v.next <= expected_pages(v) + 1
    &&& v.total <= pages_for(u32::MAX as nat)
    &&& v.outstanding.no_duplicates()
    &&& forall|i: int| 0 <= i < v.outstanding.len() ==> 2 <= #[trigger] v.outstanding[i] < v.next
    &&& v.pages.len() + v.failures.len() + v.outstanding.len() == v.next - 1
}

/// `f` is `o` after the request for `page` returned `result`, and `done`
/// tells whether that page was in flight: if so it leaves the pages in
/// flight, and a page is kept or a failure recorded with its page number;
/// if not, nothing changes.
pub open spec fn completion(
    o: SchedulerView,
    page: u32,
    result: Result<SearchResponse, SearchError>,
    f: SchedulerView,
    done: bool,
) -> bool {
    &&& done == o.outstanding.contains(page)
    &&& if done {
        &&& f.outstanding == o.outstanding.remove(o.outstanding.index_of(page))
        &&& f.limit == o.limit && f.total == o.total && f.next == o.next
        &&& match result {
            Ok(p) => f.pages == o.pages.push(p) && f.failures == o.failures,
            Err(e) => f.pages == o.pages && f.failures == o.failures.push((page, e)),
        }
    } else {
        f == o
    }
}

impl PageScheduler {
    pub open spec fn wf(&self) -> bool {
        view_wf(self@)
    }

    /// Starts the pagination of a search from its discovery page.
    pub fn new(first: SearchResponse, limit: u8) -> (s: PageScheduler)
        ensures
            s.wf(),
            s@ == start_view(first, limit),
    {
        let total = total_pages(first.size);
        let mut pages: Vec<SearchResponse> = Vec::new();
        pages.push(first);
        let s = PageScheduler {
            limit,
            total,
            next: 2,
            outstanding: Vec::new(),
            pages,
            failures: Vec::new(),
        };
        proof {
            assert(s@.pages =~= seq![first]);
            assert(s@.outstanding =~= Seq::<u32>::empty());
            assert(s@.failures =~= Seq::<(u32, SearchError)>::empty());
            assert(s@ == start_view(first, limit));
        }
        s
    }

    /// Hands out the next page to fetch, if a slot is free and pages remain.
    pub fn next_request(&mut self) -> (r: Option<u32>)
        requires
            old(self).wf(),
        ensures
            final(self).wf(),
            final(self)@.outstanding.len() <= final(self)@.limit,
            ({
                let o = old(self)@;
                let f = final(self)@;
                if o.outstanding.len() < o.limit && o.next <= o.total {
                    &&& r == Some(o.next as u32)
                    &&& f == SchedulerView {
                        next: o.next + 1,
                        outstanding: o.outstanding.push(o.next as u32),
                        ..o
                    }
                } else {
                    r is None && f == o
                }
            }),
    {
        if self.outstanding.len() < self.limit as usize && self.next <= self.total {
            let page = self.next;
            self.outstanding.push(page);
            self.next = self.next + 1;
            Some(page)
        } else {
            None
        }
    }

    /// Records what the request for `page` returned: a page is kept, a failure
    /// is recorded with its page number. A page that is not in flight is
    /// ignored, and `false` returned.
    pub fn complete(&mut self, page: u32, result: Result<SearchResponse, SearchError>) -> (done: bool)
        requires
            old(self).wf(),
        ensures
            final(self).wf(),
            completion(old(self)@, page, result, final(self)@, done),
    {
        let n = self.outstanding.len();
        let mut i: usize = 0;
        while i < n
            invariant
                n == self.outstanding.len(),
                self == old(self),
                self.wf(),
                i <= n,
                forall|j: int| 0 <= j < i ==> self.outstanding@[j] != page,
            decreases n - i,
        {
            if self.outstanding[i] == page {
                proof {
                    self.outstanding@.index_of_first_ensures(page);
                    assert(self.outstanding@.contains(page));
                    let k = self.outstanding@.index_of(page);
                    assert(k == i as int) by {
                        assert(self.outstanding@[k] == page);
                    }
                }
                let ghost o = self@;
                self.outstanding.remove(i);
                match result {
                    Ok(p) => {
                        self.pages.push(p);
                    },
                    Err(e) => {
                        self.failures.push((page, e));
                    },
                }
                proof {
                    let f = self@;
                    assert forall|j: int| 0 <= j < f.outstanding.len() implies 2 <= #[trigger] f.outstanding[j] < f.next by {
                        if j < i {
                            assert(f.outstanding[j] == o.outstanding[j]);
                        } else {
                            assert(f.outstanding[j] == o.outstanding[j + 1]);
                        }
                    }
                    assert forall|a: int, b: int|
                        0 <= a < f.outstanding.len() && 0 <= b < f.outstanding.len() && a != b
                        implies f.outstanding[a] != f.outstanding[b] by {
                        let a2 = if a < i { a } else { a + 1 };
                        let b2 = if b < i { b } else { b + 1 };
                        assert(f.outstanding[a] == o.outstanding[a2]);
                        assert(f.outstanding[b] == o.outstanding[b2]);
                    }
                }
                return true;
            }
            i = i + 1;
        }
        proof {
            if self.outstanding@.contains(page) {
                let k = choose|k: int| 0 <= k < self.outstanding@.len() && self.outstanding@[k] == page;
                assert(self.outstanding@[k] != page);
            }
        }
        false
    }

    /// Whether every page has been handed out and completed.
    pub fn is_finished(&self) -> (r: bool)
        requires
            self.wf(),
        ensures
            r == (self@.outstanding.len() == 0 && self@.next > self@.total),
    {
        self.outstanding.len() == 0 && self.next > self.total
    }

    /// Number of requests in flight.
    pub fn in_flight(&self) -> (r: usize)
        ensures
            r == self@.outstanding.len(),
    {
        self.outstanding.len()
    }

    /// Number of pages the search has in all.
    pub fn total_pages(&self) -> (r: u32)
        ensures
            r == self@.total,
    {
        self.total
    }

    /// The pages that failed, with their errors.
    pub fn failures(&self) -> (r: &Vec<(u32, SearchError)>)
        ensures
            r@ == self@.failures,
    {
        &self.failures
    }

    /// Ends the search, giving the pages fetched successfully.
    pub fn into_pages(self) -> (r: Vec<SearchResponse>)
        ensures
            r@ == self@.pages,
    {
        self.pages
    }
}

} // verus!
