use vstd::prelude::*;
use vstd::string::StringExecFns;
use crate::response::{SearchError, SearchResponse};
use crate::schedule::{PageScheduler, start_view};

verus! {

/// The decimal digits, in order.
pub open spec fn digit_chars() -> Seq<char> {
    seq!['0', '1', '2', '3', '4', '5', '6', '7', '8', '9']
}

/// The decimal spelling of `n`, without leading zeros.
pub open spec fn decimal(n: nat) -> Seq<char>
    decreases n,
{
    if n < 10 {
        seq![digit_chars()[n as int]]
    } else {
        decimal(n / 10) + seq![digit_chars()[(n % 10) as int]]
    }
}

/// The start of every request address, up to the API key.
pub open spec fn endpoint_prefix() -> Seq<char> {
    "https://en.fofa.info/api/v1/search/all?&key="@
}

/// The address of the discovery request: the first page of `query` under `key`.
pub open spec fn discovery_uri_of(key: Seq<char>, query: Seq<char>) -> Seq<char> {
    endpoint_prefix() + key + "&qbase64="@ + query
}

/// The address of page `page` of `query` under `key`.
pub open spec fn page_uri_of(key: Seq<char>, query: Seq<char>, page: nat) -> Seq<char> {
    discovery_uri_of(key, query) + "&page="@ + decimal(page)
}

/// The decimal spelling of `n`.
pub fn decimal_string(n: u32) -> (r: String)
    ensures
        r@ == decimal(n as nat),
    decreases n,
{
    let digits = "0123456789";
    proof {
        reveal_strlit("0123456789");
        assert(digits@ =~= digit_chars());
    }
    let d = (n % 10) as usize;
    let last = String::from_str(digits.substring_char(d, d + 1));
    proof {
        assert(last@ =~= seq![digit_chars()[(n % 10) as int]]);
    }
    if n < 10 {
        last
    } else {
        let head = decimal_string(n / 10);
        head.concat(last.as_str())
    }
}

/// A client for the search API: the API key and the number of page requests
/// that may be in flight at once.
pub struct FofaSearcher {
    pub apikey: String,
    pub threads: u8,
}

/// The result of a discovery request as the search goes on from it: a failed
/// request ends the search with its error, a page that reports an error ends
/// it with `InvalidQuery`, and any other page starts the pagination.
pub open spec fn discovery_step_ok(
    first: Result<SearchResponse, SearchError>,
    threads: u8,
    r: Result<PageScheduler, SearchError>,
) -> bool {
    match first {
        Err(e) => r matches Err(x) && x == e,
        Ok(p) => if p.error {
            r matches Err(SearchError::InvalidQuery)
        } else {
            r matches Ok(s) && s.wf() && s@ == start_view(p, threads)
        },
    }
}

impl FofaSearcher {
    /// A client with the given API key and limit on requests in flight.
    pub fn new(apikey: &str, threads: u8) -> (s: FofaSearcher)
        ensures
            s.apikey@ == apikey@,
            s.threads == threads,
    {
        FofaSearcher { apikey: String::from_str(apikey), threads }
    }

    /// The address of the discovery request for an encoded query.
    pub fn discovery_uri(&self, query: &str) -> (r: String)
        ensures
            r@ == discovery_uri_of(self.apikey@, query@),
    {
        let prefix = "https://en.fofa.info/api/v1/search/all?&key=";
        let sep = "&qbase64=";
        let r = String::from_str(prefix).concat(self.apikey.as_str()).concat(sep).concat(query);
        proof {
            assert(r@ =~= discovery_uri_of(self.apikey@, query@));
        }
        r
    }

    /// The address of one page of an encoded query.
    pub fn page_uri(&self, query: &str, page: u32) -> (r: String)
        ensures
            r@ == page_uri_of(self.apikey@, query@, page as nat),
    {
        let digits = decimal_string(page);
        let r = self.discovery_uri(query).concat("&page=").concat(digits.as_str());
        proof {
            assert(r@ =~= page_uri_of(self.apikey@, query@, page as nat));
        }
        r
    }

    /// Goes on from the result of the discovery request: its error ends the
    /// search, a page that reports an error ends it with `InvalidQuery`, and
    /// any other page starts the pagination under this client's limit.
    pub fn after_discovery(&self, first: Result<SearchResponse, SearchError>) -> (r: Result<
        PageScheduler,
        SearchError,
    >)
        ensures
            discovery_step_ok(first, self.threads, r),
    {
        match first {
            Err(e) => Err(e),
            Ok(p) => {
                if p.error {
                    Err(SearchError::InvalidQuery)
                } else {
                    Ok(PageScheduler::new(p, self.threads))
                }
            },
        }
    }
}

} // verus!
