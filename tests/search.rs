use fofa_search::cli::{
    command_of, encode_query, output_line, output_lines, parse_command, total_results, Command,
};
use fofa_search::response::{
    classify, contains_marker, outcome, ErrorResponse, Reply, SearchError, SearchResponse, Verdict,
    RATE_LIMIT_BACKOFF_SECS,
};
use fofa_search::schedule::{total_pages, PageScheduler};
use fofa_search::searcher::{decimal_string, FofaSearcher};

fn entry(host: &str) -> [String; 3] {
    [host.to_string(), "title".to_string(), "80".to_string()]
}

fn page(size: u32, number: u32, hosts: &[&str]) -> SearchResponse {
    SearchResponse {
        error: false,
        consumed_fpoint: 0,
        required_fpoints: 0,
        tip: String::new(),
        size,
        page: number,
        mode: "extended".to_string(),
        query: "q".to_string(),
        results: hosts.iter().map(|h| entry(h)).collect(),
    }
}

#[test]
fn page_count_boundaries() {
    assert_eq!(total_pages(0), 0);
    assert_eq!(total_pages(1), 1);
    assert_eq!(total_pages(100), 1);
    assert_eq!(total_pages(101), 2);
    assert_eq!(total_pages(250), 3);
    assert_eq!(total_pages(u32::MAX), 42949673);
}

#[test]
fn classify_by_status_and_marker() {
    let envelope = "{\"error\":true,\"errmsg\":\"no points\"}";
    assert_eq!(classify(429, "{}"), Verdict::Backoff);
    assert_eq!(classify(429, envelope), Verdict::Backoff);
    assert_eq!(classify(400, "{}"), Verdict::Reject);
    assert_eq!(classify(404, envelope), Verdict::Reject);
    assert_eq!(classify(200, envelope), Verdict::DecodeError);
    assert_eq!(classify(200, "{\"error\":false,\"size\":3}"), Verdict::DecodePage);
    assert_eq!(classify(500, "errmsg"), Verdict::DecodeError);
}

#[test]
fn marker_search() {
    assert!(contains_marker("errmsg"));
    assert!(contains_marker("xx\"errmsg\":1"));
    assert!(!contains_marker(""));
    assert!(!contains_marker("errms"));
    assert!(!contains_marker("err msg"));
    assert!(contains_marker("é errmsg é"));
}

#[test]
fn outcome_of_each_reply() {
    match outcome(Reply::Throttled) {
        Err(SearchError::LimitExceeded(m)) => assert_eq!(m, "Rate limit exceeded"),
        other => panic!("unexpected {:?}", other),
    }
    assert_eq!(RATE_LIMIT_BACKOFF_SECS, 5);
    assert!(matches!(outcome(Reply::Rejected), Err(SearchError::InvalidQuery)));
    let env = ErrorResponse { error: true, errmsg: "F点余额不足".to_string() };
    match outcome(Reply::ErrorBody(Ok(env))) {
        Err(SearchError::LimitExceeded(m)) => assert_eq!(m, "F点余额不足"),
        other => panic!("unexpected {:?}", other),
    }
    match outcome(Reply::ErrorBody(Err("missing field".to_string()))) {
        Err(SearchError::JsonError(m)) => assert_eq!(m, "missing field"),
        other => panic!("unexpected {:?}", other),
    }
    match outcome(Reply::PageBody(Err("bad".to_string()))) {
        Err(SearchError::JsonError(m)) => assert_eq!(m, "bad"),
        other => panic!("unexpected {:?}", other),
    }
    match outcome(Reply::PageBody(Ok(page(7, 1, &["a"])))) {
        Ok(p) => {
            assert_eq!(p.size, 7);
            assert_eq!(p.results.len(), 1);
        }
        other => panic!("unexpected {:?}", other),
    }
}

#[test]
fn end_to_end_three_pages() {
    let searcher = FofaSearcher::new("KEY", 5);
    let first = page(250, 1, &["h1", "h2"]);
    let mut s = match searcher.after_discovery(Ok(first)) {
        Ok(s) => s,
        Err(e) => panic!("unexpected {:?}", e),
    };
    assert_eq!(s.total_pages(), 3);
    assert_eq!(s.next_request(), Some(2));
    assert_eq!(s.next_request(), Some(3));
    assert_eq!(s.next_request(), None);
    assert_eq!(s.in_flight(), 2);
    assert!(!s.is_finished());
    assert!(s.complete(3, Ok(page(250, 3, &["h5"]))));
    assert!(s.complete(2, Ok(page(250, 2, &["h3", "h4"]))));
    assert!(s.is_finished());
    let pages = s.into_pages();
    assert_eq!(pages.len(), 3);
    let lines = output_lines(&pages);
    assert_eq!(lines.len(), 5);
    for h in ["h1", "h2", "h3", "h4", "h5"] {
        assert!(lines.contains(&format!("http://{}", h)));
    }
}

#[test]
fn in_flight_never_exceeds_limit() {
    let mut s = PageScheduler::new(page(1000, 1, &[]), 2);
    assert_eq!(s.total_pages(), 10);
    assert_eq!(s.next_request(), Some(2));
    assert_eq!(s.next_request(), Some(3));
    assert_eq!(s.next_request(), None);
    assert_eq!(s.in_flight(), 2);
    assert!(s.complete(2, Ok(page(1000, 2, &[]))));
    assert_eq!(s.next_request(), Some(4));
    assert_eq!(s.next_request(), None);
    let mut flying: Vec<u32> = vec![3, 4];
    let mut most: usize = 0;
    while !s.is_finished() {
        while let Some(p) = s.next_request() {
            flying.push(p);
        }
        assert!(s.in_flight() <= 2);
        most = most.max(s.in_flight());
        let p = flying.remove(0);
        assert!(s.complete(p, Ok(page(1000, p, &[]))));
    }
    assert_eq!(most, 2);
    assert_eq!(s.into_pages().len(), 10);
}

#[test]
fn limit_of_one_serialises_requests() {
    let mut s = PageScheduler::new(page(300, 1, &[]), 1);
    assert_eq!(s.next_request(), Some(2));
    assert_eq!(s.next_request(), None);
    assert!(s.complete(2, Ok(page(300, 2, &[]))));
    assert_eq!(s.next_request(), Some(3));
    assert_eq!(s.next_request(), None);
}

#[test]
fn single_page_fetches_nothing_more() {
    for size in [0u32, 1, 100] {
        let mut s = PageScheduler::new(page(size, 1, &["only"]), 5);
        assert_eq!(s.next_request(), None);
        assert!(s.is_finished());
        assert_eq!(s.into_pages().len(), 1);
    }
}

#[test]
fn throttled_page_is_omitted() {
    let mut s = PageScheduler::new(page(300, 1, &["a"]), 5);
    assert_eq!(s.next_request(), Some(2));
    assert_eq!(s.next_request(), Some(3));
    assert!(s.complete(2, outcome(Reply::Throttled)));
    assert!(s.complete(3, Ok(page(300, 3, &["c"]))));
    assert!(s.is_finished());
    assert_eq!(s.failures().len(), 1);
    assert_eq!(s.failures()[0].0, 2);
    assert!(matches!(s.failures()[0].1, SearchError::LimitExceeded(_)));
    let pages = s.into_pages();
    assert_eq!(pages.len(), 2);
    assert_eq!(pages[1].page, 3);
}

#[test]
fn completing_unknown_page_changes_nothing() {
    let mut s = PageScheduler::new(page(300, 1, &[]), 5);
    assert!(!s.complete(2, Ok(page(300, 2, &[]))));
    assert_eq!(s.next_request(), Some(2));
    assert!(!s.complete(7, Err(SearchError::RequestError("x".to_string()))));
    assert!(s.complete(2, Err(SearchError::RequestError("timeout".to_string()))));
    assert!(!s.complete(2, Ok(page(300, 2, &[]))));
    assert_eq!(s.failures().len(), 1);
}

#[test]
fn rejected_discovery_is_fatal() {
    let searcher = FofaSearcher::new("KEY", 5);
    assert_eq!(classify(400, ""), Verdict::Reject);
    assert!(matches!(
        searcher.after_discovery(outcome(Reply::Rejected)),
        Err(SearchError::InvalidQuery)
    ));
    let mut flagged = page(250, 1, &[]);
    flagged.error = true;
    assert!(matches!(searcher.after_discovery(Ok(flagged)), Err(SearchError::InvalidQuery)));
    assert!(matches!(
        searcher.after_discovery(Err(SearchError::SemaphoreError)),
        Err(SearchError::SemaphoreError)
    ));
    match searcher.after_discovery(Err(SearchError::RequestError("refused".to_string()))) {
        Err(SearchError::RequestError(m)) => assert_eq!(m, "refused"),
        _ => panic!("expected the transport error"),
    }
}

#[test]
fn repeated_search_starts_fresh() {
    let searcher = FofaSearcher::new("KEY", 3);
    let mut a = match searcher.after_discovery(Ok(page(300, 1, &["x"]))) {
        Ok(s) => s,
        Err(_) => panic!("expected a scheduler"),
    };
    assert_eq!(a.next_request(), Some(2));
    assert!(a.complete(2, Err(SearchError::InvalidQuery)));
    let mut b = match searcher.after_discovery(Ok(page(300, 1, &["x"]))) {
        Ok(s) => s,
        Err(_) => panic!("expected a scheduler"),
    };
    assert_eq!(b.failures().len(), 0);
    assert_eq!(b.in_flight(), 0);
    assert_eq!(b.next_request(), Some(2));
    assert_eq!(searcher.discovery_uri("cQ=="), searcher.discovery_uri("cQ=="));
}

#[test]
fn request_addresses() {
    let searcher = FofaSearcher::new("abc123", 5);
    assert_eq!(searcher.apikey, "abc123");
    assert_eq!(searcher.threads, 5);
    assert_eq!(
        searcher.discovery_uri("ZG9tYWluPSJhIg=="),
        "https://en.fofa.info/api/v1/search/all?&key=abc123&qbase64=ZG9tYWluPSJhIg=="
    );
    assert_eq!(
        searcher.page_uri("cQ==", 12),
        "https://en.fofa.info/api/v1/search/all?&key=abc123&qbase64=cQ==&page=12"
    );
    assert_eq!(decimal_string(0), "0");
    assert_eq!(decimal_string(7), "7");
    assert_eq!(decimal_string(100), "100");
    assert_eq!(decimal_string(u32::MAX), "4294967295");
}

#[test]
fn commands() {
    assert!(matches!(parse_command("exit\n"), Command::Exit));
    assert!(matches!(parse_command("  help  "), Command::Help));
    match parse_command(" domain=\"example.com\" \n") {
        Command::Search(q) => assert_eq!(q, "domain=\"example.com\""),
        other => panic!("unexpected {:?}", other),
    }
    assert!(matches!(command_of("exit"), Command::Exit));
    assert!(matches!(command_of("exits"), Command::Search(_)));
    match parse_command("\n") {
        Command::Search(q) => assert_eq!(q, ""),
        other => panic!("unexpected {:?}", other),
    }
}

#[test]
fn query_encoding() {
    assert_eq!(encode_query("hello"), "aGVsbG8=");
    assert_eq!(encode_query(""), "");
    assert_eq!(encode_query("domain=\"example.com\""), "ZG9tYWluPSJleGFtcGxlLmNvbSI=");
}

#[test]
fn output_line_prefix() {
    assert_eq!(output_line("1.2.3.4:80"), "http://1.2.3.4:80");
    assert_eq!(output_line("https://a.com"), "https://a.com");
    assert_eq!(output_line("http://b.com:8080"), "http://b.com:8080");
    assert_eq!(output_line(""), "http://");
}

#[test]
fn result_totals() {
    let pages = vec![page(250, 1, &["a"]), page(250, 2, &["https://b"]), page(4, 3, &[])];
    assert_eq!(total_results(&pages), 504);
    assert_eq!(output_lines(&pages), vec!["http://a".to_string(), "https://b".to_string()]);
    let big = vec![page(u32::MAX, 1, &[]), page(u32::MAX, 2, &[])];
    assert_eq!(total_results(&big), 2 * u32::MAX as u64);
}

#[test]
fn zero_limit_fetches_nothing() {
    let mut s = PageScheduler::new(page(500, 1, &[]), 0);
    assert_eq!(s.next_request(), None);
    assert_eq!(s.in_flight(), 0);
}
