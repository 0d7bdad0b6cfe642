use cratuity::ceil_div;
use cratuity::crates_io::CrateSearch;
use cratuity::crates_io::CrateSearchLinks;
use cratuity::crates_io::CrateSearchResponse;
use cratuity::crates_io::CrateSearchResponseMeta;
use cratuity::crates_io::CrateSearcher;
use cratuity::crates_io::CratesSort;
use cratuity::crates_io::over_fetch_request;

fn rec(i: u32) -> CrateSearch {
    CrateSearch {
        id: format!("crate{:03}", i),
        name: format!("crate{:03}", i),
        updated_at: 1_600_000_000 + i as i64,
        created_at: 1_500_000_000 + i as i64,
        downloads: 1000 + i as u64,
        recent_downloads: 10 + i as u64,
        max_version: "1.0.0".to_string(),
        newest_version: format!("1.0.{}", i),
        description: Some(format!("description {}", i)),
        documentation: Some(format!("https://docs.rs/crate{:03}", i)),
        repository: None,
        links: CrateSearchLinks {
            version_downloads: String::new(),
            versions: String::new(),
            owners: String::new(),
            owner_team: String::new(),
            owner_user: String::new(),
            reverse_dependencies: String::new(),
        },
        exact_match: false,
    }
}

fn resp(total: u32, from: u32, n: u32) -> CrateSearchResponse {
    CrateSearchResponse {
        meta: CrateSearchResponseMeta { total, next_page: None, prev_page: None },
        crates: (from..from + n).map(rec).collect(),
    }
}

fn window_names(c: &CrateSearcher, term: &str, page: u32, ipp: u32, sort: &CratesSort) -> Option<(u32, Vec<String>)> {
    c.search_sorted_cached(term, page, ipp, sort)
        .map(|(t, v)| (t, v.iter().map(|r| r.name.clone()).collect()))
}

#[test]
fn ceil_div_values() {
    assert_eq!(ceil_div(0, 10), 0);
    assert_eq!(ceil_div(1, 10), 1);
    assert_eq!(ceil_div(10, 10), 1);
    assert_eq!(ceil_div(11, 10), 2);
    assert_eq!(ceil_div(95, 10), 10);
    assert_eq!(ceil_div(7, 5), 2);
}

#[test]
fn over_fetch_request_values() {
    assert_eq!(over_fetch_request(1, 5), (1, 50));
    assert_eq!(over_fetch_request(10, 5), (1, 50));
    assert_eq!(over_fetch_request(11, 5), (2, 50));
    assert_eq!(over_fetch_request(21, 3), (3, 30));
}

#[test]
fn sort_tokens() {
    assert_eq!(CratesSort::Relevance.to_sort_string(), "relevance");
    assert_eq!(CratesSort::AllTimeDownload.to_sort_string(), "downloads");
    assert_eq!(CratesSort::RecentDownload.to_sort_string(), "recent-downloads");
    assert_eq!(CratesSort::RecentUpdate.to_sort_string(), "recent-updates");
    assert_eq!(CratesSort::NewlyAdded.to_sort_string(), "new");
}

#[test]
fn sort_from_str_accepts_known_names() {
    assert_eq!(CratesSort::from_str("Relevance"), Ok(CratesSort::Relevance));
    assert_eq!(CratesSort::from_str("all time downloaded"), Ok(CratesSort::Relevance));
    assert_eq!(CratesSort::from_str("RECENT-DOWNLOADED"), Ok(CratesSort::RecentDownload));
    assert_eq!(CratesSort::from_str("recent_update"), Ok(CratesSort::RecentUpdate));
    assert_eq!(CratesSort::from_str("Newly Added"), Ok(CratesSort::NewlyAdded));
    assert_eq!(
        CratesSort::from_str("bogus"),
        Err("Unknown sort method bogus".to_string())
    );
    assert_eq!(CratesSort::default(), CratesSort::Relevance);
}

#[test]
fn sort_display_strings() {
    assert_eq!(CratesSort::Relevance.display_string(), "Relevance");
    assert_eq!(CratesSort::AllTimeDownload.display_string(), "All Time Downloads");
    assert_eq!(CratesSort::RecentDownload.display_string(), "Recent Downloads");
    assert_eq!(CratesSort::RecentUpdate.display_string(), "Recently Updated");
    assert_eq!(CratesSort::NewlyAdded.display_string(), "Newly Added");
}

#[test]
fn toml_line() {
    let r = rec(3);
    assert_eq!(r.get_toml_str(), "crate003 = \"1.0.3\"");
}

#[test]
fn idempotent_ingest() {
    let sort = CratesSort::Relevance;
    let mut c = CrateSearcher::new();
    c.search_and_add_to_cache("serde", 1, 50, &sort, resp(7, 0, 7));
    let first = window_names(&c, "serde", 1, 5, &sort);
    let second_page_first = window_names(&c, "serde", 2, 5, &sort);
    c.search_and_add_to_cache("serde", 1, 50, &sort, resp(7, 0, 7));
    assert_eq!(window_names(&c, "serde", 1, 5, &sort), first);
    assert_eq!(window_names(&c, "serde", 2, 5, &sort), second_page_first);
    assert!(first.is_some());
}

#[test]
fn commutative_ingest() {
    let sort = CratesSort::Relevance;
    // two non-overlapping batches with one total, applied in both orders
    let mut ab = CrateSearcher::new();
    ab.search_and_add_to_cache("tokio", 1, 5, &sort, resp(7, 0, 5));
    ab.search_and_add_to_cache("tokio", 2, 5, &sort, resp(7, 5, 2));
    let mut ba = CrateSearcher::new();
    ba.search_and_add_to_cache("tokio", 2, 5, &sort, resp(7, 5, 2));
    ba.search_and_add_to_cache("tokio", 1, 5, &sort, resp(7, 0, 5));
    for page in 1..=3u32 {
        assert_eq!(
            window_names(&ab, "tokio", page, 5, &sort),
            window_names(&ba, "tokio", page, 5, &sort)
        );
    }
    assert!(window_names(&ab, "tokio", 1, 5, &sort).is_some());
    assert!(window_names(&ab, "tokio", 2, 5, &sort).is_some());
}

#[test]
fn residency_is_all_or_nothing() {
    let sort = CratesSort::Relevance;
    let mut c = CrateSearcher::new();
    // only indices 5..10 are resident
    c.search_and_add_to_cache("rand", 2, 5, &sort, resp(15, 5, 5));
    assert!(c.check_page_cached("rand", 2, 5, &sort));
    assert!(!c.check_page_cached("rand", 1, 5, &sort));
    assert!(!c.check_page_cached("rand", 3, 5, &sort));
    assert_eq!(window_names(&c, "rand", 1, 5, &sort), None);
    let (total, names) = window_names(&c, "rand", 2, 5, &sort).unwrap();
    assert_eq!(total, 15);
    assert_eq!(
        names,
        vec!["crate005", "crate006", "crate007", "crate008", "crate009"]
    );
    let mut sorted = names.clone();
    sorted.sort();
    assert_eq!(names, sorted, "window must come back in ascending index order");
    // an unknown signature misses entirely
    assert_eq!(window_names(&c, "rand", 2, 5, &CratesSort::NewlyAdded), None);
    assert!(!c.has_entry("rand", &CratesSort::NewlyAdded));
    assert!(c.has_entry("rand", &sort));
}

#[test]
fn over_fetch_batch_covers_ten_pages() {
    let sort = CratesSort::Relevance;
    let mut c = CrateSearcher::new();
    let (remote_page, remote_count) = over_fetch_request(1, 5);
    assert_eq!((remote_page, remote_count), (1, 50));
    c.search_and_add_to_cache("serde", remote_page, remote_count, &sort, resp(500, 0, 50));
    for page in 1..=10u32 {
        assert!(c.check_page_cached("serde", page, 5, &sort));
        let (total, names) = window_names(&c, "serde", page, 5, &sort).unwrap();
        assert_eq!(total, 500);
        assert_eq!(names.len(), 5);
    }
    assert!(!c.check_page_cached("serde", 11, 5, &sort));
}

#[test]
fn zero_total_every_page_resident_and_empty() {
    let sort = CratesSort::Relevance;
    let mut c = CrateSearcher::new();
    c.search_and_add_to_cache("nosuchcratename", 1, 50, &sort, resp(0, 0, 0));
    for page in [1u32, 2, 7, 100] {
        assert!(c.check_page_cached("nosuchcratename", page, 5, &sort));
        let (total, names) = window_names(&c, "nosuchcratename", page, 5, &sort).unwrap();
        assert_eq!(total, 0);
        assert!(names.is_empty());
    }
}

#[test]
fn scenario_first_fetch_answers_page_one() {
    // query "serde", page_size 5, page 1: the transport is asked for
    // remote_page 1 with remote_count 50, and the cache then answers the
    // lookup without a second call
    let sort = CratesSort::Relevance;
    let mut c = CrateSearcher::new();
    assert!(!c.check_page_cached("serde", 1, 5, &sort));
    let (remote_page, remote_count) = over_fetch_request(1, 5);
    assert_eq!((remote_page, remote_count), (1, 50));
    c.search_and_add_to_cache("serde", remote_page, remote_count, &sort, resp(321, 0, 50));
    let (total, names) = window_names(&c, "serde", 1, 5, &sort).unwrap();
    assert_eq!(total, 321);
    assert_eq!(names.len(), 5);
    assert!(c.check_page_cached("serde", 1, 5, &sort));
}

#[test]
fn scenario_page_eleven_needs_second_batch() {
    // pages 2 through 10 are free after the first batch; page 11 costs
    // exactly one more call, at remote_page 2
    let sort = CratesSort::Relevance;
    let mut c = CrateSearcher::new();
    c.search_and_add_to_cache("serde", 1, 50, &sort, resp(500, 0, 50));
    for page in 2..=10u32 {
        assert!(c.check_page_cached("serde", page, 5, &sort));
    }
    assert!(!c.check_page_cached("serde", 11, 5, &sort));
    let (remote_page, remote_count) = over_fetch_request(11, 5);
    assert_eq!((remote_page, remote_count), (2, 50));
    c.search_and_add_to_cache("serde", remote_page, remote_count, &sort, resp(500, 50, 50));
    for page in 11..=20u32 {
        assert!(c.check_page_cached("serde", page, 5, &sort));
    }
}

#[test]
fn scenario_partial_final_page() {
    // total 7 at page_size 5: page 2's clamped range is [5, 7), so the
    // lookup returns exactly 2 records, not 5
    let sort = CratesSort::Relevance;
    let mut c = CrateSearcher::new();
    c.search_and_add_to_cache("serde", 1, 50, &sort, resp(7, 0, 7));
    let (total, names) = window_names(&c, "serde", 2, 5, &sort).unwrap();
    assert_eq!(total, 7);
    assert_eq!(names, vec!["crate005", "crate006"]);
    // and beyond the data every window is resident and empty
    let (_, names) = window_names(&c, "serde", 3, 5, &sort).unwrap();
    assert!(names.is_empty());
}

#[test]
fn page_size_change_keeps_indices() {
    // absolute indices are page-size-independent: data fetched under one
    // page size serves windows of another, at worst costing an extra fetch
    let sort = CratesSort::Relevance;
    let mut c = CrateSearcher::new();
    c.search_and_add_to_cache("serde", 1, 5, &sort, resp(10, 0, 5));
    c.search_and_add_to_cache("serde", 2, 5, &sort, resp(10, 5, 2));
    let (total, names) = window_names(&c, "serde", 2, 3, &sort).unwrap();
    assert_eq!(total, 10);
    assert_eq!(names, vec!["crate003", "crate004", "crate005"]);
    let (_, names) = window_names(&c, "serde", 1, 7, &sort).unwrap();
    assert_eq!(names.len(), 7);
    // a window reaching indices never fetched is a miss, not corrupted data
    assert!(!c.check_page_cached("serde", 2, 7, &sort));
    assert_eq!(window_names(&c, "serde", 2, 7, &sort), None);
}

#[test]
fn reingest_overwrites_records_and_total() {
    let sort = CratesSort::Relevance;
    let mut c = CrateSearcher::new();
    c.search_and_add_to_cache("log", 1, 50, &sort, resp(10, 0, 10));
    // the result set shrank on the remote side; the new total replaces the
    // old one and stale indices beyond it are never served
    let mut shrunk = resp(3, 100, 3);
    shrunk.crates[0].name = "replacement000".to_string();
    c.search_and_add_to_cache("log", 1, 50, &sort, shrunk);
    let (total, names) = window_names(&c, "log", 1, 5, &sort).unwrap();
    assert_eq!(total, 3);
    assert_eq!(names, vec!["replacement000", "crate101", "crate102"]);
}
