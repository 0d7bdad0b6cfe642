use std::sync::mpsc;

use cratuity::app::App;
use cratuity::app::AppAction;
use cratuity::app::AppMode;
use cratuity::app::SortingField;
use cratuity::crates_io::CrateSearch;
use cratuity::crates_io::CrateSearchLinks;
use cratuity::crates_io::CrateSearchResponse;
use cratuity::crates_io::CrateSearchResponseMeta;
use cratuity::crates_io::CratesSort;
use cratuity::input::InputEvent;
use cratuity::input::InputMonitor;
use cratuity::toast::ToastState;
use cratuity::toast::ToastType;
use cratuity::widgets::InputWidget;
use cratuity::widgets::SortingWidget;
use cratuity::worker::AppEvent;
use cratuity::worker::SearchWorker;
use cratuity::worker::TransportError;

fn rec(i: u32, documentation: Option<String>) -> CrateSearch {
    CrateSearch {
        id: format!("crate{:03}", i),
        name: format!("crate{:03}", i),
        updated_at: 1_600_000_000,
        created_at: 1_500_000_000,
        downloads: 1000,
        recent_downloads: 10,
        max_version: "1.0.0".to_string(),
        newest_version: format!("1.0.{}", i),
        description: None,
        documentation,
        repository: None,
        links: CrateSearchLinks {
            version_downloads: String::new(),
            versions: String::new(),
            owners: String::new(),
            owner_team: String::new(),
            owner_user: String::new(),
            reverse_dependencies: String::new(),
        },
        exact_match: false,
    }
}

/// Stands in for the remote service: serves the requested remote window of
/// a result set with `total` records, then finishes the search flow.
fn run_search(app: &mut App, total: u32) {
    if !app.current_page_cached() {
        let req = app.fetch_request();
        let start = (req.page - 1) * req.count;
        let n = req.count.min(total.saturating_sub(start));
        let response = CrateSearchResponse {
            meta: CrateSearchResponseMeta { total, next_page: None, prev_page: None },
            crates: (start..start + n)
                .map(|i| rec(i, Some(format!("https://docs.rs/crate{:03}", i))))
                .collect(),
        };
        app.ingest_results(&req, response);
    }
    app.finish_search();
}

fn type_and_search(app: &mut App, term: &str, total: u32) {
    for c in term.chars() {
        assert_eq!(app.handle_event(InputEvent::Char(c)), AppAction::Nothing);
    }
    assert_eq!(app.handle_event(InputEvent::Enter), AppAction::Search);
    run_search(app, total);
}

#[test]
fn new_defaults() {
    let app = App::new();
    assert_eq!(app.page(), 1);
    assert_eq!(app.items_per_page(), 5);
    assert_eq!(app.selection(), None);
    assert!(!app.quit);
    assert_eq!(app.sort(), CratesSort::Relevance);
    match app.mode() {
        AppMode::Input(s) => assert_eq!(s, ""),
        _ => panic!("a fresh app starts in the term entry box"),
    }
}

#[test]
fn typing_edits_the_term() {
    let mut app = App::new();
    app.handle_event(InputEvent::Char('r'));
    app.handle_event(InputEvent::Char('s'));
    app.handle_event(InputEvent::Backspace);
    match app.mode() {
        AppMode::Input(s) => assert_eq!(s, "r"),
        _ => panic!("typing stays in the entry box"),
    }
    assert_eq!(app.handle_event(InputEvent::Enter), AppAction::Search);
    assert!(matches!(app.mode(), AppMode::Normal));
    assert_eq!(app.page(), 1);
    assert_eq!(app.fetch_request().term, "r");
}

#[test]
fn quit_key() {
    let mut app = App::new();
    assert_eq!(app.handle_event(InputEvent::Esc), AppAction::Nothing);
    assert!(matches!(app.mode(), AppMode::Normal));
    assert!(!app.quit);
    app.handle_event(InputEvent::Char('q'));
    assert!(app.quit);
}

#[test]
fn search_flow_selects_first_record() {
    let mut app = App::new();
    type_and_search(&mut app, "serde", 23);
    assert_eq!(app.selection(), Some(0));
    let (total, window) = app.get_cached_crates().unwrap();
    assert_eq!(total, 23);
    assert_eq!(window.len(), 5);
    assert_eq!(window[0].name, "crate000");
}

#[test]
fn paging_forward_and_back() {
    let mut app = App::new();
    type_and_search(&mut app, "serde", 23);
    assert_eq!(app.handle_event(InputEvent::Char('n')), AppAction::Search);
    run_search(&mut app, 23);
    assert_eq!(app.page(), 2);
    assert_eq!(app.selection(), Some(0));
    assert_eq!(app.handle_event(InputEvent::Char('p')), AppAction::Search);
    run_search(&mut app, 23);
    assert_eq!(app.page(), 1);
    // the first page cannot go further back
    assert_eq!(app.handle_event(InputEvent::Char('p')), AppAction::Nothing);
    assert_eq!(app.page(), 1);
    // 23 records at 5 a page make 5 pages; the last page cannot advance
    for _ in 0..4 {
        assert_eq!(app.handle_event(InputEvent::Char('n')), AppAction::Search);
        run_search(&mut app, 23);
    }
    assert_eq!(app.page(), 5);
    assert_eq!(app.get_cached_crates().unwrap().1.len(), 3);
    assert_eq!(app.handle_event(InputEvent::Char('n')), AppAction::Nothing);
    assert_eq!(app.page(), 5);
}

#[test]
fn end_and_home_jumps() {
    let mut app = App::new();
    type_and_search(&mut app, "serde", 23);
    assert_eq!(app.handle_event(InputEvent::End), AppAction::SearchThenSelectEnd);
    run_search(&mut app, 23);
    app.select_last();
    assert_eq!(app.page(), 5);
    assert_eq!(app.selection(), Some(2));
    // End on the last page only re-selects the last record
    assert_eq!(app.handle_event(InputEvent::End), AppAction::Nothing);
    assert_eq!(app.selection(), Some(2));
    assert_eq!(app.handle_event(InputEvent::Home), AppAction::Search);
    run_search(&mut app, 23);
    assert_eq!(app.page(), 1);
    assert_eq!(app.selection(), Some(0));
    // Home on the first page does not search again
    assert_eq!(app.handle_event(InputEvent::Home), AppAction::Nothing);
}

#[test]
fn item_stepping_crosses_pages() {
    let mut app = App::new();
    type_and_search(&mut app, "serde", 23);
    for expected in 1..=4usize {
        assert_eq!(app.handle_event(InputEvent::Char('j')), AppAction::Nothing);
        assert_eq!(app.selection(), Some(expected));
    }
    // stepping past the page's end pages forward
    assert_eq!(app.handle_event(InputEvent::Char('j')), AppAction::Search);
    run_search(&mut app, 23);
    assert_eq!(app.page(), 2);
    assert_eq!(app.selection(), Some(0));
    // stepping back from the top returns to the previous page's last record
    assert_eq!(
        app.handle_event(InputEvent::Char('k')),
        AppAction::SearchThenSelectLast
    );
    run_search(&mut app, 23);
    app.select_last_saturating();
    assert_eq!(app.page(), 1);
    assert_eq!(app.selection(), Some(4));
    assert_eq!(app.handle_event(InputEvent::Char('k')), AppAction::Nothing);
    assert_eq!(app.selection(), Some(3));
}

#[test]
fn sorting_overlay_picks_a_sort() {
    let mut app = App::new();
    app.handle_event(InputEvent::Esc);
    assert_eq!(app.handle_event(InputEvent::Char('s')), AppAction::Nothing);
    match app.mode() {
        AppMode::Sorting(f) => {
            assert_eq!(f.selection, 0);
            assert_eq!(f.strs[3], "Recently Updated");
        },
        _ => panic!("the sort picker should be up"),
    }
    app.handle_event(InputEvent::Char('j'));
    app.handle_event(InputEvent::Char('j'));
    match app.mode() {
        AppMode::Sorting(f) => assert_eq!(f.selection, 2),
        _ => panic!("the sort picker should still be up"),
    }
    assert_eq!(app.handle_event(InputEvent::Enter), AppAction::Search);
    assert_eq!(app.sort(), CratesSort::RecentDownload);
    assert_eq!(app.page(), 1);
    assert!(matches!(app.mode(), AppMode::Normal));
    // the highlight saturates at the ends
    app.handle_event(InputEvent::Char('s'));
    for _ in 0..7 {
        app.handle_event(InputEvent::Char('n'));
    }
    match app.mode() {
        AppMode::Sorting(f) => assert_eq!(f.selection, 4),
        _ => panic!(),
    }
    for _ in 0..7 {
        app.handle_event(InputEvent::Char('p'));
    }
    match app.mode() {
        AppMode::Sorting(f) => assert_eq!(f.selection, 0),
        _ => panic!(),
    }
    assert_eq!(app.handle_event(InputEvent::Esc), AppAction::Nothing);
    assert_eq!(app.sort(), CratesSort::RecentDownload);
}

#[test]
fn selection_actions_read_the_record() {
    let mut app = App::new();
    type_and_search(&mut app, "serde", 7);
    assert_eq!(app.selection_toml(), Some("crate000 = \"1.0.0\"".to_string()));
    assert_eq!(
        app.selection_documentation(),
        Ok(Some("https://docs.rs/crate000".to_string()))
    );
    assert_eq!(app.handle_event(InputEvent::Char('o')), AppAction::OpenSelection);
    assert_eq!(app.handle_event(InputEvent::Char('c')), AppAction::CopySelection);
}

#[test]
fn selection_without_documentation_is_an_error() {
    let mut app = App::new();
    for c in "x".chars() {
        app.handle_event(InputEvent::Char(c));
    }
    app.handle_event(InputEvent::Enter);
    let req = app.fetch_request();
    let response = CrateSearchResponse {
        meta: CrateSearchResponseMeta { total: 1, next_page: None, prev_page: None },
        crates: vec![rec(0, None)],
    };
    app.ingest_results(&req, response);
    app.finish_search();
    assert_eq!(app.selection(), Some(0));
    assert_eq!(
        app.selection_documentation(),
        Err("No documentation link for is given for this crate!".to_string())
    );
}

#[test]
fn failed_fetch_leaves_no_selection() {
    let mut app = App::new();
    for c in "serde".chars() {
        app.handle_event(InputEvent::Char(c));
    }
    app.handle_event(InputEvent::Enter);
    // the transport failed: nothing was ingested
    app.finish_search();
    assert_eq!(app.selection(), None);
    assert!(app.get_cached_crates().is_none());
    assert_eq!(app.selection_toml(), None);
    assert_eq!(app.selection_documentation(), Ok(None));
}

#[test]
fn worker_runs_one_request_at_a_time() {
    let mut w = SearchWorker::new();
    let req = cratuity::worker::FetchRequest {
        term: "serde".to_string(),
        page: 1,
        count: 50,
        sort: CratesSort::Relevance,
    };
    assert!(w.try_submit(req));
    // the slot has depth one: a second submission must wait
    let req2 = cratuity::worker::FetchRequest {
        term: "tokio".to_string(),
        page: 1,
        count: 50,
        sort: CratesSort::Relevance,
    };
    assert!(!w.try_submit(req2));
    assert!(w.begin_next());
    assert_eq!(w.current().unwrap().term, "serde");
    let response = CrateSearchResponse {
        meta: CrateSearchResponseMeta { total: 2, next_page: None, prev_page: None },
        crates: vec![],
    };
    match w.finish(Ok(response)) {
        Some(AppEvent::Results(done, resp)) => {
            assert_eq!(done.term, "serde");
            assert_eq!(resp.meta.total, 2);
        },
        _ => panic!("a success must be published"),
    }
    // an idle worker with an empty slot has nothing to take up
    assert!(!w.begin_next());
}

#[test]
fn worker_swallows_failures() {
    let mut w = SearchWorker::new();
    let req = cratuity::worker::FetchRequest {
        term: "serde".to_string(),
        page: 1,
        count: 50,
        sort: CratesSort::Relevance,
    };
    assert!(w.try_submit(req));
    assert!(w.begin_next());
    assert!(w.finish(Err(TransportError::Connection)).is_none());
    // after a failure the worker is idle again and accepts a retry
    let retry = cratuity::worker::FetchRequest {
        term: "serde".to_string(),
        page: 1,
        count: 50,
        sort: CratesSort::Relevance,
    };
    assert!(w.try_submit(retry));
}

#[test]
fn toast_timing() {
    let mut t = ToastState::err(Some("Clipboard Error".to_string()), "boom".to_string());
    assert!(!t.is_started());
    assert!(!t.is_duration_passed(10_000));
    t.start(1000);
    assert!(t.is_started());
    assert!(!t.is_duration_passed(3500));
    assert!(t.is_duration_passed(3501));
    assert_eq!(t.msg(), "boom");
    assert_eq!(t.title().as_deref(), Some("Clipboard Error"));
    assert_eq!(t.typ(), ToastType::Error);
    let info = ToastState::new(None, "hello".to_string(), 100, ToastType::Info);
    assert_eq!(info.typ(), ToastType::Info);
    assert!(!info.is_started());
}

#[test]
fn input_monitor_feeds_the_channel() {
    let (tx, rx) = mpsc::channel();
    let monitor = InputMonitor::new(tx);
    assert!(monitor.send(InputEvent::Char('q')));
    assert!(monitor.send(InputEvent::PageDown));
    assert!(matches!(rx.recv().unwrap(), InputEvent::Char('q')));
    assert!(matches!(rx.recv().unwrap(), InputEvent::PageDown));
}

#[test]
fn widget_constructors_keep_their_fields() {
    let w = InputWidget::new("Enter your search term", "serde");
    assert_eq!(w.title, "Enter your search term");
    assert_eq!(w.inpt, "serde");
    let field = SortingField::from_sort(&CratesSort::RecentUpdate);
    assert_eq!(field.selection, 3);
    assert_eq!(field.items[3], CratesSort::RecentUpdate);
    assert_eq!(field.strs[0], "Relevance");
    let s = SortingWidget::new(&field, "Select your sorting method");
    assert_eq!(s.title, "Select your sorting method");
    assert_eq!(s.state.selection, 3);
}
