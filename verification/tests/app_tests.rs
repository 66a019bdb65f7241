use issue_dash::app::{App, Area, Effect, Key, KeyPress, MouseInput, MouseKind, ScreenAreas};
use issue_dash::issue::{AppRequest, AppResponse, Author, Issue};

fn issue(number: u32, state: &str) -> Issue {
    Issue {
        number,
        title: format!("issue {}", number),
        state: state.to_string(),
        author: Author { login: "octocat".to_string() },
        labels: Vec::new(),
        updated_at: "2024-05-01T10:00:00Z".to_string(),
        body: String::new(),
    }
}

fn loaded(numbers: &[u32]) -> App {
    let mut app = App::new("owner/repo".to_string());
    app.apply_response(AppResponse::FetchSuccess(
        numbers.iter().map(|n| issue(*n, "OPEN")).collect(),
    ));
    app
}

fn key(c: char) -> KeyPress {
    KeyPress { key: Key::Char(c), ctrl: false, alt: false }
}

fn plain(k: Key) -> KeyPress {
    KeyPress { key: k, ctrl: false, alt: false }
}

/// Scrolls the details down by ten lines `times` times.
fn scroll_down(app: &mut App, times: usize) {
    for _ in 0..times {
        app.handle_key(plain(Key::PageDown));
    }
}

fn areas() -> ScreenAreas {
    ScreenAreas {
        search: Area { x: 0, y: 1, width: 80, height: 3 },
        issues: Area { x: 0, y: 4, width: 32, height: 20 },
        details: Area { x: 32, y: 4, width: 48, height: 20 },
    }
}

#[test]
fn new_dashboard_is_empty() {
    let app = App::new("o/r".to_string());
    assert!(app.issues().is_empty());
    assert_eq!(app.selected(), None);
    assert_eq!(app.status_log(), "Press '/' or click search to search. 'c' to close issues.");
    assert!(!app.is_loading());
    assert_eq!(app.repo(), "o/r");
    assert_eq!(app.search_query(), "");
    assert!(!app.search_focused());
    assert_eq!(app.details_scroll(), 0);
}

#[test]
fn loading_selects_the_first_issue() {
    let app = loaded(&[10, 11, 12]);
    assert_eq!(app.selected(), Some(0));
    assert_eq!(app.status_log(), "Loaded 3 issues successfully.");
}

#[test]
fn reloading_keeps_selection_in_range() {
    let mut app = loaded(&[1, 2, 3]);
    app.select_prev();
    assert_eq!(app.selected(), Some(2));
    app.apply_response(AppResponse::FetchSuccess(vec![issue(1, "OPEN")]));
    assert_eq!(app.selected(), Some(0));
    app.apply_response(AppResponse::FetchSuccess(Vec::new()));
    assert_eq!(app.selected(), None);
    assert_eq!(app.status_log(), "Loaded 0 issues successfully.");
}

#[test]
fn selection_wraps_around() {
    let mut app = loaded(&[1, 2, 3]);
    app.select_prev();
    assert_eq!(app.selected(), Some(2));
    app.select_next();
    assert_eq!(app.selected(), Some(0));
    app.handle_key(plain(Key::PageDown));
    assert_eq!(app.details_scroll(), 10);
    app.select_next();
    assert_eq!(app.selected(), Some(1));
    assert_eq!(app.details_scroll(), 0);
}

#[test]
fn up_undoes_down() {
    let mut app = loaded(&[1, 2, 3, 4]);
    for start in 0..4 {
        assert_eq!(app.selected(), Some(start));
        app.select_next();
        app.select_prev();
        assert_eq!(app.selected(), Some(start));
        app.select_next();
    }
}

#[test]
fn selection_on_empty_list_does_nothing() {
    let mut app = App::new("o/r".to_string());
    app.select_next();
    app.select_prev();
    assert_eq!(app.selected(), None);
}

#[test]
fn fetch_request_carries_repo_and_query() {
    let mut app = loaded(&[1]);
    for c in "/bug".chars() {
        app.handle_key(key(c));
    }
    match app.trigger_fetch() {
        AppRequest::Fetch { repo, query } => {
            assert_eq!(repo, "owner/repo");
            assert_eq!(query, "bug");
        }
        other => panic!("unexpected {:?}", other),
    }
    assert!(app.is_loading());
    assert!(app.search_focused());
    assert_eq!(app.status_log(), "Loading issues for owner/repo...");
}

#[test]
fn close_is_not_requested_twice() {
    let mut app = loaded(&[5, 6]);
    app.select_next();
    match app.trigger_close() {
        Some(AppRequest::Close { repo, number }) => {
            assert_eq!(repo, "owner/repo");
            assert_eq!(number, 6);
        }
        other => panic!("unexpected {:?}", other),
    }
    assert_eq!(app.status_log(), "Closing issue #6...");
    assert!(app.trigger_close().is_none());
    assert!(app.is_closing(6));
    assert!(!app.is_closing(5));
}

#[test]
fn successful_close_marks_the_issue() {
    let mut app = loaded(&[5, 6]);
    app.trigger_close();
    app.apply_response(AppResponse::CloseSuccess(5));
    assert_eq!(app.issues()[0].state, "CLOSED");
    assert_eq!(app.issues()[1].state, "OPEN");
    assert!(!app.is_closing(5));
    assert_eq!(app.status_log(), "Issue #5 closed successfully.");
}

#[test]
fn failed_close_is_reported() {
    let mut app = loaded(&[5]);
    app.trigger_close();
    app.apply_response(AppResponse::CloseError { number: 5, err: "denied".to_string() });
    assert_eq!(app.issues()[0].state, "OPEN");
    assert!(!app.is_closing(5));
    assert_eq!(app.status_log(), "Failed to close #5: denied");
}

#[test]
fn reopen_round_trip() {
    let mut app = App::new("o/r".to_string());
    app.apply_response(AppResponse::FetchSuccess(vec![issue(9, "CLOSED")]));
    match app.trigger_reopen() {
        Some(AppRequest::Reopen { number, .. }) => assert_eq!(number, 9),
        other => panic!("unexpected {:?}", other),
    }
    assert_eq!(app.status_log(), "Reopening issue #9...");
    assert!(app.is_reopening(9));
    app.apply_response(AppResponse::ReopenSuccess(9));
    assert_eq!(app.issues()[0].state, "OPEN");
    assert_eq!(app.status_log(), "Issue #9 reopened successfully.");
    app.trigger_reopen();
    app.apply_response(AppResponse::ReopenError { number: 9, err: "x".to_string() });
    assert_eq!(app.status_log(), "Failed to reopen #9: x");
    assert!(!app.is_reopening(9));
}

#[test]
fn fetch_error_is_reported() {
    let mut app = loaded(&[1]);
    app.trigger_fetch();
    app.apply_response(AppResponse::FetchError("boom".to_string()));
    assert!(!app.is_loading());
    assert_eq!(app.status_log(), "Failed to fetch issues: boom");
    assert_eq!(app.issues().len(), 1);
}

#[test]
fn success_for_unknown_number_changes_no_issue() {
    let mut app = loaded(&[1, 2]);
    app.apply_response(AppResponse::CloseSuccess(3));
    assert!(app.issues().iter().all(|i| i.state == "OPEN"));
}

#[test]
fn typing_a_search() {
    let mut app = loaded(&[1]);
    assert!(matches!(app.handle_key(key('/')), Effect::Continue));
    assert!(app.search_focused());
    for c in "bugx".chars() {
        app.handle_key(key(c));
    }
    app.handle_key(plain(Key::Backspace));
    assert_eq!(app.search_query(), "bug");
    match app.handle_key(plain(Key::Enter)) {
        Effect::Send(AppRequest::Fetch { query, .. }) => assert_eq!(query, "bug"),
        other => panic!("unexpected {:?}", other),
    }
    assert!(!app.search_focused());
}

#[test]
fn escape_clears_the_search() {
    let mut app = loaded(&[1]);
    for c in "/old".chars() {
        app.handle_key(key(c));
    }
    app.handle_key(plain(Key::Enter));
    assert_eq!(app.search_query(), "old");
    match app.handle_key(plain(Key::Esc)) {
        Effect::Send(AppRequest::Fetch { query, .. }) => assert_eq!(query, ""),
        other => panic!("unexpected {:?}", other),
    }
    assert!(matches!(app.handle_key(plain(Key::Esc)), Effect::Continue));
}

#[test]
fn quitting() {
    let mut app = loaded(&[1]);
    assert!(matches!(app.handle_key(key('q')), Effect::Quit));
    let ctrl_c = KeyPress { key: Key::Char('c'), ctrl: true, alt: false };
    assert!(matches!(app.handle_key(ctrl_c), Effect::Quit));
    let alt_q = KeyPress { key: Key::Char('q'), ctrl: false, alt: true };
    assert!(matches!(app.handle_key(alt_q), Effect::Continue));
    app.handle_key(key('/'));
    assert!(matches!(app.handle_key(key('q')), Effect::Continue));
    assert_eq!(app.search_query(), "q");
}

#[test]
fn keys_scroll_and_navigate() {
    let mut app = loaded(&[1, 2]);
    app.handle_key(key('J'));
    app.handle_key(plain(Key::PageDown));
    assert_eq!(app.details_scroll(), 12);
    app.handle_key(plain(Key::PageUp));
    app.handle_key(key('K'));
    app.handle_key(key('K'));
    assert_eq!(app.details_scroll(), 0);
    app.handle_key(plain(Key::Down));
    assert_eq!(app.selected(), Some(1));
    app.handle_key(key('k'));
    assert_eq!(app.selected(), Some(0));
}

#[test]
fn keys_send_requests() {
    let mut app = loaded(&[3]);
    assert!(matches!(app.handle_key(key('x')), Effect::Send(AppRequest::Close { number: 3, .. })));
    assert!(matches!(app.handle_key(key('c')), Effect::Continue));
    assert!(matches!(app.handle_key(key('o')), Effect::Send(AppRequest::Reopen { number: 3, .. })));
    assert!(matches!(app.handle_key(plain(Key::F(5))), Effect::Send(AppRequest::Fetch { .. })));
    assert!(matches!(app.handle_key(key('R')), Effect::Send(AppRequest::Fetch { .. })));
    assert!(matches!(app.handle_key(key('e')), Effect::OpenInBrowser(3)));
    let mut empty = App::new("o/r".to_string());
    assert!(matches!(empty.handle_key(key('e')), Effect::Continue));
    assert!(matches!(empty.handle_key(key('c')), Effect::Continue));
}

#[test]
fn clicking_the_list_selects_an_item() {
    let mut app = loaded(&[1, 2, 3, 4]);
    app.handle_key(key('/'));
    assert!(app.search_focused());
    // rows 5..7 hold item 0, rows 8..10 item 1, ...
    app.handle_mouse(MouseInput { kind: MouseKind::LeftDown, column: 3, row: 11 }, areas(), 0);
    assert_eq!(app.selected(), Some(2));
    assert!(!app.search_focused());
    app.handle_mouse(MouseInput { kind: MouseKind::LeftDown, column: 3, row: 5 }, areas(), 1);
    assert_eq!(app.selected(), Some(1));
    // the border row selects nothing
    app.handle_mouse(MouseInput { kind: MouseKind::LeftDown, column: 3, row: 4 }, areas(), 0);
    assert_eq!(app.selected(), Some(1));
    // below the last item
    app.handle_mouse(MouseInput { kind: MouseKind::LeftDown, column: 3, row: 20 }, areas(), 0);
    assert_eq!(app.selected(), Some(1));
}

#[test]
fn clicking_the_search_field_focuses_it() {
    let mut app = loaded(&[1]);
    app.handle_mouse(MouseInput { kind: MouseKind::LeftDown, column: 10, row: 2 }, areas(), 0);
    assert!(app.search_focused());
    assert_eq!(app.status_log(), "Search input focused. Press Enter to search, Esc to cancel.");
}

#[test]
fn wheel_scrolls_details_or_moves_selection() {
    let mut app = loaded(&[1, 2]);
    app.handle_mouse(MouseInput { kind: MouseKind::ScrollDown, column: 40, row: 10 }, areas(), 0);
    assert_eq!(app.details_scroll(), 2);
    app.handle_mouse(MouseInput { kind: MouseKind::ScrollUp, column: 40, row: 10 }, areas(), 0);
    assert_eq!(app.details_scroll(), 0);
    app.handle_mouse(MouseInput { kind: MouseKind::ScrollDown, column: 3, row: 10 }, areas(), 0);
    assert_eq!(app.selected(), Some(1));
    app.handle_mouse(MouseInput { kind: MouseKind::ScrollUp, column: 3, row: 10 }, areas(), 0);
    assert_eq!(app.selected(), Some(0));
}

#[test]
fn scroll_is_clamped_to_the_body() {
    let mut app = loaded(&[1]);
    scroll_down(&mut app, 5);
    assert_eq!(app.details_scroll(), 50);
    app.clamp_details_scroll(30, 10);
    assert_eq!(app.details_scroll(), 20);
    scroll_down(&mut app, 3);
    assert_eq!(app.details_scroll(), 50);
    app.clamp_details_scroll(5, 10);
    assert_eq!(app.details_scroll(), 50);
    for _ in 0..4 {
        app.handle_key(plain(Key::PageUp));
    }
    app.handle_key(key('K'));
    app.handle_key(key('K'));
    app.handle_key(key('K'));
    assert_eq!(app.details_scroll(), 4);
    app.clamp_details_scroll(30, 10);
    assert_eq!(app.details_scroll(), 4);
}

#[test]
fn selected_issue_and_web_target() {
    let app = loaded(&[8, 9]);
    assert_eq!(app.selected_issue().map(|i| i.number), Some(8));
    assert_eq!(app.trigger_web(), Some(8));
}

#[test]
fn down_undoes_up() {
    let mut app = loaded(&[1, 2, 3]);
    for start in 0..3 {
        assert_eq!(app.selected(), Some(start));
        app.select_prev();
        app.select_next();
        assert_eq!(app.selected(), Some(start));
        app.select_next();
    }
}

#[test]
fn scroll_is_clamped_to_the_rendered_body() {
    let mut app = loaded(&[1]);
    scroll_down(&mut app, 1);
    assert_eq!(app.details_scroll(), 10);
    // renders as three lines: heading, blank line, paragraph
    app.clamp_scroll_for_body("# Status\n\nReady", 1);
    assert_eq!(app.details_scroll(), 2);
    scroll_down(&mut app, 1);
    assert_eq!(app.details_scroll(), 12);
    // the comment is removed before rendering: one line is left
    app.clamp_scroll_for_body("<!-- a\n\nb\n\nc -->Ready", 0);
    assert_eq!(app.details_scroll(), 1);
}

#[test]
fn down_moves_cycle_through_the_list() {
    let mut app = loaded(&[1, 2, 3]);
    app.select_next();
    assert_eq!(app.selected(), Some(1));
    for k in 1..=6usize {
        app.select_next();
        assert_eq!(app.selected(), Some((1 + k) % 3));
    }
}
