use issue_dash::issue::{AppResponse, Author, Issue};
use issue_dash::query::{
    fetch_response, plan_fetch, repo_slug, state_change_response, trim_query, CommandOutcome,
    FetchOutcome, FetchPlan,
};

fn issue(number: u32) -> Issue {
    Issue {
        number,
        title: format!("issue {}", number),
        state: "OPEN".to_string(),
        author: Author { login: "octocat".to_string() },
        labels: Vec::new(),
        updated_at: "2024-05-01T10:00:00Z".to_string(),
        body: String::new(),
    }
}

fn view(q: &str) -> Option<String> {
    match plan_fetch(q) {
        FetchPlan::ViewIssue(n) => Some(n),
        FetchPlan::ListIssues(_) => None,
    }
}

fn search(q: &str) -> Option<Option<String>> {
    match plan_fetch(q) {
        FetchPlan::ViewIssue(_) => None,
        FetchPlan::ListIssues(s) => Some(s),
    }
}

#[test]
fn numbers_ask_for_one_issue() {
    assert_eq!(view("123"), Some("123".to_string()));
    assert_eq!(view("#42"), Some("42".to_string()));
    assert_eq!(view("  #7 \t"), Some("7".to_string()));
}

#[test]
fn other_queries_search_the_list() {
    assert_eq!(search("is:open bug"), Some(Some("is:open bug".to_string())));
    assert_eq!(search("#"), Some(Some("#".to_string())));
    assert_eq!(search("#12a"), Some(Some("#12a".to_string())));
    assert_eq!(search("12 3"), Some(Some("12 3".to_string())));
    assert_eq!(search(""), Some(None));
    assert_eq!(search(" \n "), Some(None));
}

#[test]
fn surrounding_space_is_ignored() {
    let q = "label:bug";
    let padded = format!(" {} ", q);
    assert_eq!(trim_query(&padded), trim_query(q));
    assert_eq!(trim_query("\u{3000}x\u{a0}").iter().collect::<String>(), "x");
}

#[test]
fn failed_lookup_by_number_is_an_empty_list() {
    let plan = plan_fetch("99");
    match fetch_response(&plan, FetchOutcome::Failed("not found".to_string())) {
        AppResponse::FetchSuccess(v) => assert!(v.is_empty()),
        other => panic!("unexpected {:?}", other),
    }
}

#[test]
fn failed_listing_reports_the_error() {
    let plan = plan_fetch("bug");
    match fetch_response(&plan, FetchOutcome::Failed("auth required".to_string())) {
        AppResponse::FetchError(e) => assert_eq!(e, "auth required"),
        other => panic!("unexpected {:?}", other),
    }
    match fetch_response(&plan, FetchOutcome::NotRun("no gh".to_string())) {
        AppResponse::FetchError(e) => assert_eq!(e, "no gh"),
        other => panic!("unexpected {:?}", other),
    }
}

#[test]
fn parsed_and_unparsable_output() {
    let plan = plan_fetch("");
    match fetch_response(&plan, FetchOutcome::Parsed(vec![issue(1), issue(2)])) {
        AppResponse::FetchSuccess(v) => assert_eq!(v.len(), 2),
        other => panic!("unexpected {:?}", other),
    }
    match fetch_response(&plan, FetchOutcome::Unparsable("EOF".to_string())) {
        AppResponse::FetchError(e) => assert_eq!(e, "Parse error: EOF"),
        other => panic!("unexpected {:?}", other),
    }
}

#[test]
fn close_and_reopen_outcomes() {
    assert!(matches!(
        state_change_response(5, false, CommandOutcome::Succeeded),
        AppResponse::CloseSuccess(5)
    ));
    assert!(matches!(
        state_change_response(5, true, CommandOutcome::Succeeded),
        AppResponse::ReopenSuccess(5)
    ));
    match state_change_response(6, false, CommandOutcome::Failed("denied".to_string())) {
        AppResponse::CloseError { number, err } => {
            assert_eq!(number, 6);
            assert_eq!(err, "denied");
        }
        other => panic!("unexpected {:?}", other),
    }
    match state_change_response(7, true, CommandOutcome::NotRun("missing".to_string())) {
        AppResponse::ReopenError { number, err } => {
            assert_eq!(number, 7);
            assert_eq!(err, "missing");
        }
        other => panic!("unexpected {:?}", other),
    }
}

#[test]
fn repository_slug() {
    assert_eq!(repo_slug("aimRPG", "aRPG-client"), "aimRPG/aRPG-client");
}
