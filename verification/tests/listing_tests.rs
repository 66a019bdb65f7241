use issue_dash::issue::{Author, Issue, Label};
use issue_dash::listing::{details_heading, label_text, meta_line, title_line};

fn issue(title: &str, state: &str, labels: &[&str]) -> Issue {
    Issue {
        number: 42,
        title: title.to_string(),
        state: state.to_string(),
        author: Author { login: "octocat".to_string() },
        labels: labels
            .iter()
            .map(|n| Label { name: n.to_string(), color: None })
            .collect(),
        updated_at: "2024-05-01T10:00:00Z".to_string(),
        body: String::new(),
    }
}

#[test]
fn title_line_parts() {
    let line = title_line(&issue("Crash on start", "OPEN", &[]), false, false, 40);
    assert!(line.open);
    assert_eq!(line.prefix, " \u{f407} #42 ");
    assert_eq!(line.title, "Crash on start");
    assert_eq!(line.suffix, "");
    let closed = title_line(&issue("x", "CLOSED", &[]), true, false, 40);
    assert!(!closed.open);
    assert_eq!(closed.prefix, " \u{f41b} #42 ");
    assert_eq!(closed.suffix, " [closing...]");
    let reopening = title_line(&issue("x", "CLOSED", &[]), false, true, 40);
    assert_eq!(reopening.suffix, " [reopening...]");
}

#[test]
fn title_is_cut_to_the_columns_left() {
    // prefix " X #42 " is 7 columns wide, 13 are left for the title
    let line = title_line(&issue("a rather long title", "OPEN", &[]), false, false, 20);
    assert_eq!(line.title, "a rather lon…");
    let none_left = title_line(&issue("title", "OPEN", &[]), true, false, 10);
    assert_eq!(none_left.title, "");
}

#[test]
fn meta_line_fits_labels() {
    let i = issue("t", "OPEN", &["bug", "help wanted", "x"]);
    let wide = meta_line(&i, 80);
    assert_eq!(wide.prefix, "    @octocat updated 2024-05-01 ");
    assert_eq!(wide.labels_shown, 3);
    assert!(!wide.ellipsis);
    // prefix 31 columns, " bug " + space 6 more, " help wanted " + space 14 more
    let narrow = meta_line(&i, 40);
    assert_eq!(narrow.labels_shown, 1);
    assert!(narrow.ellipsis);
    let full = meta_line(&i, 31);
    assert_eq!(full.labels_shown, 0);
    assert!(!full.ellipsis);
}

#[test]
fn date_without_time_part() {
    let mut i = issue("t", "OPEN", &[]);
    i.updated_at = "yesterday".to_string();
    assert_eq!(meta_line(&i, 80).prefix, "    @octocat updated yesterday ");
}

#[test]
fn label_and_heading_texts() {
    assert_eq!(label_text("bug"), " bug ");
    assert_eq!(details_heading(&issue("t", "OPEN", &[])), "Issue #42 (OPEN)");
}
