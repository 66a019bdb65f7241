use issue_dash::issue_probe;
use issue_dash::markdown::clean_github_markdown;

#[test]
fn comments_are_removed() {
    assert_eq!(clean_github_markdown("a<!-- hidden -->b"), "ab");
}

#[test]
fn unclosed_comment_hides_the_rest() {
    assert_eq!(clean_github_markdown("keep<!-- never closed"), "keep");
}

#[test]
fn tags_become_markdown() {
    assert_eq!(
        clean_github_markdown("<b>bold</b> <i>it</i> <sub>s</sub><sup>p</sup> <code>x</code>"),
        "**bold** _it_ _s__p_ `x`"
    );
    assert_eq!(clean_github_markdown("a<br>b<br/>c<br />d"), "a\nb\nc\nd");
    assert_eq!(clean_github_markdown("<strong>s</strong><em>e</em>"), "**s**_e_");
}

#[test]
fn text_without_tags_is_unchanged() {
    let s = "plain text -- with > signs and ! marks";
    assert_eq!(clean_github_markdown(s), s);
    assert_eq!(issue_probe::clean_github_markdown(s), s);
}

#[test]
fn probe_cleaning_differs_in_sup_and_b() {
    assert_eq!(issue_probe::clean_github_markdown("<sup>2</sup>"), "^2^");
    assert_eq!(issue_probe::clean_github_markdown("<b>x</b>"), "<b>x</b>");
    assert_eq!(issue_probe::clean_github_markdown("a<!--c-->b<br>"), "ab\n");
}

#[test]
fn comment_markers_are_not_nested() {
    // the first `-->` closes the comment; what follows is kept
    assert_eq!(clean_github_markdown("<!-- a <!-- b --> c -->"), " c -->");
}

#[test]
fn plain_prefix_is_kept() {
    let a = "Steps: 1 > 0 & done";
    let b = "<b>x</b><!-- c -->";
    assert_eq!(clean_github_markdown(&format!("{}{}", a, b)), format!("{}{}", a, clean_github_markdown(b)));
}

#[test]
fn cleanings_agree_without_b_sup_or_comments() {
    let s = "<sub>a</sub> <i>b</i> <strong>c</strong> <code>d</code><br/>e <s<sub>up>";
    assert_eq!(issue_probe::clean_github_markdown(s), clean_github_markdown(s));
}

#[test]
fn probe_counts_rendered_lines() {
    assert_eq!(issue_probe::probe_line_count("# Status\n\nReady"), 3);
    assert_eq!(issue_probe::probe_line_count("<!-- x\n\ny -->Ready"), 1);
}
