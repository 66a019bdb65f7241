//! The markdown cleaning used by the stand-alone probe that fetches one issue
//! with its comments and checks that every body renders. It differs from the
//! dashboard's cleaning in two tags: `<sup>` becomes `^`, and `<b>` is kept.

use vstd::prelude::*;
use crate::text::{chars_of, string_of};
use crate::markdown::{rewrite_tag, strip_html_comments};

verus! {

/// The probe's markdown cleaning: comments removed, then `<sub>`, `<i>`, `<em>`
/// become `_`, `<sup>` becomes `^`, `<strong>` becomes `**`, `<code>` a
/// backtick and the three spellings of `<br>` a newline (opening and closing
/// tags, in this order).
pub open spec fn probe_markdown(s: Seq<char>) -> Seq<char> {
    let t = crate::markdown::without_comments(s);
    let t = crate::text::replaced(t, "<sub>"@, "_"@);
    let t = crate::text::replaced(t, "</sub>"@, "_"@);
    let t = crate::text::replaced(t, "<sup>"@, "^"@);
    let t = crate::text::replaced(t, "</sup>"@, "^"@);
    let t = crate::text::replaced(t, "<strong>"@, "**"@);
    let t = crate::text::replaced(t, "</strong>"@, "**"@);
    let t = crate::text::replaced(t, "<i>"@, "_"@);
    let t = crate::text::replaced(t, "</i>"@, "_"@);
    let t = crate::text::replaced(t, "<em>"@, "_"@);
    let t = crate::text::replaced(t, "</em>"@, "_"@);
    let t = crate::text::replaced(t, "<code>"@, "`"@);
    let t = crate::text::replaced(t, "</code>"@, "`"@);
    let t = crate::text::replaced(t, "<br>"@, "\n"@);
    let t = crate::text::replaced(t, "<br/>"@, "\n"@);
    crate::text::replaced(t, "<br />"@, "\n"@)
}

/// Cleans an issue or comment body the way the probe does before rendering it
/// (see `probe_markdown`).
pub fn clean_github_markdown(s: &str) -> (cleaned: String)
    ensures
        cleaned@ == probe_markdown(s@),
{
    proof {
        crate::markdown::lemma_markup_texts();
    }
    let chars = chars_of(s);
    let t = strip_html_comments(&chars);
    let t = rewrite_tag(&t, "<sub>", "_");
    let t = rewrite_tag(&t, "</sub>", "_");
    let t = rewrite_tag(&t, "<sup>", "^");
    let t = rewrite_tag(&t, "</sup>", "^");
    let t = rewrite_tag(&t, "<strong>", "**");
    let t = rewrite_tag(&t, "</strong>", "**");
    let t = rewrite_tag(&t, "<i>", "_");
    let t = rewrite_tag(&t, "</i>", "_");
    let t = rewrite_tag(&t, "<em>", "_");
    let t = rewrite_tag(&t, "</em>", "_");
    let t = rewrite_tag(&t, "<code>", "`");
    let t = rewrite_tag(&t, "</code>", "`");
    let t = rewrite_tag(&t, "<br>", "\n");
    let t = rewrite_tag(&t, "<br/>", "\n");
    let t = rewrite_tag(&t, "<br />", "\n");
    string_of(&t)
}

/// The number of lines the probe renders a body or comment into: the text
/// cleaned the probe's way (see `probe_markdown`), then rendered by
/// `tui-markdown`.
pub fn probe_line_count(body: &str) -> (n: usize)
    ensures
        n == crate::markdown::rendered_line_count(probe_markdown(body@)),
{
    let cleaned = clean_github_markdown(body);
    crate::markdown::markdown_line_count(cleaned.as_str())
}

/// Markdown without any `<` passes the probe's cleaning unchanged.
pub proof fn law_probe_text_without_tags_is_unchanged(s: Seq<char>)
    requires
        !s.contains('<'),
    ensures
        probe_markdown(s) == s,
{
    crate::markdown::lemma_markup_texts();
    crate::markdown::lemma_without_comments_without_open_angle(s);
    crate::markdown::lemma_replaced_without_open_angle(s, "<sub>"@, "_"@);
    crate::markdown::lemma_replaced_without_open_angle(s, "</sub>"@, "_"@);
    crate::markdown::lemma_replaced_without_open_angle(s, "<sup>"@, "^"@);
    crate::markdown::lemma_replaced_without_open_angle(s, "</sup>"@, "^"@);
    crate::markdown::lemma_replaced_without_open_angle(s, "<strong>"@, "**"@);
    crate::markdown::lemma_replaced_without_open_angle(s, "</strong>"@, "**"@);
    crate::markdown::lemma_replaced_without_open_angle(s, "<i>"@, "_"@);
    crate::markdown::lemma_replaced_without_open_angle(s, "</i>"@, "_"@);
    crate::markdown::lemma_replaced_without_open_angle(s, "<em>"@, "_"@);
    crate::markdown::lemma_replaced_without_open_angle(s, "</em>"@, "_"@);
    crate::markdown::lemma_replaced_without_open_angle(s, "<code>"@, "`"@);
    crate::markdown::lemma_replaced_without_open_angle(s, "</code>"@, "`"@);
    crate::markdown::lemma_replaced_without_open_angle(s, "<br>"@, "\n"@);
    crate::markdown::lemma_replaced_without_open_angle(s, "<br/>"@, "\n"@);
    crate::markdown::lemma_replaced_without_open_angle(s, "<br />"@, "\n"@);
}

/// Replacing `<sub>` and `</sub>` by `_` cannot create the tag `p`, given
/// that `p` holds no `_`.
proof fn lemma_sub_rewrites_keep_absence(t: Seq<char>, p: Seq<char>)
    requires
        p.len() > 0,
        forall|k: int| 0 <= k < p.len() ==> p[k] != '_',
        !crate::text::occurs_in(t, p),
    ensures
        !crate::text::occurs_in(
            crate::text::replaced(crate::text::replaced(t, "<sub>"@, "_"@), "</sub>"@, "_"@),
            p,
        ),
{
    crate::markdown::lemma_markup_texts();
    crate::text::lemma_replaced_keeps_absence(t, "<sub>"@, "_"@, p);
    crate::text::lemma_replaced_keeps_absence(
        crate::text::replaced(t, "<sub>"@, "_"@),
        "</sub>"@,
        "_"@,
        p,
    );
}

/// The probe's cleaning and the dashboard's agree on every text in which no
/// comment opens and none of `<b>`, `</b>`, `<sup>`, `</sup>` occurs.
pub proof fn law_cleanings_agree(s: Seq<char>)
    requires
        !crate::text::occurs_in(s, "<!--"@),
        !crate::text::occurs_in(s, "<b>"@),
        !crate::text::occurs_in(s, "</b>"@),
        !crate::text::occurs_in(s, "<sup>"@),
        !crate::text::occurs_in(s, "</sup>"@),
    ensures
        probe_markdown(s) == crate::markdown::dashboard_markdown(s),
{
    crate::markdown::lemma_markup_texts();
    crate::markdown::lemma_without_opener_no_comment(s);
    let t2 = crate::text::replaced(crate::text::replaced(s, "<sub>"@, "_"@), "</sub>"@, "_"@);
    lemma_sub_rewrites_keep_absence(s, "<sup>"@);
    lemma_sub_rewrites_keep_absence(s, "</sup>"@);
    lemma_sub_rewrites_keep_absence(s, "<b>"@);
    lemma_sub_rewrites_keep_absence(s, "</b>"@);
    crate::text::lemma_replaced_absent_is_identity(t2, "<sup>"@, "_"@);
    crate::text::lemma_replaced_absent_is_identity(t2, "</sup>"@, "_"@);
    crate::text::lemma_replaced_absent_is_identity(t2, "<b>"@, "**"@);
    crate::text::lemma_replaced_absent_is_identity(t2, "</b>"@, "**"@);
    crate::text::lemma_replaced_absent_is_identity(t2, "<sup>"@, "^"@);
    crate::text::lemma_replaced_absent_is_identity(t2, "</sup>"@, "^"@);
}

} // verus!
