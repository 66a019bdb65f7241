//! Cleaning of GitHub issue markdown before it is rendered in the terminal:
//! HTML comments are dropped and a few inline HTML tags are rewritten into
//! their markdown equivalents.

use vstd::prelude::*;
use crate::text::{chars_of, replace_all, string_of};

verus! {

/// What remains of `s` once HTML comments are removed, scanning from the left;
/// `in_comment` tells whether the scan starts inside a comment. A comment
/// opens with `<!--` and closes with the next `-->`; an unclosed comment runs
/// to the end of the text.
pub open spec fn without_comments_from(s: Seq<char>, in_comment: bool) -> Seq<char>
    decreases s.len(),
{
    if s.len() == 0 {
        s
    } else if in_comment {
        if s.len() >= 3 && s[0] == '-' && s[1] == '-' && s[2] == '>' {
            without_comments_from(s.skip(3), false)
        } else {
            without_comments_from(s.skip(1), true)
        }
    } else if s.len() >= 4 && s[0] == '<' && s[1] == '!' && s[2] == '-' && s[3] == '-' {
        without_comments_from(s.skip(4), true)
    } else {
        seq![s[0]] + without_comments_from(s.skip(1), false)
    }
}

/// `s` with its HTML comments removed.
pub open spec fn without_comments(s: Seq<char>) -> Seq<char> {
    without_comments_from(s, false)
}

/// The markdown cleaning of the dashboard: comments removed, then the tags
/// `<sub>`, `<sup>`, `<i>`, `<em>` become `_`, `<b>`, `<strong>` become `**`,
/// `<code>` becomes a backtick and the three spellings of `<br>` a newline
/// (each opening and closing tag, in this order).
pub open spec fn dashboard_markdown(s: Seq<char>) -> Seq<char> {
    let t = without_comments(s);
    let t = crate::text::replaced(t, "<sub>"@, "_"@);
    let t = crate::text::replaced(t, "</sub>"@, "_"@);
    let t = crate::text::replaced(t, "<sup>"@, "_"@);
    let t = crate::text::replaced(t, "</sup>"@, "_"@);
    let t = crate::text::replaced(t, "<b>"@, "**"@);
    let t = crate::text::replaced(t, "</b>"@, "**"@);
    let t = crate::text::replaced(t, "<strong>"@, "**"@);
    let t = crate::text::replaced(t, "</strong>"@, "**"@);
    let t = crate::text::replaced(t, "<i>"@, "_"@);
    let t = crate::text::replaced(t, "</i>"@, "_"@);
    let t = crate::text::replaced(t, "<em>"@, "_"@);
    let t = crate::text::replaced(t, "</em>"@, "_"@);
    let t = crate::text::replaced(t, "<code>"@, "`"@);
    let t = crate::text::replaced(t, "</code>"@, "`"@);
    let t = crate::text::replaced(t, "<br>"@, "\n"@);
    let t = crate::text::replaced(t, "<br/>"@, "\n"@);
    crate::text::replaced(t, "<br />"@, "\n"@)
}

/// The number of lines that `tui-markdown` renders a markdown text into.
pub uninterp spec fn rendered_line_count(s: Seq<char>) -> nat;

/// The number of lines of a markdown text once rendered for the terminal.
///
/// Trusted: calls `tui_markdown::from_str` (default options, bundled themes)
/// and counts the lines of the text it returns. The count depends on the text
/// alone and is named `rendered_line_count`; nothing else about it is stated.
#[verifier::external_body]
pub(crate) fn markdown_line_count(s: &str) -> (n: usize)
    ensures
        n == rendered_line_count(s@),
{
    tui_markdown::from_str(s).lines.len()
}

/// The characters of the tags and replacement texts of the cleanings.
pub proof fn lemma_markup_texts()
    ensures
        "<sub>"@ == seq!['<', 's', 'u', 'b', '>'],
        "</sub>"@ == seq!['<', '/', 's', 'u', 'b', '>'],
        "<sup>"@ == seq!['<', 's', 'u', 'p', '>'],
        "</sup>"@ == seq!['<', '/', 's', 'u', 'p', '>'],
        "<b>"@ == seq!['<', 'b', '>'],
        "</b>"@ == seq!['<', '/', 'b', '>'],
        "<strong>"@ == seq!['<', 's', 't', 'r', 'o', 'n', 'g', '>'],
        "</strong>"@ == seq!['<', '/', 's', 't', 'r', 'o', 'n', 'g', '>'],
        "<i>"@ == seq!['<', 'i', '>'],
        "</i>"@ == seq!['<', '/', 'i', '>'],
        "<em>"@ == seq!['<', 'e', 'm', '>'],
        "</em>"@ == seq!['<', '/', 'e', 'm', '>'],
        "<code>"@ == seq!['<', 'c', 'o', 'd', 'e', '>'],
        "</code>"@ == seq!['<', '/', 'c', 'o', 'd', 'e', '>'],
        "<br>"@ == seq!['<', 'b', 'r', '>'],
        "<br/>"@ == seq!['<', 'b', 'r', '/', '>'],
        "<br />"@ == seq!['<', 'b', 'r', ' ', '/', '>'],
        "<!--"@ == seq!['<', '!', '-', '-'],
        "-->"@ == seq!['-', '-', '>'],
        "_"@ == seq!['_'],
        "**"@ == seq!['*', '*'],
        "`"@ == seq!['`'],
        "\n"@ == seq!['\n'],
        "^"@ == seq!['^'],
{
    reveal_strlit("<sub>");
    reveal_strlit("</sub>");
    reveal_strlit("<sup>");
    reveal_strlit("</sup>");
    reveal_strlit("<b>");
    reveal_strlit("</b>");
    reveal_strlit("<strong>");
    reveal_strlit("</strong>");
    reveal_strlit("<i>");
    reveal_strlit("</i>");
    reveal_strlit("<em>");
    reveal_strlit("</em>");
    reveal_strlit("<code>");
    reveal_strlit("</code>");
    reveal_strlit("<br>");
    reveal_strlit("<br/>");
    reveal_strlit("<br />");
    reveal_strlit("<!--");
    reveal_strlit("-->");
    reveal_strlit("_");
    reveal_strlit("**");
    reveal_strlit("`");
    reveal_strlit("\n");
    reveal_strlit("^");
}

/// Removes HTML comments from a sequence of characters.
pub fn strip_html_comments(chars: &Vec<char>) -> (out: Vec<char>)
    ensures
        out@ == without_comments(chars@),
{
    let mut out: Vec<char> = Vec::new();
    let mut in_comment = false;
    let mut i: usize = 0;
    let n = chars.len();
    assert(chars@.skip(0) =~= chars@);
    while i < n
        invariant
            i <= n,
            n == chars.len(),
            without_comments(chars@) == out@ + without_comments_from(chars@.skip(i as int), in_comment),
        decreases n - i,
    {
        let ghost rest = chars@.skip(i as int);
        let ghost before = out@;
        if in_comment {
            if n - i >= 3 && chars[i] == '-' && chars[i + 1] == '-' && chars[i + 2] == '>' {
                in_comment = false;
                assert(rest.skip(3) =~= chars@.skip(i + 3));
                i += 3;
            } else {
                assert(rest.skip(1) =~= chars@.skip(i + 1));
                i += 1;
            }
        } else if n - i >= 4 && chars[i] == '<' && chars[i + 1] == '!' && chars[i + 2] == '-'
            && chars[i + 3] == '-' {
            in_comment = true;
            assert(rest.skip(4) =~= chars@.skip(i + 4));
            i += 4;
        } else {
            out.push(chars[i]);
            assert(rest.skip(1) =~= chars@.skip(i + 1));
            assert(out@ + without_comments_from(chars@.skip(i + 1), false) =~= before + (seq![
                rest[0],
            ] + without_comments_from(rest.skip(1), false)));
            i += 1;
        }
    }
    assert(out@ + without_comments_from(chars@.skip(i as int), in_comment) =~= out@);
    out
}

/// Replaces every occurrence of the literal `pat` by `rep`.
pub fn rewrite_tag(text: &Vec<char>, pat: &str, rep: &str) -> (out: Vec<char>)
    requires
        pat@.len() > 0,
    ensures
        out@ == crate::text::replaced(text@, pat@, rep@),
{
    let p = chars_of(pat);
    let r = chars_of(rep);
    replace_all(text, &p, &r)
}

/// Cleans the markdown body of an issue for display: HTML comments are
/// removed and inline HTML tags are rewritten (see `dashboard_markdown`).
pub fn clean_github_markdown(text: &str) -> (cleaned: String)
    ensures
        cleaned@ == dashboard_markdown(text@),
{
    proof {
        lemma_markup_texts();
    }
    let chars = chars_of(text);
    let t = strip_html_comments(&chars);
    let t = rewrite_tag(&t, "<sub>", "_");
    let t = rewrite_tag(&t, "</sub>", "_");
    let t = rewrite_tag(&t, "<sup>", "_");
    let t = rewrite_tag(&t, "</sup>", "_");
    let t = rewrite_tag(&t, "<b>", "**");
    let t = rewrite_tag(&t, "</b>", "**");
    let t = rewrite_tag(&t, "<strong>", "**");
    let t = rewrite_tag(&t, "</strong>", "**");
    let t = rewrite_tag(&t, "<i>", "_");
    let t = rewrite_tag(&t, "</i>", "_");
    let t = rewrite_tag(&t, "<em>", "_");
    let t = rewrite_tag(&t, "</em>", "_");
    let t = rewrite_tag(&t, "<code>", "`");
    let t = rewrite_tag(&t, "</code>", "`");
    let t = rewrite_tag(&t, "<br>", "\n");
    let t = rewrite_tag(&t, "<br/>", "\n");
    let t = rewrite_tag(&t, "<br />", "\n");
    string_of(&t)
}

/// Replacing a pattern that starts with `<` leaves a text without `<` as it is.
pub proof fn lemma_replaced_without_open_angle(s: Seq<char>, pat: Seq<char>, rep: Seq<char>)
    requires
        pat.len() > 0,
        pat[0] == '<',
        !s.contains('<'),
    ensures
        crate::text::replaced(s, pat, rep) == s,
    decreases s.len(),
{
    if s.len() >= pat.len() {
        assert(s.take(pat.len() as int)[0] == s[0]);
        assert(s[0] != '<') by {
            if s[0] == '<' {
                assert(s.contains('<'));
            }
        }
        assert(!s.skip(1).contains('<')) by {
            if s.skip(1).contains('<') {
                let k = choose|k: int| 0 <= k < s.skip(1).len() && s.skip(1)[k] == '<';
                assert(s[k + 1] == '<');
            }
        }
        lemma_replaced_without_open_angle(s.skip(1), pat, rep);
        assert(s =~= seq![s[0]] + s.skip(1));
    }
}

/// Comment removal leaves a text without `<` as it is.
pub proof fn lemma_without_comments_without_open_angle(s: Seq<char>)
    requires
        !s.contains('<'),
    ensures
        without_comments_from(s, false) == s,
    decreases s.len(),
{
    if s.len() > 0 {
        assert(s[0] != '<') by {
            if s[0] == '<' {
                assert(s.contains('<'));
            }
        }
        assert(!s.skip(1).contains('<')) by {
            if s.skip(1).contains('<') {
                let k = choose|k: int| 0 <= k < s.skip(1).len() && s.skip(1)[k] == '<';
                assert(s[k + 1] == '<');
            }
        }
        lemma_without_comments_without_open_angle(s.skip(1));
        assert(s =~= seq![s[0]] + s.skip(1));
    }
}

/// Whether `-->` occurs in `x`.
pub open spec fn has_comment_end(x: Seq<char>) -> bool {
    exists|i: int| 0 <= i && i + 3 <= x.len() && #[trigger] x[i] == '-' && x[i + 1] == '-' && x[i
        + 2] == '>'
}

/// Inside a comment, everything up to and including the first `-->` is dropped.
proof fn lemma_comment_body_dropped(x: Seq<char>, b: Seq<char>)
    requires
        !has_comment_end(x),
    ensures
        without_comments_from(x + "-->"@ + b, true) == without_comments_from(b, false),
    decreases x.len(),
{
    lemma_markup_texts();
    let s = x + "-->"@ + b;
    if x.len() == 0 {
        assert(s.skip(3) =~= b);
    } else {
        assert(!(s[0] == '-' && s[1] == '-' && s[2] == '>')) by {
            if x.len() >= 3 {
                if s[0] == '-' && s[1] == '-' && s[2] == '>' {
                    assert(x[0] == '-' && x[1] == '-' && x[2] == '>');
                }
            }
        }
        assert(!has_comment_end(x.skip(1))) by {
            if has_comment_end(x.skip(1)) {
                let i = choose|i: int| 0 <= i && i + 3 <= x.skip(1).len() && #[trigger] x.skip(1)[i]
                    == '-' && x.skip(1)[i + 1] == '-' && x.skip(1)[i + 2] == '>';
                assert(x[i + 1] == '-' && x[i + 2] == '-' && x[i + 3] == '>');
            }
        }
        assert(s.skip(1) =~= x.skip(1) + "-->"@ + b);
        lemma_comment_body_dropped(x.skip(1), b);
    }
}

/// Text without `<` is copied as it is until what follows it.
proof fn lemma_plain_prefix_kept(a: Seq<char>, rest: Seq<char>)
    requires
        !a.contains('<'),
    ensures
        without_comments_from(a + rest, false) == a + without_comments_from(rest, false),
    decreases a.len(),
{
    if a.len() > 0 {
        let s = a + rest;
        assert(s[0] == a[0]);
        assert(a[0] != '<') by {
            if a[0] == '<' {
                assert(a.contains('<'));
            }
        }
        assert(!a.skip(1).contains('<')) by {
            if a.skip(1).contains('<') {
                let k = choose|k: int| 0 <= k < a.skip(1).len() && a.skip(1)[k] == '<';
                assert(a[k + 1] == '<');
            }
        }
        assert(s.skip(1) =~= a.skip(1) + rest);
        lemma_plain_prefix_kept(a.skip(1), rest);
        assert(a =~= seq![a[0]] + a.skip(1));
    } else {
        assert(a + rest =~= rest);
    }
}

/// An HTML comment is removed with everything in it, up to the first `-->`:
/// what precedes and what follows it is kept.
pub proof fn law_comment_is_removed(a: Seq<char>, x: Seq<char>, b: Seq<char>)
    requires
        !a.contains('<'),
        !has_comment_end(x),
    ensures
        without_comments(a + "<!--"@ + x + "-->"@ + b) == a + without_comments(b),
{
    lemma_markup_texts();
    let rest = "<!--"@ + x + "-->"@ + b;
    assert(a + "<!--"@ + x + "-->"@ + b =~= a + rest);
    lemma_plain_prefix_kept(a, rest);
    assert(rest.skip(4) =~= x + "-->"@ + b);
    lemma_comment_body_dropped(x, b);
}

/// Markdown without any `<` is shown exactly as written: comments and the
/// rewritten tags all start with `<`.
pub proof fn law_text_without_tags_is_unchanged(s: Seq<char>)
    requires
        !s.contains('<'),
    ensures
        dashboard_markdown(s) == s,
{
    lemma_markup_texts();
    lemma_without_comments_without_open_angle(s);
    lemma_replaced_without_open_angle(s, "<sub>"@, "_"@);
    lemma_replaced_without_open_angle(s, "</sub>"@, "_"@);
    lemma_replaced_without_open_angle(s, "<sup>"@, "_"@);
    lemma_replaced_without_open_angle(s, "</sup>"@, "_"@);
    lemma_replaced_without_open_angle(s, "<b>"@, "**"@);
    lemma_replaced_without_open_angle(s, "</b>"@, "**"@);
    lemma_replaced_without_open_angle(s, "<strong>"@, "**"@);
    lemma_replaced_without_open_angle(s, "</strong>"@, "**"@);
    lemma_replaced_without_open_angle(s, "<i>"@, "_"@);
    lemma_replaced_without_open_angle(s, "</i>"@, "_"@);
    lemma_replaced_without_open_angle(s, "<em>"@, "_"@);
    lemma_replaced_without_open_angle(s, "</em>"@, "_"@);
    lemma_replaced_without_open_angle(s, "<code>"@, "`"@);
    lemma_replaced_without_open_angle(s, "</code>"@, "`"@);
    lemma_replaced_without_open_angle(s, "<br>"@, "\n"@);
    lemma_replaced_without_open_angle(s, "<br/>"@, "\n"@);
    lemma_replaced_without_open_angle(s, "<br />"@, "\n"@);
}

/// A text in which no comment opens is left as it is by comment removal.
pub proof fn lemma_without_opener_no_comment(s: Seq<char>)
    requires
        !crate::text::occurs_in(s, "<!--"@),
    ensures
        without_comments_from(s, false) == s,
    decreases s.len(),
{
    lemma_markup_texts();
    if s.len() > 0 {
        assert(!(s.len() >= 4 && s[0] == '<' && s[1] == '!' && s[2] == '-' && s[3] == '-')) by {
            if s.len() >= 4 && s[0] == '<' && s[1] == '!' && s[2] == '-' && s[3] == '-' {
                assert(s.subrange(0int, 0int + "<!--"@.len()) =~= "<!--"@);
            }
        }
        crate::text::lemma_absent_after_skip(s, "<!--"@, 1);
        lemma_without_opener_no_comment(s.skip(1));
        assert(s =~= seq![s[0]] + s.skip(1));
    }
}

/// A beginning without `<` is shown as written, and what follows it is
/// cleaned on its own.
pub proof fn law_plain_prefix_is_kept(a: Seq<char>, b: Seq<char>)
    requires
        !a.contains('<'),
    ensures
        dashboard_markdown(a + b) == a + dashboard_markdown(b),
{
    lemma_markup_texts();
    lemma_plain_prefix_kept(a, b);
    let t = without_comments(b);
    crate::text::lemma_replaced_after_plain_prefix(a, t, "<sub>"@, "_"@);
    let t = crate::text::replaced(t, "<sub>"@, "_"@);
    crate::text::lemma_replaced_after_plain_prefix(a, t, "</sub>"@, "_"@);
    let t = crate::text::replaced(t, "</sub>"@, "_"@);
    crate::text::lemma_replaced_after_plain_prefix(a, t, "<sup>"@, "_"@);
    let t = crate::text::replaced(t, "<sup>"@, "_"@);
    crate::text::lemma_replaced_after_plain_prefix(a, t, "</sup>"@, "_"@);
    let t = crate::text::replaced(t, "</sup>"@, "_"@);
    crate::text::lemma_replaced_after_plain_prefix(a, t, "<b>"@, "**"@);
    let t = crate::text::replaced(t, "<b>"@, "**"@);
    crate::text::lemma_replaced_after_plain_prefix(a, t, "</b>"@, "**"@);
    let t = crate::text::replaced(t, "</b>"@, "**"@);
    crate::text::lemma_replaced_after_plain_prefix(a, t, "<strong>"@, "**"@);
    let t = crate::text::replaced(t, "<strong>"@, "**"@);
    crate::text::lemma_replaced_after_plain_prefix(a, t, "</strong>"@, "**"@);
    let t = crate::text::replaced(t, "</strong>"@, "**"@);
    crate::text::lemma_replaced_after_plain_prefix(a, t, "<i>"@, "_"@);
    let t = crate::text::replaced(t, "<i>"@, "_"@);
    crate::text::lemma_replaced_after_plain_prefix(a, t, "</i>"@, "_"@);
    let t = crate::text::replaced(t, "</i>"@, "_"@);
    crate::text::lemma_replaced_after_plain_prefix(a, t, "<em>"@, "_"@);
    let t = crate::text::replaced(t, "<em>"@, "_"@);
    crate::text::lemma_replaced_after_plain_prefix(a, t, "</em>"@, "_"@);
    let t = crate::text::replaced(t, "</em>"@, "_"@);
    crate::text::lemma_replaced_after_plain_prefix(a, t, "<code>"@, "`"@);
    let t = crate::text::replaced(t, "<code>"@, "`"@);
    crate::text::lemma_replaced_after_plain_prefix(a, t, "</code>"@, "`"@);
    let t = crate::text::replaced(t, "</code>"@, "`"@);
    crate::text::lemma_replaced_after_plain_prefix(a, t, "<br>"@, "\n"@);
    let t = crate::text::replaced(t, "<br>"@, "\n"@);
    crate::text::lemma_replaced_after_plain_prefix(a, t, "<br/>"@, "\n"@);
    let t = crate::text::replaced(t, "<br/>"@, "\n"@);
    crate::text::lemma_replaced_after_plain_prefix(a, t, "<br />"@, "\n"@);
}

/// Every `<code>` and `</code>` tag of a body is rewritten, however many there
/// are: none is left in the cleaned text (the later rewrites put in only
/// backticks and newlines, which cannot form one).
pub proof fn law_code_tags_are_all_rewritten(s: Seq<char>)
    ensures
        !crate::text::occurs_in(dashboard_markdown(s), "<code>"@),
        !crate::text::occurs_in(dashboard_markdown(s), "</code>"@),
{
    lemma_markup_texts();
    let t = without_comments(s);
    let t = crate::text::replaced(t, "<sub>"@, "_"@);
    let t = crate::text::replaced(t, "</sub>"@, "_"@);
    let t = crate::text::replaced(t, "<sup>"@, "_"@);
    let t = crate::text::replaced(t, "</sup>"@, "_"@);
    let t = crate::text::replaced(t, "<b>"@, "**"@);
    let t = crate::text::replaced(t, "</b>"@, "**"@);
    let t = crate::text::replaced(t, "<strong>"@, "**"@);
    let t = crate::text::replaced(t, "</strong>"@, "**"@);
    let t = crate::text::replaced(t, "<i>"@, "_"@);
    let t = crate::text::replaced(t, "</i>"@, "_"@);
    let t = crate::text::replaced(t, "<em>"@, "_"@);
    let t12 = crate::text::replaced(t, "</em>"@, "_"@);
    let open = "<code>"@;
    let close = "</code>"@;
    let tick = "`"@;
    let nl = "\n"@;
    crate::text::law_replaced_leaves_no_occurrence(t12, open, tick);
    let t13 = crate::text::replaced(t12, open, tick);
    crate::text::lemma_replaced_keeps_absence(t13, close, tick, open);
    crate::text::law_replaced_leaves_no_occurrence(t13, close, tick);
    let t14 = crate::text::replaced(t13, close, tick);
    crate::text::lemma_replaced_keeps_absence(t14, "<br>"@, nl, open);
    crate::text::lemma_replaced_keeps_absence(t14, "<br>"@, nl, close);
    let t15 = crate::text::replaced(t14, "<br>"@, nl);
    crate::text::lemma_replaced_keeps_absence(t15, "<br/>"@, nl, open);
    crate::text::lemma_replaced_keeps_absence(t15, "<br/>"@, nl, close);
    let t16 = crate::text::replaced(t15, "<br/>"@, nl);
    crate::text::lemma_replaced_keeps_absence(t16, "<br />"@, nl, open);
    crate::text::lemma_replaced_keeps_absence(t16, "<br />"@, nl, close);
}

} // verus!
