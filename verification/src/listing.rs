//! What each entry of the issue list shows: a title line cut to the list's
//! width, and a line with the author, the update date and as many labels as
//! fit.

use vstd::prelude::*;
use vstd::string::StringExecFns;
use crate::issue::{Issue, Label};
use crate::text::{chars_of, decimal_string, string_of};
use crate::width::{text_width, truncate_str_by_width};

verus! {

/// Whether an issue's state is `OPEN`.
pub open spec fn is_open(state: Seq<char>) -> bool {
    state == "OPEN"@
}

/// The icon shown before an open or a closed issue (glyphs of the Nerd
/// Fonts' private use area).
pub open spec fn state_icon(open: bool) -> Seq<char> {
    if open {
        "\u{f407}"@
    } else {
        "\u{f41b}"@
    }
}

/// The start of an issue's title line: its icon and number.
pub open spec fn title_prefix(open: bool, number: u32) -> Seq<char> {
    " "@ + state_icon(open) + " #"@ + crate::text::decimal(number as nat) + " "@
}

/// The end of an issue's title line while a request about it is pending.
pub open spec fn pending_suffix(closing: bool, reopening: bool) -> Seq<char> {
    if closing {
        " [closing...]"@
    } else if reopening {
        " [reopening...]"@
    } else {
        Seq::empty()
    }
}

/// The columns left for the title once prefix and suffix are drawn.
pub open spec fn title_budget(list_width: nat, prefix_width: nat, suffix_width: nat) -> nat {
    if prefix_width + suffix_width >= list_width {
        0
    } else {
        (list_width - prefix_width - suffix_width) as nat
    }
}

/// The three parts of an issue's title line.
#[derive(Debug)]
pub struct TitleLine {
    /// Whether the issue is open (drawn green) or not (magenta).
    pub open: bool,
    pub prefix: String,
    pub title: String,
    /// Empty unless a close or reopen request is pending.
    pub suffix: String,
}

/// Whether a state is `OPEN`.
pub fn state_is_open(state: &String) -> (b: bool)
    ensures
        b == is_open(state@),
{
    let open = String::from_str("OPEN");
    *state == open
}

/// The title line of `issue` in a list `list_width` columns wide: icon and
/// number, the title truncated to the columns left (see
/// `truncate_str_by_width`), and a note when a request is pending.
pub fn title_line(issue: &Issue, closing: bool, reopening: bool, list_width: usize) -> (line:
    TitleLine)
    ensures
        line.open == is_open(issue.state@),
        line.prefix@ == title_prefix(line.open, issue.number),
        line.suffix@ == pending_suffix(closing, reopening),
        line.title@ == crate::width::truncated(
            issue.title@,
            title_budget(
                list_width as nat,
                crate::width::display_width(line.prefix@),
                crate::width::display_width(line.suffix@),
            ),
        ),
{
    let open = state_is_open(&issue.state);
    let mut prefix = String::from_str(" ");
    if open {
        prefix.append("\u{f407}");
    } else {
        prefix.append("\u{f41b}");
    }
    prefix.append(" #");
    let digits = decimal_string(issue.number as u64);
    prefix.append(digits.as_str());
    prefix.append(" ");
    let suffix = if closing {
        String::from_str(" [closing...]")
    } else if reopening {
        String::from_str(" [reopening...]")
    } else {
        String::new()
    };
    let pw = text_width(prefix.as_str());
    let sw = text_width(suffix.as_str());
    let budget = if pw >= list_width || sw >= list_width - pw {
        0
    } else {
        list_width - pw - sw
    };
    let title = truncate_str_by_width(issue.title.as_str(), budget);
    TitleLine { open, prefix, title, suffix }
}

/// The date of an ISO 8601 timestamp: what comes before the first `T`.
pub open spec fn date_part(s: Seq<char>) -> Seq<char>
    decreases s.len(),
{
    if s.len() == 0 || s[0] == 'T' {
        Seq::empty()
    } else {
        seq![s[0]] + date_part(s.skip(1))
    }
}

/// The start of an issue's second line: author and update date.
pub open spec fn meta_prefix(login: Seq<char>, updated_at: Seq<char>) -> Seq<char> {
    "    @"@ + login + " updated "@ + date_part(updated_at) + " "@
}

/// The columns a label takes: its name padded by a space on each side, and
/// the space that follows it.
pub open spec fn label_columns(name: Seq<char>) -> nat {
    crate::width::display_width(" "@ + name + " "@) + 1
}

/// How many of the labels `names` fit after `used` of `width` columns, taking
/// them in order until one does not fit; and whether an ellipsis follows
/// them, which it does when a label did not fit and one column is left.
pub open spec fn labels_fitting(names: Seq<Seq<char>>, used: nat, width: nat) -> (nat, bool)
    decreases names.len(),
{
    if names.len() == 0 {
        (0, false)
    } else if used + label_columns(names[0]) > width {
        (0, used + 1 <= width)
    } else {
        let rest = labels_fitting(names.skip(1), used + label_columns(names[0]), width);
        (rest.0 + 1, rest.1)
    }
}

/// The names of labels.
pub open spec fn label_names(labels: Seq<Label>) -> Seq<Seq<char>> {
    labels.map_values(|l: Label| l.name@)
}

/// The second line of an issue's list entry.
#[derive(Debug)]
pub struct MetaLine {
    /// Author and update date.
    pub prefix: String,
    /// How many of the issue's labels are drawn, from the first.
    pub labels_shown: usize,
    /// Whether an ellipsis marks labels left out.
    pub ellipsis: bool,
}

/// The date part of a timestamp.
fn date_of(s: &str) -> (d: Vec<char>)
    ensures
        d@ == date_part(s@),
{
    let chars = chars_of(s);
    let mut d: Vec<char> = Vec::new();
    let mut i: usize = 0;
    assert(chars@.skip(0) =~= chars@);
    while i < chars.len() && chars[i] != 'T'
        invariant
            i <= chars.len(),
            chars@ == s@,
            date_part(s@) == d@ + date_part(chars@.skip(i as int)),
        decreases chars.len() - i,
    {
        let ghost before = d@;
        d.push(chars[i]);
        assert(chars@.skip(i as int).skip(1) =~= chars@.skip(i + 1));
        assert(d@ + date_part(chars@.skip(i + 1)) =~= before + (seq![chars@[i as int]] + date_part(
            chars@.skip(i + 1),
        )));
        i += 1;
    }
    assert(d@ + date_part(chars@.skip(i as int)) =~= d@);
    d
}

/// A label's name as drawn on its coloured background: padded by a space on
/// each side.
pub fn label_text(name: &str) -> (text: String)
    ensures
        text@ == " "@ + name@ + " "@,
{
    let mut padded = String::from_str(" ");
    padded.append(name);
    padded.append(" ");
    padded
}

/// The columns a label takes, less the space that follows it.
fn padded_label_width(name: &String) -> (w: usize)
    ensures
        w + 1 == label_columns(name@),
{
    let padded = label_text(name.as_str());
    text_width(padded.as_str())
}

/// The heading of the details pane: `Issue #<number> (<state>)`.
pub fn details_heading(issue: &Issue) -> (heading: String)
    ensures
        heading@ == "Issue #"@ + crate::text::decimal(issue.number as nat) + " ("@ + issue.state@
            + ")"@,
{
    let mut heading = String::from_str("Issue #");
    let digits = decimal_string(issue.number as u64);
    heading.append(digits.as_str());
    heading.append(" (");
    heading.append(issue.state.as_str());
    heading.append(")");
    heading
}

/// The second line of `issue`'s entry in a list `list_width` columns wide:
/// `@author updated <date>`, then the labels that fit, and an ellipsis when
/// some do not fit but a column is left.
pub fn meta_line(issue: &Issue, list_width: usize) -> (line: MetaLine)
    ensures
        line.prefix@ == meta_prefix(issue.author.login@, issue.updated_at@),
        (line.labels_shown as nat, line.ellipsis) == labels_fitting(
            label_names(issue.labels@),
            crate::width::display_width(line.prefix@),
            list_width as nat,
        ),
{
    let mut prefix = String::from_str("    @");
    prefix.append(issue.author.login.as_str());
    prefix.append(" updated ");
    let date = date_of(issue.updated_at.as_str());
    let date_text = string_of(&date);
    prefix.append(date_text.as_str());
    prefix.append(" ");
    let start = text_width(prefix.as_str());
    let ghost names = label_names(issue.labels@);
    let mut current = start;
    let mut shown: usize = 0;
    let mut ellipsis = false;
    assert(names.skip(0) =~= names);
    while shown < issue.labels.len()
        invariant_except_break
            !ellipsis,
        invariant
            shown <= issue.labels.len(),
            names == label_names(issue.labels@),
            labels_fitting(names, start as nat, list_width as nat) == ({
                let rest = labels_fitting(names.skip(shown as int), current as nat, list_width as nat);
                ((rest.0 + shown) as nat, rest.1)
            }),
        ensures
            labels_fitting(names, start as nat, list_width as nat) == (shown as nat, ellipsis),
        decreases issue.labels.len() - shown,
    {
        let w = padded_label_width(&issue.labels[shown].name);
        let ghost rest = names.skip(shown as int);
        assert(rest[0] == issue.labels@[shown as int].name@);
        if current > list_width || w >= list_width - current {
            ellipsis = current < list_width;
            break;
        }
        assert(rest.skip(1) =~= names.skip(shown + 1));
        current = current + w + 1;
        shown += 1;
    }
    proof {
        if shown == issue.labels.len() {
            assert(names.skip(shown as int).len() == 0);
        }
    }
    MetaLine { prefix, labels_shown: shown, ellipsis }
}

/// The columns taken by the labels `names`, one after the other.
pub open spec fn columns_of(names: Seq<Seq<char>>) -> nat
    decreases names.len(),
{
    if names.len() == 0 {
        0
    } else {
        label_columns(names[0]) + columns_of(names.skip(1))
    }
}

/// The labels drawn on an issue's second line stay within the list's width,
/// and so does the ellipsis after them, whenever the author and date do.
pub proof fn law_drawn_labels_fit(names: Seq<Seq<char>>, used: nat, width: nat)
    requires
        used <= width,
    ensures
        ({
            let (k, ellipsis) = labels_fitting(names, used, width);
            &&& k <= names.len()
            &&& used + columns_of(names.take(k as int)) <= width
            &&& ellipsis ==> used + columns_of(names.take(k as int)) + 1 <= width
        }),
    decreases names.len(),
{
    let (k, ellipsis) = labels_fitting(names, used, width);
    if names.len() == 0 {
        assert(names.take(0) =~= Seq::<Seq<char>>::empty());
    } else if used + label_columns(names[0]) > width {
        assert(names.take(0) =~= Seq::<Seq<char>>::empty());
    } else {
        let next = used + label_columns(names[0]);
        law_drawn_labels_fit(names.skip(1), next, width);
        let k1 = labels_fitting(names.skip(1), next, width).0;
        let t = names.take(k as int);
        assert(t[0] == names[0]);
        assert(t.skip(1) =~= names.skip(1).take(k1 as int));
    }
}

/// The title line shows the issue's full number: the prefix is a space, the
/// state icon, ` #`, a text of digits that reads back as the number, and a
/// space.
pub proof fn law_title_prefix_shows_number(open: bool, number: u32)
    ensures
        ({
            let p = title_prefix(open, number);
            let k = state_icon(open).len() + 3int;
            &&& p.take(k) == " "@ + state_icon(open) + " #"@
            &&& p.last() == ' '
            &&& k < p.len() - 1
            &&& crate::text::is_digit_text(p.subrange(k, p.len() - 1))
            &&& crate::text::digits_value(p.subrange(k, p.len() - 1)) == number
        }),
{
    reveal_strlit(" ");
    reveal_strlit(" #");
    let d = crate::text::decimal(number as nat);
    crate::text::law_decimal_reads_back(number as nat);
    let head = " "@ + state_icon(open) + " #"@;
    let p = title_prefix(open, number);
    assert(p == head + d + " "@);
    let k = state_icon(open).len() + 3int;
    assert(head.len() == k);
    assert(p.take(k) =~= head);
    assert(p.subrange(k, p.len() - 1) =~= d);
}

} // verus!
