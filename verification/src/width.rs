//! Display widths of text in terminal columns, and truncation of text to a
//! width budget.

use vstd::prelude::*;
use crate::text::{chars_of, push_char, string_of};

verus! {

/// The number of terminal columns that `unicode-width` gives a text.
pub uninterp spec fn display_width(s: Seq<char>) -> nat;

/// Display width of a text in terminal columns.
///
/// Trusted: calls `unicode_width::UnicodeWidthStr::width`. Its result is a
/// function of the characters alone (named `display_width`). Its source
/// shows three facts stated here: the empty text has width 0; a text of one
/// character up to U+00A0 (control characters included) has width 1; and a
/// text of one character has width at most 3 (table entries are 2-bit, the
/// largest special case is 3). One more fact is read off its width table:
/// the ellipsis U+2026 alone has width 1 (its 2-bit entry in `WIDTH_LEAVES`
/// is 1, East Asian Ambiguous counted narrow). Nothing else about the widths
/// is stated.
#[verifier::external_body]
pub(crate) fn text_width(s: &str) -> (w: usize)
    ensures
        w == display_width(s@),
        s@.len() == 0 ==> w == 0,
        s@.len() == 1 ==> w <= 3,
        s@.len() == 1 && (s@[0] as u32) <= 0xA0 ==> w == 1,
        s@ =~= seq!['\u{2026}'] ==> w == 1,
{
    unicode_width::UnicodeWidthStr::width(s)
}

/// Width of one character, measured as the one-character text it forms.
pub open spec fn char_width(c: char) -> nat {
    display_width(seq![c])
}

/// Sum of the widths of the characters of `s`, each measured on its own.
pub open spec fn width_sum(s: Seq<char>) -> nat
    decreases s.len(),
{
    if s.len() == 0 {
        0
    } else {
        char_width(s[0]) + width_sum(s.skip(1))
    }
}

/// How many leading characters of `s` fit in `budget` columns, taking them
/// one by one until the next one would overflow the budget.
pub open spec fn fitting_len(s: Seq<char>, budget: nat) -> nat
    decreases s.len(),
{
    if s.len() == 0 || char_width(s[0]) > budget {
        0
    } else {
        1 + fitting_len(s.skip(1), (budget - char_width(s[0])) as nat)
    }
}

/// The text shown for `s` in `max_width` columns: the characters that fit;
/// when some were cut off and at least one was kept, the last kept character
/// is replaced by an ellipsis.
pub open spec fn truncated(s: Seq<char>, max_width: nat) -> Seq<char> {
    let k = fitting_len(s, max_width);
    if k < s.len() && k > 0 {
        s.take(k - 1).push('…')
    } else {
        s.take(k as int)
    }
}

/// Width of one character, measured as a text of that character alone.
pub fn width_of_char(c: char) -> (w: usize)
    ensures
        w == char_width(c),
        w <= 3,
        (c as u32) <= 0xA0 ==> w == 1,
        c == '\u{2026}' ==> w == 1,
{
    let mut one = String::new();
    push_char(&mut one, c);
    assert(one@ =~= seq![c]);
    text_width(one.as_str())
}

/// Truncates `s` to at most `max_width` display columns, marking a cut with
/// an ellipsis in place of the last character kept. The result fits in
/// `max_width` columns whenever every character kept is at least one column
/// wide (the ellipsis takes one).
pub fn truncate_str_by_width(s: &str, max_width: usize) -> (result: String)
    ensures
        result@ == truncated(s@, max_width as nat),
        char_width('\u{2026}') == 1,
        (forall|i: int|
            0 <= i < fitting_len(s@, max_width as nat) ==> #[trigger] char_width(s@[i]) >= 1)
            ==> width_sum(result@) <= max_width,
{
    // measuring the ellipsis once is what shows it to be one column wide
    let _ = width_of_char('\u{2026}');
    proof {
        law_truncated_title_fits(s@, max_width as nat);
        lemma_fitting_prefix_fits(s@, max_width as nat);
    }
    let chars = chars_of(s);
    let mut current_width: usize = 0;
    let mut kept: Vec<char> = Vec::new();
    let mut i: usize = 0;
    assert(chars@.skip(0) =~= chars@);
    while i < chars.len()
        invariant
            i <= chars.len(),
            chars@ == s@,
            current_width <= max_width,
            kept@ == s@.take(i as int),
            fitting_len(s@, max_width as nat) == i + fitting_len(
                s@.skip(i as int),
                (max_width - current_width) as nat,
            ),
        ensures
            i <= chars.len(),
            chars@ == s@,
            current_width <= max_width,
            kept@ == s@.take(i as int),
            fitting_len(s@, max_width as nat) == i + fitting_len(
                s@.skip(i as int),
                (max_width - current_width) as nat,
            ),
            i == chars.len() || char_width(s@[i as int]) > max_width - current_width,
        decreases chars.len() - i,
    {
        let c = chars[i];
        let w = width_of_char(c);
        if w > max_width - current_width {
            break;
        }
        assert(s@.skip(i as int).skip(1) =~= s@.skip(i + 1));
        kept.push(c);
        current_width += w;
        i += 1;
        assert(kept@ =~= s@.take(i as int));
    }
    let k = i;
    assert(s@.skip(k as int).len() == 0 || s@.skip(k as int)[0] == s@[k as int]);
    assert(fitting_len(s@, max_width as nat) == k);
    if k < chars.len() && k > 0 {
        kept.pop();
        kept.push('…');
        assert(kept@ =~= s@.take(k - 1).push('…'));
    }
    string_of(&kept)
}

/// The width of a text that starts with a given character.
proof fn lemma_width_sum_cons(c: char, t: Seq<char>)
    ensures
        width_sum(seq![c] + t) == char_width(c) + width_sum(t),
{
    let s = seq![c] + t;
    assert(s[0] == c);
    assert(s.skip(1) =~= t);
}

/// The width of a text grows by the width of a character pushed at its end.
proof fn lemma_width_sum_push(p: Seq<char>, c: char)
    ensures
        width_sum(p.push(c)) == width_sum(p) + char_width(c),
    decreases p.len(),
{
    if p.len() == 0 {
        assert(p.push(c).skip(1) =~= Seq::<char>::empty());
        assert(p.push(c)[0] == c);
        assert(width_sum(Seq::<char>::empty()) == 0);
    } else {
        lemma_width_sum_push(p.skip(1), c);
        assert(p.push(c).skip(1) =~= p.skip(1).push(c));
        assert(p.push(c)[0] == p[0]);
    }
}

/// The characters kept by `fitting_len` fit in the budget.
proof fn lemma_fitting_prefix_fits(s: Seq<char>, budget: nat)
    ensures
        fitting_len(s, budget) <= s.len(),
        width_sum(s.take(fitting_len(s, budget) as int)) <= budget,
    decreases s.len(),
{
    let k = fitting_len(s, budget);
    if s.len() == 0 || char_width(s[0]) > budget {
        assert(s.take(0) =~= Seq::<char>::empty());
    } else {
        let rest = (budget - char_width(s[0])) as nat;
        lemma_fitting_prefix_fits(s.skip(1), rest);
        assert(s.take(k as int) =~= seq![s[0]] + s.skip(1).take(fitting_len(s.skip(1), rest) as int));
        lemma_width_sum_cons(s[0], s.skip(1).take(fitting_len(s.skip(1), rest) as int));
    }
}

/// A text whose width fits the budget is kept whole.
proof fn lemma_fitting_text_kept_whole(s: Seq<char>, budget: nat)
    requires
        width_sum(s) <= budget,
    ensures
        fitting_len(s, budget) == s.len(),
    decreases s.len(),
{
    if s.len() > 0 {
        lemma_fitting_text_kept_whole(s.skip(1), (budget - char_width(s[0])) as nat);
    }
}

/// A title that fits in the available columns is shown in full, without an
/// ellipsis.
pub proof fn law_fitting_title_is_unchanged(s: Seq<char>, max_width: nat)
    requires
        width_sum(s) <= max_width,
    ensures
        truncated(s, max_width) == s,
{
    lemma_fitting_text_kept_whole(s, max_width);
    assert(s.take(s.len() as int) =~= s);
}

/// A truncated title is never longer than the full title, and overflows the
/// available columns by at most the width of the ellipsis; it stays within
/// them whenever the ellipsis is no wider than the character it replaces.
pub proof fn law_truncated_title_fits(s: Seq<char>, max_width: nat)
    ensures
        truncated(s, max_width).len() <= s.len(),
        width_sum(truncated(s, max_width)) <= max_width + char_width('…'),
        ({
            let k = fitting_len(s, max_width);
            (k < s.len() && k > 0 ==> char_width('…') <= char_width(s[k - 1]))
                ==> width_sum(truncated(s, max_width)) <= max_width
        }),
{
    lemma_fitting_prefix_fits(s, max_width);
    let k = fitting_len(s, max_width);
    if k < s.len() && k > 0 {
        let kept = s.take(k as int);
        assert(kept =~= s.take(k - 1).push(s[k - 1]));
        lemma_width_sum_push(s.take(k - 1), s[k - 1]);
        lemma_width_sum_push(s.take(k - 1), '…');
    }
}

} // verus!
