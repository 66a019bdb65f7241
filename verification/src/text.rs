//! Character-level helpers shared by the rest of the library.

use vstd::prelude::*;

verus! {

broadcast use vstd::string::group_string_axioms;

/// Appends one character to a string.
///
/// Trusted: calls `String::push`, which appends the character to the end of
/// the string (std documentation).
#[verifier::external_body]
pub(crate) fn push_char(s: &mut String, c: char)
    ensures
        final(s)@ == old(s)@.push(c),
{
    s.push(c);
}

/// Removes the last character of a string, if there is one.
///
/// Trusted: calls `String::pop`, which removes and returns the last character,
/// or returns `None` and leaves the string empty when it is empty (std
/// documentation).
#[verifier::external_body]
pub(crate) fn pop_char(s: &mut String) -> (c: Option<char>)
    ensures
        old(s)@.len() == 0 ==> c is None && final(s)@ == old(s)@,
        old(s)@.len() > 0 ==> c == Some(old(s)@.last()) && final(s)@ == old(s)@.drop_last(),
{
    s.pop()
}

/// The character of a decimal digit.
pub open spec fn digit_char(d: nat) -> char {
    (48 + d) as char
}

/// The decimal notation of a natural number, without leading zeros.
pub open spec fn decimal(n: nat) -> Seq<char>
    decreases n,
{
    if n < 10 {
        seq![digit_char(n)]
    } else {
        decimal(n / 10).push(digit_char(n % 10))
    }
}

/// Writes a number in decimal notation.
pub fn decimal_string(n: u64) -> (s: String)
    ensures
        s@ == decimal(n as nat),
    decreases n,
{
    if n < 10 {
        let mut s = String::new();
        push_char(&mut s, ((n as u8) + 48) as char);
        assert(s@ =~= seq![digit_char(n as nat)]);
        s
    } else {
        let mut s = decimal_string(n / 10);
        push_char(&mut s, (((n % 10) as u8) + 48) as char);
        s
    }
}

/// The characters of a string slice, in order.
pub fn chars_of(s: &str) -> (v: Vec<char>)
    ensures
        v@ == s@,
{
    let mut v: Vec<char> = Vec::new();
    for c in it: s.chars()
        invariant
            it.seq() == s@,
            v@ == s@.take(it.index() as int),
    {
        v.push(c);
    }
    assert(v@ =~= s@);
    v
}

/// A string holding the given characters, in order.
pub fn string_of(v: &Vec<char>) -> (s: String)
    ensures
        s@ == v@,
{
    let mut s = String::new();
    let mut i: usize = 0;
    while i < v.len()
        invariant
            i <= v.len(),
            s@ == v@.take(i as int),
        decreases v.len() - i,
    {
        push_char(&mut s, v[i]);
        i += 1;
        assert(s@ =~= v@.take(i as int));
    }
    assert(v@.take(v.len() as int) =~= v@);
    s
}

/// `s` with every occurrence of `pat` replaced by `rep`, scanning from the
/// left and never letting two replaced occurrences overlap.
pub open spec fn replaced(s: Seq<char>, pat: Seq<char>, rep: Seq<char>) -> Seq<char>
    decreases s.len(),
{
    if pat.len() == 0 || s.len() < pat.len() {
        s
    } else if s.take(pat.len() as int) == pat {
        rep + replaced(s.skip(pat.len() as int), pat, rep)
    } else {
        seq![s[0]] + replaced(s.skip(1), pat, rep)
    }
}

/// Whether `pat` occurs in `s` at position `i`, checked character by character.
fn matches_at(s: &Vec<char>, pat: &Vec<char>, i: usize) -> (b: bool)
    requires
        i <= s.len(),
    ensures
        b == (pat@.len() <= s@.len() - i && s@.skip(i as int).take(pat@.len() as int) == pat@),
{
    if pat.len() > s.len() - i {
        return false;
    }
    let mut j: usize = 0;
    while j < pat.len()
        invariant
            j <= pat.len(),
            pat.len() <= s.len() - i,
            forall|k: int| 0 <= k < j ==> s@[i + k] == pat@[k],
        decreases pat.len() - j,
    {
        if s[i + j] != pat[j] {
            assert(s@.skip(i as int).take(pat@.len() as int)[j as int] != pat@[j as int]);
            return false;
        }
        j += 1;
    }
    assert(s@.skip(i as int).take(pat@.len() as int) =~= pat@);
    true
}

/// Replaces every occurrence of `pat` in `text` by `rep`, left to right,
/// without overlaps (the behaviour of `str::replace`).
pub fn replace_all(text: &Vec<char>, pat: &Vec<char>, rep: &Vec<char>) -> (out: Vec<char>)
    requires
        pat@.len() > 0,
    ensures
        out@ == replaced(text@, pat@, rep@),
{
    let mut out: Vec<char> = Vec::new();
    let mut i: usize = 0;
    assert(text@.skip(0) =~= text@);
    while i < text.len()
        invariant
            i <= text.len(),
            pat@.len() > 0,
            replaced(text@, pat@, rep@) == out@ + replaced(text@.skip(i as int), pat@, rep@),
        decreases text.len() - i,
    {
        let ghost rest = text@.skip(i as int);
        if matches_at(text, pat, i) {
            let mut j: usize = 0;
            let ghost before = out@;
            while j < rep.len()
                invariant
                    j <= rep.len(),
                    out@ == before + rep@.take(j as int),
                decreases rep.len() - j,
            {
                out.push(rep[j]);
                j += 1;
                assert(out@ =~= before + rep@.take(j as int));
            }
            assert(rep@.take(rep@.len() as int) =~= rep@);
            assert(rest.skip(pat@.len() as int) =~= text@.skip(i + pat@.len()));
            assert(out@ + replaced(text@.skip(i + pat@.len()), pat@, rep@)
                =~= before + (rep@ + replaced(rest.skip(pat@.len() as int), pat@, rep@)));
            i += pat.len();
        } else {
            let ghost before = out@;
            out.push(text[i]);
            proof {
                if rest.len() >= pat@.len() {
                    assert(rest.skip(1) =~= text@.skip(i + 1));
                    assert(out@ + replaced(text@.skip(i + 1), pat@, rep@)
                        =~= before + (seq![rest[0]] + replaced(rest.skip(1), pat@, rep@)));
                } else {
                    // too short for another occurrence: the rest is copied as it is
                    assert(replaced(rest, pat@, rep@) == rest);
                    assert(replaced(text@.skip(i + 1), pat@, rep@) == text@.skip(i + 1));
                    assert(rest =~= seq![text@[i as int]] + text@.skip(i + 1));
                    assert(out@ + replaced(text@.skip(i + 1), pat@, rep@) =~= before + rest);
                }
            }
            i += 1;
        }
    }
    assert(text@.skip(i as int).len() == 0);
    assert(out@ + replaced(text@.skip(i as int), pat@, rep@) =~= out@);
    out
}

/// Whether `p` occurs somewhere in `t`.
pub open spec fn occurs_in(t: Seq<char>, p: Seq<char>) -> bool {
    exists|i: int| 0 <= i && i + p.len() <= t.len() && #[trigger] t.subrange(i, i + p.len()) == p
}

/// A text in which `p` does not occur has no occurrence after a cut either.
pub proof fn lemma_absent_after_skip(t: Seq<char>, p: Seq<char>, k: int)
    requires
        0 <= k <= t.len(),
        !occurs_in(t, p),
    ensures
        !occurs_in(t.skip(k), p),
{
    if occurs_in(t.skip(k), p) {
        let i = choose|i: int| 0 <= i && i + p.len() <= t.skip(k).len() && #[trigger] t.skip(
            k,
        ).subrange(i, i + p.len()) == p;
        assert(t.subrange(i + k, i + k + p.len()) =~= t.skip(k).subrange(i, i + p.len()));
    }
}

/// Replacing a pattern that does not occur changes nothing.
pub proof fn lemma_replaced_absent_is_identity(t: Seq<char>, pat: Seq<char>, rep: Seq<char>)
    requires
        pat.len() > 0,
        !occurs_in(t, pat),
    ensures
        replaced(t, pat, rep) == t,
    decreases t.len(),
{
    if t.len() >= pat.len() {
        assert(t.take(pat.len() as int) != pat) by {
            if t.take(pat.len() as int) == pat {
                assert(t.subrange(0int, 0int + pat.len()) =~= t.take(pat.len() as int));
            }
        }
        lemma_absent_after_skip(t, pat, 1);
        lemma_replaced_absent_is_identity(t.skip(1), pat, rep);
        assert(t =~= seq![t[0]] + t.skip(1));
    }
}

/// A text without `<` in front of another keeps its place when a pattern
/// starting with `<` is replaced.
pub proof fn lemma_replaced_after_plain_prefix(
    a: Seq<char>,
    t: Seq<char>,
    pat: Seq<char>,
    rep: Seq<char>,
)
    requires
        pat.len() > 0,
        pat[0] == '<',
        !a.contains('<'),
    ensures
        replaced(a + t, pat, rep) == a + replaced(t, pat, rep),
    decreases a.len(),
{
    let s = a + t;
    if a.len() == 0 {
        assert(s =~= t);
        assert(a + replaced(t, pat, rep) =~= replaced(t, pat, rep));
    } else if s.len() < pat.len() {
        assert(replaced(t, pat, rep) == t);
    } else {
        assert(a[0] != '<') by {
            if a[0] == '<' {
                assert(a.contains('<'));
            }
        }
        assert(s.take(pat.len() as int)[0] == a[0]);
        assert(!a.skip(1).contains('<')) by {
            if a.skip(1).contains('<') {
                let k = choose|k: int| 0 <= k < a.skip(1).len() && a.skip(1)[k] == '<';
                assert(a[k + 1] == '<');
            }
        }
        assert(s.skip(1) =~= a.skip(1) + t);
        lemma_replaced_after_plain_prefix(a.skip(1), t, pat, rep);
        assert(a =~= seq![a[0]] + a.skip(1));
    }
}

/// When the first `m` characters of a replacement's result all belong to `p`,
/// and the replacement text starts with a character that does not, those
/// characters were copied from the start of the text.
proof fn lemma_replaced_prefix_copied(
    u: Seq<char>,
    pat: Seq<char>,
    rep: Seq<char>,
    p: Seq<char>,
    m: int,
)
    requires
        pat.len() > 0,
        rep.len() > 0,
        !p.contains(rep[0]),
        0 <= m <= replaced(u, pat, rep).len(),
        forall|i: int| 0 <= i < m ==> p.contains(#[trigger] replaced(u, pat, rep)[i]),
    ensures
        m <= u.len(),
        u.take(m) == replaced(u, pat, rep).take(m),
    decreases u.len(),
{
    let out = replaced(u, pat, rep);
    if m == 0 {
        assert(u.take(0) =~= out.take(0));
    } else if u.len() < pat.len() {
    } else if u.take(pat.len() as int) == pat {
        assert(out[0] == rep[0]);
        assert(p.contains(out[0]));
    } else {
        let r = replaced(u.skip(1), pat, rep);
        assert(out == seq![u[0]] + r);
        assert forall|i: int| 0 <= i < m - 1 implies p.contains(#[trigger] r[i]) by {
            assert(r[i] == out[i + 1]);
            assert(p.contains(out[i + 1]));
        }
        lemma_replaced_prefix_copied(u.skip(1), pat, rep, p, m - 1);
        assert(u.take(m) =~= seq![u[0]] + u.skip(1).take(m - 1));
        assert(out.take(m) =~= seq![u[0]] + r.take(m - 1));
    }
}

/// Replacing by a text none of whose characters belong to `p` cannot make `p`
/// occur where it did not.
pub proof fn lemma_replaced_keeps_absence(
    t: Seq<char>,
    pat: Seq<char>,
    rep: Seq<char>,
    p: Seq<char>,
)
    requires
        pat.len() > 0,
        rep.len() > 0,
        p.len() > 0,
        forall|j: int, k: int| 0 <= j < rep.len() && 0 <= k < p.len() ==> rep[j] != p[k],
        !occurs_in(t, p),
    ensures
        !occurs_in(replaced(t, pat, rep), p),
    decreases t.len(),
{
    let out = replaced(t, pat, rep);
    let lp = p.len() as int;
    if t.len() < pat.len() {
    } else if t.take(pat.len() as int) == pat {
        let rest = t.skip(pat.len() as int);
        lemma_absent_after_skip(t, p, pat.len() as int);
        lemma_replaced_keeps_absence(rest, pat, rep, p);
        let r = replaced(rest, pat, rep);
        assert(out == rep + r);
        if occurs_in(out, p) {
            let i = choose|i: int| 0 <= i && i + lp <= out.len() && #[trigger] out.subrange(
                i,
                i + lp,
            ) == p;
            if i < rep.len() {
                assert(out.subrange(i, i + lp)[0] == rep[i]);
            } else {
                assert(r.subrange(i - rep.len(), i - rep.len() + lp) =~= out.subrange(i, i + lp));
            }
        }
    } else {
        lemma_absent_after_skip(t, p, 1);
        lemma_replaced_keeps_absence(t.skip(1), pat, rep, p);
        let r = replaced(t.skip(1), pat, rep);
        assert(out == seq![t[0]] + r);
        if occurs_in(out, p) {
            let i = choose|i: int| 0 <= i && i + lp <= out.len() && #[trigger] out.subrange(
                i,
                i + lp,
            ) == p;
            if i >= 1 {
                assert(r.subrange(i - 1, i - 1 + lp) =~= out.subrange(i, i + lp));
            } else {
                assert forall|k: int| 0 <= k < lp - 1 implies p.contains(#[trigger] r[k]) by {
                    assert(r[k] == out.subrange(0, lp)[k + 1]);
                    assert(p[k + 1] == r[k]);
                }
                assert(!p.contains(rep[0])) by {
                    if p.contains(rep[0]) {
                        let k = choose|k: int| 0 <= k < p.len() && p[k] == rep[0];
                        assert(rep[0] != p[k]);
                    }
                }
                lemma_replaced_prefix_copied(t.skip(1), pat, rep, p, lp - 1);
                assert(t.subrange(0, lp) =~= seq![t[0]] + t.skip(1).take(lp - 1));
                assert(out.subrange(0, lp) =~= seq![t[0]] + r.take(lp - 1));
            }
        }
    }
}

/// The number that a text of decimal digits denotes.
pub open spec fn digits_value(s: Seq<char>) -> nat
    decreases s.len(),
{
    if s.len() == 0 {
        0
    } else {
        digits_value(s.drop_last()) * 10 + ((s.last() as int - '0' as int) as nat)
    }
}

/// Whether every character of `s` is one of `0` to `9`.
pub open spec fn is_digit_text(s: Seq<char>) -> bool {
    forall|i: int| 0 <= i < s.len() ==> '0' <= #[trigger] s[i] <= '9'
}

/// The decimal notation of `n` is a nonempty text of digits, without a
/// leading zero unless `n` is zero, that reads back as `n`.
pub proof fn law_decimal_reads_back(n: nat)
    ensures
        decimal(n).len() > 0,
        is_digit_text(decimal(n)),
        digits_value(decimal(n)) == n,
        decimal(n)[0] == '0' <==> n == 0,
    decreases n,
{
    if n < 10 {
        let d = decimal(n);
        assert(d == seq![digit_char(n)]);
        assert(d.drop_last() =~= Seq::<char>::empty());
        assert(digit_char(n) as int == 48 + n);
        assert('0' as int == 48);
        assert(d.last() == digit_char(n));
        assert(digits_value(d.drop_last()) == 0);
        assert(digits_value(d) == digits_value(d.drop_last()) * 10 + ((d.last() as int - '0' as int) as nat));
    } else {
        law_decimal_reads_back(n / 10);
        let h = decimal(n / 10);
        let d = decimal(n);
        assert(d == h.push(digit_char(n % 10)));
        assert(d.drop_last() =~= h);
        assert(digit_char(n % 10) as int == 48 + n % 10);
        assert(n == (n / 10) * 10 + n % 10) by (nonlinear_arith);
        assert('0' as int == 48);
        assert(d.last() == digit_char(n % 10));
        assert(digits_value(d) == digits_value(h) * 10 + ((d.last() as int - '0' as int) as nat));
        assert(n / 10 != 0);
        assert(d[0] == h[0]);
    }
}

/// Every occurrence of a pattern is replaced, not only the first: when `pat`
/// does not occur in `a` and its first character does not come back later in
/// it (as with a tag `<...>`), the first occurrence in `a + pat + b` is the one
/// after `a`, and the replacement goes on through `b`.
pub proof fn law_replaced_rewrites_every_occurrence(
    a: Seq<char>,
    pat: Seq<char>,
    rep: Seq<char>,
    b: Seq<char>,
)
    requires
        pat.len() > 0,
        !occurs_in(a, pat),
        forall|k: int| 0 < k < pat.len() ==> #[trigger] pat[k] != pat[0],
    ensures
        replaced(a + pat + b, pat, rep) == a + rep + replaced(b, pat, rep),
    decreases a.len(),
{
    let s = a + pat + b;
    let lp = pat.len() as int;
    if a.len() == 0 {
        assert(s.take(lp) =~= pat);
        assert(s.skip(lp) =~= b);
        assert(a + rep + replaced(b, pat, rep) =~= rep + replaced(b, pat, rep));
    } else {
        assert(s.take(lp) != pat) by {
            if s.take(lp) == pat {
                if lp <= a.len() {
                    assert(a.subrange(0, 0 + lp) =~= s.take(lp));
                } else {
                    assert(s[a.len() as int] == pat[0]);
                    assert(s.take(lp)[a.len() as int] == s[a.len() as int]);
                    assert(pat[a.len() as int] != pat[0]);
                }
            }
        }
        lemma_absent_after_skip(a, pat, 1);
        law_replaced_rewrites_every_occurrence(a.skip(1), pat, rep, b);
        assert(s.skip(1) =~= a.skip(1) + pat + b);
        assert(s[0] == a[0]);
        assert(a + rep + replaced(b, pat, rep) =~= seq![a[0]] + (a.skip(1) + rep + replaced(
            b,
            pat,
            rep,
        )));
    }
}

/// No occurrence of the pattern is left once it is replaced by a text that
/// shares no character with it.
pub proof fn law_replaced_leaves_no_occurrence(t: Seq<char>, pat: Seq<char>, rep: Seq<char>)
    requires
        pat.len() > 0,
        rep.len() > 0,
        forall|j: int, k: int| 0 <= j < rep.len() && 0 <= k < pat.len() ==> rep[j] != pat[k],
    ensures
        !occurs_in(replaced(t, pat, rep), pat),
    decreases t.len(),
{
    let out = replaced(t, pat, rep);
    let lp = pat.len() as int;
    if t.len() < pat.len() {
    } else if t.take(lp) == pat {
        let rest = t.skip(lp);
        law_replaced_leaves_no_occurrence(rest, pat, rep);
        let r = replaced(rest, pat, rep);
        assert(out == rep + r);
        if occurs_in(out, pat) {
            let i = choose|i: int| 0 <= i && i + lp <= out.len() && #[trigger] out.subrange(
                i,
                i + lp,
            ) == pat;
            if i < rep.len() {
                assert(out.subrange(i, i + lp)[0] == rep[i]);
            } else {
                assert(r.subrange(i - rep.len(), i - rep.len() + lp) =~= out.subrange(i, i + lp));
            }
        }
    } else {
        law_replaced_leaves_no_occurrence(t.skip(1), pat, rep);
        let r = replaced(t.skip(1), pat, rep);
        assert(out == seq![t[0]] + r);
        if occurs_in(out, pat) {
            let i = choose|i: int| 0 <= i && i + lp <= out.len() && #[trigger] out.subrange(
                i,
                i + lp,
            ) == pat;
            if i >= 1 {
                assert(r.subrange(i - 1, i - 1 + lp) =~= out.subrange(i, i + lp));
            } else {
                assert forall|k: int| 0 <= k < lp - 1 implies pat.contains(#[trigger] r[k]) by {
                    assert(r[k] == out.subrange(0, lp)[k + 1]);
                    assert(pat[k + 1] == r[k]);
                }
                assert(!pat.contains(rep[0])) by {
                    if pat.contains(rep[0]) {
                        let k = choose|k: int| 0 <= k < pat.len() && pat[k] == rep[0];
                        assert(rep[0] != pat[k]);
                    }
                }
                lemma_replaced_prefix_copied(t.skip(1), pat, rep, pat, lp - 1);
                assert(t.take(lp) =~= seq![t[0]] + t.skip(1).take(lp - 1));
                assert(out.subrange(0, lp) =~= seq![t[0]] + r.take(lp - 1));
            }
        }
    }
}

} // verus!
