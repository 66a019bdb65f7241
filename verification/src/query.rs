//! How the worker turns a search query into a `gh` invocation, and how it
//! turns the outcome of that invocation into a response.

use vstd::prelude::*;
use vstd::string::StringExecFns;
use crate::issue::{AppResponse, Issue};
use crate::text::{chars_of, string_of};

verus! {

/// Unicode `White_Space`, the characters that `str::trim` removes.
pub open spec fn is_white_space(c: char) -> bool {
    ||| '\u{9}' <= c <= '\u{d}'
    ||| c == ' '
    ||| c == '\u{85}'
    ||| c == '\u{a0}'
    ||| c == '\u{1680}'
    ||| '\u{2000}' <= c <= '\u{200a}'
    ||| c == '\u{2028}'
    ||| c == '\u{2029}'
    ||| c == '\u{202f}'
    ||| c == '\u{205f}'
    ||| c == '\u{3000}'
}

/// `s` without its leading white space.
pub open spec fn trim_start(s: Seq<char>) -> Seq<char>
    decreases s.len(),
{
    if s.len() > 0 && is_white_space(s[0]) {
        trim_start(s.skip(1))
    } else {
        s
    }
}

/// `s` without its trailing white space.
pub open spec fn trim_end(s: Seq<char>) -> Seq<char>
    decreases s.len(),
{
    if s.len() > 0 && is_white_space(s.last()) {
        trim_end(s.drop_last())
    } else {
        s
    }
}

/// `s` without leading and trailing white space.
pub open spec fn trimmed(s: Seq<char>) -> Seq<char> {
    trim_end(trim_start(s))
}

/// Whether every character of `s` is an ASCII decimal digit.
pub open spec fn all_digits(s: Seq<char>) -> bool {
    forall|i: int| 0 <= i < s.len() ==> '0' <= #[trigger] s[i] <= '9'
}

/// Whether a (trimmed) query asks for one issue by number: digits, possibly
/// after a `#`, and at least one of them.
pub open spec fn is_number_query(t: Seq<char>) -> bool {
    ||| t.len() > 1 && t[0] == '#' && all_digits(t.skip(1))
    ||| t.len() > 0 && all_digits(t)
}

/// The issue number written in a number query, without its `#`.
pub open spec fn number_text(t: Seq<char>) -> Seq<char> {
    if t.len() > 0 && t[0] == '#' {
        t.skip(1)
    } else {
        t
    }
}

/// What the worker asks `gh` for.
#[derive(Debug)]
pub enum FetchPlan {
    /// `gh issue view <number>`: one issue by its number.
    ViewIssue(String),
    /// `gh issue list`, with `-S <search>` when a search is given.
    ListIssues(Option<String>),
}

/// Whether `plan` is the plan for the search query `q`.
pub open spec fn plans(q: Seq<char>, plan: FetchPlan) -> bool {
    let t = trimmed(q);
    match plan {
        FetchPlan::ViewIssue(n) => is_number_query(t) && n@ == number_text(t),
        FetchPlan::ListIssues(search) => !is_number_query(t) && match search {
            Some(s) => t.len() > 0 && s@ == t,
            None => t.len() == 0,
        },
    }
}

/// Removes leading and trailing white space from a query.
pub fn trim_query(q: &str) -> (t: Vec<char>)
    ensures
        t@ == trimmed(q@),
{
    let chars = chars_of(q);
    let n = chars.len();
    let mut i: usize = 0;
    assert(chars@.skip(0) =~= chars@);
    while i < n && is_white_space_char(chars[i])
        invariant
            i <= n,
            n == chars@.len(),
            trim_start(q@) == trim_start(chars@.skip(i as int)),
            chars@ == q@,
        decreases n - i,
    {
        assert(chars@.skip(i as int).skip(1) =~= chars@.skip(i + 1));
        i += 1;
    }
    let ghost start = chars@.skip(i as int);
    assert(trim_start(q@) == start);
    let mut j: usize = n;
    assert(start.take((n - i) as int) =~= start);
    while j > i && is_white_space_char(chars[j - 1])
        invariant
            i <= j <= n,
            n == chars@.len(),
            start == chars@.skip(i as int),
            trim_end(start) == trim_end(start.take(j - i)),
        decreases j,
    {
        assert(start.take(j - i).drop_last() =~= start.take(j - 1 - i));
        j -= 1;
    }
    let mut t: Vec<char> = Vec::new();
    let mut k: usize = i;
    while k < j
        invariant
            i <= k <= j <= n,
            n == chars@.len(),
            start == chars@.skip(i as int),
            t@ == start.take(k - i),
        decreases j - k,
    {
        t.push(chars[k]);
        k += 1;
        assert(t@ =~= start.take(k - i));
    }
    t
}

/// Whether a character is Unicode white space.
fn is_white_space_char(c: char) -> (b: bool)
    ensures
        b == is_white_space(c),
{
    ('\u{9}' <= c && c <= '\u{d}') || c == ' ' || c == '\u{85}' || c == '\u{a0}' || c == '\u{1680}'
        || ('\u{2000}' <= c && c <= '\u{200a}') || c == '\u{2028}' || c == '\u{2029}' || c
        == '\u{202f}' || c == '\u{205f}' || c == '\u{3000}'
}

/// Whether all characters of `v` from position `from` on are decimal digits.
fn digits_from(v: &Vec<char>, from: usize) -> (b: bool)
    requires
        from <= v.len(),
    ensures
        b == all_digits(v@.skip(from as int)),
{
    let mut i = from;
    while i < v.len()
        invariant
            from <= i <= v.len(),
            forall|k: int| from <= k < i ==> '0' <= #[trigger] v@[k] <= '9',
        decreases v.len() - i,
    {
        if !('0' <= v[i] && v[i] <= '9') {
            assert(v@.skip(from as int)[i - from] == v@[i as int]);
            return false;
        }
        i += 1;
    }
    assert forall|k: int| 0 <= k < v@.skip(from as int).len() implies '0' <= #[trigger] v@.skip(
        from as int,
    )[k] <= '9' by {
        assert(v@.skip(from as int)[k] == v@[from + k]);
    }
    true
}

/// Decides what to ask `gh` for a search query: a single issue when the
/// trimmed query is an issue number (`123` or `#123`), otherwise the issue
/// list, searched with the trimmed query unless it is empty.
pub fn plan_fetch(query: &str) -> (plan: FetchPlan)
    ensures
        plans(query@, plan),
{
    let t = trim_query(query);
    let hash_number = t.len() > 1 && t[0] == '#' && digits_from(&t, 1);
    let plain_number = t.len() > 0 && digits_from(&t, 0);
    assert(t@.skip(0) =~= t@);
    if hash_number || plain_number {
        if t[0] == '#' {
            let mut digits: Vec<char> = Vec::new();
            let mut k: usize = 1;
            while k < t.len()
                invariant
                    1 <= k <= t.len(),
                    digits@ == t@.skip(1).take(k - 1),
                decreases t.len() - k,
            {
                digits.push(t[k]);
                k += 1;
                assert(digits@ =~= t@.skip(1).take(k - 1));
            }
            assert(t@.skip(1).take(t.len() - 1) =~= t@.skip(1));
            FetchPlan::ViewIssue(string_of(&digits))
        } else {
            FetchPlan::ViewIssue(string_of(&t))
        }
    } else if t.len() == 0 {
        FetchPlan::ListIssues(None)
    } else {
        FetchPlan::ListIssues(Some(string_of(&t)))
    }
}

/// What became of running `gh` for a fetch.
#[derive(Debug)]
pub enum FetchOutcome {
    /// `gh` could not be started; the error message.
    NotRun(String),
    /// `gh` exited with failure; what it wrote to standard error.
    Failed(String),
    /// `gh` succeeded and its output was read as these issues.
    Parsed(Vec<Issue>),
    /// `gh` succeeded but its output could not be read; the parser's message.
    Unparsable(String),
}

/// What became of running `gh` to close or reopen an issue.
#[derive(Debug)]
pub enum CommandOutcome {
    /// `gh` could not be started; the error message.
    NotRun(String),
    /// `gh` exited with failure; what it wrote to standard error.
    Failed(String),
    /// `gh` succeeded.
    Succeeded,
}

/// The worker's response to a fetch: a failed look-up of one issue by
/// number means that no such issue exists, so it yields an empty list; a
/// failed listing reports `gh`'s error output.
pub fn fetch_response(plan: &FetchPlan, outcome: FetchOutcome) -> (resp: AppResponse)
    ensures
        match outcome {
            FetchOutcome::NotRun(e) => resp matches AppResponse::FetchError(m) && m@ == e@,
            FetchOutcome::Failed(e) => match plan {
                FetchPlan::ViewIssue(_) => resp matches AppResponse::FetchSuccess(v) && v@.len()
                    == 0,
                FetchPlan::ListIssues(_) => resp matches AppResponse::FetchError(m) && m@ == e@,
            },
            FetchOutcome::Parsed(issues) => resp matches AppResponse::FetchSuccess(v) && v
                == issues,
            FetchOutcome::Unparsable(e) => resp matches AppResponse::FetchError(m) && m@
                == "Parse error: "@ + e@,
        },
{
    match outcome {
        FetchOutcome::NotRun(e) => AppResponse::FetchError(e),
        FetchOutcome::Failed(e) => match plan {
            FetchPlan::ViewIssue(_) => AppResponse::FetchSuccess(Vec::new()),
            FetchPlan::ListIssues(_) => AppResponse::FetchError(e),
        },
        FetchOutcome::Parsed(issues) => AppResponse::FetchSuccess(issues),
        FetchOutcome::Unparsable(e) => {
            let mut m = String::from_str("Parse error: ");
            m.append(e.as_str());
            AppResponse::FetchError(m)
        },
    }
}

/// The worker's response to closing (`reopen` false) or reopening (`reopen`
/// true) issue `number`: success, or the error with `gh`'s message.
pub fn state_change_response(number: u32, reopen: bool, outcome: CommandOutcome) -> (resp:
    AppResponse)
    ensures
        match outcome {
            CommandOutcome::Succeeded => if reopen {
                resp == AppResponse::ReopenSuccess(number)
            } else {
                resp == AppResponse::CloseSuccess(number)
            },
            CommandOutcome::NotRun(e) | CommandOutcome::Failed(e) => if reopen {
                resp matches AppResponse::ReopenError { number: n, err } && n == number && err@
                    == e@
            } else {
                resp matches AppResponse::CloseError { number: n, err } && n == number && err@
                    == e@
            },
        },
{
    match outcome {
        CommandOutcome::Succeeded => if reopen {
            AppResponse::ReopenSuccess(number)
        } else {
            AppResponse::CloseSuccess(number)
        },
        CommandOutcome::NotRun(e) | CommandOutcome::Failed(e) => if reopen {
            AppResponse::ReopenError { number, err: e }
        } else {
            AppResponse::CloseError { number, err: e }
        },
    }
}

/// The repository name `owner/name` that `gh` works on.
pub fn repo_slug(owner: &str, name: &str) -> (slug: String)
    ensures
        slug@ == owner@ + "/"@ + name@,
{
    let mut slug = String::from_str(owner);
    slug.append("/");
    slug.append(name);
    slug
}

proof fn lemma_trim_start_push_space(q: Seq<char>, c: char)
    requires
        is_white_space(c),
    ensures
        trim_start(q.push(c)) == if trim_start(q).len() == 0 {
            Seq::<char>::empty()
        } else {
            trim_start(q).push(c)
        },
    decreases q.len(),
{
    if q.len() == 0 {
        assert(q.push(c).skip(1) =~= Seq::<char>::empty());
        assert(trim_start(Seq::<char>::empty()) == Seq::<char>::empty());
    } else {
        assert(q.push(c)[0] == q[0]);
        if is_white_space(q[0]) {
            assert(q.push(c).skip(1) =~= q.skip(1).push(c));
            lemma_trim_start_push_space(q.skip(1), c);
        }
    }
}

/// White space around a search query does not change what is searched for.
pub proof fn law_surrounding_space_is_ignored(q: Seq<char>)
    ensures
        trimmed(seq![' '] + q + seq![' ']) == trimmed(q),
{
    let padded = seq![' '] + q + seq![' '];
    assert(padded[0] == ' ');
    assert(padded.skip(1) =~= q.push(' '));
    lemma_trim_start_push_space(q, ' ');
    let ts = trim_start(q);
    if ts.len() > 0 {
        assert(ts.push(' ').drop_last() =~= ts);
        assert(ts.push(' ').last() == ' ');
    }
}

/// A query of digits `0` to `9`, written bare or after a `#`, asks `gh` for
/// the issue with that number.
pub proof fn law_digit_queries_view_the_issue(d: Seq<char>, plan: FetchPlan, hashed: bool)
    requires
        d.len() > 0,
        forall|i: int| 0 <= i < d.len() ==> '0' <= #[trigger] d[i] <= '9',
        plans(if hashed { seq!['#'] + d } else { d }, plan),
    ensures
        plan matches FetchPlan::ViewIssue(n) && n@ == d,
{
    let q = if hashed { seq!['#'] + d } else { d };
    assert(q.len() > 0);
    assert(!is_white_space(q[0]));
    assert(q.last() == d.last());
    assert(!is_white_space(q.last()));
    assert(trim_start(q) == q);
    assert(trim_end(q) == q);
    assert(trimmed(q) == q);
    if hashed {
        assert(q.skip(1) =~= d);
        assert(all_digits(q.skip(1)));
    } else {
        assert(all_digits(q));
        assert(q[0] != '#');
    }
    assert(is_number_query(q));
}

} // verus!
