//! The dashboard's state and how it reacts to keys, mouse events and the
//! worker's responses. The terminal loop performs the effects it returns.

use vstd::prelude::*;
use vstd::string::StringExecFns;
use std::collections::HashSet;
use crate::issue::{AppRequest, AppResponse, Issue};
use crate::markdown::{clean_github_markdown, markdown_line_count};
use crate::text::{decimal_string, pop_char, push_char};

verus! {

broadcast use vstd::std_specs::hash::group_hash_axioms;

/// The issues listed, in the order `gh` gave them, with the index of the
/// selected one.
struct IssueList {
    issues: Vec<Issue>,
    selected: Option<usize>,
}

/// The state of the dashboard.
pub struct App {
    repo: String,
    list: IssueList,
    search_query: String,
    search_focused: bool,
    details_scroll: usize,
    status_log: String,
    is_loading: bool,
    closing_issues: HashSet<u32>,
    reopening_issues: HashSet<u32>,
}

/// What the dashboard holds, as mathematical values.
#[verifier::ext_equal]
pub struct AppView {
    /// The repository, as `owner/name`.
    pub repo: Seq<char>,
    /// The issues listed, in the order `gh` gave them.
    pub issues: Seq<Issue>,
    /// The index of the selected issue.
    pub selected: Option<usize>,
    pub search_query: Seq<char>,
    /// Whether keys go to the search field.
    pub search_focused: bool,
    /// How many lines of the selected issue's body are scrolled away.
    pub details_scroll: usize,
    /// The message shown in the status line.
    pub status_log: Seq<char>,
    /// Whether a fetch is under way.
    pub is_loading: bool,
    /// Issues whose closing was requested and not yet answered.
    pub closing_issues: Set<u32>,
    /// Issues whose reopening was requested and not yet answered.
    pub reopening_issues: Set<u32>,
}

impl View for App {
    type V = AppView;

    closed spec fn view(&self) -> AppView {
        AppView {
            repo: self.repo@,
            issues: self.list.issues@,
            selected: self.list.selected,
            search_query: self.search_query@,
            search_focused: self.search_focused,
            details_scroll: self.details_scroll,
            status_log: self.status_log@,
            is_loading: self.is_loading,
            closing_issues: self.closing_issues@,
            reopening_issues: self.reopening_issues@,
        }
    }
}

/// A key of the keyboard, as far as the dashboard tells keys apart.
#[derive(Debug, Clone, Copy)]
pub enum Key {
    Char(char),
    Enter,
    Esc,
    Backspace,
    Up,
    Down,
    PageUp,
    PageDown,
    /// A function key, by its number.
    F(u8),
    Other,
}

/// A key press with the modifiers that matter to the dashboard.
#[derive(Debug, Clone, Copy)]
pub struct KeyPress {
    pub key: Key,
    pub ctrl: bool,
    pub alt: bool,
}

/// What the terminal loop has to do after an input.
#[derive(Debug)]
pub enum Effect {
    /// Redraw and wait for the next input.
    Continue,
    /// Leave the dashboard.
    Quit,
    /// Send a request to the worker.
    Send(AppRequest),
    /// Open the issue with this number in the web browser.
    OpenInBrowser(u32),
}

/// The mouse events the dashboard reacts to.
#[derive(Debug, Clone, Copy)]
pub enum MouseKind {
    /// The left button went down.
    LeftDown,
    ScrollDown,
    ScrollUp,
}

/// A mouse event at a terminal cell.
#[derive(Debug, Clone, Copy)]
pub struct MouseInput {
    pub kind: MouseKind,
    pub column: u16,
    pub row: u16,
}

/// A rectangle of terminal cells.
#[derive(Debug, Clone, Copy)]
pub struct Area {
    pub x: u16,
    pub y: u16,
    pub width: u16,
    pub height: u16,
}

impl Area {
    /// Whether the row lies within the rectangle's rows.
    pub open spec fn spans_row(self, row: u16) -> bool {
        self.y <= row < self.y + self.height
    }

    /// Whether the column lies within the rectangle's columns.
    pub open spec fn spans_column(self, column: u16) -> bool {
        self.x <= column < self.x + self.width
    }

    /// Whether the rectangle holds the cell.
    pub open spec fn holds(self, column: u16, row: u16) -> bool {
        self.spans_row(row) && self.spans_column(column)
    }

    /// Whether the row lies within the rectangle's rows.
    pub fn has_row(&self, row: u16) -> (b: bool)
        ensures
            b == self.spans_row(row),
    {
        (self.y as u32) <= (row as u32) && (row as u32) < (self.y as u32) + (self.height as u32)
    }

    /// Whether the column lies within the rectangle's columns.
    pub fn has_column(&self, column: u16) -> (b: bool)
        ensures
            b == self.spans_column(column),
    {
        (self.x as u32) <= (column as u32) && (column as u32) < (self.x as u32) + (
        self.width as u32)
    }
}

/// Where the search field, the issue list and the details were drawn.
#[derive(Debug, Clone, Copy)]
pub struct ScreenAreas {
    pub search: Area,
    pub issues: Area,
    pub details: Area,
}

/// The status line after a click on the search field.
pub open spec fn search_focus_message() -> Seq<char> {
    "Search input focused. Press Enter to search, Esc to cancel."@
}

/// The index of the list item drawn at `row` of the issue list, each item
/// taking three rows below the list's top border, the first shown item
/// being item `offset`.
pub open spec fn clicked_item(list: Area, row: u16, offset: usize) -> int {
    offset + (row - list.y - 1) / 3
}

/// The scroll position of a body of `total_lines` lines with
/// `display_height` visible: when the body is taller than the view, the
/// scroll stops where the last line reaches the bottom.
pub open spec fn clamped_scroll(scroll: usize, total_lines: nat, display_height: nat) -> usize {
    if scroll + display_height > total_lines && total_lines > display_height {
        (total_lines - display_height) as usize
    } else {
        scroll
    }
}

/// The status line shown at start-up.
pub open spec fn welcome_message() -> Seq<char> {
    "Press '/' or click search to search. 'c' to close issues."@
}

/// The status line while the issues of `repo` are loading.
pub open spec fn loading_message(repo: Seq<char>) -> Seq<char> {
    "Loading issues for "@ + repo + "..."@
}

/// The status line after closing issue `n` was requested.
pub open spec fn closing_message(n: u32) -> Seq<char> {
    "Closing issue #"@ + crate::text::decimal(n as nat) + "..."@
}

/// The status line after reopening issue `n` was requested.
pub open spec fn reopening_message(n: u32) -> Seq<char> {
    "Reopening issue #"@ + crate::text::decimal(n as nat) + "..."@
}

/// The status line after a listing of `n` issues arrived.
pub open spec fn loaded_message(n: nat) -> Seq<char> {
    "Loaded "@ + crate::text::decimal(n) + " issues successfully."@
}

/// The status line after a fetch failed with `err`.
pub open spec fn fetch_failed_message(err: Seq<char>) -> Seq<char> {
    "Failed to fetch issues: "@ + err
}

/// The status line after issue `n` was closed.
pub open spec fn closed_message(n: u32) -> Seq<char> {
    "Issue #"@ + crate::text::decimal(n as nat) + " closed successfully."@
}

/// The status line after closing issue `n` failed with `err`.
pub open spec fn close_failed_message(n: u32, err: Seq<char>) -> Seq<char> {
    "Failed to close #"@ + crate::text::decimal(n as nat) + ": "@ + err
}

/// The status line after issue `n` was reopened.
pub open spec fn reopened_message(n: u32) -> Seq<char> {
    "Issue #"@ + crate::text::decimal(n as nat) + " reopened successfully."@
}

/// The status line after reopening issue `n` failed with `err`.
pub open spec fn reopen_failed_message(n: u32, err: Seq<char>) -> Seq<char> {
    "Failed to reopen #"@ + crate::text::decimal(n as nat) + ": "@ + err
}

/// The selection kept when a new list of `n` issues replaces the old one:
/// the first issue when nothing was selected, the last one when the old
/// selection is past the end, nothing when the list is empty.
pub open spec fn reselected(old: Option<usize>, n: nat) -> Option<usize> {
    match old {
        None => if n > 0 {
            Some(0usize)
        } else {
            None
        },
        Some(i) => if i >= n {
            if n == 0 {
                None
            } else {
                Some((n - 1) as usize)
            }
        } else {
            Some(i)
        },
    }
}

/// `p` is the position of the first issue numbered `num`.
pub open spec fn first_with_number(s: Seq<Issue>, num: u32, p: int) -> bool {
    &&& 0 <= p < s.len()
    &&& s[p].number == num
    &&& forall|j: int| 0 <= j < p ==> #[trigger] s[j].number != num
}

/// Two issues agree on everything but their state.
pub open spec fn same_but_state(a: Issue, b: Issue) -> bool {
    &&& a.number == b.number
    &&& a.title == b.title
    &&& a.author == b.author
    &&& a.labels == b.labels
    &&& a.updated_at == b.updated_at
    &&& a.body == b.body
}

/// `new` is `old` with the first issue numbered `num` given the state
/// `state`; it is `old` itself when no issue has that number.
pub open spec fn marks_state(old: Seq<Issue>, new: Seq<Issue>, num: u32, state: Seq<char>) -> bool {
    &&& new.len() == old.len()
    &&& forall|p: int| #[trigger]
        first_with_number(old, num, p) ==> {
            &&& new[p].state@ == state
            &&& same_but_state(new[p], old[p])
            &&& forall|j: int| 0 <= j < old.len() && j != p ==> new[j] == old[j]
        }
    &&& (forall|j: int| 0 <= j < old.len() ==> old[j].number != num) ==> new == old
}

/// The position of the first issue numbered `num`.
fn position_of(issues: &Vec<Issue>, num: u32) -> (pos: Option<usize>)
    ensures
        match pos {
            Some(p) => first_with_number(issues@, num, p as int),
            None => forall|j: int| 0 <= j < issues@.len() ==> issues@[j].number != num,
        },
{
    let mut i: usize = 0;
    while i < issues.len()
        invariant
            i <= issues.len(),
            forall|j: int| 0 <= j < i ==> #[trigger] issues@[j].number != num,
        decreases issues.len() - i,
    {
        if issues[i].number == num {
            return Some(i);
        }
        i += 1;
    }
    None
}

/// Gives the first issue numbered `num` the state `state`.
fn mark_state(issues: &mut Vec<Issue>, num: u32, state: &str)
    ensures
        marks_state(old(issues)@, final(issues)@, num, state@),
{
    match position_of(issues, num) {
        Some(p) => {
            let mut issue = issues.remove(p);
            issue.state = String::from_str(state);
            issues.insert(p, issue);
            assert forall|q: int| #[trigger] first_with_number(old(issues)@, num, q) implies q == p by {
                if q < p {
                    assert(old(issues)@[q].number != num);
                } else if q > p {
                    assert(old(issues)@[p as int].number != num);
                }
            }
        },
        None => {},
    }
}


impl IssueList {
    /// A selection is always a valid index, and there is one exactly when
    /// issues are listed; the list's length fits in a `usize`.
    #[verifier::type_invariant]
    spec fn selection_is_valid(self) -> bool {
        &&& self.selected matches Some(i) ==> i < self.issues@.len()
        &&& self.selected is Some <==> self.issues@.len() > 0
        &&& self.issues@.len() <= usize::MAX
    }

    /// Gives the first issue numbered `num` the state `state`, keeping the
    /// selection.
    fn set_state(&mut self, num: u32, state: &str)
        ensures
            marks_state(old(self).issues@, final(self).issues@, num, state@),
            final(self).selected == old(self).selected,
    {
        proof {
            use_type_invariant(&*self);
        }
        let mut taken = IssueList { issues: Vec::new(), selected: None };
        std::mem::swap(self, &mut taken);
        let IssueList { issues: mut issues, selected } = taken;
        mark_state(&mut issues, num, state);
        *self = IssueList { issues, selected };
    }
}

impl AppView {
    /// A selection is always a valid index, and there is one exactly when
    /// issues are listed; the list's length fits in a `usize`.
    pub open spec fn wf(self) -> bool {
        &&& self.selected matches Some(i) ==> i < self.issues.len()
        &&& self.selected is Some <==> self.issues.len() > 0
        &&& self.issues.len() <= usize::MAX
    }

    /// The number of the selected issue.
    pub open spec fn selected_number(self) -> Option<u32> {
        match self.selected {
            Some(i) => Some(self.issues[i as int].number),
            None => None,
        }
    }

    /// The repository, the issues and the pending requests agree.
    pub open spec fn same_listing(self, other: AppView) -> bool {
        &&& self.repo == other.repo
        &&& self.issues == other.issues
        &&& self.closing_issues == other.closing_issues
        &&& self.reopening_issues == other.reopening_issues
    }

    /// The selection and the scroll position agree.
    pub open spec fn same_view(self, other: AppView) -> bool {
        self.selected == other.selected && self.details_scroll == other.details_scroll
    }

    /// The search field agrees.
    pub open spec fn same_input(self, other: AppView) -> bool {
        self.search_query == other.search_query && self.search_focused == other.search_focused
    }

    /// The status line and the loading flag agree.
    pub open spec fn same_status(self, other: AppView) -> bool {
        self.status_log == other.status_log && self.is_loading == other.is_loading
    }

    /// `next` is `self` with the selection moved down by one, wrapping from
    /// the last issue to the first, and the details scrolled to the top;
    /// with no issues nothing changes.
    pub open spec fn moves_down_to(self, next: AppView) -> bool {
        if self.issues.len() == 0 {
            next == self
        } else {
            &&& next.selected == Some(
                match self.selected {
                    Some(i) => if i >= self.issues.len() - 1 {
                        0
                    } else {
                        (i + 1) as usize
                    },
                    None => 0usize,
                },
            )
            &&& next.details_scroll == 0
            &&& next.same_listing(self) && next.same_input(self) && next.same_status(self)
        }
    }

    /// `next` is `self` with the selection moved up by one, wrapping from
    /// the first issue to the last, and the details scrolled to the top;
    /// with no issues nothing changes.
    pub open spec fn moves_up_to(self, next: AppView) -> bool {
        if self.issues.len() == 0 {
            next == self
        } else {
            &&& next.selected == Some(
                match self.selected {
                    Some(i) => if i == 0 {
                        (self.issues.len() - 1) as usize
                    } else {
                        (i - 1) as usize
                    },
                    None => 0usize,
                },
            )
            &&& next.details_scroll == 0
            &&& next.same_listing(self) && next.same_input(self) && next.same_status(self)
        }
    }

    /// `next` is `self` with a fetch started for the search `query`, the
    /// search field focused as `focused` and holding `query`; `req` is the
    /// request for it.
    pub open spec fn starts_fetch(
        self,
        next: AppView,
        req: AppRequest,
        focused: bool,
        query: Seq<char>,
    ) -> bool {
        &&& next.is_loading
        &&& next.status_log == loading_message(self.repo)
        &&& next.search_focused == focused
        &&& next.search_query == query
        &&& req matches AppRequest::Fetch { repo, query: q } && repo@ == self.repo && q@ == query
        &&& next.same_listing(self) && next.same_view(self)
    }

    /// `next` and `req` are what requesting to close (`reopen` false) or to
    /// reopen (`reopen` true) the selected issue gives: nothing when no issue
    /// is selected or the same request is still pending; otherwise the issue
    /// is marked pending, the status line says so and the request is made.
    pub open spec fn requests_state_change(
        self,
        next: AppView,
        req: Option<AppRequest>,
        reopen: bool,
    ) -> bool {
        let pending = if reopen {
            self.reopening_issues
        } else {
            self.closing_issues
        };
        match self.selected_number() {
            None => next == self && req is None,
            Some(n) => if pending.contains(n) {
                next == self && req is None
            } else {
                &&& next.same_view(self) && next.same_input(self)
                &&& next.repo == self.repo && next.issues == self.issues
                &&& next.is_loading == self.is_loading
                &&& if reopen {
                    &&& next.reopening_issues == self.reopening_issues.insert(n)
                    &&& next.closing_issues == self.closing_issues
                    &&& next.status_log == reopening_message(n)
                    &&& req matches Some(AppRequest::Reopen { repo, number }) && repo@
                        == self.repo && number == n
                } else {
                    &&& next.closing_issues == self.closing_issues.insert(n)
                    &&& next.reopening_issues == self.reopening_issues
                    &&& next.status_log == closing_message(n)
                    &&& req matches Some(AppRequest::Close { repo, number }) && repo@
                        == self.repo && number == n
                }
            },
        }
    }

    /// `next` is `self` with the details scrolled to `scroll`.
    pub open spec fn scrolls_to(self, next: AppView, scroll: usize) -> bool {
        &&& next.details_scroll == scroll
        &&& next.selected == self.selected
        &&& next.same_listing(self) && next.same_input(self) && next.same_status(self)
    }

    /// `next` is `self` with only the search field changed, to `query` and
    /// focus `focused`.
    pub open spec fn edits_search(self, next: AppView, query: Seq<char>, focused: bool) -> bool {
        &&& next.search_query == query
        &&& next.search_focused == focused
        &&& next.same_listing(self) && next.same_view(self) && next.same_status(self)
    }

    /// `next` and `eff` are the reaction to a close (`reopen` false) or
    /// reopen (`reopen` true) key.
    pub open spec fn reacts_with_state_change(self, next: AppView, eff: Effect, reopen: bool) -> bool {
        match eff {
            Effect::Send(r) => self.requests_state_change(next, Some(r), reopen),
            Effect::Continue => self.requests_state_change(next, None, reopen),
            _ => false,
        }
    }

    /// `next` and `eff` are the dashboard's reaction to the key press `k`.
    /// Ctrl-C quits; other keys with Ctrl or Alt are ignored. While the
    /// search field has the focus, Enter searches, Esc clears the search and
    /// reloads, Backspace deletes and other characters are typed. Otherwise:
    /// `q` quits, `/` focuses the search, `j`/Down and `k`/Up move the
    /// selection, `J`/`K` and PageDown/PageUp scroll the details by 2 and 10
    /// lines, `c`/`x` close and `r`/`o` reopen the selected issue, `R`/F5
    /// reload, `e` opens the issue in the browser, and Esc clears a
    /// non-empty search and reloads.
    pub open spec fn reacts_to_key(self, next: AppView, k: KeyPress, eff: Effect) -> bool {
        if k.ctrl && k.key == Key::Char('c') {
            next == self && eff is Quit
        } else if k.ctrl || k.alt {
            next == self && eff is Continue
        } else if self.search_focused {
            match k.key {
                Key::Enter => eff matches Effect::Send(req) && self.starts_fetch(
                    next,
                    req,
                    false,
                    self.search_query,
                ),
                Key::Esc => eff matches Effect::Send(req) && self.starts_fetch(
                    next,
                    req,
                    false,
                    Seq::empty(),
                ),
                Key::Backspace => eff is Continue && self.edits_search(
                    next,
                    if self.search_query.len() == 0 {
                        self.search_query
                    } else {
                        self.search_query.drop_last()
                    },
                    true,
                ),
                Key::Char(c) => eff is Continue && self.edits_search(
                    next,
                    self.search_query.push(c),
                    true,
                ),
                _ => next == self && eff is Continue,
            }
        } else {
            match k.key {
                Key::Char(c) => if c == 'q' {
                    next == self && eff is Quit
                } else if c == '/' {
                    eff is Continue && self.edits_search(next, self.search_query, true)
                } else if c == 'j' {
                    eff is Continue && self.moves_down_to(next)
                } else if c == 'k' {
                    eff is Continue && self.moves_up_to(next)
                } else if c == 'J' {
                    eff is Continue && self.scrolls_to(next, self.details_scroll.saturating_add(2))
                } else if c == 'K' {
                    eff is Continue && self.scrolls_to(next, self.details_scroll.saturating_sub(2))
                } else if c == 'c' || c == 'x' {
                    self.reacts_with_state_change(next, eff, false)
                } else if c == 'r' || c == 'o' {
                    self.reacts_with_state_change(next, eff, true)
                } else if c == 'R' {
                    eff matches Effect::Send(req) && self.starts_fetch(
                        next,
                        req,
                        false,
                        self.search_query,
                    )
                } else if c == 'e' {
                    next == self && match self.selected_number() {
                        Some(n) => eff == Effect::OpenInBrowser(n),
                        None => eff is Continue,
                    }
                } else {
                    next == self && eff is Continue
                },
                Key::Down => eff is Continue && self.moves_down_to(next),
                Key::Up => eff is Continue && self.moves_up_to(next),
                Key::PageDown => eff is Continue && self.scrolls_to(
                    next,
                    self.details_scroll.saturating_add(10),
                ),
                Key::PageUp => eff is Continue && self.scrolls_to(
                    next,
                    self.details_scroll.saturating_sub(10),
                ),
                Key::F(n) => if n == 5 {
                    eff matches Effect::Send(req) && self.starts_fetch(
                        next,
                        req,
                        false,
                        self.search_query,
                    )
                } else {
                    next == self && eff is Continue
                },
                Key::Esc => if self.search_query.len() > 0 {
                    eff matches Effect::Send(req) && self.starts_fetch(
                        next,
                        req,
                        false,
                        Seq::empty(),
                    )
                } else {
                    next == self && eff is Continue
                },
                _ => next == self && eff is Continue,
            }
        }
    }

    /// `next` is `self` after the mouse event `m`, with the screen laid out
    /// as `areas` and the issue list showing item `offset` first. A click
    /// on the three rows of the search field focuses it; a click inside the
    /// list leaves the search field and selects the item under it, if any;
    /// the wheel scrolls the details by 2 lines when over them and moves the
    /// selection otherwise.
    pub open spec fn reacts_to_mouse(self, next: AppView, m: MouseInput, areas: ScreenAreas, offset: usize) -> bool {
        match m.kind {
            MouseKind::LeftDown => {
                let s = areas.search;
                let l = areas.issues;
                if m.row == s.y || m.row == s.y + 1 || m.row == s.y + 2 {
                    if s.spans_column(m.column) {
                        &&& next.search_focused
                        &&& next.status_log == search_focus_message()
                        &&& next.search_query == self.search_query
                        &&& next.is_loading == self.is_loading
                        &&& next.same_listing(self) && next.same_view(self)
                    } else {
                        next == self
                    }
                } else if l.holds(m.column, m.row) {
                    let rel = m.row - l.y;
                    let idx = clicked_item(l, m.row, offset);
                    &&& !next.search_focused
                    &&& next.search_query == self.search_query
                    &&& next.same_listing(self) && next.same_status(self)
                    &&& if 0 < rel < l.height - 1 && idx < self.issues.len() {
                        next.selected == Some(idx as usize) && next.details_scroll == 0
                    } else {
                        next.same_view(self)
                    }
                } else {
                    next == self
                }
            },
            MouseKind::ScrollDown => if areas.details.holds(m.column, m.row) {
                self.scrolls_to(next, self.details_scroll.saturating_add(2))
            } else {
                self.moves_down_to(next)
            },
            MouseKind::ScrollUp => if areas.details.holds(m.column, m.row) {
                self.scrolls_to(next, self.details_scroll.saturating_sub(2))
            } else {
                self.moves_up_to(next)
            },
        }
    }

    /// `next` is `self` after taking in the worker's response `resp`.
    pub open spec fn takes_response(self, next: AppView, resp: AppResponse) -> bool {
        &&& !next.is_loading
        &&& next.repo == self.repo
        &&& next.same_input(self)
        &&& match resp {
            AppResponse::FetchSuccess(v) => {
                &&& next.issues == v@
                &&& next.selected == reselected(self.selected, v@.len())
                &&& next.details_scroll == self.details_scroll
                &&& next.status_log == loaded_message(v@.len())
                &&& next.closing_issues == self.closing_issues
                &&& next.reopening_issues == self.reopening_issues
            },
            AppResponse::FetchError(e) => {
                &&& next.status_log == fetch_failed_message(e@)
                &&& next.same_listing(self) && next.same_view(self)
            },
            AppResponse::CloseSuccess(n) => {
                &&& next.closing_issues == self.closing_issues.remove(n)
                &&& next.reopening_issues == self.reopening_issues
                &&& marks_state(self.issues, next.issues, n, "CLOSED"@)
                &&& next.status_log == closed_message(n)
                &&& next.same_view(self)
            },
            AppResponse::CloseError { number, err } => {
                &&& next.closing_issues == self.closing_issues.remove(number)
                &&& next.reopening_issues == self.reopening_issues
                &&& next.issues == self.issues
                &&& next.status_log == close_failed_message(number, err@)
                &&& next.same_view(self)
            },
            AppResponse::ReopenSuccess(n) => {
                &&& next.reopening_issues == self.reopening_issues.remove(n)
                &&& next.closing_issues == self.closing_issues
                &&& marks_state(self.issues, next.issues, n, "OPEN"@)
                &&& next.status_log == reopened_message(n)
                &&& next.same_view(self)
            },
            AppResponse::ReopenError { number, err } => {
                &&& next.reopening_issues == self.reopening_issues.remove(number)
                &&& next.closing_issues == self.closing_issues
                &&& next.issues == self.issues
                &&& next.status_log == reopen_failed_message(number, err@)
                &&& next.same_view(self)
            },
        }
    }
}

impl App {
    /// A dashboard for `repo` with no issues yet.
    pub fn new(repo: String) -> (app: App)
        ensures
            app@.wf(),
            app@.repo == repo@,
            app@.issues.len() == 0,
            app@.selected is None,
            app@.search_query.len() == 0,
            !app@.search_focused,
            app@.details_scroll == 0,
            app@.status_log == welcome_message(),
            !app@.is_loading,
            app@.closing_issues.is_empty(),
            app@.reopening_issues.is_empty(),
    {
        App {
            repo,
            list: IssueList { issues: Vec::new(), selected: None },
            search_query: String::new(),
            search_focused: false,
            details_scroll: 0,
            status_log: String::from_str("Press '/' or click search to search. 'c' to close issues."),
            is_loading: false,
            closing_issues: HashSet::new(),
            reopening_issues: HashSet::new(),
        }
    }

    /// The repository, as `owner/name`.
    pub fn repo(&self) -> (r: &str)
        ensures
            r@ == self@.repo,
    {
        self.repo.as_str()
    }

    /// The issues listed, in the order `gh` gave them.
    pub fn issues(&self) -> (r: &Vec<Issue>)
        ensures
            r@ == self@.issues,
    {
        &self.list.issues
    }

    /// The index of the selected issue.
    pub fn selected(&self) -> (r: Option<usize>)
        ensures
            r == self@.selected,
            self@.wf(),
    {
        proof {
            use_type_invariant(&self.list);
        }
        self.list.selected
    }

    /// The text typed into the search field.
    pub fn search_query(&self) -> (r: &str)
        ensures
            r@ == self@.search_query,
    {
        self.search_query.as_str()
    }

    /// Whether keys go to the search field.
    pub fn search_focused(&self) -> (b: bool)
        ensures
            b == self@.search_focused,
    {
        self.search_focused
    }

    /// How many lines of the selected issue's body are scrolled away.
    pub fn details_scroll(&self) -> (n: usize)
        ensures
            n == self@.details_scroll,
    {
        self.details_scroll
    }

    /// The message shown in the status line.
    pub fn status_log(&self) -> (r: &str)
        ensures
            r@ == self@.status_log,
    {
        self.status_log.as_str()
    }

    /// Whether a fetch is under way.
    pub fn is_loading(&self) -> (b: bool)
        ensures
            b == self@.is_loading,
    {
        self.is_loading
    }

    /// Whether closing issue `number` was requested and not yet answered.
    pub fn is_closing(&self, number: u32) -> (b: bool)
        ensures
            b == self@.closing_issues.contains(number),
    {
        self.closing_issues.contains(&number)
    }

    /// Whether reopening issue `number` was requested and not yet answered.
    pub fn is_reopening(&self, number: u32) -> (b: bool)
        ensures
            b == self@.reopening_issues.contains(number),
    {
        self.reopening_issues.contains(&number)
    }

    /// The selected issue, if any.
    pub fn selected_issue(&self) -> (issue: Option<&Issue>)
        ensures
            match self@.selected {
                Some(i) => issue == Some(&self@.issues[i as int]),
                None => issue is None,
            },
    {
        proof {
            use_type_invariant(&self.list);
        }
        match self.list.selected {
            Some(i) => Some(&self.list.issues[i]),
            None => None,
        }
    }

    /// Selects the next issue, wrapping around to the first.
    pub fn select_next(&mut self)
        ensures
            final(self)@.wf(),
            old(self)@.moves_down_to(final(self)@),
    {
        proof {
            use_type_invariant(&self.list);
        }
        if self.list.issues.len() == 0 {
            return;
        }
        let i = match self.list.selected {
            Some(i) => if i >= self.list.issues.len() - 1 {
                0
            } else {
                i + 1
            },
            None => 0,
        };
        self.list.selected = Some(i);
        self.details_scroll = 0;
    }

    /// Selects the previous issue, wrapping around to the last.
    pub fn select_prev(&mut self)
        ensures
            final(self)@.wf(),
            old(self)@.moves_up_to(final(self)@),
    {
        proof {
            use_type_invariant(&self.list);
        }
        if self.list.issues.len() == 0 {
            return;
        }
        let i = match self.list.selected {
            Some(i) => if i == 0 {
                self.list.issues.len() - 1
            } else {
                i - 1
            },
            None => 0,
        };
        self.list.selected = Some(i);
        self.details_scroll = 0;
    }

    /// Starts loading the issues that match the current search query.
    pub fn trigger_fetch(&mut self) -> (req: AppRequest)
        ensures
            final(self)@.wf(),
            old(self)@.starts_fetch(
                final(self)@,
                req,
                old(self)@.search_focused,
                old(self)@.search_query,
            ),
    {
        proof {
            use_type_invariant(&self.list);
        }
        self.is_loading = true;
        let mut msg = String::from_str("Loading issues for ");
        msg.append(self.repo.as_str());
        msg.append("...");
        self.status_log = msg;
        AppRequest::Fetch { repo: self.repo.clone(), query: self.search_query.clone() }
    }

    /// Requests closing the selected issue, unless that request is pending.
    pub fn trigger_close(&mut self) -> (req: Option<AppRequest>)
        ensures
            final(self)@.wf(),
            old(self)@.requests_state_change(final(self)@, req, false),
    {
        proof {
            use_type_invariant(&self.list);
        }
        let num = match self.list.selected {
            Some(i) => self.list.issues[i].number,
            None => return None,
        };
        if self.closing_issues.contains(&num) {
            return None;
        }
        self.closing_issues.insert(num);
        let mut msg = String::from_str("Closing issue #");
        let digits = decimal_string(num as u64);
        msg.append(digits.as_str());
        msg.append("...");
        self.status_log = msg;
        Some(AppRequest::Close { repo: self.repo.clone(), number: num })
    }

    /// Requests reopening the selected issue, unless that request is pending.
    pub fn trigger_reopen(&mut self) -> (req: Option<AppRequest>)
        ensures
            final(self)@.wf(),
            old(self)@.requests_state_change(final(self)@, req, true),
    {
        proof {
            use_type_invariant(&self.list);
        }
        let num = match self.list.selected {
            Some(i) => self.list.issues[i].number,
            None => return None,
        };
        if self.reopening_issues.contains(&num) {
            return None;
        }
        self.reopening_issues.insert(num);
        let mut msg = String::from_str("Reopening issue #");
        let digits = decimal_string(num as u64);
        msg.append(digits.as_str());
        msg.append("...");
        self.status_log = msg;
        Some(AppRequest::Reopen { repo: self.repo.clone(), number: num })
    }

    /// Takes in the worker's response to a request. Every response ends
    /// loading; a new listing replaces the issues and keeps the selection
    /// valid; an answered close or reopen request is no longer pending, and a
    /// successful one changes the state of the issue in the list.
    pub fn apply_response(&mut self, resp: AppResponse)
        ensures
            final(self)@.wf(),
            old(self)@.takes_response(final(self)@, resp),
    {
        proof {
            use_type_invariant(&self.list);
        }
        self.is_loading = false;
        match resp {
            AppResponse::FetchSuccess(issues) => {
                let n = issues.len();
                let selected = match self.list.selected {
                    None => if n > 0 {
                        Some(0)
                    } else {
                        None
                    },
                    Some(sel) => if sel >= n {
                        if n == 0 {
                            None
                        } else {
                            Some(n - 1)
                        }
                    } else {
                        Some(sel)
                    },
                };
                self.list = IssueList { issues, selected };
                let mut msg = String::from_str("Loaded ");
                let digits = decimal_string(n as u64);
                msg.append(digits.as_str());
                msg.append(" issues successfully.");
                self.status_log = msg;
            },
            AppResponse::FetchError(e) => {
                let mut msg = String::from_str("Failed to fetch issues: ");
                msg.append(e.as_str());
                self.status_log = msg;
            },
            AppResponse::CloseSuccess(num) => {
                self.closing_issues.remove(&num);
                let mut msg = String::from_str("Issue #");
                let digits = decimal_string(num as u64);
                msg.append(digits.as_str());
                msg.append(" closed successfully.");
                self.status_log = msg;
                self.list.set_state(num, "CLOSED");
            },
            AppResponse::CloseError { number, err } => {
                self.closing_issues.remove(&number);
                let mut msg = String::from_str("Failed to close #");
                let digits = decimal_string(number as u64);
                msg.append(digits.as_str());
                msg.append(": ");
                msg.append(err.as_str());
                self.status_log = msg;
            },
            AppResponse::ReopenSuccess(num) => {
                self.reopening_issues.remove(&num);
                let mut msg = String::from_str("Issue #");
                let digits = decimal_string(num as u64);
                msg.append(digits.as_str());
                msg.append(" reopened successfully.");
                self.status_log = msg;
                self.list.set_state(num, "OPEN");
            },
            AppResponse::ReopenError { number, err } => {
                self.reopening_issues.remove(&number);
                let mut msg = String::from_str("Failed to reopen #");
                let digits = decimal_string(number as u64);
                msg.append(digits.as_str());
                msg.append(": ");
                msg.append(err.as_str());
                self.status_log = msg;
            },
        }
    }

    /// Reacts to a key press (see `reacts_to_key`).
    pub fn handle_key(&mut self, k: KeyPress) -> (eff: Effect)
        ensures
            final(self)@.wf(),
            old(self)@.reacts_to_key(final(self)@, k, eff),
    {
        proof {
            use_type_invariant(&self.list);
        }
        if let Key::Char(c) = k.key {
            if c == 'c' && k.ctrl {
                return Effect::Quit;
            }
        }
        if k.ctrl || k.alt {
            return Effect::Continue;
        }
        if self.search_focused {
            match k.key {
                Key::Enter => {
                    self.search_focused = false;
                    Effect::Send(self.trigger_fetch())
                },
                Key::Esc => {
                    self.search_focused = false;
                    self.search_query = String::new();
                    Effect::Send(self.trigger_fetch())
                },
                Key::Backspace => {
                    pop_char(&mut self.search_query);
                    Effect::Continue
                },
                Key::Char(c) => {
                    push_char(&mut self.search_query, c);
                    Effect::Continue
                },
                _ => Effect::Continue,
            }
        } else {
            match k.key {
                Key::Char(c) => {
                    if c == 'q' {
                        Effect::Quit
                    } else if c == '/' {
                        self.search_focused = true;
                        Effect::Continue
                    } else if c == 'j' {
                        self.select_next();
                        Effect::Continue
                    } else if c == 'k' {
                        self.select_prev();
                        Effect::Continue
                    } else if c == 'J' {
                        self.details_scroll = self.details_scroll.saturating_add(2);
                        Effect::Continue
                    } else if c == 'K' {
                        self.details_scroll = self.details_scroll.saturating_sub(2);
                        Effect::Continue
                    } else if c == 'c' || c == 'x' {
                        match self.trigger_close() {
                            Some(req) => Effect::Send(req),
                            None => Effect::Continue,
                        }
                    } else if c == 'r' || c == 'o' {
                        match self.trigger_reopen() {
                            Some(req) => Effect::Send(req),
                            None => Effect::Continue,
                        }
                    } else if c == 'R' {
                        Effect::Send(self.trigger_fetch())
                    } else if c == 'e' {
                        match self.trigger_web() {
                            Some(n) => Effect::OpenInBrowser(n),
                            None => Effect::Continue,
                        }
                    } else {
                        Effect::Continue
                    }
                },
                Key::Down => {
                    self.select_next();
                    Effect::Continue
                },
                Key::Up => {
                    self.select_prev();
                    Effect::Continue
                },
                Key::PageDown => {
                    self.details_scroll = self.details_scroll.saturating_add(10);
                    Effect::Continue
                },
                Key::PageUp => {
                    self.details_scroll = self.details_scroll.saturating_sub(10);
                    Effect::Continue
                },
                Key::F(n) => {
                    if n == 5 {
                        Effect::Send(self.trigger_fetch())
                    } else {
                        Effect::Continue
                    }
                },
                Key::Esc => {
                    if self.search_query.as_str().is_empty() {
                        Effect::Continue
                    } else {
                        self.search_query = String::new();
                        Effect::Send(self.trigger_fetch())
                    }
                },
                _ => Effect::Continue,
            }
        }
    }

    /// Reacts to a mouse event (see `reacts_to_mouse`).
    pub fn handle_mouse(&mut self, m: MouseInput, areas: ScreenAreas, offset: usize)
        ensures
            final(self)@.wf(),
            old(self)@.reacts_to_mouse(final(self)@, m, areas, offset),
    {
        proof {
            use_type_invariant(&self.list);
        }
        match m.kind {
            MouseKind::LeftDown => {
                let s = areas.search;
                let l = areas.issues;
                let row = m.row as u32;
                let top = s.y as u32;
                if row == top || row == top + 1 || row == top + 2 {
                    if s.has_column(m.column) {
                        self.search_focused = true;
                        self.status_log = String::from_str(
                            "Search input focused. Press Enter to search, Esc to cancel.",
                        );
                    }
                } else if l.has_row(m.row) {
                    if l.has_column(m.column) {
                        self.search_focused = false;
                        let rel = (m.row - l.y) as usize;
                        if rel > 0 && rel < (l.height as usize) - 1 {
                            let step = (rel - 1) / 3;
                            let n = self.list.issues.len();
                            if offset <= usize::MAX - step {
                                let idx = offset + step;
                                if idx < n {
                                    self.list.selected = Some(idx);
                                    self.details_scroll = 0;
                                }
                            }
                        }
                    }
                }
            },
            MouseKind::ScrollDown => {
                if areas.details.has_row(m.row) && areas.details.has_column(m.column) {
                    self.details_scroll = self.details_scroll.saturating_add(2);
                } else {
                    self.select_next();
                }
            },
            MouseKind::ScrollUp => {
                if areas.details.has_row(m.row) && areas.details.has_column(m.column) {
                    self.details_scroll = self.details_scroll.saturating_sub(2);
                } else {
                    self.select_prev();
                }
            },
        }
    }

    /// Keeps the details from scrolling past their end: with `total_lines`
    /// lines of body and `display_height` visible, when the body is taller
    /// than the view the scroll stops where the last line reaches the bottom.
    pub fn clamp_details_scroll(&mut self, total_lines: usize, display_height: usize)
        ensures
            final(self)@.wf(),
            old(self)@.scrolls_to(
                final(self)@,
                clamped_scroll(old(self)@.details_scroll, total_lines as nat, display_height as nat),
            ),
    {
        proof {
            use_type_invariant(&self.list);
        }
        if total_lines > display_height && self.details_scroll > total_lines - display_height {
            self.details_scroll = total_lines - display_height;
        }
    }

    /// Keeps the details from scrolling past the end of the selected issue's
    /// `body` as it is drawn: cleaned (see `clean_github_markdown`), rendered
    /// by `tui-markdown`, with `display_height` lines visible.
    pub fn clamp_scroll_for_body(&mut self, body: &str, display_height: usize)
        ensures
            final(self)@.wf(),
            old(self)@.scrolls_to(
                final(self)@,
                clamped_scroll(
                    old(self)@.details_scroll,
                    crate::markdown::rendered_line_count(
                        crate::markdown::dashboard_markdown(body@),
                    ),
                    display_height as nat,
                ),
            ),
    {
        proof {
            use_type_invariant(&self.list);
        }
        let cleaned = clean_github_markdown(body);
        let total_lines = markdown_line_count(cleaned.as_str());
        self.clamp_details_scroll(total_lines, display_height);
    }

    /// The number of the issue to open in the browser: the selected one.
    pub fn trigger_web(&self) -> (number: Option<u32>)
        ensures
            number == self@.selected_number(),
    {
        proof {
            use_type_invariant(&self.list);
        }
        match self.list.selected {
            Some(i) => Some(self.list.issues[i].number),
            None => None,
        }
    }
}

/// Moving the selection down and then up again comes back to the issue that
/// was selected, over the same list.
pub proof fn law_up_undoes_down(a: AppView, b: AppView, c: AppView)
    requires
        a.wf(),
        a.moves_down_to(b),
        b.moves_up_to(c),
    ensures
        c.selected == a.selected,
        c.issues == a.issues,
{
    if a.issues.len() > 0 {
        let n = a.issues.len();
        let i = a.selected.unwrap();
        if i >= n - 1 {
            assert(b.selected == Some(0usize));
        } else {
            assert(b.selected == Some((i + 1) as usize));
        }
    }
}

/// Moving the selection up and then down again comes back to the issue that
/// was selected, over the same list.
pub proof fn law_down_undoes_up(a: AppView, b: AppView, c: AppView)
    requires
        a.wf(),
        a.moves_up_to(b),
        b.moves_down_to(c),
    ensures
        c.selected == a.selected,
        c.issues == a.issues,
{
    if a.issues.len() > 0 {
        let n = a.issues.len();
        let i = a.selected.unwrap();
        if i == 0 {
            assert(b.selected == Some((n - 1) as usize));
        } else {
            assert(b.selected == Some((i - 1) as usize));
        }
    }
}

/// While a close (or reopen) request for the selected issue is pending, asking
/// again sends nothing and changes nothing.
pub proof fn law_pending_request_is_not_repeated(
    a: AppView,
    b: AppView,
    c: AppView,
    first: AppRequest,
    second: Option<AppRequest>,
    reopen: bool,
)
    requires
        a.wf(),
        a.requests_state_change(b, Some(first), reopen),
        b.requests_state_change(c, second, reopen),
    ensures
        second is None,
        c == b,
{
}

/// A close request that succeeds leaves the issue closed in the list and no
/// longer pending: the pending closes are what they were before the request.
pub proof fn law_successful_close_is_recorded(a: AppView, b: AppView, c: AppView, req: AppRequest, n: u32)
    requires
        a.wf(),
        a.requests_state_change(b, Some(req), false),
        req matches AppRequest::Close { number, .. } && number == n,
        b.takes_response(c, AppResponse::CloseSuccess(n)),
    ensures
        c.closing_issues == a.closing_issues,
        c.issues.len() == a.issues.len(),
        exists|p: int| #[trigger]
            first_with_number(a.issues, n, p) && c.issues[p].state@ == "CLOSED"@,
{
    assert(c.closing_issues =~= a.closing_issues);
    let i = a.selected.unwrap() as int;
    lemma_first_with_number_exists(a.issues, n, i);
}

/// A reopen request that succeeds leaves the issue open in the list and no
/// longer pending: the pending reopens are what they were before the request.
pub proof fn law_successful_reopen_is_recorded(a: AppView, b: AppView, c: AppView, req: AppRequest, n: u32)
    requires
        a.wf(),
        a.requests_state_change(b, Some(req), true),
        req matches AppRequest::Reopen { number, .. } && number == n,
        b.takes_response(c, AppResponse::ReopenSuccess(n)),
    ensures
        c.reopening_issues == a.reopening_issues,
        c.issues.len() == a.issues.len(),
        exists|p: int| #[trigger]
            first_with_number(a.issues, n, p) && c.issues[p].state@ == "OPEN"@,
{
    assert(c.reopening_issues =~= a.reopening_issues);
    let i = a.selected.unwrap() as int;
    lemma_first_with_number_exists(a.issues, n, i);
}

/// One more move down takes the selection from `(i + k) mod n` to
/// `(i + k + 1) mod n`.
proof fn lemma_down_step_mod(i: int, k: int, n: int)
    requires
        n > 0,
        0 <= i,
        0 <= k,
    ensures
        (i + k + 1) % n == if (i + k) % n >= n - 1 {
            0
        } else {
            (i + k) % n + 1
        },
{
    let r = (i + k) % n;
    vstd::arithmetic::div_mod::lemma_add_mod_noop(i + k, 1, n);
    if n == 1 {
        assert(1int % 1int == 0) by (nonlinear_arith);
        assert(r == 0) by (nonlinear_arith)
            requires
                r == (i + k) % n,
                n == 1,
        ;
        assert((0int + 0int) % 1int == 0) by (nonlinear_arith);
    } else {
        vstd::arithmetic::div_mod::lemma_small_mod(1, n as nat);
        assert(0 <= r < n) by (nonlinear_arith)
            requires
                r == (i + k) % n,
                n > 0,
        ;
        if r + 1 == n {
            vstd::arithmetic::div_mod::lemma_mod_self_0(n);
        } else {
            vstd::arithmetic::div_mod::lemma_small_mod((r + 1) as nat, n as nat);
        }
    }
}

/// The states `states[0]`, `states[1]`, ... follow one another by moves down
/// through the same list: `k` moves down from issue `i` select issue
/// `(i + k) mod n`, so `n` moves come back to where they started.
pub proof fn law_moves_down_cycle(states: Seq<AppView>, i: usize)
    requires
        states.len() > 0,
        states[0].wf(),
        states[0].issues.len() > 0,
        states[0].selected == Some(i),
        forall|j: int| 0 <= j < states.len() - 1 ==> #[trigger] states[j].moves_down_to(states[j + 1]),
    ensures
        forall|k: int|
            0 <= k < states.len() ==> #[trigger] states[k].selected == Some(
                ((i + k) % (states[0].issues.len() as int)) as usize,
            ),
        states.len() > states[0].issues.len() ==> states[states[0].issues.len() as int].selected
            == states[0].selected,
{
    let n = states[0].issues.len() as int;
    assert forall|k: int| 0 <= k < states.len() implies #[trigger] states[k].selected == Some(
        ((i + k) % n) as usize,
    ) by {
        lemma_moves_down_prefix(states, i, k);
    }
    if states.len() > n {
        lemma_moves_down_prefix(states, i, n);
        vstd::arithmetic::div_mod::lemma_mod_add_multiples_vanish(i as int, n);
        vstd::arithmetic::div_mod::lemma_small_mod(i as nat, n as nat);
        assert(i + n == n + i);
    }
}

/// After `k` moves down the list is the same and the selection is
/// `(i + k) mod n`.
proof fn lemma_moves_down_prefix(states: Seq<AppView>, i: usize, k: int)
    requires
        0 <= k < states.len(),
        states[0].wf(),
        states[0].issues.len() > 0,
        states[0].selected == Some(i),
        forall|j: int| 0 <= j < states.len() - 1 ==> #[trigger] states[j].moves_down_to(states[j + 1]),
    ensures
        states[k].issues == states[0].issues,
        states[k].selected == Some(((i + k) % (states[0].issues.len() as int)) as usize),
    decreases k,
{
    let n = states[0].issues.len() as int;
    if k == 0 {
        vstd::arithmetic::div_mod::lemma_small_mod(i as nat, n as nat);
    } else {
        lemma_moves_down_prefix(states, i, k - 1);
        let j = k - 1;
        assert(states[j].moves_down_to(states[j + 1]));
        assert(j + 1 == k);
        lemma_down_step_mod(i as int, k - 1, n);
        let r = (i + k - 1) % n;
        assert(0 <= r < n) by (nonlinear_arith)
            requires
                r == (i + k - 1) % n,
                n > 0,
        ;
        assert(i + (k - 1) + 1 == i + k);
    }
}

/// When some issue has number `n`, there is a first one.
proof fn lemma_first_with_number_exists(s: Seq<Issue>, n: u32, i: int)
    requires
        0 <= i < s.len(),
        s[i].number == n,
    ensures
        exists|p: int| #[trigger] first_with_number(s, n, p),
    decreases i,
{
    if forall|j: int| 0 <= j < i ==> #[trigger] s[j].number != n {
        assert(first_with_number(s, n, i));
    } else {
        let j = choose|j: int| 0 <= j < i && #[trigger] s[j].number == n;
        lemma_first_with_number_exists(s, n, j);
    }
}

/// With the search field unfocused and no modifier held, `r` does what `o`
/// does: it asks to reopen the selected issue. When that issue is not already
/// waiting to be reopened, the request for it is sent, it becomes pending and
/// the status line says so.
pub proof fn law_r_key_reopens(a: AppView, next: AppView, eff: Effect)
    requires
        a.wf(),
        !a.search_focused,
    ensures
        a.reacts_to_key(next, (KeyPress { key: Key::Char('r'), ctrl: false, alt: false }), eff)
            <==> a.reacts_to_key(
            next,
            (KeyPress { key: Key::Char('o'), ctrl: false, alt: false }),
            eff,
        ),
        a.reacts_to_key(next, (KeyPress { key: Key::Char('r'), ctrl: false, alt: false }), eff)
            ==> a.reacts_with_state_change(next, eff, true),
        ({
            &&& a.reacts_to_key(
                next,
                (KeyPress { key: Key::Char('r'), ctrl: false, alt: false }),
                eff,
            )
            &&& a.selected matches Some(i)
            &&& !a.reopening_issues.contains(a.issues[i as int].number)
        }) ==> {
            let n = a.issues[a.selected.unwrap() as int].number;
            &&& eff matches Effect::Send(AppRequest::Reopen { repo, number }) && repo@ == a.repo
                && number == n
            &&& next.reopening_issues == a.reopening_issues.insert(n)
            &&& next.status_log == reopening_message(n)
            &&& next.issues == a.issues && next.selected == a.selected
        },
{
}

/// A new listing keeps the selected position while the list still reaches
/// it, moves it to the last issue when the list got shorter, selects the
/// first issue when nothing was selected, and selects nothing in an empty
/// list.
pub proof fn law_reload_keeps_selection(a: AppView, next: AppView, v: Vec<Issue>)
    requires
        a.wf(),
        a.takes_response(next, AppResponse::FetchSuccess(v)),
    ensures
        next.issues == v@,
        a.selected matches Some(i) ==> (i < v@.len() ==> next.selected == Some(i)),
        a.selected is Some && a.selected.unwrap() >= v@.len() && v@.len() > 0 ==> next.selected
            == Some((v@.len() - 1) as usize),
        a.selected is None && v@.len() > 0 ==> next.selected == Some(0usize),
        v@.len() == 0 ==> next.selected is None,
{
}

/// With the search field unfocused and no modifier held, `c` and `x` both ask
/// to close the selected issue. When that issue is not already waiting to be
/// closed, the request for it is sent, it becomes pending and the status line
/// says so.
pub proof fn law_c_and_x_close(a: AppView, next: AppView, eff: Effect, c: char)
    requires
        a.wf(),
        !a.search_focused,
        c == 'c' || c == 'x',
    ensures
        a.reacts_to_key(next, (KeyPress { key: Key::Char(c), ctrl: false, alt: false }), eff)
            ==> a.reacts_with_state_change(next, eff, false),
        ({
            &&& a.reacts_to_key(next, (KeyPress { key: Key::Char(c), ctrl: false, alt: false }), eff)
            &&& a.selected matches Some(i)
            &&& !a.closing_issues.contains(a.issues[i as int].number)
        }) ==> {
            let n = a.issues[a.selected.unwrap() as int].number;
            &&& eff matches Effect::Send(AppRequest::Close { repo, number }) && repo@ == a.repo
                && number == n
            &&& next.closing_issues == a.closing_issues.insert(n)
            &&& next.status_log == closing_message(n)
            &&& next.issues == a.issues && next.selected == a.selected
        },
{
}

} // verus!
