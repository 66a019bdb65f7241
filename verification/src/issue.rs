//! Issues as the dashboard holds them, and the messages exchanged with the
//! worker that talks to the `gh` command-line tool.

use vstd::prelude::*;

verus! {

/// The author of an issue.
#[derive(Clone, Debug)]
pub struct Author {
    pub login: String,
}

/// A label attached to an issue, with its optional hex colour code.
#[derive(Clone, Debug)]
pub struct Label {
    pub name: String,
    pub color: Option<String>,
}

/// A GitHub issue as listed by `gh issue list --json`.
#[derive(Clone, Debug)]
pub struct Issue {
    pub number: u32,
    pub title: String,
    /// `OPEN` or `CLOSED`.
    pub state: String,
    pub author: Author,
    pub labels: Vec<Label>,
    /// ISO 8601 timestamp of the last update.
    pub updated_at: String,
    pub body: String,
}

/// A request sent to the background worker.
#[derive(Debug)]
pub enum AppRequest {
    Fetch { repo: String, query: String },
    Close { repo: String, number: u32 },
    Reopen { repo: String, number: u32 },
}

/// The worker's answer to a request.
#[derive(Debug)]
pub enum AppResponse {
    FetchSuccess(Vec<Issue>),
    FetchError(String),
    CloseSuccess(u32),
    CloseError { number: u32, err: String },
    ReopenSuccess(u32),
    ReopenError { number: u32, err: String },
}

} // verus!
