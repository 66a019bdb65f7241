//! Verified core of a terminal dashboard for GitHub issues: cleaning of issue
//! markdown, width-aware truncation, label colours, search-query planning and
//! the dashboard's state machine.

pub mod text;
pub mod markdown;
pub mod issue_probe;
pub mod width;
pub mod color;
pub mod issue;
pub mod query;
pub mod app;
pub mod listing;
