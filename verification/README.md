# issue_dash

A terminal dashboard for the GitHub issues of a repository, built on the `gh`
command-line tool. The logic is a library verified with Verus; the program
around it draws with ratatui, reads input with crossterm and runs `gh`.

- `src/markdown.rs`, `src/issue_probe.rs`: cleaning of issue markdown
  (HTML comments removed, inline tags rewritten) for the dashboard and for
  the rendering probe.
- `src/width.rs`: display widths (through `unicode-width`) and truncation of
  titles to a column budget.
- `src/color.rs`: label colours from hex colour codes.
- `src/query.rs`: what a search query asks `gh` for, and the response made of
  `gh`'s outcome.
- `src/app.rs`: the dashboard's state machine (keys, mouse, responses).
- `src/listing.rs`: the lines of each issue list entry.
- `src/text.rs`: character helpers (replacement, decimal numbers).
- `app/`: the terminal program and the `gh` worker.
- `tests/`: tests of the library.
