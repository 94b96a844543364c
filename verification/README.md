# repo-health

A scanner for the health of source repositories. It produces a score from 0 to
100, a list of checks (info, warn, error) with suggested fixes, an optional
comparison with a baseline, and reports as plain text, Markdown and JSON.

- `src/` is the library, verified with Verus: what is counted and checked, how
  the score follows, what a comparison says, how reports and screens read, and
  what keys do.
- `app/` is the program around it: the command line, the file system, JSON, and
  the terminal.
- `tests/` run the library on concrete values.

The library reads no files. The program walks through the repository and hands
over what it meets; `walk::Tally` and `secrets::SecretScan` take that in entry
by entry and say when the walk is over, and `scan::scan_repo` turns the outcome
into a scan.

A few items are trusted rather than proved, each with its claim in its doc
comment: the calls of `regex`, of `serde_json`, of `str::to_lowercase` and of
`Path::strip_prefix`.
