//! Reports: a scan as plain text and as Markdown.

use vstd::prelude::*;

use crate::model;
use crate::model::{
    BaselineDiff, CheckResult, CheckView, DiffView, FileEntry, FileView, MetricsView, Mode, RepoMetrics,
    ScanResult, ScanView, Severity, SeverityCounts,
};
use crate::severity;
use crate::size;
use crate::text;

verus! {

/// The number of regressions that a plain report lists.
pub const SHOWN_REGRESSIONS: usize = 8;

/// The number of checks can be computed from the counts.
pub open spec fn countable(counts: SeverityCounts) -> bool {
    counts.info + counts.warn + counts.error <= usize::MAX
}

/// The counts by severity.
pub open spec fn severities_text(c: SeverityCounts) -> Seq<char> {
    "("@ + text::decimal(c.info as nat) + " info, "@ + text::decimal(c.warn as nat) + " warn, "@
        + text::decimal(c.error as nat) + " error)"@
}

/// The number of checks, and the counts by severity.
pub open spec fn counts_text(c: SeverityCounts) -> Seq<char> {
    text::decimal((c.info + c.warn + c.error) as nat) + " "@ + severities_text(c)
}

/// The comparison with a baseline.
pub open spec fn delta_text(d: DiffView) -> Seq<char> {
    "score "@ + text::decimal(d.baseline_score as nat) + " (delta "@ + text::signed(d.score_delta as int)
        + "), warn delta "@ + text::signed(d.warn_delta as int) + ", error delta "@ + text::signed(
        d.error_delta as int,
    )
}

/// The items, each behind `prefix`.
pub open spec fn prefixed(items: Seq<Seq<char>>, prefix: Seq<char>) -> Seq<Seq<char>> {
    items.map_values(|t: Seq<char>| prefix + t)
}

/// The regressions as a plain report lists them: the first few, and a mark if there are more.
pub open spec fn regression_lines(regressions: Seq<Seq<char>>) -> Seq<Seq<char>> {
    if regressions.len() > SHOWN_REGRESSIONS {
        prefixed(regressions.take(SHOWN_REGRESSIONS as int), "  regression: "@).push("  regression: …"@)
    } else {
        prefixed(regressions, "  regression: "@)
    }
}

/// The lines of a plain report on the baseline.
pub open spec fn pretty_baseline(d: Option<DiffView>) -> Seq<Seq<char>> {
    match d {
        Some(d) => seq!["baseline: "@ + delta_text(d)] + regression_lines(d.regressions),
        None => seq![],
    }
}

/// The line on detected ecosystems between `before` and `after`; none where nothing was detected.
pub open spec fn detected_line(
    detected: Seq<Seq<char>>,
    before: Seq<char>,
    after: Seq<char>,
) -> Seq<Seq<char>> {
    if detected.len() == 0 {
        seq![]
    } else {
        seq![before + text::join(detected, ", "@) + after]
    }
}

/// A line of a plain report on a large file.
pub open spec fn pretty_file(f: FileView) -> Seq<char> {
    "  "@ + text::pad_left(size::size_text(f.bytes as nat), 10) + "  "@ + f.path
}

/// The lines of a plain report on the largest files.
pub open spec fn pretty_largest(files: Seq<FileView>) -> Seq<Seq<char>> {
    if files.len() == 0 {
        seq![]
    } else {
        seq![""@, "largest files:"@] + files.map_values(|f: FileView| pretty_file(f))
    }
}

/// The lines of a plain report on one check.
pub open spec fn pretty_check(c: CheckView) -> Seq<Seq<char>> {
    seq!["  ["@ + severity::tag(c.severity) + "] "@ + c.title + " - "@ + c.message] + prefixed(
        c.details,
        "       - "@,
    )
}

/// The lines of a plain report on a list of checks.
pub open spec fn pretty_checks(checks: Seq<CheckView>) -> Seq<Seq<char>>
    decreases checks.len(),
{
    if checks.len() == 0 {
        seq![]
    } else {
        pretty_checks(checks.drop_last()) + pretty_check(checks.last())
    }
}

/// The first lines of a plain report.
pub open spec fn pretty_head(m: MetricsView) -> Seq<Seq<char>> {
    seq![
        "repo-health"@,
        "root: "@ + m.root,
        "files: "@ + text::decimal(m.total_files as nat) + " | size: "@ + size::size_text(m.total_bytes as nat),
        "score: "@ + text::decimal(m.score as nat) + " | checks: "@ + counts_text(m.counts),
    ]
}

/// The lines of a plain report.
pub open spec fn pretty_lines(r: ScanView, d: Option<DiffView>) -> Seq<Seq<char>> {
    pretty_head(r.metrics) + pretty_baseline(d) + detected_line(r.metrics.detected, "detected: "@, ""@)
        + pretty_largest(r.metrics.largest_files) + seq![""@, "checks:"@] + pretty_checks(r.checks)
}

/// The first lines of a Markdown report.
pub open spec fn markdown_head(m: MetricsView) -> Seq<Seq<char>> {
    seq![
        "# repo-health"@,
        ""@,
        "**Root:** `"@ + m.root + "`"@,
        ""@,
        "| Metric | Value |"@,
        "|---|---:|"@,
        "| Score | "@ + text::decimal(m.score as nat) + " |"@,
        "| Files | "@ + text::decimal(m.total_files as nat) + " |"@,
        "| Size | "@ + size::size_text(m.total_bytes as nat) + " |"@,
        "| Checks | "@ + counts_text(m.counts) + " |"@,
    ]
}

/// The lines of a Markdown report on the baseline.
pub open spec fn markdown_baseline(d: Option<DiffView>) -> Seq<Seq<char>> {
    match d {
        Some(d) => seq!["| Baseline | "@ + delta_text(d) + " |"@],
        None => seq![],
    }
}

/// A line of a Markdown report on a large file.
pub open spec fn markdown_file(f: FileView) -> Seq<char> {
    "| "@ + size::size_text(f.bytes as nat) + " | `"@ + f.path + "` |"@
}

/// The lines of a Markdown report on the largest files.
pub open spec fn markdown_largest(files: Seq<FileView>) -> Seq<Seq<char>> {
    if files.len() == 0 {
        seq![]
    } else {
        seq![""@, "## Largest files"@, ""@, "| Size | Path |"@, "|---:|---|"@] + files.map_values(
            |f: FileView| markdown_file(f),
        )
    }
}

/// The lines of a Markdown report on one check.
pub open spec fn markdown_check(c: CheckView) -> Seq<Seq<char>> {
    seq!["- **["@ + severity::tag(c.severity) + "] "@ + c.title + "** - "@ + c.message] + prefixed(
        c.details,
        "  - "@,
    )
}

/// The lines of a Markdown report on a list of checks.
pub open spec fn markdown_checks(checks: Seq<CheckView>) -> Seq<Seq<char>>
    decreases checks.len(),
{
    if checks.len() == 0 {
        seq![]
    } else {
        markdown_checks(checks.drop_last()) + markdown_check(checks.last())
    }
}

/// The lines of a Markdown report.
pub open spec fn markdown_lines(r: ScanView, d: Option<DiffView>) -> Seq<Seq<char>> {
    markdown_head(r.metrics) + detected_line(r.metrics.detected, "| Detected | "@, " |"@)
        + markdown_baseline(d) + markdown_largest(r.metrics.largest_files) + seq![
        ""@,
        "## Checks"@,
        ""@,
    ] + markdown_checks(r.checks)
}

/// A report in the form `mode`; `json` is the scan as JSON. The terminal
/// interface has no report.
pub open spec fn report_text(
    mode: Mode,
    r: ScanView,
    d: Option<DiffView>,
    json: Seq<char>,
) -> Seq<char> {
    match mode {
        Mode::Tui => seq![],
        Mode::Pretty => text::unlines(pretty_lines(r, d)),
        Mode::Json => json,
        Mode::Md => text::unlines(markdown_lines(r, d)),
    }
}

/// Adds a line.
fn push_line(lines: &mut Vec<String>, line: String)
    ensures
        text::texts(final(lines)@) == text::texts(old(lines)@).push(line@),
{
    let ghost before = lines@;
    lines.push(line);
    assert(text::texts(lines@) =~= text::texts(before).push(line@));
}

/// Adds the first `limit` items as lines behind `prefix`.
fn push_prefixed(lines: &mut Vec<String>, prefix: &str, items: &Vec<String>, limit: usize)
    requires
        limit <= items@.len(),
    ensures
        text::texts(final(lines)@) == text::texts(old(lines)@) + prefixed(
            text::texts(items@).take(limit as int),
            prefix@,
        ),
{
    let mut i: usize = 0;
    let ghost all = text::texts(items@);
    assert(text::texts(lines@) =~= text::texts(old(lines)@) + prefixed(all.take(0), prefix@));
    while i < limit
        invariant
            all == text::texts(items@),
            i <= limit <= items@.len(),
            text::texts(lines@) == text::texts(old(lines)@) + prefixed(all.take(i as int), prefix@),
        decreases limit - i,
    {
        let mut line = prefix.to_owned();
        line.append(items[i].as_str());
        proof {
            assert(prefixed(all.take(i + 1), prefix@) =~= prefixed(all.take(i as int), prefix@).push(
                prefix@ + all[i as int],
            ));
        }
        push_line(lines, line);
        proof {
            assert(text::texts(lines@) =~= text::texts(old(lines)@) + prefixed(all.take(i + 1), prefix@));
        }
        i += 1;
    }
}

/// The counts by severity.
pub fn severities_line(c: &SeverityCounts) -> (r: String)
    ensures
        r@ == severities_text(*c),
{
    let mut s = "(".to_owned();
    let n = text::decimal_text(c.info as u128);
    s.append(n.as_str());
    s.append(" info, ");
    let n = text::decimal_text(c.warn as u128);
    s.append(n.as_str());
    s.append(" warn, ");
    let n = text::decimal_text(c.error as u128);
    s.append(n.as_str());
    s.append(" error)");
    s
}

/// The number of checks, and the counts by severity.
fn counts_line(c: &SeverityCounts) -> (r: String)
    requires
        countable(*c),
    ensures
        r@ == counts_text(*c),
{
    let total: usize = c.info + c.warn + c.error;
    let mut s = text::decimal_text(total as u128);
    s.append(" ");
    let n = severities_line(c);
    s.append(n.as_str());
    s
}

/// The comparison with a baseline.
fn delta_line(d: &BaselineDiff) -> (r: String)
    ensures
        r@ == delta_text(d@),
{
    let mut s = "score ".to_owned();
    let n = text::decimal_text(d.baseline_score as u128);
    s.append(n.as_str());
    s.append(" (delta ");
    let n = text::signed_text(d.score_delta);
    s.append(n.as_str());
    s.append("), warn delta ");
    let n = text::signed_text(d.warn_delta);
    s.append(n.as_str());
    s.append(", error delta ");
    let n = text::signed_text(d.error_delta);
    s.append(n.as_str());
    s
}

/// Adds the first lines of a plain report.
fn push_pretty_head(lines: &mut Vec<String>, m: &RepoMetrics)
    requires
        countable(m.counts),
    ensures
        text::texts(final(lines)@) == text::texts(old(lines)@) + pretty_head(m@),
{
    push_line(lines, "repo-health".to_owned());
    let mut s = "root: ".to_owned();
    s.append(m.root.as_str());
    push_line(lines, s);
    let mut s = "files: ".to_owned();
    let n = text::decimal_text(m.total_files as u128);
    s.append(n.as_str());
    s.append(" | size: ");
    let n = size::format_bytes(m.total_bytes);
    s.append(n.as_str());
    push_line(lines, s);
    let mut s = "score: ".to_owned();
    let n = text::decimal_text(m.score as u128);
    s.append(n.as_str());
    s.append(" | checks: ");
    let n = counts_line(&m.counts);
    s.append(n.as_str());
    push_line(lines, s);
    assert(text::texts(lines@) =~= text::texts(old(lines)@) + pretty_head(m@));
}

/// Adds the lines of a plain report on the baseline.
fn push_pretty_baseline(lines: &mut Vec<String>, baseline_diff: Option<&BaselineDiff>)
    ensures
        text::texts(final(lines)@) == text::texts(old(lines)@) + pretty_baseline(
            model::opt_diff_ref(baseline_diff),
        ),
{
    if let Some(d) = baseline_diff {
        let mut s = "baseline: ".to_owned();
        let n = delta_line(d);
        s.append(n.as_str());
        push_line(lines, s);
        let ghost all = text::texts(d.regressions@);
        if d.regressions.len() > SHOWN_REGRESSIONS {
            push_prefixed(lines, "  regression: ", &d.regressions, SHOWN_REGRESSIONS);
            push_line(lines, "  regression: …".to_owned());
        } else {
            push_prefixed(lines, "  regression: ", &d.regressions, d.regressions.len());
            assert(all.take(all.len() as int) =~= all);
        }
    }
    assert(text::texts(lines@) =~= text::texts(old(lines)@) + pretty_baseline(
        model::opt_diff_ref(baseline_diff),
    ));
}

/// Adds the line on detected ecosystems.
fn push_detected(lines: &mut Vec<String>, detected: &Vec<String>, before: &str, after: &str)
    ensures
        text::texts(final(lines)@) == text::texts(old(lines)@) + detected_line(
            text::texts(detected@),
            before@,
            after@,
        ),
{
    if detected.len() > 0 {
        let mut s = before.to_owned();
        let list = text::joined_text(detected, ", ");
        s.append(list.as_str());
        s.append(after);
        push_line(lines, s);
    }
    assert(text::texts(lines@) =~= text::texts(old(lines)@) + detected_line(
        text::texts(detected@),
        before@,
        after@,
    ));
}

/// A line of a plain report on a large file.
fn pretty_file_line(f: &FileEntry) -> (r: String)
    ensures
        r@ == pretty_file(f@),
{
    let mut s = "  ".to_owned();
    let n = size::format_bytes(f.bytes);
    let n = text::padded_text(n.as_str(), 10);
    s.append(n.as_str());
    s.append("  ");
    s.append(f.path.as_str());
    s
}

/// Adds the lines of a plain report on the largest files.
fn push_pretty_largest(lines: &mut Vec<String>, files: &Vec<FileEntry>)
    ensures
        text::texts(final(lines)@) == text::texts(old(lines)@) + pretty_largest(
            model::files_view(files@),
        ),
{
    let ghost all = model::files_view(files@);
    if files.len() > 0 {
        push_line(lines, "".to_owned());
        push_line(lines, "largest files:".to_owned());
        let ghost head = text::texts(lines@);
        let mut i: usize = 0;
        assert(head =~= head + all.take(0).map_values(|f: FileView| pretty_file(f)));
        while i < files.len()
            invariant
                all == model::files_view(files@),
                i <= files@.len(),
                text::texts(lines@) == head + all.take(i as int).map_values(
                    |f: FileView| pretty_file(f),
                ),
            decreases files@.len() - i,
        {
            let line = pretty_file_line(&files[i]);
            push_line(lines, line);
            proof {
                assert(text::texts(lines@) =~= head + all.take(i + 1).map_values(
                    |f: FileView| pretty_file(f),
                ));
            }
            i += 1;
        }
        assert(all.take(i as int) =~= all);
    }
    assert(text::texts(lines@) =~= text::texts(old(lines)@) + pretty_largest(all));
}

/// Adds the lines of a plain report on one check.
fn push_pretty_check(lines: &mut Vec<String>, c: &CheckResult)
    ensures
        text::texts(final(lines)@) == text::texts(old(lines)@) + pretty_check(c@),
{
    let mut s = "  [".to_owned();
    s.append(severity::sev_tag(c.severity));
    s.append("] ");
    s.append(c.title.as_str());
    s.append(" - ");
    s.append(c.message.as_str());
    push_line(lines, s);
    push_prefixed(lines, "       - ", &c.details, c.details.len());
    proof {
        let all = text::texts(c.details@);
        assert(all.take(all.len() as int) =~= all);
        assert(text::texts(lines@) =~= text::texts(old(lines)@) + pretty_check(c@));
    }
}

/// Adds the lines of a plain report on the checks.
fn push_pretty_checks(lines: &mut Vec<String>, checks: &Vec<CheckResult>)
    ensures
        text::texts(final(lines)@) == text::texts(old(lines)@) + pretty_checks(
            model::checks_view(checks@),
        ),
{
    let ghost all = model::checks_view(checks@);
    let mut i: usize = 0;
    assert(all.take(0) =~= seq![]);
    assert(text::texts(lines@) =~= text::texts(old(lines)@) + pretty_checks(all.take(0)));
    while i < checks.len()
        invariant
            all == model::checks_view(checks@),
            i <= checks@.len(),
            text::texts(lines@) == text::texts(old(lines)@) + pretty_checks(all.take(i as int)),
        decreases checks@.len() - i,
    {
        push_pretty_check(lines, &checks[i]);
        proof {
            assert(all.take(i + 1).drop_last() =~= all.take(i as int));
            assert(text::texts(lines@) =~= text::texts(old(lines)@) + pretty_checks(all.take(i + 1)));
        }
        i += 1;
    }
    assert(all.take(i as int) =~= all);
}

/// Appends a plain report to `out`.
pub fn write_pretty(out: &mut String, result: &ScanResult, baseline_diff: Option<&BaselineDiff>)
    requires
        countable(result.metrics.counts),
    ensures
        final(out)@ == old(out)@ + text::unlines(
            pretty_lines(result@, model::opt_diff_ref(baseline_diff)),
        ),
{
    let m = &result.metrics;
    let mut lines: Vec<String> = Vec::new();
    push_pretty_head(&mut lines, m);
    push_pretty_baseline(&mut lines, baseline_diff);
    push_detected(&mut lines, &m.detected, "detected: ", "");
    push_pretty_largest(&mut lines, &m.largest_files);
    push_line(&mut lines, "".to_owned());
    push_line(&mut lines, "checks:".to_owned());
    push_pretty_checks(&mut lines, &result.checks);
    assert(text::texts(lines@) =~= pretty_lines(result@, model::opt_diff_ref(baseline_diff)));
    text::append_lines(out, &lines);
}

/// Adds the first lines of a Markdown report.
fn push_markdown_head(lines: &mut Vec<String>, m: &RepoMetrics)
    requires
        countable(m.counts),
    ensures
        text::texts(final(lines)@) == text::texts(old(lines)@) + markdown_head(m@),
{
    push_line(lines, "# repo-health".to_owned());
    push_line(lines, "".to_owned());
    let mut s = "**Root:** `".to_owned();
    s.append(m.root.as_str());
    s.append("`");
    push_line(lines, s);
    push_line(lines, "".to_owned());
    push_line(lines, "| Metric | Value |".to_owned());
    push_line(lines, "|---|---:|".to_owned());
    let mut s = "| Score | ".to_owned();
    let n = text::decimal_text(m.score as u128);
    s.append(n.as_str());
    s.append(" |");
    push_line(lines, s);
    let mut s = "| Files | ".to_owned();
    let n = text::decimal_text(m.total_files as u128);
    s.append(n.as_str());
    s.append(" |");
    push_line(lines, s);
    let mut s = "| Size | ".to_owned();
    let n = size::format_bytes(m.total_bytes);
    s.append(n.as_str());
    s.append(" |");
    push_line(lines, s);
    let mut s = "| Checks | ".to_owned();
    let n = counts_line(&m.counts);
    s.append(n.as_str());
    s.append(" |");
    push_line(lines, s);
    assert(text::texts(lines@) =~= text::texts(old(lines)@) + markdown_head(m@));
}

/// Adds the lines of a Markdown report on the baseline.
fn push_markdown_baseline(lines: &mut Vec<String>, baseline_diff: Option<&BaselineDiff>)
    ensures
        text::texts(final(lines)@) == text::texts(old(lines)@) + markdown_baseline(
            model::opt_diff_ref(baseline_diff),
        ),
{
    if let Some(d) = baseline_diff {
        let mut s = "| Baseline | ".to_owned();
        let n = delta_line(d);
        s.append(n.as_str());
        s.append(" |");
        push_line(lines, s);
    }
    assert(text::texts(lines@) =~= text::texts(old(lines)@) + markdown_baseline(
        model::opt_diff_ref(baseline_diff),
    ));
}

/// A line of a Markdown report on a large file.
fn markdown_file_line(f: &FileEntry) -> (r: String)
    ensures
        r@ == markdown_file(f@),
{
    let mut s = "| ".to_owned();
    let n = size::format_bytes(f.bytes);
    s.append(n.as_str());
    s.append(" | `");
    s.append(f.path.as_str());
    s.append("` |");
    s
}

/// Adds the lines of a Markdown report on the largest files.
fn push_markdown_largest(lines: &mut Vec<String>, files: &Vec<FileEntry>)
    ensures
        text::texts(final(lines)@) == text::texts(old(lines)@) + markdown_largest(
            model::files_view(files@),
        ),
{
    let ghost all = model::files_view(files@);
    if files.len() > 0 {
        push_line(lines, "".to_owned());
        push_line(lines, "## Largest files".to_owned());
        push_line(lines, "".to_owned());
        push_line(lines, "| Size | Path |".to_owned());
        push_line(lines, "|---:|---|".to_owned());
        let ghost head = text::texts(lines@);
        let mut i: usize = 0;
        assert(head =~= head + all.take(0).map_values(|f: FileView| markdown_file(f)));
        while i < files.len()
            invariant
                all == model::files_view(files@),
                i <= files@.len(),
                text::texts(lines@) == head + all.take(i as int).map_values(
                    |f: FileView| markdown_file(f),
                ),
            decreases files@.len() - i,
        {
            let line = markdown_file_line(&files[i]);
            push_line(lines, line);
            proof {
                assert(text::texts(lines@) =~= head + all.take(i + 1).map_values(
                    |f: FileView| markdown_file(f),
                ));
            }
            i += 1;
        }
        assert(all.take(i as int) =~= all);
    }
    assert(text::texts(lines@) =~= text::texts(old(lines)@) + markdown_largest(all));
}

/// Adds the lines of a Markdown report on one check.
fn push_markdown_check(lines: &mut Vec<String>, c: &CheckResult)
    ensures
        text::texts(final(lines)@) == text::texts(old(lines)@) + markdown_check(c@),
{
    let mut s = "- **[".to_owned();
    s.append(severity::sev_tag(c.severity));
    s.append("] ");
    s.append(c.title.as_str());
    s.append("** - ");
    s.append(c.message.as_str());
    push_line(lines, s);
    push_prefixed(lines, "  - ", &c.details, c.details.len());
    proof {
        let all = text::texts(c.details@);
        assert(all.take(all.len() as int) =~= all);
        assert(text::texts(lines@) =~= text::texts(old(lines)@) + markdown_check(c@));
    }
}

/// Adds the lines of a Markdown report on the checks.
fn push_markdown_checks(lines: &mut Vec<String>, checks: &Vec<CheckResult>)
    ensures
        text::texts(final(lines)@) == text::texts(old(lines)@) + markdown_checks(
            model::checks_view(checks@),
        ),
{
    let ghost all = model::checks_view(checks@);
    let mut i: usize = 0;
    assert(all.take(0) =~= seq![]);
    assert(text::texts(lines@) =~= text::texts(old(lines)@) + markdown_checks(all.take(0)));
    while i < checks.len()
        invariant
            all == model::checks_view(checks@),
            i <= checks@.len(),
            text::texts(lines@) == text::texts(old(lines)@) + markdown_checks(all.take(i as int)),
        decreases checks@.len() - i,
    {
        push_markdown_check(lines, &checks[i]);
        proof {
            assert(all.take(i + 1).drop_last() =~= all.take(i as int));
            assert(text::texts(lines@) =~= text::texts(old(lines)@) + markdown_checks(all.take(i + 1)));
        }
        i += 1;
    }
    assert(all.take(i as int) =~= all);
}

/// Appends a Markdown report to `out`.
pub fn write_markdown(out: &mut String, result: &ScanResult, baseline_diff: Option<&BaselineDiff>)
    requires
        countable(result.metrics.counts),
    ensures
        final(out)@ == old(out)@ + text::unlines(
            markdown_lines(result@, model::opt_diff_ref(baseline_diff)),
        ),
{
    let m = &result.metrics;
    let mut lines: Vec<String> = Vec::new();
    push_markdown_head(&mut lines, m);
    push_detected(&mut lines, &m.detected, "| Detected | ", " |");
    push_markdown_baseline(&mut lines, baseline_diff);
    push_markdown_largest(&mut lines, &m.largest_files);
    push_line(&mut lines, "".to_owned());
    push_line(&mut lines, "## Checks".to_owned());
    push_line(&mut lines, "".to_owned());
    push_markdown_checks(&mut lines, &result.checks);
    assert(text::texts(lines@) =~= markdown_lines(result@, model::opt_diff_ref(baseline_diff)));
    text::append_lines(out, &lines);
}

/// Appends a report in the form `mode` to `out`. `json` is the scan as JSON;
/// it is read in that mode alone.
pub fn write_report(
    out: &mut String,
    mode: Mode,
    result: &ScanResult,
    baseline_diff: Option<&BaselineDiff>,
    json: &str,
)
    requires
        mode == Mode::Pretty || mode == Mode::Md ==> countable(result.metrics.counts),
    ensures
        final(out)@ == old(out)@ + report_text(mode, result@, model::opt_diff_ref(baseline_diff), json@),
{
    match mode {
        Mode::Tui => {
            assert(out@ =~= old(out)@ + Seq::<char>::empty());
        },
        Mode::Pretty => write_pretty(out, result, baseline_diff),
        Mode::Json => out.append(json),
        Mode::Md => write_markdown(out, result, baseline_diff),
    }
}

/// The lines on each check stand among those on all.
proof fn check_is_among_checks(checks: Seq<CheckView>, i: int)
    requires
        0 <= i < checks.len(),
    ensures
        pretty_checks(checks).contains(pretty_check(checks[i])[0]),
        markdown_checks(checks).contains(markdown_check(checks[i])[0]),
    decreases checks.len(),
{
    let front = checks.drop_last();
    let pretty = pretty_checks(front);
    let markdown = markdown_checks(front);
    if i == checks.len() - 1 {
        assert(pretty_checks(checks)[pretty.len() as int] == pretty_check(checks[i])[0]);
        assert(markdown_checks(checks)[markdown.len() as int] == markdown_check(checks[i])[0]);
    } else {
        check_is_among_checks(front, i);
        assert(front[i] == checks[i]);
        let k = choose|k: int| 0 <= k < pretty.len() && pretty[k] == pretty_check(checks[i])[0];
        assert(pretty_checks(checks)[k] == pretty[k]);
        let k = choose|k: int| 0 <= k < markdown.len() && markdown[k] == markdown_check(checks[i])[0];
        assert(markdown_checks(checks)[k] == markdown[k]);
    }
}

/// Both reports name every check with its severity and message.
pub proof fn reports_name_every_check(r: ScanView, d: Option<DiffView>, i: int)
    requires
        0 <= i < r.checks.len(),
    ensures
        pretty_lines(r, d).contains(pretty_check(r.checks[i])[0]),
        markdown_lines(r, d).contains(markdown_check(r.checks[i])[0]),
{
    check_is_among_checks(r.checks, i);
    let pretty = pretty_checks(r.checks);
    let k = choose|k: int| 0 <= k < pretty.len() && pretty[k] == pretty_check(r.checks[i])[0];
    assert(pretty_lines(r, d)[pretty_lines(r, d).len() - pretty.len() + k] == pretty[k]);
    let markdown = markdown_checks(r.checks);
    let k = choose|k: int| 0 <= k < markdown.len() && markdown[k] == markdown_check(r.checks[i])[0];
    assert(markdown_lines(r, d)[markdown_lines(r, d).len() - markdown.len() + k] == markdown[k]);
}

/// How many lines a report has on the checks: one for each, and one for each of
/// its details.
pub open spec fn rows(checks: Seq<CheckView>) -> nat
    decreases checks.len(),
{
    if checks.len() == 0 {
        0
    } else {
        rows(checks.drop_last()) + 1 + checks.last().details.len()
    }
}

/// The place of the lines on each check among those on all.
proof fn check_lines_are_placed(checks: Seq<CheckView>, i: int)
    requires
        0 <= i < checks.len(),
    ensures
        pretty_checks(checks).len() == rows(checks),
        markdown_checks(checks).len() == rows(checks),
        rows(checks.take(i)) + 1 + checks[i].details.len() <= rows(checks),
        forall|k: int|
            0 <= k <= checks[i].details.len() ==> {
                &&& #[trigger] pretty_checks(checks)[rows(checks.take(i)) + k] == pretty_check(checks[i])[k]
                &&& markdown_checks(checks)[rows(checks.take(i)) + k] == markdown_check(checks[i])[k]
            },
    decreases checks.len(),
{
    let front = checks.drop_last();
    rows_are_counted(front);
    rows_are_counted(checks);
    if i == checks.len() - 1 {
        assert(checks.take(i) =~= front);
    } else {
        check_lines_are_placed(front, i);
        assert(front[i] == checks[i]);
        assert(front.take(i) =~= checks.take(i));
        let n = rows(checks.take(i)) as int;
        assert forall|k: int| 0 <= k <= checks[i].details.len() implies {
            &&& #[trigger] pretty_checks(checks)[n + k] == pretty_check(checks[i])[k]
            &&& markdown_checks(checks)[n + k] == markdown_check(checks[i])[k]
        } by {
            assert(pretty_checks(front)[n + k] == pretty_check(front[i])[k]);
        }
    }
}

proof fn rows_are_counted(checks: Seq<CheckView>)
    ensures
        pretty_checks(checks).len() == rows(checks),
        markdown_checks(checks).len() == rows(checks),
    decreases checks.len(),
{
    if checks.len() > 0 {
        rows_are_counted(checks.drop_last());
    }
}

/// How many lines a plain report has on the baseline: none without one, else a
/// line, one for each of the first eight regressions, and one more where there
/// are others.
pub open spec fn baseline_rows(d: Option<DiffView>) -> int {
    if d is None {
        0
    } else if d->0.regressions.len() > 8 {
        10
    } else {
        1 + d->0.regressions.len() as int
    }
}

/// The plain report begins with its name, the root, the files and their size,
/// and the score and the checks, counted by severity.
pub proof fn plain_report_begins_with_the_measures(r: ScanView, d: Option<DiffView>)
    ensures
        ({
            let lines = pretty_lines(r, d);
            let m = r.metrics;
            &&& lines.len() >= 6
            &&& lines[0] == "repo-health"@
            &&& lines[1] == "root: "@ + m.root
            &&& lines[2] == "files: "@ + text::decimal(m.total_files as nat) + " | size: "@ + size::size_text(
                m.total_bytes as nat,
            )
            &&& lines[3] == "score: "@ + text::decimal(m.score as nat) + " | checks: "@ + (text::decimal(
                (m.counts.info + m.counts.warn + m.counts.error) as nat,
            ) + " "@ + ("("@ + text::decimal(m.counts.info as nat) + " info, "@ + text::decimal(
                m.counts.warn as nat,
            ) + " warn, "@ + text::decimal(m.counts.error as nat) + " error)"@))
        }),
{
}

/// Behind the measures the plain report shows the baseline, where there is one:
/// its score and the changes since, then the first eight regressions, and a
/// mark where there are more.
pub proof fn plain_report_shows_the_baseline(r: ScanView, d: DiffView, i: int)
    ensures
        ({
            let lines = pretty_lines(r, Some(d));
            &&& lines[4] == "baseline: "@ + ("score "@ + text::decimal(d.baseline_score as nat) + " (delta "@
                + text::signed(d.score_delta as int) + "), warn delta "@ + text::signed(d.warn_delta as int)
                + ", error delta "@ + text::signed(d.error_delta as int))
            &&& 0 <= i < d.regressions.len() && i < 8 ==> lines[5 + i] == "  regression: "@ + d.regressions[i]
            &&& d.regressions.len() > 8 ==> lines[13] == "  regression: …"@
        }),
{
}

/// Then it names the ecosystems, where there are any, and the largest files,
/// where there are any, each with its size set to the right; then come the
/// checks and nothing more.
pub proof fn plain_report_shows_ecosystems_and_files(r: ScanView, d: Option<DiffView>, i: int)
    ensures
        ({
            let lines = pretty_lines(r, d);
            let m = r.metrics;
            let n = 4 + baseline_rows(d);
            let k: int = n + if m.detected.len() > 0 { 1int } else { 0int };
            let q: int = k + if m.largest_files.len() > 0 { 2 + m.largest_files.len() as int } else { 0int };
            &&& m.detected.len() > 0 ==> lines[n] == "detected: "@ + text::join(m.detected, ", "@)
            &&& m.largest_files.len() > 0 ==> lines[k] == ""@ && lines[k + 1] == "largest files:"@
            &&& 0 <= i < m.largest_files.len() ==> lines[k + 2 + i] == "  "@ + text::pad_left(
                size::size_text(m.largest_files[i].bytes as nat),
                10,
            ) + "  "@ + m.largest_files[i].path
            &&& lines[q] == ""@ && lines[q + 1] == "checks:"@
            &&& lines.len() == q + 2 + rows(r.checks)
        }),
{
    reveal_strlit("");
    rows_are_counted(r.checks);
    let lines = pretty_lines(r, d);
    let m = r.metrics;
    let n = 4 + baseline_rows(d);
    let head = pretty_head(m) + pretty_baseline(d);
    assert(head.len() == n);
    let detected = detected_line(m.detected, "detected: "@, ""@);
    let largest = pretty_largest(m.largest_files);
    let k: int = n + detected.len();
    let q: int = k + largest.len();
    if m.detected.len() > 0 {
        assert(lines[n] == detected[0]);
        assert(detected[0] =~= "detected: "@ + text::join(m.detected, ", "@));
    }
    if m.largest_files.len() > 0 {
        assert(lines[k] == largest[0]);
        assert(lines[k + 1] == largest[1]);
        if 0 <= i < m.largest_files.len() {
            assert(lines[k + 2 + i] == largest[2 + i]);
            assert(largest[2 + i] == pretty_file(m.largest_files[i]));
        }
    }
    assert(lines[q] == ""@);
    assert(lines[q + 1] == "checks:"@);
}

/// Both reports end with the checks, in their order: a line with the severity,
/// the title and the message of each, and right behind it all its details, in
/// their order and one to a line.
pub proof fn reports_name_every_detail(r: ScanView, d: Option<DiffView>, i: int, j: int)
    requires
        0 <= i < r.checks.len(),
        0 <= j < r.checks[i].details.len(),
    ensures
        ({
            let c = r.checks[i];
            let plain = pretty_lines(r, d);
            let markdown = markdown_lines(r, d);
            let p = plain.len() - rows(r.checks) + rows(r.checks.take(i));
            let m = markdown.len() - rows(r.checks) + rows(r.checks.take(i));
            &&& p >= 0 && p + 1 + j < plain.len()
            &&& m >= 0 && m + 1 + j < markdown.len()
            &&& plain[p + 1 + j] == "       - "@ + c.details[j]
            &&& markdown[m + 1 + j] == "  - "@ + c.details[j]
            &&& plain.contains("       - "@ + c.details[j])
            &&& markdown.contains("  - "@ + c.details[j])
        }),
{
    let c = r.checks[i];
    check_lines_are_placed(r.checks, i);
    let n = rows(r.checks.take(i)) as int;
    let plain = pretty_lines(r, d);
    let markdown = markdown_lines(r, d);
    assert(pretty_checks(r.checks)[n + (1 + j)] == pretty_check(c)[1 + j]);
    assert(plain[plain.len() - rows(r.checks) + (n + 1 + j)] == pretty_checks(r.checks)[n + (1 + j)]);
    assert(markdown[markdown.len() - rows(r.checks) + (n + 1 + j)] == markdown_checks(r.checks)[n + (1
        + j)]);
}

/// The line on each check gives its severity, its title and its message.
pub proof fn reports_give_severity_and_message(r: ScanView, d: Option<DiffView>, i: int)
    requires
        0 <= i < r.checks.len(),
    ensures
        ({
            let c = r.checks[i];
            let plain = pretty_lines(r, d);
            let markdown = markdown_lines(r, d);
            let p = plain.len() - rows(r.checks) + rows(r.checks.take(i));
            let m = markdown.len() - rows(r.checks) + rows(r.checks.take(i));
            let word = match c.severity {
                Severity::Info => "info"@,
                Severity::Warn => "warn"@,
                Severity::Error => "error"@,
            };
            &&& plain[p] == "  ["@ + word + "] "@ + c.title + " - "@ + c.message
            &&& markdown[m] == "- **["@ + word + "] "@ + c.title + "** - "@ + c.message
        }),
{
    let c = r.checks[i];
    check_lines_are_placed(r.checks, i);
    let n = rows(r.checks.take(i)) as int;
    let plain = pretty_lines(r, d);
    let markdown = markdown_lines(r, d);
    assert(pretty_checks(r.checks)[n + 0] == pretty_check(c)[0]);
    assert(plain[plain.len() - rows(r.checks) + n] == pretty_checks(r.checks)[n]);
    assert(markdown[markdown.len() - rows(r.checks) + n] == markdown_checks(r.checks)[n]);
}

/// The Markdown report begins with its title, the root, and a table of the
/// measures.
pub proof fn markdown_report_begins_with_a_table(r: ScanView, d: Option<DiffView>)
    ensures
        ({
            let lines = markdown_lines(r, d);
            let m = r.metrics;
            &&& lines.len() >= 13
            &&& lines[0] == "# repo-health"@ && lines[1] == ""@
            &&& lines[2] == "**Root:** `"@ + m.root + "`"@ && lines[3] == ""@
            &&& lines[4] == "| Metric | Value |"@ && lines[5] == "|---|---:|"@
            &&& lines[6] == "| Score | "@ + text::decimal(m.score as nat) + " |"@
            &&& lines[7] == "| Files | "@ + text::decimal(m.total_files as nat) + " |"@
            &&& lines[8] == "| Size | "@ + size::size_text(m.total_bytes as nat) + " |"@
            &&& lines[9] == "| Checks | "@ + (text::decimal(
                (m.counts.info + m.counts.warn + m.counts.error) as nat,
            ) + " "@ + ("("@ + text::decimal(m.counts.info as nat) + " info, "@ + text::decimal(
                m.counts.warn as nat,
            ) + " warn, "@ + text::decimal(m.counts.error as nat) + " error)"@)) + " |"@
        }),
{
}

/// The table goes on with the ecosystems, where there are any, and the baseline,
/// where there is one; a table of the largest files follows, where there are
/// any; then come the checks and nothing more.
pub proof fn markdown_report_shows_baseline_and_files(r: ScanView, d: Option<DiffView>, i: int)
    ensures
        ({
            let lines = markdown_lines(r, d);
            let m = r.metrics;
            let n: int = if m.detected.len() > 0 { 11 } else { 10 };
            let k: int = if d is Some { n + 1 } else { n };
            let q: int = k + if m.largest_files.len() > 0 { 5 + m.largest_files.len() as int } else { 0int };
            &&& m.detected.len() > 0 ==> lines[10] == "| Detected | "@ + text::join(m.detected, ", "@) + " |"@
            &&& d is Some ==> lines[n] == "| Baseline | "@ + ("score "@ + text::decimal(
                d->0.baseline_score as nat,
            ) + " (delta "@ + text::signed(d->0.score_delta as int) + "), warn delta "@ + text::signed(
                d->0.warn_delta as int,
            ) + ", error delta "@ + text::signed(d->0.error_delta as int)) + " |"@
            &&& m.largest_files.len() > 0 ==> {
                &&& lines[k] == ""@ && lines[k + 1] == "## Largest files"@ && lines[k + 2] == ""@
                &&& lines[k + 3] == "| Size | Path |"@ && lines[k + 4] == "|---:|---|"@
            }
            &&& 0 <= i < m.largest_files.len() ==> lines[k + 5 + i] == "| "@ + size::size_text(
                m.largest_files[i].bytes as nat,
            ) + " | `"@ + m.largest_files[i].path + "` |"@
            &&& lines[q] == ""@ && lines[q + 1] == "## Checks"@ && lines[q + 2] == ""@
            &&& lines.len() == q + 3 + rows(r.checks)
        }),
{
    rows_are_counted(r.checks);
    let lines = markdown_lines(r, d);
    let m = r.metrics;
    let detected = detected_line(m.detected, "| Detected | "@, " |"@);
    let baseline = markdown_baseline(d);
    let largest = markdown_largest(m.largest_files);
    let n: int = 10 + detected.len() as int;
    let k: int = n + baseline.len();
    let q: int = k + largest.len();
    if m.detected.len() > 0 {
        assert(lines[10] == detected[0]);
    }
    if d is Some {
        assert(lines[n] == baseline[0]);
    }
    if m.largest_files.len() > 0 {
        assert(lines[k] == largest[0]);
        assert(lines[k + 1] == largest[1]);
        assert(lines[k + 2] == largest[2]);
        assert(lines[k + 3] == largest[3]);
        assert(lines[k + 4] == largest[4]);
        if 0 <= i < m.largest_files.len() {
            assert(lines[k + 5 + i] == largest[5 + i]);
            assert(largest[5 + i] == markdown_file(m.largest_files[i]));
        }
    }
    assert(lines[q] == ""@);
    assert(lines[q + 1] == "## Checks"@);
    assert(lines[q + 2] == ""@);
}

/// Each form of report is what it is named after: lines of plain text, lines of
/// Markdown, the JSON as it was given; the terminal interface has none.
pub proof fn report_has_the_form_asked_for(r: ScanView, d: Option<DiffView>, json: Seq<char>)
    ensures
        report_text(Mode::Pretty, r, d, json) == text::unlines(pretty_lines(r, d)),
        report_text(Mode::Md, r, d, json) == text::unlines(markdown_lines(r, d)),
        report_text(Mode::Json, r, d, json) == json,
        report_text(Mode::Tui, r, d, json).len() == 0,
{
}

} // verus!
