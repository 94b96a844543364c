//! What the terminal interface shows: lines of text with their tones.

use vstd::prelude::*;

use crate::checks;
use crate::model;
use crate::model::{CheckResult, CheckView, DiffView, FileEntry, FileView, MetricsView, Severity};
use crate::report;
use crate::severity;
use crate::size;
use crate::state;
use crate::state::{AppState, AppView};
use crate::text;

verus! {

/// The height of the part above the lists, and of the part below them.
pub const HEADER_HEIGHT: u16 = 3;

pub const FOOTER_HEIGHT: u16 = 2;

/// The shares of the width that the metrics and the checks take, in per cent.
pub const METRICS_SHARE: u16 = 42;

pub const CHECKS_SHARE: u16 = 58;

/// The shares of the height that the list of checks and the details take, in
/// per cent.
pub const LIST_SHARE: u16 = 55;

pub const DETAILS_SHARE: u16 = 45;

/// How a piece of text is set.
#[derive(Clone, Copy, Debug, PartialEq, Eq, Structural)]
pub enum Tone {
    Plain,
    Bold,
    Green,
    Yellow,
    Red,
    Gray,
}

/// A piece of text in one tone.
#[derive(Debug)]
pub struct Span {
    pub text: String,
    pub tone: Tone,
}

/// The view of a [`Span`].
#[verifier::ext_equal]
pub struct SpanView {
    pub text: Seq<char>,
    pub tone: Tone,
}

/// A line on the screen.
#[derive(Debug)]
pub struct Line {
    pub spans: Vec<Span>,
}

/// A rectangle on the screen.
#[derive(Clone, Copy, Debug, PartialEq, Eq, Structural)]
pub struct Area {
    pub x: u16,
    pub y: u16,
    pub width: u16,
    pub height: u16,
}

impl View for Span {
    type V = SpanView;

    open spec fn view(&self) -> SpanView {
        SpanView { text: self.text@, tone: self.tone }
    }
}

impl View for Line {
    type V = Seq<SpanView>;

    open spec fn view(&self) -> Seq<SpanView> {
        self.spans@.map_values(|s: Span| s@)
    }
}

/// The views of a list of lines.
pub open spec fn lines_view(v: Seq<Line>) -> Seq<Seq<SpanView>> {
    v.map_values(|l: Line| l@)
}

/// Text in a tone.
pub open spec fn toned(text: Seq<char>, tone: Tone) -> SpanView {
    SpanView { text, tone }
}

/// Text without emphasis.
pub open spec fn plain(text: Seq<char>) -> SpanView {
    toned(text, Tone::Plain)
}

/// Text in bold.
pub open spec fn bold(text: Seq<char>) -> SpanView {
    toned(text, Tone::Bold)
}

/// Text in yellow.
pub open spec fn yellow(text: Seq<char>) -> SpanView {
    toned(text, Tone::Yellow)
}

/// Text in gray.
pub open spec fn gray(text: Seq<char>) -> SpanView {
    toned(text, Tone::Gray)
}

/// The tone of a severity.
pub open spec fn severity_tone(s: Severity) -> Tone {
    match s {
        Severity::Info => Tone::Green,
        Severity::Warn => Tone::Yellow,
        Severity::Error => Tone::Red,
    }
}

/// The score that is shown; 0 before a scan.
pub open spec fn shown_score(s: AppView) -> nat {
    match s.result {
        Some(r) => r.metrics.score as nat,
        None => 0,
    }
}

/// The words on the baseline in the header.
pub open spec fn baseline_hint(d: Option<DiffView>) -> Seq<char> {
    match d {
        Some(d) => "baseline "@ + text::decimal(d.baseline_score as nat) + " (delta "@ + text::signed(
            d.score_delta as int,
        ) + ")"@,
        None => "baseline none"@,
    }
}

/// The lines of the header: the root, and the keys, the score and the baseline.
pub open spec fn header(s: AppView) -> Seq<Seq<SpanView>> {
    seq![
        seq![bold("repo-health"@), plain("  "@), plain(s.root)],
        seq![
            yellow("↑/↓"@),
            plain(" select  "@),
            yellow("o"@),
            plain(" open  "@),
            yellow("r"@),
            plain(" rescan  "@),
            yellow("h"@),
            plain(" help  "@),
            yellow("e"@),
            plain(" export  "@),
            yellow("b"@),
            plain(" baseline  "@),
            yellow("q"@),
            plain(" quit  "@),
            gray("score "@ + text::decimal(shown_score(s))),
            plain("  "@),
            gray(baseline_hint(s.baseline_diff)),
        ],
    ]
}

/// The line of the footer: the status and the time that the scan took.
pub open spec fn footer(s: AppView) -> Seq<SpanView> {
    seq![plain(s.status), plain("  "@), gray("scan "@ + text::decimal(s.last_scan_ms as nat) + "ms"@)]
}

/// What is shown where there is no scan.
pub open spec fn no_data() -> Seq<Seq<SpanView>> {
    seq![seq![plain("No data."@)]]
}

/// The lines of the metrics on the baseline.
pub open spec fn metrics_baseline(d: Option<DiffView>) -> Seq<Seq<SpanView>> {
    match d {
        None => seq![],
        Some(d) => seq![
            seq![
                bold("Baseline: "@),
                plain(text::decimal(d.baseline_score as nat)),
                plain("  "@),
                gray(
                    "dScore "@ + text::signed(d.score_delta as int) + " | dWarn "@ + text::signed(
                        d.warn_delta as int,
                    ) + " | dError "@ + text::signed(d.error_delta as int),
                ),
            ],
        ] + if d.regressions.len() == 0 {
            seq![]
        } else {
            seq![seq![bold("Regressions: "@), yellow(text::decimal(d.regressions.len()))]]
        },
    }
}

/// The line of the metrics on a large file.
pub open spec fn metrics_file(f: FileView) -> Seq<SpanView> {
    seq![
        gray(text::pad_left(size::size_text(f.bytes as nat), 9)),
        plain("  "@),
        plain(f.path),
    ]
}

/// The lines of the metrics of a scan.
pub open spec fn metrics_of(m: MetricsView, d: Option<DiffView>) -> Seq<Seq<SpanView>> {
    seq![
        seq![
            bold("Score: "@),
            plain(text::decimal(m.score as nat)),
            plain("  "@),
            gray(report::severities_text(m.counts)),
        ],
    ] + metrics_baseline(d) + seq![
        seq![bold("Files: "@), plain(text::decimal(m.total_files as nat))],
        seq![bold("Size: "@), plain(size::size_text(m.total_bytes as nat))],
    ] + (if m.detected.len() == 0 {
        seq![]
    } else {
        seq![seq![bold("Detected: "@), plain(text::join(m.detected, ", "@))]]
    }) + seq![seq![], seq![bold("Largest"@)]] + m.largest_files.map_values(|f: FileView| metrics_file(f))
}

/// The lines of the metrics.
pub open spec fn metrics(s: AppView) -> Seq<Seq<SpanView>> {
    match s.result {
        Some(r) => metrics_of(r.metrics, s.baseline_diff),
        None => no_data(),
    }
}

/// The line that names a check.
pub open spec fn check_name(c: CheckView) -> Seq<SpanView> {
    seq![toned("["@ + severity::tag(c.severity) + "] "@, severity_tone(c.severity)), bold(c.title)]
}

/// The lines of the list of checks.
pub open spec fn check_list(s: AppView) -> Seq<Seq<SpanView>> {
    match s.result {
        Some(r) => r.checks.map_values(|c: CheckView| check_name(c)),
        None => no_data(),
    }
}

/// The check that is marked in the list, if there is one.
pub open spec fn marked(s: AppView) -> Option<usize> {
    let len = state::shown_checks(s);
    if len == 0 {
        None
    } else if s.selected_check < len {
        Some(s.selected_check)
    } else {
        Some((len - 1) as usize)
    }
}

/// The items as a list with bullets.
pub open spec fn bullets(items: Seq<Seq<char>>) -> Seq<Seq<SpanView>> {
    items.map_values(|t: Seq<char>| seq![gray("• "@), plain(t)])
}

/// The lines of the details of a check.
pub open spec fn check_details(c: CheckView) -> Seq<Seq<SpanView>> {
    let hints = checks::fix_hints(c.id);
    seq![check_name(c), seq![], seq![plain(c.message)]] + (if c.details.len() == 0 {
        seq![]
    } else {
        seq![Seq::<SpanView>::empty()] + bullets(c.details)
    }) + (if hints.len() == 0 {
        seq![]
    } else {
        seq![seq![], seq![bold("Suggested fixes"@)]] + bullets(hints)
    })
}

/// The lines of the details of the selected check.
pub open spec fn details(s: AppView) -> Seq<Seq<SpanView>> {
    match s.result {
        Some(r) => if s.selected_check < r.checks.len() {
            check_details(r.checks[s.selected_check as int])
        } else {
            seq![seq![plain("No selection."@)]]
        },
        None => no_data(),
    }
}

/// The lines of the help.
pub open spec fn help() -> Seq<Seq<SpanView>> {
    seq![
        seq![bold("Navigation:"@), plain("  ↑/↓ or j/k select check, PgUp/PgDn scroll details"@)],
        seq![bold("Actions:"@), plain("  o open folder, r rescan, e export report, b save baseline"@)],
        seq![bold("Exit:"@), plain("  q or Esc (Ctrl+C)"@)],
        seq![],
        seq![bold("Files:"@), plain("  repo-health-report.md, repo-health-baseline.json"@)],
        seq![],
        seq![bold("CLI:"@), plain("  --mode pretty|md|json  --out <file>  --save-baseline"@)],
        seq![],
        seq![bold("Tip:"@), plain("  Press h or ? to close this help."@)],
    ]
}

/// `n` less six, kept between `low` and `high`.
pub open spec fn help_extent(n: u16, low: u16, high: u16) -> u16 {
    if n - 6 < low {
        low
    } else if n - 6 > high {
        high
    } else {
        (n - 6) as u16
    }
}

/// The margin that sets `inner` in the middle of `outer`.
pub open spec fn margin(outer: u16, inner: u16) -> int {
    if outer > inner {
        (outer - inner) / 2
    } else {
        0
    }
}

/// A piece of text in one tone.
fn span(text: &str, tone: Tone) -> (s: Span)
    ensures
        s@ == toned(text@, tone),
{
    Span { text: text.to_owned(), tone }
}

/// Adds a line.
fn push_row(lines: &mut Vec<Line>, spans: Vec<Span>)
    ensures
        lines_view(final(lines)@) == lines_view(old(lines)@).push(spans@.map_values(|s: Span| s@)),
{
    let ghost before = lines@;
    lines.push(Line { spans });
    assert(lines_view(lines@) =~= lines_view(before).push(spans@.map_values(|s: Span| s@)));
}

/// Adds a line of one piece.
fn push_one(lines: &mut Vec<Line>, a: Span)
    ensures
        lines_view(final(lines)@) == lines_view(old(lines)@).push(seq![a@]),
{
    let spans = vec![a];
    assert(spans@.map_values(|s: Span| s@) =~= seq![a@]);
    push_row(lines, spans);
}

/// Adds a line of two pieces.
fn push_two(lines: &mut Vec<Line>, a: Span, b: Span)
    ensures
        lines_view(final(lines)@) == lines_view(old(lines)@).push(seq![a@, b@]),
{
    let spans = vec![a, b];
    assert(spans@.map_values(|s: Span| s@) =~= seq![a@, b@]);
    push_row(lines, spans);
}

/// Adds an empty line.
fn push_blank(lines: &mut Vec<Line>)
    ensures
        lines_view(final(lines)@) == lines_view(old(lines)@).push(seq![]),
{
    let spans: Vec<Span> = Vec::new();
    assert(spans@.map_values(|s: Span| s@) =~= seq![]);
    push_row(lines, spans);
}

/// The tone of a severity.
fn tone_of(s: Severity) -> (t: Tone)
    ensures
        t == severity_tone(s),
{
    match s {
        Severity::Info => Tone::Green,
        Severity::Warn => Tone::Yellow,
        Severity::Error => Tone::Red,
    }
}

/// The words on the baseline in the header.
fn baseline_hint_text(app: &AppState) -> (r: String)
    ensures
        r@ == baseline_hint(app@.baseline_diff),
{
    match &app.baseline_diff {
        Some(d) => {
            let mut s = "baseline ".to_owned();
            let n = text::decimal_text(d.baseline_score as u128);
            s.append(n.as_str());
            s.append(" (delta ");
            let n = text::signed_text(d.score_delta);
            s.append(n.as_str());
            s.append(")");
            s
        },
        None => "baseline none".to_owned(),
    }
}

/// The lines of the header.
pub fn header_lines(app: &AppState) -> (r: Vec<Line>)
    ensures
        lines_view(r@) == header(app@),
{
    let mut lines: Vec<Line> = Vec::new();
    let first = vec![
        span("repo-health", Tone::Bold),
        span("  ", Tone::Plain),
        span(app.root.as_str(), Tone::Plain),
    ];
    assert(first@.map_values(|s: Span| s@) =~= header(app@)[0]);
    push_row(&mut lines, first);
    let score: u8 = match &app.result {
        Some(r) => r.metrics.score,
        None => 0,
    };
    let mut score_text = "score ".to_owned();
    let n = text::decimal_text(score as u128);
    score_text.append(n.as_str());
    let hint = baseline_hint_text(app);
    let second = vec![
        span("↑/↓", Tone::Yellow),
        span(" select  ", Tone::Plain),
        span("o", Tone::Yellow),
        span(" open  ", Tone::Plain),
        span("r", Tone::Yellow),
        span(" rescan  ", Tone::Plain),
        span("h", Tone::Yellow),
        span(" help  ", Tone::Plain),
        span("e", Tone::Yellow),
        span(" export  ", Tone::Plain),
        span("b", Tone::Yellow),
        span(" baseline  ", Tone::Plain),
        span("q", Tone::Yellow),
        span(" quit  ", Tone::Plain),
        span(score_text.as_str(), Tone::Gray),
        span("  ", Tone::Plain),
        span(hint.as_str(), Tone::Gray),
    ];
    assert(second@.map_values(|s: Span| s@) =~= header(app@)[1]);
    push_row(&mut lines, second);
    assert(lines_view(lines@) =~= header(app@));
    lines
}

/// The line of the footer.
pub fn footer_line(app: &AppState) -> (r: Line)
    ensures
        r@ == footer(app@),
{
    let mut time = "scan ".to_owned();
    let n = text::decimal_text(app.last_scan_ms);
    time.append(n.as_str());
    time.append("ms");
    let r = Line {
        spans: vec![
            span(app.status.as_str(), Tone::Plain),
            span("  ", Tone::Plain),
            span(time.as_str(), Tone::Gray),
        ],
    };
    assert(r@ =~= footer(app@));
    r
}

/// What is shown where there is no scan.
fn no_data_lines() -> (r: Vec<Line>)
    ensures
        lines_view(r@) == no_data(),
{
    let mut lines: Vec<Line> = Vec::new();
    push_one(&mut lines, span("No data.", Tone::Plain));
    assert(lines_view(lines@) =~= no_data());
    lines
}

/// Adds the lines of the metrics on the baseline.
fn push_metrics_baseline(lines: &mut Vec<Line>, app: &AppState)
    ensures
        lines_view(final(lines)@) == lines_view(old(lines)@) + metrics_baseline(app@.baseline_diff),
{
    if let Some(d) = &app.baseline_diff {
        let score = text::decimal_text(d.baseline_score as u128);
        let mut change = "dScore ".to_owned();
        let n = text::signed_text(d.score_delta);
        change.append(n.as_str());
        change.append(" | dWarn ");
        let n = text::signed_text(d.warn_delta);
        change.append(n.as_str());
        change.append(" | dError ");
        let n = text::signed_text(d.error_delta);
        change.append(n.as_str());
        let row = vec![
            span("Baseline: ", Tone::Bold),
            span(score.as_str(), Tone::Plain),
            span("  ", Tone::Plain),
            span(change.as_str(), Tone::Gray),
        ];
        assert(row@.map_values(|s: Span| s@) =~= metrics_baseline(app@.baseline_diff)[0]);
        push_row(lines, row);
        assert(d@.regressions.len() == d.regressions@.len());
        if d.regressions.len() > 0 {
            let n = text::decimal_text(d.regressions.len() as u128);
            push_two(lines, span("Regressions: ", Tone::Bold), span(n.as_str(), Tone::Yellow));
        }
    }
    assert(lines_view(lines@) =~= lines_view(old(lines)@) + metrics_baseline(app@.baseline_diff));
}

/// Adds the lines of the metrics on the largest files.
fn push_metrics_files(lines: &mut Vec<Line>, files: &Vec<FileEntry>)
    ensures
        lines_view(final(lines)@) == lines_view(old(lines)@) + model::files_view(files@).map_values(
            |f: FileView| metrics_file(f),
        ),
{
    let ghost all = model::files_view(files@);
    let ghost start = lines_view(lines@);
    let mut i: usize = 0;
    assert(start =~= start + all.take(0).map_values(|f: FileView| metrics_file(f)));
    while i < files.len()
        invariant
            all == model::files_view(files@),
            i <= files@.len(),
            lines_view(lines@) == start + all.take(i as int).map_values(|f: FileView| metrics_file(f)),
        decreases files@.len() - i,
    {
        let n = size::format_bytes(files[i].bytes);
        let n = text::padded_text(n.as_str(), 9);
        let row = vec![
            span(n.as_str(), Tone::Gray),
            span("  ", Tone::Plain),
            span(files[i].path.as_str(), Tone::Plain),
        ];
        assert(row@.map_values(|s: Span| s@) =~= metrics_file(all[i as int]));
        push_row(lines, row);
        proof {
            assert(lines_view(lines@) =~= start + all.take(i + 1).map_values(
                |f: FileView| metrics_file(f),
            ));
        }
        i += 1;
    }
    assert(all.take(i as int) =~= all);
}

/// The lines of the metrics.
pub fn metrics_lines(app: &AppState) -> (r: Vec<Line>)
    ensures
        lines_view(r@) == metrics(app@),
{
    let result = match &app.result {
        Some(r) => r,
        None => return no_data_lines(),
    };
    let m = &result.metrics;
    let mut lines: Vec<Line> = Vec::new();
    let score = text::decimal_text(m.score as u128);
    let counts = report::severities_line(&m.counts);
    let row = vec![
        span("Score: ", Tone::Bold),
        span(score.as_str(), Tone::Plain),
        span("  ", Tone::Plain),
        span(counts.as_str(), Tone::Gray),
    ];
    assert(row@.map_values(|s: Span| s@) =~= metrics_of(m@, app@.baseline_diff)[0]);
    push_row(&mut lines, row);
    push_metrics_baseline(&mut lines, app);
    let n = text::decimal_text(m.total_files as u128);
    push_two(&mut lines, span("Files: ", Tone::Bold), span(n.as_str(), Tone::Plain));
    let n = size::format_bytes(m.total_bytes);
    push_two(&mut lines, span("Size: ", Tone::Bold), span(n.as_str(), Tone::Plain));
    assert(m@.detected.len() == m.detected@.len());
    if m.detected.len() > 0 {
        let list = text::joined_text(&m.detected, ", ");
        push_two(&mut lines, span("Detected: ", Tone::Bold), span(list.as_str(), Tone::Plain));
    }
    push_blank(&mut lines);
    push_one(&mut lines, span("Largest", Tone::Bold));
    push_metrics_files(&mut lines, &m.largest_files);
    assert(lines_view(lines@) =~= metrics_of(m@, app@.baseline_diff));
    lines
}

/// Adds the line that names a check.
fn push_check_name(lines: &mut Vec<Line>, c: &CheckResult)
    ensures
        lines_view(final(lines)@) == lines_view(old(lines)@).push(check_name(c@)),
{
    let mut tag = "[".to_owned();
    tag.append(severity::sev_tag(c.severity));
    tag.append("] ");
    push_two(
        lines,
        span(tag.as_str(), tone_of(c.severity)),
        span(c.title.as_str(), Tone::Bold),
    );
}

/// The lines of the list of checks.
pub fn check_list_lines(app: &AppState) -> (r: Vec<Line>)
    ensures
        lines_view(r@) == check_list(app@),
{
    let result = match &app.result {
        Some(r) => r,
        None => return no_data_lines(),
    };
    let list = &result.checks;
    let ghost all = model::checks_view(list@);
    let mut lines: Vec<Line> = Vec::new();
    let mut i: usize = 0;
    assert(lines_view(lines@) =~= all.take(0).map_values(|c: CheckView| check_name(c)));
    while i < list.len()
        invariant
            all == model::checks_view(list@),
            i <= list@.len(),
            lines_view(lines@) == all.take(i as int).map_values(|c: CheckView| check_name(c)),
        decreases list@.len() - i,
    {
        push_check_name(&mut lines, &list[i]);
        proof {
            assert(lines_view(lines@) =~= all.take(i + 1).map_values(|c: CheckView| check_name(c)));
        }
        i += 1;
    }
    assert(all.take(i as int) =~= all);
    lines
}

/// The check that is marked in the list, if there is one.
pub fn marked_check(app: &AppState) -> (r: Option<usize>)
    ensures
        r == marked(app@),
{
    let len = app.checks_len();
    if len == 0 {
        None
    } else if app.selected_check < len {
        Some(app.selected_check)
    } else {
        Some(len - 1)
    }
}

/// Adds the items as a list with bullets.
fn push_bullets(lines: &mut Vec<Line>, items: &Vec<String>)
    ensures
        lines_view(final(lines)@) == lines_view(old(lines)@) + bullets(text::texts(items@)),
{
    let ghost all = text::texts(items@);
    let ghost start = lines_view(lines@);
    let mut i: usize = 0;
    assert(start =~= start + bullets(all.take(0)));
    while i < items.len()
        invariant
            all == text::texts(items@),
            i <= items@.len(),
            lines_view(lines@) == start + bullets(all.take(i as int)),
        decreases items@.len() - i,
    {
        push_two(lines, span("• ", Tone::Gray), span(items[i].as_str(), Tone::Plain));
        proof {
            assert(lines_view(lines@) =~= start + bullets(all.take(i + 1)));
        }
        i += 1;
    }
    assert(all.take(i as int) =~= all);
}

/// The lines of the details of the selected check.
pub fn detail_lines(app: &AppState) -> (r: Vec<Line>)
    ensures
        lines_view(r@) == details(app@),
{
    let result = match &app.result {
        Some(r) => r,
        None => return no_data_lines(),
    };
    let mut lines: Vec<Line> = Vec::new();
    assert(result@.checks.len() == result.checks@.len());
    if app.selected_check >= result.checks.len() {
        push_one(&mut lines, span("No selection.", Tone::Plain));
        assert(lines_view(lines@) =~= details(app@));
        return lines;
    }
    let c = &result.checks[app.selected_check];
    assert(c@ == result@.checks[app.selected_check as int]);
    push_check_name(&mut lines, c);
    push_blank(&mut lines);
    push_one(&mut lines, span(c.message.as_str(), Tone::Plain));
    assert(c@.details.len() == c.details@.len());
    if c.details.len() > 0 {
        push_blank(&mut lines);
        push_bullets(&mut lines, &c.details);
    }
    let hints = checks::fix_hints_for_check(c.id.as_str());
    assert(text::texts(hints@).len() == hints@.len());
    if hints.len() > 0 {
        push_blank(&mut lines);
        push_one(&mut lines, span("Suggested fixes", Tone::Bold));
        push_bullets(&mut lines, &hints);
    }
    assert(lines_view(lines@) =~= check_details(c@));
    lines
}

/// The lines of the help.
pub fn help_lines() -> (r: Vec<Line>)
    ensures
        lines_view(r@) == help(),
{
    let mut lines: Vec<Line> = Vec::new();
    push_two(
        &mut lines,
        span("Navigation:", Tone::Bold),
        span("  ↑/↓ or j/k select check, PgUp/PgDn scroll details", Tone::Plain),
    );
    push_two(
        &mut lines,
        span("Actions:", Tone::Bold),
        span("  o open folder, r rescan, e export report, b save baseline", Tone::Plain),
    );
    push_two(&mut lines, span("Exit:", Tone::Bold), span("  q or Esc (Ctrl+C)", Tone::Plain));
    push_blank(&mut lines);
    push_two(
        &mut lines,
        span("Files:", Tone::Bold),
        span("  repo-health-report.md, repo-health-baseline.json", Tone::Plain),
    );
    push_blank(&mut lines);
    push_two(
        &mut lines,
        span("CLI:", Tone::Bold),
        span("  --mode pretty|md|json  --out <file>  --save-baseline", Tone::Plain),
    );
    push_blank(&mut lines);
    push_two(
        &mut lines,
        span("Tip:", Tone::Bold),
        span("  Press h or ? to close this help.", Tone::Plain),
    );
    assert(lines_view(lines@) =~= help());
    lines
}

/// `n` less six, kept between `low` and `high`.
fn extent(n: u16, low: u16, high: u16) -> (r: u16)
    requires
        low <= high,
    ensures
        r == help_extent(n, low, high),
{
    let m: u16 = if n < 6 { 0 } else { n - 6 };
    if m < low {
        low
    } else if m > high {
        high
    } else {
        m
    }
}

/// The rectangle of the help has coordinates that can be held.
pub open spec fn can_place_help(area: Area) -> bool {
    &&& area.x + margin(area.width, help_extent(area.width, 30, 86)) <= u16::MAX
    &&& area.y + margin(area.height, help_extent(area.height, 10, 18)) <= u16::MAX
}

/// The rectangle of the help.
pub open spec fn help_rect(area: Area) -> Area {
    let width = help_extent(area.width, 30, 86);
    let height = help_extent(area.height, 10, 18);
    Area {
        x: (area.x + margin(area.width, width)) as u16,
        y: (area.y + margin(area.height, height)) as u16,
        width,
        height,
    }
}

/// The empty cells on each side of `inner` in the middle of `outer`.
fn margin_of(outer: u16, inner: u16) -> (r: u16)
    ensures
        r == margin(outer, inner),
{
    if outer > inner {
        (outer - inner) / 2
    } else {
        0
    }
}

/// Says whether the rectangle of the help has coordinates that can be held.
pub fn help_fits(area: Area) -> (r: bool)
    ensures
        r == can_place_help(area),
{
    let left: u16 = margin_of(area.width, extent(area.width, 30, 86));
    let top: u16 = margin_of(area.height, extent(area.height, 10, 18));
    area.x <= u16::MAX - left && area.y <= u16::MAX - top
}

/// The rectangle of the help, in the middle of the screen.
pub fn help_area(area: Area) -> (r: Area)
    requires
        can_place_help(area),
    ensures
        r.width == help_extent(area.width, 30, 86),
        r.height == help_extent(area.height, 10, 18),
        r.x == area.x + margin(area.width, r.width),
        r.y == area.y + margin(area.height, r.height),
        r == help_rect(area),
{
    let width: u16 = extent(area.width, 30, 86);
    let height: u16 = extent(area.height, 10, 18);
    let left: u16 = margin_of(area.width, width);
    let top: u16 = margin_of(area.height, height);
    Area { x: area.x + left, y: area.y + top, width, height }
}

/// The help lies within a screen that is large enough for it.
pub proof fn help_lies_on_screen(area: Area)
    requires
        area.width >= 30,
        area.height >= 10,
    ensures
        margin(area.width, help_extent(area.width, 30, 86)) + help_extent(area.width, 30, 86) <= area.width,
        margin(area.height, help_extent(area.height, 10, 18)) + help_extent(area.height, 10, 18)
            <= area.height,
{
}

/// In a valid state with checks, the marked check is the selected one, and its
/// details begin with its line in the list.
pub proof fn details_belong_to_marked_check(s: AppView)
    requires
        state::valid(s),
        state::shown_checks(s) > 0,
    ensures
        marked(s) == Some(s.selected_check),
        details(s)[0] == check_list(s)[s.selected_check as int],
        check_list(s).len() == state::shown_checks(s),
{
}

/// The piece is that text in that tone.
pub open spec fn is_span(p: SpanView, text: Seq<char>, tone: Tone) -> bool {
    p.text == text && p.tone == tone
}

/// The line is one piece.
pub open spec fn is_one(l: Seq<SpanView>, text: Seq<char>, tone: Tone) -> bool {
    l.len() == 1 && is_span(l[0], text, tone)
}

/// The line is two pieces.
pub open spec fn is_two(l: Seq<SpanView>, a: Seq<char>, a_tone: Tone, b: Seq<char>, b_tone: Tone) -> bool {
    l.len() == 2 && is_span(l[0], a, a_tone) && is_span(l[1], b, b_tone)
}

/// Severities are told apart by colour: green, yellow and red.
pub proof fn severities_have_colours(s: Severity)
    ensures
        s is Info ==> severity_tone(s) == Tone::Green,
        s is Warn ==> severity_tone(s) == Tone::Yellow,
        s is Error ==> severity_tone(s) == Tone::Red,
{
}

/// The header names the program, the root and the keys, each key in yellow and
/// followed by what it does, and ends with the score, zero before a scan, and
/// the baseline.
pub proof fn header_shows_root_keys_and_score(s: AppView)
    ensures
        ({
            let first = header(s)[0];
            let l = header(s)[1];
            let score = if s.result is Some { s.result->0.metrics.score as nat } else { 0 };
            let baseline = if s.baseline_diff is Some {
                "baseline "@ + text::decimal(s.baseline_diff->0.baseline_score as nat) + " (delta "@
                    + text::signed(s.baseline_diff->0.score_delta as int) + ")"@
            } else {
                "baseline none"@
            };
            &&& header(s).len() == 2 && first.len() == 3 && l.len() == 17
            &&& is_span(first[0], "repo-health"@, Tone::Bold)
            &&& is_span(first[1], "  "@, Tone::Plain)
            &&& is_span(first[2], s.root, Tone::Plain)
            &&& is_span(l[0], "↑/↓"@, Tone::Yellow) && is_span(l[1], " select  "@, Tone::Plain)
            &&& is_span(l[2], "o"@, Tone::Yellow) && is_span(l[3], " open  "@, Tone::Plain)
            &&& is_span(l[4], "r"@, Tone::Yellow) && is_span(l[5], " rescan  "@, Tone::Plain)
            &&& is_span(l[6], "h"@, Tone::Yellow) && is_span(l[7], " help  "@, Tone::Plain)
            &&& is_span(l[8], "e"@, Tone::Yellow) && is_span(l[9], " export  "@, Tone::Plain)
            &&& is_span(l[10], "b"@, Tone::Yellow) && is_span(l[11], " baseline  "@, Tone::Plain)
            &&& is_span(l[12], "q"@, Tone::Yellow) && is_span(l[13], " quit  "@, Tone::Plain)
            &&& is_span(l[14], "score "@ + text::decimal(score), Tone::Gray)
            &&& is_span(l[15], "  "@, Tone::Plain)
            &&& is_span(l[16], baseline, Tone::Gray)
        }),
{
}

/// The footer shows the status and how long the last scan took.
pub proof fn footer_shows_status_and_time(s: AppView)
    ensures
        footer(s).len() == 3,
        is_span(footer(s)[0], s.status, Tone::Plain),
        is_span(footer(s)[1], "  "@, Tone::Plain),
        is_span(footer(s)[2], "scan "@ + text::decimal(s.last_scan_ms as nat) + "ms"@, Tone::Gray),
{
}

/// Without a scan there is one line that says so, in every part.
pub proof fn nothing_is_shown_without_a_scan(s: AppView)
    requires
        s.result is None,
    ensures
        metrics(s).len() == 1 && is_one(metrics(s)[0], "No data."@, Tone::Plain),
        check_list(s).len() == 1 && is_one(check_list(s)[0], "No data."@, Tone::Plain),
        details(s).len() == 1 && is_one(details(s)[0], "No data."@, Tone::Plain),
        marked(s) is None,
{
}

/// How many lines the metrics have on the baseline.
pub open spec fn baseline_rows(d: Option<DiffView>) -> int {
    if d is None {
        0
    } else if d->0.regressions.len() == 0 {
        1
    } else {
        2
    }
}

/// The metrics show the score with the counts by severity, then the baseline,
/// where there is one, with the changes since and the number of regressions.
pub proof fn metrics_show_score_and_baseline(s: AppView)
    requires
        s.result is Some,
    ensures
        ({
            let lines = metrics(s);
            let m = s.result->0.metrics;
            &&& lines[0].len() == 4
            &&& is_span(lines[0][0], "Score: "@, Tone::Bold)
            &&& is_span(lines[0][1], text::decimal(m.score as nat), Tone::Plain)
            &&& is_span(lines[0][2], "  "@, Tone::Plain)
            &&& is_span(
                lines[0][3],
                "("@ + text::decimal(m.counts.info as nat) + " info, "@ + text::decimal(m.counts.warn as nat)
                    + " warn, "@ + text::decimal(m.counts.error as nat) + " error)"@,
                Tone::Gray,
            )
            &&& s.baseline_diff is Some ==> {
                let d = s.baseline_diff->0;
                &&& lines[1].len() == 4
                &&& is_span(lines[1][0], "Baseline: "@, Tone::Bold)
                &&& is_span(lines[1][1], text::decimal(d.baseline_score as nat), Tone::Plain)
                &&& is_span(lines[1][2], "  "@, Tone::Plain)
                &&& is_span(
                    lines[1][3],
                    "dScore "@ + text::signed(d.score_delta as int) + " | dWarn "@ + text::signed(
                        d.warn_delta as int,
                    ) + " | dError "@ + text::signed(d.error_delta as int),
                    Tone::Gray,
                )
                &&& d.regressions.len() > 0 ==> is_two(
                    lines[2],
                    "Regressions: "@,
                    Tone::Bold,
                    text::decimal(d.regressions.len()),
                    Tone::Yellow,
                )
            }
        }),
{
}

/// Then come the number of files and their size, the ecosystems, where there are
/// any, and the largest files, each with its size set to the right; nothing
/// follows.
pub proof fn metrics_show_files(s: AppView, i: int)
    requires
        s.result is Some,
    ensures
        ({
            let lines = metrics(s);
            let m = s.result->0.metrics;
            let n = 1 + baseline_rows(s.baseline_diff);
            let k: int = if m.detected.len() > 0 { n + 3 } else { n + 2 };
            &&& is_two(
                lines[n],
                "Files: "@,
                Tone::Bold,
                text::decimal(m.total_files as nat),
                Tone::Plain,
            )
            &&& is_two(
                lines[n + 1],
                "Size: "@,
                Tone::Bold,
                size::size_text(m.total_bytes as nat),
                Tone::Plain,
            )
            &&& m.detected.len() > 0 ==> is_two(
                lines[n + 2],
                "Detected: "@,
                Tone::Bold,
                text::join(m.detected, ", "@),
                Tone::Plain,
            )
            &&& lines[k].len() == 0 && is_one(lines[k + 1], "Largest"@, Tone::Bold)
            &&& 0 <= i < m.largest_files.len() ==> {
                let l = lines[k + 2 + i];
                let f = m.largest_files[i];
                &&& l.len() == 3
                &&& is_span(l[0], text::pad_left(size::size_text(f.bytes as nat), 9), Tone::Gray)
                &&& is_span(l[1], "  "@, Tone::Plain)
                &&& is_span(l[2], f.path, Tone::Plain)
            }
            &&& lines.len() == k + 2 + m.largest_files.len()
        }),
{
    let lines = metrics(s);
    let m = s.result->0.metrics;
    let n = 1 + baseline_rows(s.baseline_diff);
    let k: int = if m.detected.len() > 0 { n + 3 } else { n + 2 };
    assert(metrics_baseline(s.baseline_diff).len() == n - 1);
    if 0 <= i < m.largest_files.len() {
        assert(lines[k + 2 + i] == metrics_file(m.largest_files[i]));
    }
}

/// The list has a line for each check, in their order: its severity, in its
/// colour, and its title.
pub proof fn list_names_every_check(s: AppView, i: int)
    requires
        s.result is Some,
        0 <= i < s.result->0.checks.len(),
    ensures
        ({
            let c = s.result->0.checks[i];
            let l = check_list(s)[i];
            &&& check_list(s).len() == s.result->0.checks.len()
            &&& c.severity is Info ==> is_two(l, "["@ + "info"@ + "] "@, Tone::Green, c.title, Tone::Bold)
            &&& c.severity is Warn ==> is_two(l, "["@ + "warn"@ + "] "@, Tone::Yellow, c.title, Tone::Bold)
            &&& c.severity is Error ==> is_two(l, "["@ + "error"@ + "] "@, Tone::Red, c.title, Tone::Bold)
        }),
{
}

/// The selected check is marked; where the selection lies behind the list, the
/// last check is, and where there are no checks, none.
pub proof fn one_check_is_marked(s: AppView)
    requires
        s.result is Some,
        s.result->0.checks.len() <= usize::MAX,
    ensures
        ({
            let n = s.result->0.checks.len();
            &&& n == 0 ==> marked(s) is None
            &&& s.selected_check < n ==> marked(s) == Some(s.selected_check)
            &&& n > 0 && s.selected_check >= n ==> marked(s) is Some && marked(s)->0 == n - 1
        }),
{
}

/// The details of the selected check: its line in the list, its message, all its
/// details, and the remedies for it, where there are any; nothing follows.
pub proof fn details_show_message_details_and_remedies(s: AppView, i: int)
    requires
        s.result is Some,
        s.selected_check < s.result->0.checks.len(),
    ensures
        ({
            let c = s.result->0.checks[s.selected_check as int];
            let lines = details(s);
            let hints = checks::fix_hints(c.id);
            let k: int = if c.details.len() > 0 { 4 + c.details.len() as int } else { 3 };
            let end: int = if hints.len() > 0 { k + 2 + hints.len() } else { k };
            &&& lines[0] == check_list(s)[s.selected_check as int]
            &&& lines[1].len() == 0
            &&& is_one(lines[2], c.message, Tone::Plain)
            &&& c.details.len() > 0 ==> lines[3].len() == 0
            &&& 0 <= i < c.details.len() ==> is_two(
                lines[4 + i],
                "• "@,
                Tone::Gray,
                c.details[i],
                Tone::Plain,
            )
            &&& hints.len() > 0 ==> lines[k].len() == 0 && is_one(lines[k + 1], "Suggested fixes"@, Tone::Bold)
            &&& 0 <= i < hints.len() ==> is_two(
                lines[k + 2 + i],
                "• "@,
                Tone::Gray,
                hints[i],
                Tone::Plain,
            )
            &&& lines.len() == end
        }),
{
    let c = s.result->0.checks[s.selected_check as int];
    let lines = details(s);
    let hints = checks::fix_hints(c.id);
    let k: int = if c.details.len() > 0 { 4 + c.details.len() as int } else { 3 };
    if 0 <= i < c.details.len() {
        assert(lines[4 + i] == bullets(c.details)[i]);
    }
    if hints.len() > 0 {
        assert(lines[k] == Seq::<SpanView>::empty());
        assert(lines[k + 1] == seq![bold("Suggested fixes"@)]);
        if 0 <= i < hints.len() {
            assert(lines[k + 2 + i] == bullets(hints)[i]);
        }
    }
}

/// A selection behind the list has no details.
pub proof fn no_details_without_selection(s: AppView)
    requires
        s.result is Some,
        s.selected_check >= s.result->0.checks.len(),
    ensures
        details(s).len() == 1 && is_one(details(s)[0], "No selection."@, Tone::Plain),
{
}

/// The help tells of the keys, the files and the command line.
pub proof fn help_tells_of_keys_and_files()
    ensures
        help().len() == 9,
        is_two(
            help()[0],
            "Navigation:"@,
            Tone::Bold,
            "  ↑/↓ or j/k select check, PgUp/PgDn scroll details"@,
            Tone::Plain,
        ),
        is_two(
            help()[1],
            "Actions:"@,
            Tone::Bold,
            "  o open folder, r rescan, e export report, b save baseline"@,
            Tone::Plain,
        ),
        is_two(help()[2], "Exit:"@, Tone::Bold, "  q or Esc (Ctrl+C)"@, Tone::Plain),
        help()[3].len() == 0,
        is_two(
            help()[4],
            "Files:"@,
            Tone::Bold,
            "  repo-health-report.md, repo-health-baseline.json"@,
            Tone::Plain,
        ),
        help()[5].len() == 0,
        is_two(
            help()[6],
            "CLI:"@,
            Tone::Bold,
            "  --mode pretty|md|json  --out <file>  --save-baseline"@,
            Tone::Plain,
        ),
        help()[7].len() == 0,
        is_two(help()[8], "Tip:"@, Tone::Bold, "  Press h or ? to close this help."@, Tone::Plain),
{
}

/// The help leaves six cells of the screen free in each direction, as long as it
/// is between 30 and 86 cells wide and between 10 and 18 high, and stands in the
/// middle: the free cells on two sides differ by one at most.
pub proof fn help_stands_in_the_middle(width: u16, height: u16)
    ensures
        ({
            let w = help_extent(width, 30, 86);
            let h = help_extent(height, 10, 18);
            &&& 30 <= w <= 86 && 10 <= h <= 18
            &&& 36 <= width <= 92 ==> w == width - 6
            &&& width < 36 ==> w == 30
            &&& width > 92 ==> w == 86
            &&& 16 <= height <= 24 ==> h == height - 6
            &&& height < 16 ==> h == 10
            &&& height > 24 ==> h == 18
            &&& width >= w ==> 0 <= width - w - 2 * margin(width, w) <= 1
            &&& width < w ==> margin(width, w) == 0
            &&& height >= h ==> 0 <= height - h - 2 * margin(height, h) <= 1
            &&& height < h ==> margin(height, h) == 0
        }),
{
}

/// The rectangle of the help has that size and leaves as many cells free before
/// it as behind it, or one fewer; it can be placed exactly when its corner can
/// be held.
pub proof fn help_rectangle_is_centred(area: Area)
    ensures
        ({
            let r = help_rect(area);
            let left = if area.width > r.width { (area.width - r.width) / 2 } else { 0 };
            let top = if area.height > r.height { (area.height - r.height) / 2 } else { 0 };
            &&& 30 <= r.width <= 86 && 10 <= r.height <= 18
            &&& 36 <= area.width <= 92 ==> r.width == area.width - 6
            &&& area.width < 36 ==> r.width == 30
            &&& area.width > 92 ==> r.width == 86
            &&& 16 <= area.height <= 24 ==> r.height == area.height - 6
            &&& area.height < 16 ==> r.height == 10
            &&& area.height > 24 ==> r.height == 18
            &&& can_place_help(area) <==> area.x + left <= 65535 && area.y + top <= 65535
            &&& can_place_help(area) ==> r.x == area.x + left && r.y == area.y + top
        }),
{
}

/// The view of a line shows every piece of it, with its text and its tone.
pub proof fn view_shows_whole_line(l: Line, i: int)
    ensures
        l@.len() == l.spans@.len(),
        0 <= i < l.spans@.len() ==> l@[i].text == l.spans@[i].text@ && l@[i].tone == l.spans@[i].tone,
        lines_view(seq![l]) == seq![l@],
{
    assert(lines_view(seq![l]) =~= seq![l@]);
}

/// The parts of the screen share it out whole.
pub proof fn shares_make_a_whole()
    ensures
        METRICS_SHARE == 42 && METRICS_SHARE + CHECKS_SHARE == 100,
        LIST_SHARE == 55 && LIST_SHARE + DETAILS_SHARE == 100,
        HEADER_HEIGHT == 3 && FOOTER_HEIGHT == 2,
{
}

} // verus!
