//! Baselines: where one is found, and what has become worse since.

use vstd::prelude::*;

use crate::model;
use crate::model::{BaselineDiff, CheckResult, CheckView, DiffView, ScanResult, ScanView, Severity, SeverityCounts};
use crate::severity;
use crate::text;

verus! {

/// The file in a repository's root that holds its baseline, unless another is named.
pub const BASELINE_FILE: &'static str = "repo-health-baseline.json";

/// The severity with which the check `id` came out; where several checks have
/// that id, the last of them counts.
pub open spec fn severity_of(checks: Seq<CheckView>, id: Seq<char>) -> Option<Severity>
    decreases checks.len(),
{
    if checks.len() == 0 {
        None
    } else if checks.last().id == id {
        Some(checks.last().severity)
    } else {
        severity_of(checks.drop_last(), id)
    }
}

/// What is reported of a check that came out with `previous` in the baseline:
/// that it is new and not harmless, or that it has become more serious.
pub open spec fn regression(c: CheckView, previous: Option<Severity>) -> Option<Seq<char>> {
    match previous {
        None => if c.severity != Severity::Info {
            Some("new "@ + severity::tag(c.severity) + ": "@ + c.title)
        } else {
            None
        },
        Some(p) => if severity::rank(c.severity) > severity::rank(p) {
            Some(c.title + ": "@ + severity::tag(p) + " -> "@ + severity::tag(c.severity))
        } else {
            None
        },
    }
}

/// The regressions of `current` against `baseline`, in the order of the checks.
pub open spec fn regressions(current: Seq<CheckView>, baseline: Seq<CheckView>) -> Seq<Seq<char>>
    decreases current.len(),
{
    if current.len() == 0 {
        seq![]
    } else {
        let front = regressions(current.drop_last(), baseline);
        match regression(current.last(), severity_of(baseline, current.last().id)) {
            Some(line) => front.push(line),
            None => front,
        }
    }
}

/// How far `current` lies above `baseline`, both taken as `i32`.
pub open spec fn delta(current: usize, baseline: usize) -> int {
    (current as i32) - (baseline as i32)
}

/// The changes in the counts can be held in an `i32`.
pub open spec fn comparable(current: SeverityCounts, baseline: SeverityCounts) -> bool {
    &&& severity::fits_i32(delta(current.warn, baseline.warn))
    &&& severity::fits_i32(delta(current.error, baseline.error))
}

/// `current` compared with `baseline`.
pub open spec fn diff(current: ScanView, baseline: ScanView) -> DiffView {
    DiffView {
        baseline_score: baseline.metrics.score,
        score_delta: (current.metrics.score - baseline.metrics.score) as i32,
        warn_delta: delta(current.metrics.counts.warn, baseline.metrics.counts.warn) as i32,
        error_delta: delta(current.metrics.counts.error, baseline.metrics.counts.error) as i32,
        regressions: regressions(current.checks, baseline.checks),
    }
}

/// No two checks have the same id.
pub open spec fn distinct_ids(checks: Seq<CheckView>) -> bool {
    forall|i: int, j: int|
        0 <= i < j < checks.len() ==> #[trigger] checks[i].id != #[trigger] checks[j].id
}

/// The baseline to load: the one that was named, else the one in the root if it exists.
pub fn resolve_baseline<P>(explicit: Option<P>, default_path: P, default_exists: bool) -> (r: Option<P>)
    ensures
        r == (if explicit is Some {
            explicit
        } else if default_exists {
            Some(default_path)
        } else {
            None
        }),
{
    match explicit {
        Some(p) => Some(p),
        None => if default_exists {
            Some(default_path)
        } else {
            None
        },
    }
}

/// Where a file that was named lies: a path from the root of the file system on
/// counts as it is, another below the repository.
pub fn locate<P>(is_absolute: bool, named: P, below_root: P) -> (r: P)
    ensures
        r == (if is_absolute {
            named
        } else {
            below_root
        }),
{
    if is_absolute {
        named
    } else {
        below_root
    }
}

/// The severity with which the last check of that id came out.
fn find_severity(checks: &Vec<CheckResult>, id: &str) -> (r: Option<Severity>)
    ensures
        r == severity_of(model::checks_view(checks@), id@),
{
    let ghost all = model::checks_view(checks@);
    let mut i: usize = checks.len();
    assert(all.take(i as int) =~= all);
    while i > 0
        invariant
            all == model::checks_view(checks@),
            i <= checks@.len(),
            severity_of(all, id@) == severity_of(all.take(i as int), id@),
        decreases i,
    {
        let c = &checks[i - 1];
        assert(all.take(i as int).drop_last() =~= all.take(i - 1));
        if text::same_text(c.id.as_str(), id) {
            return Some(c.severity);
        }
        i -= 1;
    }
    None
}

/// What is reported of a check that came out with `previous` in the baseline.
fn regression_line(c: &CheckResult, previous: Option<Severity>) -> (r: Option<String>)
    ensures
        match regression(c@, previous) {
            Some(line) => r is Some && r->0@ == line,
            None => r is None,
        },
{
    match previous {
        None => if c.severity != Severity::Info {
            let mut s = "new ".to_owned();
            s.append(severity::sev_tag(c.severity));
            s.append(": ");
            s.append(c.title.as_str());
            Some(s)
        } else {
            None
        },
        Some(p) => if severity::severity_rank(c.severity) > severity::severity_rank(p) {
            let mut s = c.title.clone();
            s.append(": ");
            s.append(severity::sev_tag(p));
            s.append(" -> ");
            s.append(severity::sev_tag(c.severity));
            Some(s)
        } else {
            None
        },
    }
}

/// Whether a change can be held in an `i32`.
fn delta_fits(current: usize, baseline: usize) -> (r: bool)
    ensures
        r == severity::fits_i32(delta(current, baseline)),
{
    let change: i64 = (current as i32) as i64 - (baseline as i32) as i64;
    i32::MIN as i64 <= change && change <= i32::MAX as i64
}

/// Whether a scan can be compared with a baseline.
pub fn can_compare(current: &ScanResult, baseline: &ScanResult) -> (r: bool)
    ensures
        r == comparable(current.metrics.counts, baseline.metrics.counts),
{
    let now = &current.metrics.counts;
    let before = &baseline.metrics.counts;
    delta_fits(now.warn, before.warn) && delta_fits(now.error, before.error)
}

/// Compares a scan with a baseline.
pub fn compute_baseline_diff(current: &ScanResult, baseline: &ScanResult) -> (d: BaselineDiff)
    requires
        comparable(current.metrics.counts, baseline.metrics.counts),
    ensures
        d@ == diff(current@, baseline@),
{
    let mut found: Vec<String> = Vec::new();
    let ghost now = model::checks_view(current.checks@);
    let ghost before = model::checks_view(baseline.checks@);
    let mut i: usize = 0;
    assert(now.take(0) =~= seq![]);
    assert(text::texts(found@) =~= regressions(now.take(0), before));
    while i < current.checks.len()
        invariant
            now == model::checks_view(current.checks@),
            before == model::checks_view(baseline.checks@),
            i <= current.checks@.len(),
            text::texts(found@) == regressions(now.take(i as int), before),
        decreases current.checks@.len() - i,
    {
        let c = &current.checks[i];
        let previous = find_severity(&baseline.checks, c.id.as_str());
        proof {
            assert(now.take(i + 1).drop_last() =~= now.take(i as int));
            assert(now.take(i + 1).last() == c@);
        }
        let ghost kept = found@;
        if let Some(line) = regression_line(c, previous) {
            found.push(line);
            assert(text::texts(found@) =~= text::texts(kept).push(line@));
        }
        i += 1;
    }
    assert(now.take(i as int) =~= now);
    let score_delta: i32 = current.metrics.score as i32 - baseline.metrics.score as i32;
    let warn_delta: i32 = current.metrics.counts.warn as i32 - baseline.metrics.counts.warn as i32;
    let error_delta: i32 = current.metrics.counts.error as i32 - baseline.metrics.counts.error as i32;
    BaselineDiff {
        baseline_score: baseline.metrics.score,
        score_delta,
        warn_delta,
        error_delta,
        regressions: found,
    }
}

/// In a list without repeated ids, every check is found under its id.
proof fn check_is_found(checks: Seq<CheckView>, i: int)
    requires
        distinct_ids(checks),
        0 <= i < checks.len(),
    ensures
        severity_of(checks, checks[i].id) == Some(checks[i].severity),
    decreases checks.len(),
{
    if i < checks.len() - 1 {
        let front = checks.drop_last();
        assert(distinct_ids(front));
        assert(checks[i].id != checks[checks.len() - 1].id);
        assert(front[i] == checks[i]);
        check_is_found(front, i);
    }
}

/// Checks that are each harmless or no more serious than in the baseline have no regressions.
pub proof fn no_regression_without_worsening(current: Seq<CheckView>, baseline: Seq<CheckView>)
    requires
        forall|i: int|
            0 <= i < current.len() ==> match severity_of(baseline, (#[trigger] current[i]).id) {
                None => current[i].severity == Severity::Info,
                Some(p) => severity::rank(current[i].severity) <= severity::rank(p),
            },
    ensures
        regressions(current, baseline) == Seq::<Seq<char>>::empty(),
    decreases current.len(),
{
    if current.len() > 0 {
        let front = current.drop_last();
        assert forall|i: int| 0 <= i < front.len() implies match severity_of(
            baseline,
            (#[trigger] front[i]).id,
        ) {
            None => front[i].severity == Severity::Info,
            Some(p) => severity::rank(front[i].severity) <= severity::rank(p),
        } by {
            assert(front[i] == current[i]);
        }
        no_regression_without_worsening(front, baseline);
        assert(current[current.len() - 1] == current.last());
    }
}

/// A check that has become worse is reported.
pub proof fn worsening_is_reported(current: Seq<CheckView>, baseline: Seq<CheckView>, i: int)
    requires
        0 <= i < current.len(),
    ensures
        regression(current[i], severity_of(baseline, current[i].id)) matches Some(line)
            ==> regressions(current, baseline).contains(line),
    decreases current.len(),
{
    let c = current[i];
    if let Some(line) = regression(c, severity_of(baseline, c.id)) {
        let front = regressions(current.drop_last(), baseline);
        let all = regressions(current, baseline);
        if i == current.len() - 1 {
            assert(all[front.len() as int] == line);
        } else {
            assert(current.drop_last()[i] == c);
            worsening_is_reported(current.drop_last(), baseline, i);
            let k = choose|k: int| 0 <= k < front.len() && front[k] == line;
            assert(all[k] == line);
        }
    }
}

/// A scan whose checks have distinct ids, compared with itself, shows no change.
pub proof fn diff_with_itself_is_empty(r: ScanView)
    requires
        distinct_ids(r.checks),
    ensures
        diff(r, r).score_delta == 0,
        diff(r, r).warn_delta == 0,
        diff(r, r).error_delta == 0,
        diff(r, r).regressions == Seq::<Seq<char>>::empty(),
        comparable(r.metrics.counts, r.metrics.counts),
{
    assert forall|i: int| 0 <= i < r.checks.len() implies match severity_of(
        r.checks,
        (#[trigger] r.checks[i]).id,
    ) {
        None => r.checks[i].severity == Severity::Info,
        Some(p) => severity::rank(r.checks[i].severity) <= severity::rank(p),
    } by {
        check_is_found(r.checks, i);
    }
    no_regression_without_worsening(r.checks, r.checks);
}

/// Swapping the two scans turns every change round.
pub proof fn diff_is_antisymmetric(a: ScanView, b: ScanView)
    requires
        comparable(a.metrics.counts, b.metrics.counts),
        comparable(b.metrics.counts, a.metrics.counts),
    ensures
        diff(a, b).score_delta == -diff(b, a).score_delta,
        diff(a, b).warn_delta == -diff(b, a).warn_delta,
        diff(a, b).error_delta == -diff(b, a).error_delta,
{
}

/// No more regressions are reported than there are checks.
pub proof fn regressions_are_few(current: Seq<CheckView>, baseline: Seq<CheckView>)
    ensures
        regressions(current, baseline).len() <= current.len(),
    decreases current.len(),
{
    if current.len() > 0 {
        regressions_are_few(current.drop_last(), baseline);
    }
}

/// The severity of a check is that of the last check with its id; there is none
/// where no check has that id.
pub proof fn last_check_of_an_id_counts(checks: Seq<CheckView>, id: Seq<char>, i: int)
    ensures
        0 <= i < checks.len() && checks[i].id == id && (forall|j: int|
            i < j < checks.len() ==> (#[trigger] checks[j]).id != id) ==> severity_of(checks, id) == Some(
            checks[i].severity,
        ),
        (forall|j: int| 0 <= j < checks.len() ==> (#[trigger] checks[j]).id != id) ==> severity_of(
            checks,
            id,
        ) is None,
    decreases checks.len(),
{
    if checks.len() > 0 {
        let front = checks.drop_last();
        let last = checks.len() - 1;
        assert(checks[last] == checks.last());
        assert(forall|j: int| 0 <= j < front.len() ==> #[trigger] front[j] == checks[j]);
        last_check_of_an_id_counts(front, id, i);
        if forall|j: int| 0 <= j < checks.len() ==> (#[trigger] checks[j]).id != id {
            assert forall|j: int| 0 <= j < front.len() implies (#[trigger] front[j]).id != id by {
                assert(checks[j].id != id);
            }
        }
        if 0 <= i < last && checks[i].id == id && (forall|j: int|
            i < j < checks.len() ==> (#[trigger] checks[j]).id != id) {
            assert forall|j: int| i < j < front.len() implies (#[trigger] front[j]).id != id by {
                assert(checks[j].id != id);
            }
        }
    }
}

/// What is reported of a check against the severity it had: something exactly
/// when it is new and not harmless, or more serious than it was.
pub proof fn check_is_judged_by_its_severity(c: CheckView, baseline: Seq<CheckView>)
    ensures
        ({
            let lines = regressions(seq![c], baseline);
            match (severity_of(baseline, c.id), c.severity) {
                (None, Severity::Warn) => lines == seq!["new warn: "@ + c.title],
                (None, Severity::Error) => lines == seq!["new error: "@ + c.title],
                (Some(Severity::Info), Severity::Warn) => lines == seq![c.title + ": info -> warn"@],
                (Some(Severity::Info), Severity::Error) => lines == seq![c.title + ": info -> error"@],
                (Some(Severity::Warn), Severity::Error) => lines == seq![c.title + ": warn -> error"@],
                _ => lines.len() == 0,
            }
        }),
{
    reveal_strlit("new ");
    reveal_strlit("new warn: ");
    reveal_strlit("new error: ");
    reveal_strlit("info");
    reveal_strlit("warn");
    reveal_strlit("error");
    reveal_strlit(": ");
    reveal_strlit(" -> ");
    reveal_strlit(": info -> warn");
    reveal_strlit(": info -> error");
    reveal_strlit(": warn -> error");
    let lines = regressions(seq![c], baseline);
    assert(seq![c].drop_last() =~= seq![]);
    assert(regressions(seq![], baseline) =~= seq![]);
    match (severity_of(baseline, c.id), c.severity) {
        (None, Severity::Warn) => {
            assert(lines[0] =~= "new warn: "@ + c.title);
        },
        (None, Severity::Error) => {
            assert(lines[0] =~= "new error: "@ + c.title);
        },
        (Some(Severity::Info), Severity::Warn) => {
            assert(lines[0] =~= c.title + ": info -> warn"@);
        },
        (Some(Severity::Info), Severity::Error) => {
            assert(lines[0] =~= c.title + ": info -> error"@);
        },
        (Some(Severity::Warn), Severity::Error) => {
            assert(lines[0] =~= c.title + ": warn -> error"@);
        },
        _ => {},
    }
}

/// The checks are judged each for itself and reported in their order: the
/// regressions of two lists together are those of each.
pub proof fn regressions_add_up(a: Seq<CheckView>, b: Seq<CheckView>, baseline: Seq<CheckView>)
    ensures
        regressions(Seq::empty(), baseline).len() == 0,
        regressions(a + b, baseline) == regressions(a, baseline) + regressions(b, baseline),
    decreases b.len(),
{
    if b.len() == 0 {
        assert(a + b =~= a);
        assert(regressions(a, baseline) + regressions(b, baseline) =~= regressions(a, baseline));
    } else {
        assert((a + b).drop_last() =~= a + b.drop_last());
        regressions_add_up(a, b.drop_last(), baseline);
        assert(regressions(a + b, baseline) =~= regressions(a, baseline) + regressions(b, baseline));
    }
}

/// Every check that is more serious than it was in the baseline is listed with
/// both severities, and every check that the baseline does not know, unless it
/// is harmless, is listed as new.
pub proof fn every_worsening_is_listed(current: Seq<CheckView>, baseline: Seq<CheckView>, i: int)
    requires
        0 <= i < current.len(),
    ensures
        severity_of(baseline, current[i].id) matches Some(p) ==> (severity::rank(current[i].severity)
            > severity::rank(p) ==> regressions(current, baseline).contains(
            current[i].title + ": "@ + severity::tag(p) + " -> "@ + severity::tag(current[i].severity),
        )),
        severity_of(baseline, current[i].id) is None && !(current[i].severity is Info) ==> regressions(
            current,
            baseline,
        ).contains("new "@ + severity::tag(current[i].severity) + ": "@ + current[i].title),
{
    let c = current[i];
    worsening_is_reported(current, baseline, i);
}

/// Every regression that is listed is that of some check, which is more serious
/// than it was, or new and not harmless.
pub proof fn only_worsenings_are_listed(current: Seq<CheckView>, baseline: Seq<CheckView>, k: int)
    requires
        0 <= k < regressions(current, baseline).len(),
    ensures
        exists|i: int|
            0 <= i < current.len() && #[trigger] is_worsening(
                current[i],
                severity_of(baseline, current[i].id),
                regressions(current, baseline)[k],
            ),
    decreases current.len(),
{
    let front = current.drop_last();
    let before = regressions(front, baseline);
    let all = regressions(current, baseline);
    if k < before.len() {
        only_worsenings_are_listed(front, baseline, k);
        let i = choose|i: int|
            0 <= i < front.len() && #[trigger] is_worsening(
                front[i],
                severity_of(baseline, front[i].id),
                before[k],
            );
        assert(front[i] == current[i]);
        assert(all[k] == before[k]);
        assert(is_worsening(current[i], severity_of(baseline, current[i].id), all[k]));
    } else {
        let last = current.len() - 1;
        assert(current[last] == current.last());
        assert(is_worsening(current[last], severity_of(baseline, current[last].id), all[k]));
    }
}

/// `line` says that the check came out worse than `previous`.
pub open spec fn is_worsening(c: CheckView, previous: Option<Severity>, line: Seq<char>) -> bool {
    match previous {
        None => !(c.severity is Info) && line == "new "@ + severity::tag(c.severity) + ": "@ + c.title,
        Some(p) => severity::rank(c.severity) > severity::rank(p) && line == c.title + ": "@
            + severity::tag(p) + " -> "@ + severity::tag(c.severity),
    }
}

/// The changes are those of the scores and of the counts, now less before, as
/// long as the counts can be held in an `i32`.
pub proof fn changes_are_differences(now: ScanView, before: ScanView)
    requires
        now.metrics.counts.warn <= i32::MAX,
        now.metrics.counts.error <= i32::MAX,
        before.metrics.counts.warn <= i32::MAX,
        before.metrics.counts.error <= i32::MAX,
    ensures
        comparable(now.metrics.counts, before.metrics.counts),
        diff(now, before).baseline_score == before.metrics.score,
        before.metrics.score + diff(now, before).score_delta == now.metrics.score,
        before.metrics.counts.warn + diff(now, before).warn_delta == now.metrics.counts.warn,
        before.metrics.counts.error + diff(now, before).error_delta == now.metrics.counts.error,
{
}

/// Two scans can be compared exactly when the changes in their warnings and
/// errors, taken as `i32`, can be held in an `i32`; the changes are then these.
pub proof fn comparable_changes_are_held(now: ScanView, before: ScanView)
    ensures
        ({
            let warn = (now.metrics.counts.warn as i32) - (before.metrics.counts.warn as i32);
            let error = (now.metrics.counts.error as i32) - (before.metrics.counts.error as i32);
            &&& comparable(now.metrics.counts, before.metrics.counts) <==> -0x8000_0000 <= warn <= 0x7fff_ffff
                && -0x8000_0000 <= error <= 0x7fff_ffff
            &&& comparable(now.metrics.counts, before.metrics.counts) ==> diff(now, before).warn_delta == warn
                && diff(now, before).error_delta == error
            &&& diff(now, before).score_delta == now.metrics.score - before.metrics.score
            &&& diff(now, before).regressions == regressions(now.checks, before.checks)
        }),
{
}

} // verus!
