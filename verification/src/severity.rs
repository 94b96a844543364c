//! Severities: their order, their counts, and the score that follows from them.

use vstd::prelude::*;

use crate::model;
use crate::model::{CheckResult, CheckView, FailOn, Severity, SeverityCounts};

verus! {

/// The place of a severity in the order from harmless to serious.
pub open spec fn rank(s: Severity) -> u8 {
    match s {
        Severity::Info => 0,
        Severity::Warn => 1,
        Severity::Error => 2,
    }
}

/// The word for a severity.
pub open spec fn tag(s: Severity) -> Seq<char> {
    match s {
        Severity::Info => "info"@,
        Severity::Warn => "warn"@,
        Severity::Error => "error"@,
    }
}

/// How many of `checks` came out with severity `s`.
pub open spec fn count_of(checks: Seq<CheckView>, s: Severity) -> nat
    decreases checks.len(),
{
    if checks.len() == 0 {
        0
    } else {
        count_of(checks.drop_last(), s) + if checks.last().severity == s { 1nat } else { 0nat }
    }
}

/// Some check came out at least as serious as `threshold`.
pub open spec fn reaches(checks: Seq<CheckView>, threshold: Severity) -> bool {
    exists|i: int| 0 <= i < checks.len() && rank(#[trigger] checks[i].severity) >= rank(threshold)
}

/// Whether `checks` fail a run that fails on `fail_on`.
pub open spec fn fails(checks: Seq<CheckView>, fail_on: FailOn) -> bool {
    match fail_on {
        FailOn::Off => false,
        FailOn::Warn => reaches(checks, Severity::Warn),
        FailOn::Error => reaches(checks, Severity::Error),
    }
}

/// The score for `warn` warnings and `error` errors: a hundred, less ten for
/// each warning and twenty-five for each error, kept between 0 and 100.
pub open spec fn score_of(warn: int, error: int) -> int {
    let raw = 100 - 10 * warn - 25 * error;
    if raw < 0 {
        0
    } else if raw > 100 {
        100
    } else {
        raw
    }
}

/// `n` can be held in an `i32`.
pub open spec fn fits_i32(n: int) -> bool {
    i32::MIN <= n <= i32::MAX
}

/// The counts, taken as `i32`, let the score be computed without overflow.
pub open spec fn score_computable(counts: SeverityCounts) -> bool {
    let warn = (counts.warn as i32) as int;
    let error = (counts.error as i32) as int;
    &&& fits_i32(10 * warn)
    &&& fits_i32(25 * error)
    &&& fits_i32(100 - 10 * warn)
    &&& fits_i32(100 - 10 * warn - 25 * error)
}

/// The word for a severity.
pub fn sev_tag(s: Severity) -> (r: &'static str)
    ensures
        r@ == tag(s),
{
    match s {
        Severity::Info => "info",
        Severity::Warn => "warn",
        Severity::Error => "error",
    }
}

/// The place of a severity in the order from harmless to serious.
pub fn severity_rank(s: Severity) -> (r: u8)
    ensures
        r == rank(s),
{
    match s {
        Severity::Info => 0,
        Severity::Warn => 1,
        Severity::Error => 2,
    }
}

/// Whether `a` is at least as serious as `b`.
pub fn severity_ge(a: Severity, b: Severity) -> (r: bool)
    ensures
        r == (rank(a) >= rank(b)),
{
    severity_rank(a) >= severity_rank(b)
}

/// Whether a run that fails on `fail_on` fails with these checks.
pub fn should_fail(checks: &[CheckResult], fail_on: FailOn) -> (r: bool)
    ensures
        r == fails(model::checks_view(checks@), fail_on),
{
    let threshold = match fail_on {
        FailOn::Off => return false,
        FailOn::Warn => Severity::Warn,
        FailOn::Error => Severity::Error,
    };
    let mut i: usize = 0;
    while i < checks.len()
        invariant
            i <= checks@.len(),
            fails(model::checks_view(checks@), fail_on) == reaches(model::checks_view(checks@), threshold),
            forall|j: int|
                0 <= j < i ==> rank(#[trigger] model::checks_view(checks@)[j].severity) < rank(threshold),
        decreases checks@.len() - i,
    {
        assert(model::checks_view(checks@)[i as int].severity == checks@[i as int].severity);
        if severity_ge(checks[i].severity, threshold) {
            return true;
        }
        i += 1;
    }
    false
}

/// How many checks came out with each severity.
pub fn count_severities(checks: &[CheckResult]) -> (c: SeverityCounts)
    ensures
        c.info == count_of(model::checks_view(checks@), Severity::Info),
        c.warn == count_of(model::checks_view(checks@), Severity::Warn),
        c.error == count_of(model::checks_view(checks@), Severity::Error),
{
    let mut c = SeverityCounts::default();
    let mut i: usize = 0;
    let ghost all = model::checks_view(checks@);
    assert(all.take(0) =~= seq![]);
    while i < checks.len()
        invariant
            all == model::checks_view(checks@),
            i <= checks@.len(),
            c.info == count_of(all.take(i as int), Severity::Info),
            c.warn == count_of(all.take(i as int), Severity::Warn),
            c.error == count_of(all.take(i as int), Severity::Error),
            c.info + c.warn + c.error == i,
        decreases checks@.len() - i,
    {
        proof {
            let next = all.take(i + 1);
            assert(next.drop_last() =~= all.take(i as int));
            assert(next.last().severity == checks@[i as int].severity);
        }
        match checks[i].severity {
            Severity::Info => c.info += 1,
            Severity::Warn => c.warn += 1,
            Severity::Error => c.error += 1,
        }
        i += 1;
    }
    assert(all.take(i as int) =~= all);
    c
}

/// The score that follows from the counts.
pub fn compute_score(counts: &SeverityCounts) -> (score: u8)
    requires
        score_computable(*counts),
    ensures
        score == score_of((counts.warn as i32) as int, (counts.error as i32) as int),
        score <= 100,
{
    let mut score: i32 = 100;
    score -= (counts.warn as i32) * 10;
    score -= (counts.error as i32) * 25;
    if score < 0 {
        0
    } else if score > 100 {
        100
    } else {
        score as u8
    }
}

/// Severities are ordered: every two compare, and two that compare both ways
/// are the same.
pub proof fn severity_order_is_total(a: Severity, b: Severity)
    ensures
        rank(a) >= rank(b) || rank(b) >= rank(a),
        rank(a) >= rank(b) && rank(b) >= rank(a) ==> a == b,
{
}

/// The counts of the three severities add up to the number of checks.
pub proof fn counts_add_up(checks: Seq<CheckView>)
    ensures
        count_of(checks, Severity::Info) + count_of(checks, Severity::Warn) + count_of(
            checks,
            Severity::Error,
        ) == checks.len(),
    decreases checks.len(),
{
    if checks.len() > 0 {
        counts_add_up(checks.drop_last());
    }
}

/// The score lies between 0 and 100, and never rises with more warnings or errors.
pub proof fn score_falls_with_severity(warn: int, error: int, more_warn: int, more_error: int)
    requires
        warn <= more_warn,
        error <= more_error,
    ensures
        0 <= score_of(more_warn, more_error) <= score_of(warn, error) <= 100,
{
}

/// The score is full exactly when there is neither a warning nor an error.
pub proof fn full_score_means_clean(warn: nat, error: nat)
    ensures
        score_of(warn as int, error as int) == 100 <==> warn == 0 && error == 0,
{
}

/// A run that fails on errors also fails on warnings; no run fails when failing is off.
pub proof fn failing_is_monotone(checks: Seq<CheckView>)
    ensures
        fails(checks, FailOn::Error) ==> fails(checks, FailOn::Warn),
        !fails(checks, FailOn::Off),
{
    if fails(checks, FailOn::Error) {
        let i = choose|i: int|
            0 <= i < checks.len() && rank(#[trigger] checks[i].severity) >= rank(Severity::Error);
        assert(rank(checks[i].severity) >= rank(Severity::Warn));
    }
}

/// A run fails exactly when the counts hold a check that is serious enough.
pub proof fn failing_follows_counts(checks: Seq<CheckView>)
    ensures
        fails(checks, FailOn::Error) <==> count_of(checks, Severity::Error) > 0,
        fails(checks, FailOn::Warn) <==> count_of(checks, Severity::Warn) + count_of(
            checks,
            Severity::Error,
        ) > 0,
    decreases checks.len(),
{
    if checks.len() > 0 {
        let front = checks.drop_last();
        failing_follows_counts(front);
        let last = checks.len() - 1;
        assert(checks[last].severity == checks.last().severity);
        assert(forall|i: int| 0 <= i < front.len() ==> (#[trigger] front[i]).severity == checks[i].severity);
        assert(forall|i: int|
            0 <= i < checks.len() && i != last ==> (#[trigger] checks[i]).severity == front[i].severity);
    }
}

/// The three severities, from harmless to serious: their places and their words.
pub proof fn severities_have_places_and_words(s: Severity)
    ensures
        s is Info ==> rank(s) == 0 && tag(s) == "info"@,
        s is Warn ==> rank(s) == 1 && tag(s) == "warn"@,
        s is Error ==> rank(s) == 2 && tag(s) == "error"@,
{
}

/// Checks are counted one by one: two lists have together what each has, and a
/// list of one check has that check under its own severity and no other.
pub proof fn counting_goes_check_by_check(a: Seq<CheckView>, b: Seq<CheckView>, s: Severity)
    ensures
        a.len() == 0 ==> count_of(a, s) == 0,
        a.len() == 1 ==> count_of(a, s) == if a[0].severity == s {
            1nat
        } else {
            0nat
        },
        count_of(a + b, s) == count_of(a, s) + count_of(b, s),
    decreases b.len(),
{
    if a.len() == 1 {
        assert(count_of(a.drop_last(), s) == 0);
    }
    if b.len() == 0 {
        assert(a + b =~= a);
    } else {
        assert((a + b).drop_last() =~= a + b.drop_last());
        counting_goes_check_by_check(a, b.drop_last(), s);
    }
}

/// A run that fails on warnings fails exactly when some check is not harmless;
/// one that fails on errors, when some check is an error; else none fails.
pub proof fn failing_needs_a_serious_check(checks: Seq<CheckView>)
    ensures
        fails(checks, FailOn::Warn) <==> exists|i: int|
            0 <= i < checks.len() && !((#[trigger] checks[i]).severity is Info),
        fails(checks, FailOn::Error) <==> exists|i: int|
            0 <= i < checks.len() && (#[trigger] checks[i]).severity is Error,
        !fails(checks, FailOn::Off),
{
    if fails(checks, FailOn::Warn) {
        let i = choose|i: int|
            0 <= i < checks.len() && rank(#[trigger] checks[i].severity) >= rank(Severity::Warn);
        assert(!(checks[i].severity is Info));
    }
    if exists|i: int| 0 <= i < checks.len() && !((#[trigger] checks[i]).severity is Info) {
        let i = choose|i: int| 0 <= i < checks.len() && !((#[trigger] checks[i]).severity is Info);
        assert(rank(checks[i].severity) >= rank(Severity::Warn));
    }
    if fails(checks, FailOn::Error) {
        let i = choose|i: int|
            0 <= i < checks.len() && rank(#[trigger] checks[i].severity) >= rank(Severity::Error);
        assert(checks[i].severity is Error);
    }
    if exists|i: int| 0 <= i < checks.len() && (#[trigger] checks[i]).severity is Error {
        let i = choose|i: int| 0 <= i < checks.len() && (#[trigger] checks[i]).severity is Error;
        assert(rank(checks[i].severity) >= rank(Severity::Error));
    }
}

/// A clean scan scores a hundred; each further warning costs ten and each
/// further error twenty-five, until nothing is left.
pub proof fn warnings_and_errors_cost_points(warn: nat, error: nat)
    ensures
        score_of(0, 0) == 100,
        10 * warn + 25 * error <= 100 ==> score_of(warn as int, error as int) + 10 * warn + 25 * error == 100,
        10 * warn + 25 * error >= 100 ==> score_of(warn as int, error as int) == 0,
        score_of(warn as int, error as int) >= 10 ==> score_of(warn as int + 1, error as int) + 10 == score_of(
            warn as int,
            error as int,
        ),
        score_of(warn as int, error as int) >= 25 ==> score_of(warn as int, error as int + 1) + 25 == score_of(
            warn as int,
            error as int,
        ),
{
}

} // verus!
