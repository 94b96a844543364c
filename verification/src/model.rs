//! What a scan produces, and what the command line asks for.
//!
//! Each type that holds text has a view of the same shape, in which texts are
//! sequences of characters. Contracts speak of the views.

use vstd::prelude::*;

use crate::text;

verus! {

/// The form in which a scan is shown.
#[derive(Clone, Copy, Debug, PartialEq, Eq, Structural)]
pub enum Mode {
    Tui,
    Pretty,
    Json,
    Md,
}

/// The severity from which on a scan counts as failed.
#[derive(Clone, Copy, Debug, PartialEq, Eq, Structural)]
pub enum FailOn {
    Off,
    Warn,
    Error,
}

/// How serious the outcome of a check is.
#[derive(Clone, Copy, Debug, PartialEq, Eq, Structural)]
pub enum Severity {
    Info,
    Warn,
    Error,
}

/// A file and its size.
#[derive(Debug)]
pub struct FileEntry {
    pub path: String,
    pub bytes: u64,
}

/// The view of a [`FileEntry`].
#[verifier::ext_equal]
pub struct FileView {
    pub path: Seq<char>,
    pub bytes: u64,
}

/// How many checks came out with each severity.
#[derive(Clone, Copy, Debug, PartialEq, Eq, Structural)]
pub struct SeverityCounts {
    pub info: usize,
    pub warn: usize,
    pub error: usize,
}

/// The outcome of one check.
#[derive(Debug)]
pub struct CheckResult {
    pub id: String,
    pub title: String,
    pub severity: Severity,
    pub message: String,
    pub details: Vec<String>,
}

/// The view of a [`CheckResult`].
#[verifier::ext_equal]
pub struct CheckView {
    pub id: Seq<char>,
    pub title: Seq<char>,
    pub severity: Severity,
    pub message: Seq<char>,
    pub details: Seq<Seq<char>>,
}

/// What a scan measured.
#[derive(Debug)]
pub struct RepoMetrics {
    pub root: String,
    pub total_files: usize,
    pub total_bytes: u64,
    pub largest_files: Vec<FileEntry>,
    pub detected: Vec<String>,
    pub score: u8,
    pub counts: SeverityCounts,
}

/// The view of [`RepoMetrics`].
#[verifier::ext_equal]
pub struct MetricsView {
    pub root: Seq<char>,
    pub total_files: usize,
    pub total_bytes: u64,
    pub largest_files: Seq<FileView>,
    pub detected: Seq<Seq<char>>,
    pub score: u8,
    pub counts: SeverityCounts,
}

/// A finished scan.
#[derive(Debug)]
pub struct ScanResult {
    pub metrics: RepoMetrics,
    pub checks: Vec<CheckResult>,
}

/// The view of a [`ScanResult`].
#[verifier::ext_equal]
pub struct ScanView {
    pub metrics: MetricsView,
    pub checks: Seq<CheckView>,
}

/// A scan compared with an earlier one.
#[derive(Debug)]
pub struct BaselineDiff {
    pub baseline_score: u8,
    pub score_delta: i32,
    pub warn_delta: i32,
    pub error_delta: i32,
    pub regressions: Vec<String>,
}

/// The view of a [`BaselineDiff`].
#[verifier::ext_equal]
pub struct DiffView {
    pub baseline_score: u8,
    pub score_delta: i32,
    pub warn_delta: i32,
    pub error_delta: i32,
    pub regressions: Seq<Seq<char>>,
}

/// The limits of a scan.
#[derive(Clone, Copy, Debug, PartialEq, Eq, Structural)]
pub struct ScanOptions {
    pub max_files: usize,
}

impl View for FileEntry {
    type V = FileView;

    open spec fn view(&self) -> FileView {
        FileView { path: self.path@, bytes: self.bytes }
    }
}

impl View for CheckResult {
    type V = CheckView;

    open spec fn view(&self) -> CheckView {
        CheckView {
            id: self.id@,
            title: self.title@,
            severity: self.severity,
            message: self.message@,
            details: text::texts(self.details@),
        }
    }
}

impl View for RepoMetrics {
    type V = MetricsView;

    open spec fn view(&self) -> MetricsView {
        MetricsView {
            root: self.root@,
            total_files: self.total_files,
            total_bytes: self.total_bytes,
            largest_files: files_view(self.largest_files@),
            detected: text::texts(self.detected@),
            score: self.score,
            counts: self.counts,
        }
    }
}

impl View for ScanResult {
    type V = ScanView;

    open spec fn view(&self) -> ScanView {
        ScanView { metrics: self.metrics@, checks: checks_view(self.checks@) }
    }
}

impl View for BaselineDiff {
    type V = DiffView;

    open spec fn view(&self) -> DiffView {
        DiffView {
            baseline_score: self.baseline_score,
            score_delta: self.score_delta,
            warn_delta: self.warn_delta,
            error_delta: self.error_delta,
            regressions: text::texts(self.regressions@),
        }
    }
}

/// The views of a list of files.
pub open spec fn files_view(v: Seq<FileEntry>) -> Seq<FileView> {
    v.map_values(|f: FileEntry| f@)
}

/// The views of a list of check results.
pub open spec fn checks_view(v: Seq<CheckResult>) -> Seq<CheckView> {
    v.map_values(|c: CheckResult| c@)
}

/// The view of a text that may be absent.
pub open spec fn opt_text(o: Option<&str>) -> Option<Seq<char>> {
    match o {
        Some(s) => Some(s@),
        None => None,
    }
}

/// The view of a scan that may be absent.
pub open spec fn opt_scan(o: Option<ScanResult>) -> Option<ScanView> {
    match o {
        Some(r) => Some(r@),
        None => None,
    }
}

/// The view of a comparison that may be absent.
pub open spec fn opt_diff(o: Option<BaselineDiff>) -> Option<DiffView> {
    match o {
        Some(d) => Some(d@),
        None => None,
    }
}

/// The view of a borrowed comparison that may be absent.
pub open spec fn opt_diff_ref(o: Option<&BaselineDiff>) -> Option<DiffView> {
    match o {
        Some(d) => Some(d@),
        None => None,
    }
}

impl Default for SeverityCounts {
    fn default() -> (r: Self)
        ensures
            r == (SeverityCounts { info: 0, warn: 0, error: 0 }),
    {
        SeverityCounts { info: 0, warn: 0, error: 0 }
    }
}

impl Clone for FileEntry {
    fn clone(&self) -> (r: Self)
        ensures
            r@ == self@,
    {
        FileEntry { path: self.path.clone(), bytes: self.bytes }
    }
}

impl Clone for CheckResult {
    fn clone(&self) -> (r: Self)
        ensures
            r@ == self@,
    {
        CheckResult {
            id: self.id.clone(),
            title: self.title.clone(),
            severity: self.severity,
            message: self.message.clone(),
            details: self.details.clone(),
        }
    }
}

impl Clone for RepoMetrics {
    fn clone(&self) -> (r: Self)
        ensures
            r@ == self@,
    {
        let largest_files = self.largest_files.clone();
        assert(files_view(largest_files@) =~= files_view(self.largest_files@));
        RepoMetrics {
            root: self.root.clone(),
            total_files: self.total_files,
            total_bytes: self.total_bytes,
            largest_files,
            detected: self.detected.clone(),
            score: self.score,
            counts: self.counts,
        }
    }
}

impl Clone for ScanResult {
    fn clone(&self) -> (r: Self)
        ensures
            r@ == self@,
    {
        let checks = self.checks.clone();
        assert(checks_view(checks@) =~= checks_view(self.checks@));
        ScanResult { metrics: self.metrics.clone(), checks }
    }
}

impl Clone for BaselineDiff {
    fn clone(&self) -> (r: Self)
        ensures
            r@ == self@,
    {
        BaselineDiff {
            baseline_score: self.baseline_score,
            score_delta: self.score_delta,
            warn_delta: self.warn_delta,
            error_delta: self.error_delta,
            regressions: self.regressions.clone(),
        }
    }
}

/// The view of a scan shows every field of it, and every item of its lists.
pub proof fn view_shows_whole_scan(r: ScanResult)
    ensures
        r@.metrics.root == r.metrics.root@,
        r@.metrics.total_files == r.metrics.total_files,
        r@.metrics.total_bytes == r.metrics.total_bytes,
        r@.metrics.score == r.metrics.score,
        r@.metrics.counts == r.metrics.counts,
        r@.metrics.detected.len() == r.metrics.detected@.len(),
        forall|i: int|
            0 <= i < r.metrics.detected@.len() ==> #[trigger] r@.metrics.detected[i]
                == r.metrics.detected@[i]@,
        r@.metrics.largest_files.len() == r.metrics.largest_files@.len(),
        forall|i: int|
            0 <= i < r.metrics.largest_files@.len() ==> {
                &&& (#[trigger] r@.metrics.largest_files[i]).path == r.metrics.largest_files@[i].path@
                &&& r@.metrics.largest_files[i].bytes == r.metrics.largest_files@[i].bytes
            },
        r@.checks.len() == r.checks@.len(),
        forall|i: int|
            0 <= i < r.checks@.len() ==> {
                &&& (#[trigger] r@.checks[i]).id == r.checks@[i].id@
                &&& r@.checks[i].title == r.checks@[i].title@
                &&& r@.checks[i].severity == r.checks@[i].severity
                &&& r@.checks[i].message == r.checks@[i].message@
                &&& r@.checks[i].details.len() == r.checks@[i].details@.len()
            },
        forall|i: int, j: int|
            0 <= i < r.checks@.len() && 0 <= j < r.checks@[i].details@.len()
                ==> #[trigger] r@.checks[i].details[j] == r.checks@[i].details@[j]@,
{
}

/// The view of a comparison shows every field of it, and every regression.
pub proof fn view_shows_whole_diff(d: BaselineDiff)
    ensures
        d@.baseline_score == d.baseline_score,
        d@.score_delta == d.score_delta,
        d@.warn_delta == d.warn_delta,
        d@.error_delta == d.error_delta,
        d@.regressions.len() == d.regressions@.len(),
        forall|i: int|
            0 <= i < d.regressions@.len() ==> #[trigger] d@.regressions[i] == d.regressions@[i]@,
        opt_diff(Some(d)) == Some(d@),
        opt_diff_ref(Some(&d)) == Some(d@),
        opt_diff(None) is None,
        opt_diff_ref(None) is None,
{
}

/// The view of what may be absent is absent exactly when that is, and else its
/// view.
pub proof fn view_of_absent_is_absent(s: &str, r: ScanResult)
    ensures
        opt_text(Some(s)) == Some(s@),
        opt_text(None) is None,
        opt_scan(Some(r)) == Some(r@),
        opt_scan(None) is None,
{
}

} // verus!
