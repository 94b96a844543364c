//! A scan: from what was found in a repository to its metrics and checks.

use vstd::prelude::*;

use crate::baseline;
use crate::checks;
use crate::largest;
use crate::model;
use crate::model::{CheckResult, CheckView, RepoMetrics, ScanResult, ScanView, Severity, SeverityCounts};
use crate::report;
use crate::secrets;
use crate::secrets::SecretScan;
use crate::severity;
use crate::walk;
use crate::walk::{Tally, TallyView};

verus! {

/// Why a path cannot be scanned.
#[derive(Debug)]
pub enum ScanError {
    /// The path, as it was given, leads nowhere.
    Unresolved(String),
    /// The path, in full, is no directory.
    NotADirectory(String),
}

/// What is said of a path that leads nowhere.
pub open spec fn unresolved_text(path: Seq<char>) -> Seq<char> {
    "Cannot resolve path: "@ + path
}

/// What is said of a path that is no directory.
pub open spec fn not_a_directory_text(path: Seq<char>) -> Seq<char> {
    "Not a directory: "@ + path
}

/// The contents of the files in the root that checks read; `None` for one that
/// is absent or no text.
#[derive(Debug)]
pub struct RootFiles {
    pub gitignore: Option<String>,
    pub package_json: Option<String>,
    pub requirements: Option<String>,
    pub pyproject: Option<String>,
}

/// The view of [`RootFiles`].
#[verifier::ext_equal]
pub struct RootFilesView {
    pub gitignore: Option<Seq<char>>,
    pub package_json: Option<Seq<char>>,
    pub requirements: Option<Seq<char>>,
    pub pyproject: Option<Seq<char>>,
}

/// The view of a string that may be absent.
pub open spec fn opt_string(o: Option<String>) -> Option<Seq<char>> {
    match o {
        Some(s) => Some(s@),
        None => None,
    }
}

impl View for RootFiles {
    type V = RootFilesView;

    open spec fn view(&self) -> RootFilesView {
        RootFilesView {
            gitignore: opt_string(self.gitignore),
            package_json: opt_string(self.package_json),
            requirements: opt_string(self.requirements),
            pyproject: opt_string(self.pyproject),
        }
    }
}

/// The outcome of the check on Node scripts.
pub open spec fn node_check(files: RootFilesView) -> CheckView {
    checks::node_scripts(
        match files.package_json {
            Some(s) => checks::json_member_names(s, "scripts"@),
            None => None,
        },
    )
}

/// The outcome of the check on Python tools.
pub open spec fn python_check(files: RootFilesView) -> CheckView {
    checks::python_tooling(
        checks::opt_lowercase(files.requirements),
        checks::opt_lowercase(files.pyproject),
    )
}

/// The checks of a scan: those on environment files, large files and secrets
/// always, those on an ecosystem where it was detected.
pub open spec fn checks_of(tally: TallyView, files: RootFilesView, details: Seq<Seq<char>>) -> Seq<
    CheckView,
> {
    seq![
        checks::gitignore_env(files.gitignore, tally.saw_env_file),
        checks::large_files(largest::by_size(tally.largest)),
    ] + (if tally.flags.node {
        seq![node_check(files)]
    } else {
        seq![]
    }) + (if tally.flags.python {
        seq![python_check(files)]
    } else {
        seq![]
    }) + seq![secrets::secrets_check(details)]
}

/// `counts` are those of `checks`.
pub open spec fn counts_match(counts: SeverityCounts, checks: Seq<CheckView>) -> bool {
    &&& counts.info == severity::count_of(checks, Severity::Info)
    &&& counts.warn == severity::count_of(checks, Severity::Warn)
    &&& counts.error == severity::count_of(checks, Severity::Error)
}

/// `r` is the scan of a repository at `root` in which `tally`, `files` and
/// `details` were found.
pub open spec fn is_scan_of(
    r: ScanView,
    root: Seq<char>,
    tally: TallyView,
    files: RootFilesView,
    details: Seq<Seq<char>>,
) -> bool {
    &&& r.checks == checks_of(tally, files, details)
    &&& r.metrics.root == root
    &&& r.metrics.total_files == tally.total_files
    &&& r.metrics.total_bytes == tally.total_bytes
    &&& r.metrics.largest_files == largest::by_size(tally.largest)
    &&& r.metrics.detected == walk::detected(tally.flags)
    &&& counts_match(r.metrics.counts, r.checks)
    &&& r.metrics.score == severity::score_of(
        r.metrics.counts.warn as int,
        r.metrics.counts.error as int,
    )
}

/// `r` is the scan of some repository.
pub open spec fn is_scan(r: ScanView) -> bool {
    exists|root: Seq<char>, tally: TallyView, files: RootFilesView, details: Seq<Seq<char>>| #[trigger]
        is_scan_of(r, root, tally, files, details)
}

impl ScanError {
    /// What is said of the path.
    pub fn message(&self) -> (r: String)
        ensures
            r@ == (match *self {
                ScanError::Unresolved(p) => unresolved_text(p@),
                ScanError::NotADirectory(p) => not_a_directory_text(p@),
            }),
    {
        match self {
            ScanError::Unresolved(p) => {
                let mut s = "Cannot resolve path: ".to_owned();
                s.append(p.as_str());
                s
            },
            ScanError::NotADirectory(p) => {
                let mut s = "Not a directory: ".to_owned();
                s.append(p.as_str());
                s
            },
        }
    }
}

/// The root of a scan: `resolved` is the path `given` in full, where it leads
/// somewhere, and `is_dir` says whether that is a directory.
pub fn scan_root(given: &str, resolved: Option<&str>, is_dir: bool) -> (r: Result<String, ScanError>)
    ensures
        match resolved {
            None => r matches Err(ScanError::Unresolved(p)) && p@ == given@,
            Some(full) => if is_dir {
                r matches Ok(p) && p@ == full@
            } else {
                r matches Err(ScanError::NotADirectory(p)) && p@ == full@
            },
        },
{
    match resolved {
        None => Err(ScanError::Unresolved(given.to_owned())),
        Some(full) => if is_dir {
            Ok(full.to_owned())
        } else {
            Err(ScanError::NotADirectory(full.to_owned()))
        },
    }
}

/// A string that may be absent, borrowed.
fn borrowed(o: &Option<String>) -> (r: Option<&str>)
    ensures
        model::opt_text(r) == opt_string(*o),
{
    match o {
        Some(s) => Some(s.as_str()),
        None => None,
    }
}

/// Adds the outcome of a check.
fn push_check(list: &mut Vec<CheckResult>, c: CheckResult)
    ensures
        model::checks_view(final(list)@) == model::checks_view(old(list)@).push(c@),
{
    let ghost before = list@;
    list.push(c);
    assert(model::checks_view(list@) =~= model::checks_view(before).push(c@));
}

/// The scan of a repository at `root`, from the tally of its files, the
/// contents of files in its root, and the search for secrets.
pub fn scan_repo(root: &str, tally: Tally, files: &RootFiles, search: SecretScan) -> (r: ScanResult)
    ensures
        is_scan_of(r@, root@, tally@, files@, search@.details),
        r.checks@.len() <= 5,
        report::countable(r.metrics.counts),
{
    let Tally { total_files, total_bytes, largest: mut largest_files, flags, saw_env_file } = tally;
    largest::sort_by_size(&mut largest_files);
    let mut list: Vec<CheckResult> = Vec::new();
    push_check(&mut list, checks::check_gitignore_env(borrowed(&files.gitignore), saw_env_file));
    push_check(&mut list, checks::check_large_files(largest_files.as_slice()));
    if flags.node {
        push_check(&mut list, checks::check_node_scripts(borrowed(&files.package_json)));
    }
    if flags.python {
        push_check(
            &mut list,
            checks::check_python_tooling(borrowed(&files.requirements), borrowed(&files.pyproject)),
        );
    }
    push_check(&mut list, secrets::check_secret_markers(search));
    assert(model::checks_view(list@) =~= checks_of(tally@, files@, search@.details));
    assert(model::checks_view(list@).len() == list@.len());
    let counts = severity::count_severities(list.as_slice());
    proof {
        severity::counts_add_up(model::checks_view(list@));
    }
    let score: u8 = severity::compute_score(&counts);
    let metrics = RepoMetrics {
        root: root.to_owned(),
        total_files,
        total_bytes,
        largest_files,
        detected: flags.as_vec(),
        score,
        counts,
    };
    ScanResult { metrics, checks: list }
}

/// A scan has three to five checks with distinct ids, begins with the one on
/// environment files and ends with the one on secrets, and knows a remedy for each.
pub proof fn scan_has_known_checks(
    r: ScanView,
    root: Seq<char>,
    tally: TallyView,
    files: RootFilesView,
    details: Seq<Seq<char>>,
)
    requires
        is_scan_of(r, root, tally, files, details),
    ensures
        3 <= r.checks.len() <= 5,
        r.checks[0].id == "gitignore_env"@,
        r.checks.last().id == "secrets"@,
        baseline::distinct_ids(r.checks),
        forall|i: int| 0 <= i < r.checks.len() ==> checks::fix_hints((#[trigger] r.checks[i]).id).len() > 0,
{
    reveal_strlit("gitignore_env");
    reveal_strlit("large_files");
    reveal_strlit("node_scripts");
    reveal_strlit("python_tooling");
    reveal_strlit("secrets");
    assert("gitignore_env"@.len() == 13);
    assert("large_files"@.len() == 11);
    assert("node_scripts"@.len() == 12);
    assert("python_tooling"@.len() == 14);
    assert("secrets"@.len() == 7);
}

/// The scan of any repository has three to five checks.
pub proof fn every_scan_has_checks(r: ScanView)
    requires
        is_scan(r),
    ensures
        3 <= r.checks.len() <= 5,
{
    let (root, tally, files, details) = choose|
        root: Seq<char>,
        tally: TallyView,
        files: RootFilesView,
        details: Seq<Seq<char>>,
    | #[trigger] is_scan_of(r, root, tally, files, details);
    scan_has_known_checks(r, root, tally, files, details);
}

/// The score of a scan lies between 0 and 100; it is full exactly when no run
/// on this scan can fail.
pub proof fn scan_score_follows_checks(
    r: ScanView,
    root: Seq<char>,
    tally: TallyView,
    files: RootFilesView,
    details: Seq<Seq<char>>,
)
    requires
        is_scan_of(r, root, tally, files, details),
    ensures
        r.metrics.score <= 100,
        r.metrics.score == 100 <==> !severity::fails(r.checks, model::FailOn::Warn),
        r.metrics.counts.info + r.metrics.counts.warn + r.metrics.counts.error == r.checks.len(),
{
    severity::counts_add_up(r.checks);
    severity::failing_follows_counts(r.checks);
}

/// A scan saved as the baseline and repeated without a change shows none.
pub proof fn unchanged_scan_shows_no_change(
    r: ScanView,
    again: ScanView,
    root: Seq<char>,
    tally: TallyView,
    files: RootFilesView,
    details: Seq<Seq<char>>,
)
    requires
        is_scan_of(r, root, tally, files, details),
        is_scan_of(again, root, tally, files, details),
    ensures
        again == r,
        baseline::diff(again, r).score_delta == 0,
        baseline::diff(again, r).warn_delta == 0,
        baseline::diff(again, r).error_delta == 0,
        baseline::diff(again, r).regressions == Seq::<Seq<char>>::empty(),
{
    scan_has_known_checks(r, root, tally, files, details);
    assert(again.metrics =~= r.metrics);
    assert(again =~= r);
    baseline::diff_with_itself_is_empty(r);
}

/// Any two scans can be compared.
pub proof fn scans_are_comparable(
    a: ScanView,
    a_root: Seq<char>,
    a_tally: TallyView,
    a_files: RootFilesView,
    a_details: Seq<Seq<char>>,
    b: ScanView,
    b_root: Seq<char>,
    b_tally: TallyView,
    b_files: RootFilesView,
    b_details: Seq<Seq<char>>,
)
    requires
        is_scan_of(a, a_root, a_tally, a_files, a_details),
        is_scan_of(b, b_root, b_tally, b_files, b_details),
    ensures
        baseline::comparable(a.metrics.counts, b.metrics.counts),
{
    scan_score_follows_checks(a, a_root, a_tally, a_files, a_details);
    scan_score_follows_checks(b, b_root, b_tally, b_files, b_details);
}

/// What is said of a path that cannot be scanned names that path.
pub proof fn errors_name_the_path(path: Seq<char>)
    ensures
        unresolved_text(path) == "Cannot resolve path: "@ + path,
        not_a_directory_text(path) == "Not a directory: "@ + path,
{
}

/// A scan shows the measures of the walk: the root, the number of files, their
/// bytes, the largest of them from the largest down, and the ecosystems.
pub proof fn scan_shows_what_was_measured(
    r: ScanView,
    root: Seq<char>,
    tally: TallyView,
    files: RootFilesView,
    details: Seq<Seq<char>>,
)
    requires
        is_scan_of(r, root, tally, files, details),
    ensures
        r.metrics.root == root,
        r.metrics.total_files == tally.total_files,
        r.metrics.total_bytes == tally.total_bytes,
        r.metrics.largest_files.to_multiset() == tally.largest.to_multiset(),
        largest::is_by_size(r.metrics.largest_files),
        r.metrics.detected.contains("node"@) <==> tally.flags.node,
        r.metrics.detected.contains("rust"@) <==> tally.flags.rust,
        r.metrics.detected.contains("python"@) <==> tally.flags.python,
{
    largest::by_size_is_a_stable_sort(tally.largest, 0);
    walk::ecosystems_have_words(tally.flags);
    reveal_strlit("node");
    reveal_strlit("rust");
    reveal_strlit("python");
    assert("node"@[0] == 'n' && "rust"@[0] == 'r' && "python"@[0] == 'p');
    let node: int = if tally.flags.node { 1 } else { 0 };
    let rust: int = if tally.flags.rust { 1 } else { 0 };
    let words = r.metrics.detected;
    if tally.flags.node {
        assert(words.contains(words[0]));
    }
    if tally.flags.rust {
        assert(words.contains(words[node]));
    }
    if tally.flags.python {
        assert(words.contains(words[node + rust]));
    }
}

/// A scan holds the check on environment files, then that on large files, then
/// that on Node scripts where Node was detected, then that on Python tools where
/// Python was, and last that on secrets; each is made of its own files.
pub proof fn scan_holds_its_checks(
    r: ScanView,
    root: Seq<char>,
    tally: TallyView,
    files: RootFilesView,
    details: Seq<Seq<char>>,
)
    requires
        is_scan_of(r, root, tally, files, details),
    ensures
        ({
            let node: int = if tally.flags.node { 1 } else { 0 };
            let python: int = if tally.flags.python { 1 } else { 0 };
            let package = if files.package_json is Some {
                checks::json_member_names(files.package_json->0, "scripts"@)
            } else {
                None
            };
            &&& r.checks.len() == 3 + node + python
            &&& r.checks[0] == checks::gitignore_env(files.gitignore, tally.saw_env_file)
            &&& r.checks[1] == checks::large_files(r.metrics.largest_files)
            &&& tally.flags.node ==> r.checks[2] == checks::node_scripts(package)
            &&& tally.flags.python ==> r.checks[2 + node] == checks::python_tooling(
                checks::opt_lowercase(files.requirements),
                checks::opt_lowercase(files.pyproject),
            )
            &&& r.checks[2 + node + python] == secrets::secrets_check(details)
            &&& r.checks[0].id == "gitignore_env"@
            &&& r.checks[1].id == "large_files"@
            &&& tally.flags.node ==> r.checks[2].id == "node_scripts"@
            &&& tally.flags.python ==> r.checks[2 + node].id == "python_tooling"@
            &&& r.checks[2 + node + python].id == "secrets"@
        }),
{
}

/// The points that checks cost: ten for a warning, twenty-five for an error, none
/// for one that is harmless.
pub open spec fn points_lost(checks: Seq<CheckView>) -> int
    decreases checks.len(),
{
    if checks.len() == 0 {
        0
    } else {
        points_lost(checks.drop_last()) + match checks.last().severity {
            Severity::Info => 0int,
            Severity::Warn => 10int,
            Severity::Error => 25int,
        }
    }
}

proof fn points_follow_counts(checks: Seq<CheckView>)
    ensures
        points_lost(checks) == 10 * severity::count_of(checks, Severity::Warn) + 25 * severity::count_of(
            checks,
            Severity::Error,
        ),
    decreases checks.len(),
{
    if checks.len() > 0 {
        points_follow_counts(checks.drop_last());
    }
}

/// The score of a scan is a hundred less what its checks lose, and never below
/// zero; the counts are those of its checks.
pub proof fn score_is_what_checks_leave(
    r: ScanView,
    root: Seq<char>,
    tally: TallyView,
    files: RootFilesView,
    details: Seq<Seq<char>>,
)
    requires
        is_scan_of(r, root, tally, files, details),
    ensures
        points_lost(r.checks) <= 100 ==> r.metrics.score + points_lost(r.checks) == 100,
        points_lost(r.checks) >= 100 ==> r.metrics.score == 0,
        r.metrics.counts.info == severity::count_of(r.checks, Severity::Info),
        r.metrics.counts.warn == severity::count_of(r.checks, Severity::Warn),
        r.metrics.counts.error == severity::count_of(r.checks, Severity::Error),
{
    points_follow_counts(r.checks);
}

/// A leaked secret makes the scan fail on errors and costs twenty-five points at
/// the least, and its findings stand in the last check.
pub proof fn leaks_fail_a_scan(
    r: ScanView,
    root: Seq<char>,
    tally: TallyView,
    files: RootFilesView,
    details: Seq<Seq<char>>,
)
    requires
        is_scan_of(r, root, tally, files, details),
        details.len() > 0,
    ensures
        severity::fails(r.checks, model::FailOn::Error),
        severity::fails(r.checks, model::FailOn::Warn),
        r.metrics.score <= 75,
        r.checks.last().severity is Error,
        r.checks.last().details == details,
{
    severity::failing_needs_a_serious_check(r.checks);
    severity::failing_follows_counts(r.checks);
    let last = r.checks.len() - 1;
    assert(r.checks[last].severity is Error);
}

/// An environment file that no ignore file names makes the scan fail on
/// warnings and costs ten points at the least.
pub proof fn unprotected_env_file_fails_a_scan(
    r: ScanView,
    root: Seq<char>,
    tally: TallyView,
    files: RootFilesView,
    details: Seq<Seq<char>>,
)
    requires
        is_scan_of(r, root, tally, files, details),
        tally.saw_env_file,
        files.gitignore is None || !checks::has_env_rule(files.gitignore->0),
    ensures
        severity::fails(r.checks, model::FailOn::Warn),
        r.metrics.score <= 90,
        r.checks[0].severity is Warn,
{
    severity::failing_needs_a_serious_check(r.checks);
    severity::failing_follows_counts(r.checks);
    assert(!(r.checks[0].severity is Info));
}

/// The view of the files of the root shows each, absent where it is.
pub proof fn view_shows_every_root_file(f: RootFiles)
    ensures
        f@.gitignore is Some == f.gitignore is Some,
        f.gitignore is Some ==> f@.gitignore->0 == f.gitignore->0@,
        f@.package_json is Some == f.package_json is Some,
        f.package_json is Some ==> f@.package_json->0 == f.package_json->0@,
        f@.requirements is Some == f.requirements is Some,
        f.requirements is Some ==> f@.requirements->0 == f.requirements->0@,
        f@.pyproject is Some == f.pyproject is Some,
        f.pyproject is Some ==> f@.pyproject->0 == f.pyproject->0@,
{
}

} // verus!
