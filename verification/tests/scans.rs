use repo_health::baseline::{can_compare, compute_baseline_diff, locate, resolve_baseline, BASELINE_FILE};
use repo_health::checks::fix_hints_for_check;
use repo_health::model::{
    CheckResult, FailOn, FileEntry, Mode, RepoMetrics, ScanResult, Severity, SeverityCounts,
};
use repo_health::report::{write_markdown, write_pretty, write_report};
use repo_health::scan::{scan_repo, scan_root, RootFiles, ScanError};
use repo_health::secrets::SecretScan;
use repo_health::severity::{compute_score, count_severities, sev_tag, severity_ge, severity_rank, should_fail};
use repo_health::walk::{Tally, WalkEntry};

fn check(id: &str, severity: Severity) -> CheckResult {
    CheckResult {
        id: id.to_string(),
        title: format!("T {id}"),
        severity,
        message: format!("M {id}"),
        details: Vec::new(),
    }
}

fn result(checks: Vec<CheckResult>) -> ScanResult {
    let counts = count_severities(&checks);
    let score = compute_score(&counts);
    ScanResult {
        metrics: RepoMetrics {
            root: "/repo".to_string(),
            total_files: 12,
            total_bytes: 1536,
            largest_files: vec![
                FileEntry { path: "a.bin".to_string(), bytes: 1024 },
                FileEntry { path: "b".to_string(), bytes: 5 },
            ],
            detected: vec!["node".to_string(), "rust".to_string()],
            score,
            counts,
        },
        checks,
    }
}

#[test]
fn severities_are_ordered() {
    let all = [Severity::Info, Severity::Warn, Severity::Error];
    for (i, a) in all.iter().enumerate() {
        assert_eq!(severity_rank(*a) as usize, i);
        for (j, b) in all.iter().enumerate() {
            assert_eq!(severity_ge(*a, *b), i >= j);
        }
    }
    assert_eq!(all.map(sev_tag), ["info", "warn", "error"]);
}

#[test]
fn score_has_exact_values() {
    let score = |warn, error| compute_score(&SeverityCounts { info: 3, warn, error });
    assert_eq!(score(0, 0), 100);
    assert_eq!(score(1, 0), 90);
    assert_eq!(score(2, 1), 55);
    assert_eq!(score(0, 4), 0);
    assert_eq!(score(1000, 1000), 0);
}

#[test]
fn failing_follows_the_threshold() {
    let info = [check("a", Severity::Info)];
    let warn = [check("a", Severity::Info), check("b", Severity::Warn)];
    let error = [check("b", Severity::Error)];
    for (checks, on_warn, on_error) in
        [(&info[..], false, false), (&warn[..], true, false), (&error[..], true, true), (&[][..], false, false)]
    {
        assert!(!should_fail(checks, FailOn::Off));
        assert_eq!(should_fail(checks, FailOn::Warn), on_warn);
        assert_eq!(should_fail(checks, FailOn::Error), on_error);
    }
}

#[test]
fn diff_names_regressions() {
    let base = result(vec![
        check("a", Severity::Info),
        check("b", Severity::Error),
        check("c", Severity::Warn),
        check("d", Severity::Error),
        check("d", Severity::Info),
    ]);
    let now = result(vec![
        check("a", Severity::Warn),
        check("b", Severity::Warn),
        check("c", Severity::Warn),
        check("d", Severity::Warn),
        check("e", Severity::Error),
        check("f", Severity::Info),
    ]);
    let d = compute_baseline_diff(&now, &base);
    assert_eq!(d.regressions, ["T a: info -> warn", "T d: info -> warn", "new error: T e"]);
    assert_eq!(d.baseline_score, 40);
    assert_eq!(d.score_delta, 35 - 40);
    assert_eq!(d.warn_delta, 3);
    assert_eq!(d.error_delta, -1);
    let back = compute_baseline_diff(&base, &now);
    assert_eq!(back.score_delta, 5);
    assert_eq!(back.warn_delta, -3);
}

#[test]
fn diff_with_itself_shows_no_change() {
    let r = result(vec![check("a", Severity::Warn), check("b", Severity::Error)]);
    let d = compute_baseline_diff(&r, &r.clone());
    assert_eq!((d.score_delta, d.warn_delta, d.error_delta), (0, 0, 0));
    assert!(d.regressions.is_empty());
}

#[test]
fn comparison_needs_counts_in_range() {
    let mut now = result(vec![check("a", Severity::Warn)]);
    let mut base = result(vec![check("a", Severity::Info)]);
    assert!(can_compare(&now, &base));
    now.metrics.counts.warn = i32::MAX as usize;
    assert!(can_compare(&now, &base));
    base.metrics.counts.warn = u32::MAX as usize;
    assert!(!can_compare(&now, &base));
    now.metrics.counts.warn = 7;
    assert!(can_compare(&now, &base));
    assert_eq!(compute_baseline_diff(&now, &base).warn_delta, 8);
    base.metrics.counts.error = 1 << 31;
    assert!(!can_compare(&now, &base));
}

#[test]
fn baseline_is_found_where_it_was_named() {
    assert_eq!(resolve_baseline(Some("x"), BASELINE_FILE, true), Some("x"));
    assert_eq!(resolve_baseline(Some("x"), BASELINE_FILE, false), Some("x"));
    assert_eq!(resolve_baseline(None, BASELINE_FILE, true), Some("repo-health-baseline.json"));
    assert_eq!(resolve_baseline(None, BASELINE_FILE, false), None);
    assert_eq!(locate(true, 1, 2), 1);
    assert_eq!(locate(false, 1, 2), 2);
}

#[test]
fn pretty_report_has_exact_text() {
    let mut c = check("b", Severity::Warn);
    c.details.push("one".to_string());
    let now = result(vec![check("a", Severity::Info), c]);
    let base = result(vec![check("a", Severity::Info)]);
    let d = compute_baseline_diff(&now, &base);
    let mut out = String::from(">");
    write_pretty(&mut out, &now, Some(&d));
    let expected = ">repo-health\n\
        root: /repo\n\
        files: 12 | size: 1.50 KB\n\
        score: 90 | checks: 2 (1 info, 1 warn, 0 error)\n\
        baseline: score 100 (delta -10), warn delta +1, error delta +0\n\
        \u{20} regression: new warn: T b\n\
        detected: node, rust\n\
        \n\
        largest files:\n\
        \u{20}    1.00 KB  a.bin\n\
        \u{20}        5 B  b\n\
        \n\
        checks:\n\
        \u{20} [info] T a - M a\n\
        \u{20} [warn] T b - M b\n\
        \u{20}      - one\n";
    assert_eq!(out, expected);
}

#[test]
fn pretty_report_cuts_regressions() {
    let base = result(Vec::new());
    let mut bare = result((0..9).map(|i| check(&format!("c{i}"), Severity::Warn)).collect());
    bare.metrics.detected.clear();
    bare.metrics.largest_files.clear();
    let d = compute_baseline_diff(&bare, &base);
    assert_eq!(d.regressions.len(), 9);
    let mut out = String::new();
    write_pretty(&mut out, &bare, Some(&d));
    assert!(out.contains("  regression: new warn: T c7\n  regression: …\n\nchecks:\n"));
    assert!(!out.contains("regression: new warn: T c8"));
    let mut out = String::new();
    write_pretty(&mut out, &base, None);
    assert!(!out.contains("baseline"));
}

#[test]
fn markdown_report_has_exact_text() {
    let mut c = check("b", Severity::Error);
    c.details.push("one".to_string());
    let now = result(vec![check("a", Severity::Info), c]);
    let d = compute_baseline_diff(&now, &now);
    let mut out = String::new();
    write_markdown(&mut out, &now, Some(&d));
    let expected = "# repo-health\n\
        \n\
        **Root:** `/repo`\n\
        \n\
        | Metric | Value |\n\
        |---|---:|\n\
        | Score | 75 |\n\
        | Files | 12 |\n\
        | Size | 1.50 KB |\n\
        | Checks | 2 (1 info, 0 warn, 1 error) |\n\
        | Detected | node, rust |\n\
        | Baseline | score 75 (delta +0), warn delta +0, error delta +0 |\n\
        \n\
        ## Largest files\n\
        \n\
        | Size | Path |\n\
        |---:|---|\n\
        | 1.00 KB | `a.bin` |\n\
        | 5 B | `b` |\n\
        \n\
        ## Checks\n\
        \n\
        - **[info] T a** - M a\n\
        - **[error] T b** - M b\n\
        \u{20} - one\n";
    assert_eq!(out, expected);
    let mut bare = now.clone();
    bare.metrics.detected.clear();
    bare.metrics.largest_files.clear();
    let mut out = String::new();
    write_markdown(&mut out, &bare, None);
    assert!(out.contains("error) |\n\n## Checks\n\n- "));
}

#[test]
fn report_follows_the_mode() {
    let r = result(vec![check("a", Severity::Info)]);
    let text = |mode| {
        let mut out = String::new();
        write_report(&mut out, mode, &r, None, "{json}");
        out
    };
    assert_eq!(text(Mode::Tui), "");
    assert_eq!(text(Mode::Json), "{json}");
    assert!(text(Mode::Pretty).starts_with("repo-health\n"));
    assert!(text(Mode::Md).starts_with("# repo-health\n"));
}

#[test]
fn root_must_be_a_directory() {
    assert_eq!(scan_root("x", Some("/a/x"), true).unwrap(), "/a/x");
    let e = scan_root("x", None, false).unwrap_err();
    assert!(matches!(e, ScanError::Unresolved(_)));
    assert_eq!(e.message(), "Cannot resolve path: x");
    let e = scan_root("x", Some("/a/x"), false).unwrap_err();
    assert!(matches!(e, ScanError::NotADirectory(_)));
    assert_eq!(e.message(), "Not a directory: /a/x");
}

fn entry(name: &str, size: u64) -> WalkEntry {
    WalkEntry { name: Some(name.to_string()), is_file: true, path: name.to_string(), size: Some(size) }
}

fn root_files() -> RootFiles {
    RootFiles {
        gitignore: Some("target\n".to_string()),
        package_json: Some("{}".to_string()),
        requirements: None,
        pyproject: None,
    }
}

#[test]
fn full_scan_has_five_checks() {
    let mut t = Tally::new();
    for (name, size) in [("package.json", 5), ("requirements.txt", 60 * 1024 * 1024), ("x.env", 7)] {
        assert!(t.observe(entry(name, size), 100));
    }
    let mut s = SecretScan::new();
    assert!(s.examine("k", Some(&format!("ghp_{}", "a".repeat(36)))));
    let r = scan_repo("/repo", t, &root_files(), s);
    let ids: Vec<&str> = r.checks.iter().map(|c| c.id.as_str()).collect();
    assert_eq!(ids, ["gitignore_env", "large_files", "node_scripts", "python_tooling", "secrets"]);
    let m = &r.metrics;
    assert_eq!(m.root, "/repo");
    assert_eq!(m.total_files, 3);
    assert_eq!(m.total_bytes, 60 * 1024 * 1024 + 12);
    assert_eq!(m.detected, ["node", "python"]);
    assert_eq!(m.counts, SeverityCounts { info: 0, warn: 4, error: 1 });
    assert_eq!(m.score, 35);
    assert_eq!(m.largest_files[0].path, "requirements.txt");
    assert_eq!(r.checks[1].details, ["requirements.txt (60.00 MB)"]);
    assert!(r.checks.iter().all(|c| !fix_hints_for_check(&c.id).is_empty()));
    assert!(should_fail(&r.checks, FailOn::Error));
}

#[test]
fn small_scan_has_three_checks() {
    let r = scan_repo("/repo", Tally::new(), &root_files(), SecretScan::new());
    assert_eq!(r.checks.len(), 3);
    assert_eq!(r.metrics.score, 100);
    assert_eq!(r.metrics.counts, SeverityCounts { info: 3, warn: 0, error: 0 });
    assert!(!should_fail(&r.checks, FailOn::Warn));
    let again = scan_repo("/repo", Tally::new(), &root_files(), SecretScan::new());
    let d = compute_baseline_diff(&again, &r);
    assert_eq!((d.score_delta, d.warn_delta, d.error_delta), (0, 0, 0));
    assert!(d.regressions.is_empty());
}
