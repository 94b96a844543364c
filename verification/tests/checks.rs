use repo_health::checks::{
    check_gitignore_env, check_large_files, check_node_scripts, check_python_tooling, fix_hints_for_check,
    gitignore_has_env_rule, node_scripts_result, python_tooling_result,
};
use repo_health::model::{FileEntry, Severity};

fn strings(items: &[&str]) -> Vec<String> {
    items.iter().map(|s| s.to_string()).collect()
}

#[test]
fn detects_gitignore_env_rule() {
    let text = r#"
        node_modules
        .env
        "#;
    assert!(gitignore_has_env_rule(text));
    assert!(!gitignore_has_env_rule("node_modules\n"));
}

#[test]
fn node_scripts_check_warns_on_missing() {
    let c = check_node_scripts(Some(
        r#"{"name":"x","scripts":{"lint":"eslint .","build":"vite build"}}"#,
    ));
    assert_eq!(c.severity, Severity::Warn);
}

#[test]
fn env_rules_take_several_forms() {
    for rule in [".env", "*.env", "config/.env", "/.env", "config/*.env", "\t.env\u{a0}", ".env\r"] {
        assert!(gitignore_has_env_rule(rule), "{rule:?}");
        assert!(gitignore_has_env_rule(&format!("a\r\n{rule}\r\nb")), "{rule:?}");
    }
    for rule in ["", "#.env", "# /.env", ".envrc", "x.env", "!.env", ".ENV", "env", ".env/"] {
        assert!(!gitignore_has_env_rule(rule), "{rule:?}");
    }
}

#[test]
fn env_rules_of_two_files_add_up() {
    assert!(gitignore_has_env_rule("target\n.env"));
    assert!(gitignore_has_env_rule(".env\ntarget"));
    assert!(!gitignore_has_env_rule(".en\nv"));
}

#[test]
fn gitignore_check_has_four_outcomes() {
    let c = check_gitignore_env(Some("target"), true);
    assert_eq!(c.id, "gitignore_env");
    assert_eq!(c.title, ".env ignored");
    assert_eq!(c.severity, Severity::Warn);
    assert_eq!(c.message, "Add .env to .gitignore to reduce secret leaks.");
    assert_eq!(
        c.details,
        ["Found .env-like files, but .gitignore does not include an .env rule."]
    );
    assert_eq!(check_gitignore_env(None, true).severity, Severity::Warn);

    let c = check_gitignore_env(Some(".env"), true);
    assert_eq!(c.severity, Severity::Info);
    assert_eq!(c.message, "Env files detected and ignored.");
    assert!(c.details.is_empty());

    let c = check_gitignore_env(Some(".env"), false);
    assert_eq!(c.severity, Severity::Info);
    assert_eq!(c.message, "No env files detected, but .gitignore contains env rules.");

    let c = check_gitignore_env(None, false);
    assert_eq!(c.severity, Severity::Info);
    assert_eq!(c.message, "No env files detected.");
}

#[test]
fn large_files_are_listed_with_sizes() {
    let files = vec![
        FileEntry { path: "a.bin".to_string(), bytes: 50 * 1024 * 1024 },
        FileEntry { path: "b.bin".to_string(), bytes: 50 * 1024 * 1024 - 1 },
        FileEntry { path: "c.bin".to_string(), bytes: 3 * 1024 * 1024 * 1024 },
    ];
    let c = check_large_files(&files);
    assert_eq!(c.severity, Severity::Warn);
    assert_eq!(c.message, "Very large files detected (>= 50MB).");
    assert_eq!(c.details, ["a.bin (50.00 MB)", "c.bin (3.00 GB)"]);

    let c = check_large_files(&files[1..2]);
    assert_eq!(c.severity, Severity::Info);
    assert_eq!(c.message, "No very large files in top list.");
    assert!(c.details.is_empty());
    assert_eq!(check_large_files(&[]).severity, Severity::Info);
}

#[test]
fn node_scripts_are_read_from_json() {
    let c = check_node_scripts(Some(r#"{"scripts":{"tsc":"tsc","lint":"l","build":"b"}}"#));
    assert_eq!(c.severity, Severity::Info);
    assert_eq!(c.message, "Found lint/build/typecheck scripts.");
    assert!(c.details.is_empty());

    let c = check_node_scripts(Some(r#"{"scripts":{"check-types":"x"}}"#));
    assert_eq!(c.details, ["Missing script: lint", "Missing script: build"]);

    let missing = [
        "Missing script: lint",
        "Missing script: build",
        "Missing script: typecheck (or check-types/tsc)",
    ];
    for text in ["{}", "[1]", "3", r#"{"scripts":["lint"]}"#, r#"{"lint":"x","build":"y"}"#] {
        let c = check_node_scripts(Some(text));
        assert_eq!(c.message, "Add missing scripts for consistent CI.", "{text}");
        assert_eq!(c.details, missing, "{text}");
    }
    for text in [None, Some(""), Some("{"), Some("not json")] {
        let c = check_node_scripts(text);
        assert_eq!(c.id, "node_scripts");
        assert_eq!(c.title, "Node scripts");
        assert_eq!(c.severity, Severity::Warn);
        assert_eq!(c.message, "package.json could not be parsed.");
        assert!(c.details.is_empty());
    }
}

#[test]
fn node_scripts_follow_names() {
    let c = node_scripts_result(Some(Some(strings(&["typecheck", "build"]))));
    assert_eq!(c.details, ["Missing script: lint"]);
    assert_eq!(c.severity, Severity::Warn);
    assert_eq!(node_scripts_result(Some(None)).details.len(), 3);
    assert_eq!(node_scripts_result(None).message, "package.json could not be parsed.");
}

#[test]
fn python_tools_are_searched_in_both_files() {
    let c = check_python_tooling(Some("Ruff==1\nMyPy\n"), Some("[Tool.Black]\n[tool.pytest.ini_options]\n"));
    assert_eq!(c.severity, Severity::Info);
    assert_eq!(c.message, "Python tooling detected.");
    assert!(c.details.is_empty());

    let c = check_python_tooling(None, None);
    assert_eq!(c.id, "python_tooling");
    assert_eq!(c.title, "Python tooling");
    assert_eq!(c.severity, Severity::Warn);
    assert_eq!(c.message, "Consider adding lint/format/typecheck/test tooling.");
    assert_eq!(c.details, ["Missing: black", "Missing: mypy", "Missing: pytest", "Missing: ruff"]);

    let c = check_python_tooling(Some("RUFF"), Some("black [tool.mypy]"));
    assert_eq!(c.details, ["Missing: black", "Missing: pytest"]);
    let c = check_python_tooling(Some("BLAC\u{212a}"), Some("[tool.pytest]"));
    assert_eq!(c.details, ["Missing: mypy", "Missing: ruff"]);
}

#[test]
fn python_tools_follow_lowered_texts() {
    let c = python_tooling_result(Some("RUFF black"), None);
    assert_eq!(c.details, ["Missing: mypy", "Missing: pytest", "Missing: ruff"]);
    let c = python_tooling_result(Some(""), Some("[tool.ruff][tool.black][tool.mypy][tool.pytest]"));
    assert_eq!(c.severity, Severity::Info);
}

#[test]
fn every_check_has_hints() {
    assert_eq!(
        fix_hints_for_check("gitignore_env"),
        [
            "Add `.env` (and optionally `*.env`) to `.gitignore`.",
            "If secrets were committed, rotate them and rewrite history if needed.",
        ]
    );
    assert_eq!(fix_hints_for_check("node_scripts").len(), 2);
    assert_eq!(
        fix_hints_for_check("python_tooling")[0],
        "Add ruff (lint+format), pytest (tests), and optionally mypy (typecheck)."
    );
    assert_eq!(fix_hints_for_check("large_files")[0], "Consider Git LFS for large binaries/assets.");
    assert_eq!(fix_hints_for_check("secrets").len(), 3);
    assert!(fix_hints_for_check("other").is_empty());
    assert!(fix_hints_for_check("").is_empty());
}
