//! The checks of a repository's contents.

use vstd::prelude::*;

use crate::model;
use crate::model::{CheckResult, CheckView, FileEntry, FileView, Severity};
use crate::size;
use crate::text;

verus! {

/// The size from which on a file is very large.
pub const VERY_LARGE: u64 = 52428800;

/// The outcome of a check.
pub open spec fn outcome(
    id: Seq<char>,
    title: Seq<char>,
    severity: Severity,
    message: Seq<char>,
    details: Seq<Seq<char>>,
) -> CheckView {
    CheckView { id, title, severity, message, details }
}

/// The positions from `a` to `b` are a line of `s`.
pub open spec fn is_line(s: Seq<char>, a: int, b: int) -> bool {
    &&& 0 <= a <= b <= s.len()
    &&& a == 0 || s[a - 1] == '\n'
    &&& b == s.len() || s[b] == '\n'
    &&& forall|k: int| a <= k < b ==> #[trigger] s[k] != '\n'
}

/// A line of an ignore file, without surrounding white space, that is no
/// comment and names environment files.
pub open spec fn is_env_rule(line: Seq<char>) -> bool {
    &&& line.len() > 0
    &&& line[0] != '#'
    &&& {
        ||| line == ".env"@
        ||| line == "*.env"@
        ||| text::ends_with(line, "/.env"@)
        ||| text::ends_with(line, "/*.env"@)
    }
}

/// Some line of an ignore file names environment files.
pub open spec fn has_env_rule(contents: Seq<char>) -> bool {
    exists|a: int, b: int| #[trigger]
        is_line(contents, a, b) && is_env_rule(text::trim(contents.subrange(a, b)))
}

/// The outcome of the check on environment files, for an ignore file that may
/// be absent.
pub open spec fn gitignore_env(gitignore: Option<Seq<char>>, saw_env_file: bool) -> CheckView {
    let ignored = match gitignore {
        Some(s) => has_env_rule(s),
        None => false,
    };
    let unprotected = saw_env_file && !ignored;
    outcome(
        "gitignore_env"@,
        ".env ignored"@,
        if unprotected {
            Severity::Warn
        } else {
            Severity::Info
        },
        if unprotected {
            "Add .env to .gitignore to reduce secret leaks."@
        } else if saw_env_file {
            "Env files detected and ignored."@
        } else if ignored {
            "No env files detected, but .gitignore contains env rules."@
        } else {
            "No env files detected."@
        },
        if unprotected {
            seq!["Found .env-like files, but .gitignore does not include an .env rule."@]
        } else {
            seq![]
        },
    )
}

/// The texts on the very large files among `files`.
pub open spec fn very_large(files: Seq<FileView>) -> Seq<Seq<char>>
    decreases files.len(),
{
    if files.len() == 0 {
        seq![]
    } else {
        let front = very_large(files.drop_last());
        let f = files.last();
        if f.bytes >= VERY_LARGE {
            front.push(f.path + " ("@ + size::size_text(f.bytes as nat) + ")"@)
        } else {
            front
        }
    }
}

/// The outcome of the check on large files.
pub open spec fn large_files(largest: Seq<FileView>) -> CheckView {
    let details = very_large(largest);
    outcome(
        "large_files"@,
        "Large files"@,
        if details.len() == 0 {
            Severity::Info
        } else {
            Severity::Warn
        },
        if details.len() == 0 {
            "No very large files in top list."@
        } else {
            "Very large files detected (>= 50MB)."@
        },
        details,
    )
}

/// What is missing among the scripts of a Node package with these names.
pub open spec fn missing_scripts(names: Seq<Seq<char>>) -> Seq<Seq<char>> {
    (if names.contains("lint"@) {
        seq![]
    } else {
        seq!["Missing script: lint"@]
    }) + (if names.contains("build"@) {
        seq![]
    } else {
        seq!["Missing script: build"@]
    }) + (if names.contains("typecheck"@) || names.contains("check-types"@) || names.contains("tsc"@) {
        seq![]
    } else {
        seq!["Missing script: typecheck (or check-types/tsc)"@]
    })
}

/// The outcome of the check on Node scripts. `scripts` is `None` where the
/// package file is absent or no JSON; else it holds the names of the scripts,
/// if there are any.
pub open spec fn node_scripts(scripts: Option<Option<Seq<Seq<char>>>>) -> CheckView {
    match scripts {
        None => outcome(
            "node_scripts"@,
            "Node scripts"@,
            Severity::Warn,
            "package.json could not be parsed."@,
            seq![],
        ),
        Some(names) => {
            let details = missing_scripts(
                match names {
                    Some(n) => n,
                    None => seq![],
                },
            );
            outcome(
                "node_scripts"@,
                "Node scripts"@,
                if details.len() == 0 {
                    Severity::Info
                } else {
                    Severity::Warn
                },
                if details.len() == 0 {
                    "Found lint/build/typecheck scripts."@
                } else {
                    "Add missing scripts for consistent CI."@
                },
                details,
            )
        },
    }
}

/// The text holds `part`; an absent text holds nothing.
pub open spec fn mentions(contents: Option<Seq<char>>, part: Seq<char>) -> bool {
    match contents {
        Some(s) => text::contains_text(s, part),
        None => false,
    }
}

/// The line on a tool; none where it was found.
pub open spec fn missing_tool(found: bool, line: Seq<char>) -> Seq<Seq<char>> {
    if found {
        seq![]
    } else {
        seq![line]
    }
}

/// The Python tools that neither file, both in lower case, mentions.
pub open spec fn missing_tools(
    requirements: Option<Seq<char>>,
    pyproject: Option<Seq<char>>,
) -> Seq<Seq<char>> {
    missing_tool(
        mentions(requirements, "black"@) || mentions(pyproject, "[tool.black]"@),
        "Missing: black"@,
    ) + missing_tool(
        mentions(requirements, "mypy"@) || mentions(pyproject, "[tool.mypy]"@),
        "Missing: mypy"@,
    ) + missing_tool(
        mentions(requirements, "pytest"@) || mentions(pyproject, "[tool.pytest]"@) || mentions(
            pyproject,
            "[tool.pytest.ini_options]"@,
        ),
        "Missing: pytest"@,
    ) + missing_tool(
        mentions(requirements, "ruff"@) || mentions(pyproject, "[tool.ruff]"@),
        "Missing: ruff"@,
    )
}

/// The outcome of the check on Python tools, for the two files in lower case.
pub open spec fn python_tooling(
    requirements: Option<Seq<char>>,
    pyproject: Option<Seq<char>>,
) -> CheckView {
    let details = missing_tools(requirements, pyproject);
    outcome(
        "python_tooling"@,
        "Python tooling"@,
        if details.len() == 0 {
            Severity::Info
        } else {
            Severity::Warn
        },
        if details.len() == 0 {
            "Python tooling detected."@
        } else {
            "Consider adding lint/format/typecheck/test tooling."@
        },
        details,
    )
}

/// A text that may be absent, in lower case.
pub open spec fn opt_lowercase(o: Option<Seq<char>>) -> Option<Seq<char>> {
    match o {
        Some(s) => Some(text::unicode_lowercase(s)),
        None => None,
    }
}

/// A text that may be absent, with its ASCII letters in lower case.
pub open spec fn opt_ascii_lowercase(o: Option<Seq<char>>) -> Option<Seq<char>> {
    match o {
        Some(s) => Some(s.map_values(|c: char| text::ascii_lower(c))),
        None => None,
    }
}

/// A text that may be absent holds ASCII characters only.
pub open spec fn opt_is_ascii(o: Option<Seq<char>>) -> bool {
    match o {
        Some(s) => vstd::utf8::is_ascii_chars(s),
        None => true,
    }
}

/// What can be done about a check that did not come out well.
pub open spec fn fix_hints(id: Seq<char>) -> Seq<Seq<char>> {
    if id == "gitignore_env"@ {
        seq![
            "Add `.env` (and optionally `*.env`) to `.gitignore`."@,
            "If secrets were committed, rotate them and rewrite history if needed."@,
        ]
    } else if id == "node_scripts"@ {
        seq![
            "Add scripts: `lint`, `build`, and `typecheck` (or `tsc`)."@,
            "Run them in CI for consistent quality gates."@,
        ]
    } else if id == "python_tooling"@ {
        seq![
            "Add ruff (lint+format), pytest (tests), and optionally mypy (typecheck)."@,
            "Expose `lint`/`test` commands so CI can run them."@,
        ]
    } else if id == "large_files"@ {
        seq![
            "Consider Git LFS for large binaries/assets."@,
            "Move generated artifacts out of the repo (build outputs, caches)."@,
        ]
    } else if id == "secrets"@ {
        seq![
            "Treat matches as leaks until proven otherwise."@,
            "Rotate keys/tokens and move them to env/secret manager."@,
            "Remove secrets from git history if they were committed."@,
        ]
    } else {
        seq![]
    }
}

/// The outcome of a check.
pub fn new_check(id: &str, title: &str, severity: Severity, message: &str, details: Vec<String>) -> (c:
    CheckResult)
    ensures
        c@ == outcome(id@, title@, severity, message@, text::texts(details@)),
{
    CheckResult {
        id: id.to_owned(),
        title: title.to_owned(),
        severity,
        message: message.to_owned(),
        details,
    }
}

/// The characters from `a` to `b` without surrounding white space.
fn trimmed(s: &Vec<char>, a: usize, b: usize) -> (r: Vec<char>)
    requires
        a <= b <= s@.len(),
    ensures
        r@ == text::trim(s@.subrange(a as int, b as int)),
{
    let ghost line = s@.subrange(a as int, b as int);
    let mut i: usize = a;
    while i < b && text::char_is_white_space(s[i])
        invariant
            a <= i <= b <= s@.len(),
            text::trim_start(s@.subrange(i as int, b as int)) == text::trim_start(line),
        decreases b - i,
    {
        proof {
            let rest = s@.subrange(i as int, b as int);
            assert(rest[0] == s@[i as int]);
            assert(rest.skip(1) =~= s@.subrange(i + 1, b as int));
        }
        i += 1;
    }
    let ghost started = s@.subrange(i as int, b as int);
    assert(text::trim_start(line) == started) by {
        if i < b {
            assert(started[0] == s@[i as int]);
        }
    }
    let mut j: usize = b;
    while j > i && text::char_is_white_space(s[j - 1])
        invariant
            i <= j <= b <= s@.len(),
            text::trim_end(s@.subrange(i as int, j as int)) == text::trim_end(started),
        decreases j,
    {
        proof {
            let rest = s@.subrange(i as int, j as int);
            assert(rest.last() == s@[j - 1]);
            assert(rest.drop_last() =~= s@.subrange(i as int, j - 1));
        }
        j -= 1;
    }
    assert(text::trim_end(started) == s@.subrange(i as int, j as int)) by {
        if i < j {
            assert(s@.subrange(i as int, j as int).last() == s@[j - 1]);
        }
    }
    let mut r: Vec<char> = Vec::new();
    let mut k: usize = i;
    while k < j
        invariant
            i <= k <= j <= s@.len(),
            r@ == s@.subrange(i as int, k as int),
        decreases j - k,
    {
        r.push(s[k]);
        assert(s@.subrange(i as int, k + 1) =~= s@.subrange(i as int, k as int).push(s@[k as int]));
        k += 1;
    }
    r
}

/// Whether the characters are those of `t`.
fn chars_are(s: &Vec<char>, t: &str) -> (r: bool)
    ensures
        r == (s@ == t@),
{
    let t = text::chars_of(t);
    if s.len() != t.len() {
        return false;
    }
    assert(s@.skip(s@.len() - t@.len()) =~= s@);
    text::chars_end_with(s, &t)
}

/// Whether a line of an ignore file names environment files.
fn line_is_env_rule(line: &Vec<char>) -> (r: bool)
    ensures
        r == is_env_rule(line@),
{
    if line.len() == 0 || line[0] == '#' {
        return false;
    }
    chars_are(line, ".env") || chars_are(line, "*.env") || text::chars_end_with(
        line,
        &text::chars_of("/.env"),
    ) || text::chars_end_with(line, &text::chars_of("/*.env"))
}

/// Whether an ignore file names environment files.
pub fn gitignore_has_env_rule(contents: &str) -> (r: bool)
    ensures
        r == has_env_rule(contents@),
{
    let s = text::chars_of(contents);
    let mut a: usize = 0;
    let mut b: usize = 0;
    loop
        invariant_except_break
            s@ == contents@,
            a <= b <= s@.len(),
            a == 0 || s@[a - 1] == '\n',
            forall|k: int| a <= k < b ==> #[trigger] s@[k] != '\n',
            forall|x: int, y: int| #[trigger]
                is_line(s@, x, y) && x < a ==> !is_env_rule(text::trim(s@.subrange(x, y))),
        ensures
            !has_env_rule(contents@),
        decreases s@.len() - b,
    {
        if b == s.len() || s[b] == '\n' {
            let line = trimmed(&s, a, b);
            assert(is_line(s@, a as int, b as int));
            if line_is_env_rule(&line) {
                return true;
            }
            proof {
                assert forall|x: int, y: int| #[trigger] is_line(s@, x, y) && x <= b implies !is_env_rule(
                    text::trim(s@.subrange(x, y)),
                ) by {
                    if x == a {
                        if y < b {
                            assert(s@[y] != '\n');
                        } else if y > b {
                            assert(s@[b as int] != '\n');
                        }
                        assert(y == b);
                    } else if x > a {
                        assert(s@[x - 1] != '\n');
                    }
                }
            }
            if b == s.len() {
                break;
            }
            a = b + 1;
        }
        b += 1;
    }
    false
}

/// The check on environment files, for an ignore file that may be absent.
pub fn check_gitignore_env(gitignore: Option<&str>, saw_env_file: bool) -> (c: CheckResult)
    ensures
        c@ == gitignore_env(model::opt_text(gitignore), saw_env_file),
{
    let ignored = match gitignore {
        Some(s) => gitignore_has_env_rule(s),
        None => false,
    };
    let mut details: Vec<String> = Vec::new();
    if saw_env_file && !ignored {
        details.push(
            "Found .env-like files, but .gitignore does not include an .env rule.".to_owned(),
        );
        let c = new_check(
            "gitignore_env",
            ".env ignored",
            Severity::Warn,
            "Add .env to .gitignore to reduce secret leaks.",
            details,
        );
        assert(c@ =~= gitignore_env(model::opt_text(gitignore), saw_env_file));
        return c;
    }
    let message = if saw_env_file {
        "Env files detected and ignored."
    } else if ignored {
        "No env files detected, but .gitignore contains env rules."
    } else {
        "No env files detected."
    };
    let c = new_check("gitignore_env", ".env ignored", Severity::Info, message, details);
    assert(c@ =~= gitignore_env(model::opt_text(gitignore), saw_env_file));
    c
}

/// The check on large files.
pub fn check_large_files(largest: &[FileEntry]) -> (c: CheckResult)
    ensures
        c@ == large_files(model::files_view(largest@)),
{
    let mut details: Vec<String> = Vec::new();
    let ghost all = model::files_view(largest@);
    let mut i: usize = 0;
    assert(all.take(0) =~= seq![]);
    assert(text::texts(details@) =~= very_large(all.take(0)));
    while i < largest.len()
        invariant
            all == model::files_view(largest@),
            i <= largest@.len(),
            text::texts(details@) == very_large(all.take(i as int)),
        decreases largest@.len() - i,
    {
        let f = &largest[i];
        assert(all.take(i + 1).drop_last() =~= all.take(i as int));
        if f.bytes >= VERY_LARGE {
            let mut s = f.path.clone();
            s.append(" (");
            let n = size::format_bytes(f.bytes);
            s.append(n.as_str());
            s.append(")");
            let ghost before = details@;
            details.push(s);
            assert(text::texts(details@) =~= text::texts(before).push(s@));
        }
        i += 1;
    }
    assert(all.take(i as int) =~= all);
    assert(text::texts(details@).len() == details@.len());
    let severity = if details.len() == 0 { Severity::Info } else { Severity::Warn };
    let message = if details.len() == 0 {
        "No very large files in top list."
    } else {
        "Very large files detected (>= 50MB)."
    };
    new_check("large_files", "Large files", severity, message, details)
}

/// The names of the members of the object that stands in the JSON text `json`
/// under the name `member`: `None` where the text is no JSON, `Some(None)`
/// where the top value has no such member or it is no object.
pub uninterp spec fn json_member_names(json: Seq<char>, member: Seq<char>) -> Option<
    Option<Seq<Seq<char>>>,
>;

/// The view of a list of names that may be absent.
pub open spec fn names_view(names: Option<Option<Vec<String>>>) -> Option<Option<Seq<Seq<char>>>> {
    match names {
        None => None,
        Some(None) => Some(None),
        Some(Some(v)) => Some(Some(text::texts(v@))),
    }
}

/// Parses a text by `serde_json::from_str` and reads the result by
/// `Value::get`, `Value::as_object` and `Map::keys`. What they give depends on
/// the text and the name alone.
#[verifier::external_body]
fn member_names(json: &str, member: &str) -> (r: Option<Option<Vec<String>>>)
    ensures
        names_view(r) == json_member_names(json@, member@),
{
    let value: serde_json::Value = serde_json::from_str(json).ok()?;
    Some(value.get(member).and_then(|m| m.as_object()).map(|m| m.keys().cloned().collect()))
}

/// Whether `name` is in the list.
fn has_name(names: &Vec<String>, name: &str) -> (r: bool)
    ensures
        r == text::texts(names@).contains(name@),
{
    let ghost all = text::texts(names@);
    let mut i: usize = 0;
    while i < names.len()
        invariant
            all == text::texts(names@),
            i <= names@.len(),
            forall|j: int| 0 <= j < i ==> all[j] != name@,
        decreases names@.len() - i,
    {
        if text::same_text(names[i].as_str(), name) {
            assert(all[i as int] == name@);
            return true;
        }
        i += 1;
    }
    false
}

/// The check on Node scripts, for the names of the scripts: `None` where the
/// package file is absent or no JSON, `Some(None)` where it has no scripts.
pub fn node_scripts_result(scripts: Option<Option<Vec<String>>>) -> (c: CheckResult)
    ensures
        c@ == node_scripts(names_view(scripts)),
{
    let mut details: Vec<String> = Vec::new();
    let names = match scripts {
        None => {
            let c = new_check(
                "node_scripts",
                "Node scripts",
                Severity::Warn,
                "package.json could not be parsed.",
                details,
            );
            assert(c@ =~= node_scripts(names_view(scripts)));
            return c;
        },
        Some(Some(n)) => n,
        Some(None) => Vec::new(),
    };
    let ghost all = text::texts(names@);
    assert(names_view(scripts) == Some(None::<Seq<Seq<char>>>) ==> all =~= seq![]);
    let has_lint = has_name(&names, "lint");
    let has_build = has_name(&names, "build");
    let has_typecheck = has_name(&names, "typecheck") || has_name(&names, "check-types") || has_name(
        &names,
        "tsc",
    );
    if !has_lint {
        details.push("Missing script: lint".to_owned());
    }
    if !has_build {
        details.push("Missing script: build".to_owned());
    }
    if !has_typecheck {
        details.push("Missing script: typecheck (or check-types/tsc)".to_owned());
    }
    assert(text::texts(details@) =~= missing_scripts(all));
    assert(text::texts(details@).len() == details@.len());
    let severity = if details.len() == 0 { Severity::Info } else { Severity::Warn };
    let message = if details.len() == 0 {
        "Found lint/build/typecheck scripts."
    } else {
        "Add missing scripts for consistent CI."
    };
    new_check("node_scripts", "Node scripts", severity, message, details)
}

/// The check on Node scripts, for a package file that may be absent.
pub fn check_node_scripts(package_json: Option<&str>) -> (c: CheckResult)
    ensures
        c@ == node_scripts(
            match package_json {
                Some(s) => json_member_names(s@, "scripts"@),
                None => None,
            },
        ),
{
    let scripts = match package_json {
        Some(s) => member_names(s, "scripts"),
        None => None,
    };
    node_scripts_result(scripts)
}

/// Whether a text that may be absent holds `part`.
fn text_mentions(contents: Option<&str>, part: &str) -> (r: bool)
    ensures
        r == mentions(model::opt_text(contents), part@),
{
    match contents {
        Some(s) => text::text_contains(s, part),
        None => false,
    }
}

/// The check on Python tools, for the two files in lower case.
pub fn python_tooling_result(requirements: Option<&str>, pyproject: Option<&str>) -> (c: CheckResult)
    ensures
        c@ == python_tooling(model::opt_text(requirements), model::opt_text(pyproject)),
{
    let black = text_mentions(requirements, "black") || text_mentions(pyproject, "[tool.black]");
    let mypy = text_mentions(requirements, "mypy") || text_mentions(pyproject, "[tool.mypy]");
    let pytest = text_mentions(requirements, "pytest") || text_mentions(pyproject, "[tool.pytest]")
        || text_mentions(pyproject, "[tool.pytest.ini_options]");
    let ruff = text_mentions(requirements, "ruff") || text_mentions(pyproject, "[tool.ruff]");
    let mut details: Vec<String> = Vec::new();
    if !black {
        details.push("Missing: black".to_owned());
    }
    if !mypy {
        details.push("Missing: mypy".to_owned());
    }
    if !pytest {
        details.push("Missing: pytest".to_owned());
    }
    if !ruff {
        details.push("Missing: ruff".to_owned());
    }
    assert(text::texts(details@) =~= missing_tools(
        model::opt_text(requirements),
        model::opt_text(pyproject),
    ));
    assert(text::texts(details@).len() == details@.len());
    let severity = if details.len() == 0 { Severity::Info } else { Severity::Warn };
    let message = if details.len() == 0 {
        "Python tooling detected."
    } else {
        "Consider adding lint/format/typecheck/test tooling."
    };
    new_check("python_tooling", "Python tooling", severity, message, details)
}

/// A text that may be absent, in lower case.
fn opt_lowercase_text(o: Option<&str>) -> (r: Option<String>)
    ensures
        match r {
            Some(s) => opt_lowercase(model::opt_text(o)) == Some(s@),
            None => o is None,
        },
        opt_is_ascii(model::opt_text(o)) ==> opt_lowercase(model::opt_text(o)) == opt_ascii_lowercase(
            model::opt_text(o),
        ),
{
    match o {
        Some(s) => Some(text::lowercase_text(s)),
        None => None,
    }
}

/// The check on Python tools, for a requirements file and a project file that
/// may each be absent.
pub fn check_python_tooling(requirements: Option<&str>, pyproject: Option<&str>) -> (c: CheckResult)
    ensures
        c@ == python_tooling(
            opt_lowercase(model::opt_text(requirements)),
            opt_lowercase(model::opt_text(pyproject)),
        ),
        opt_is_ascii(model::opt_text(requirements)) && opt_is_ascii(model::opt_text(pyproject)) ==> c@
            == python_tooling(
            opt_ascii_lowercase(model::opt_text(requirements)),
            opt_ascii_lowercase(model::opt_text(pyproject)),
        ),
{
    let requirements = opt_lowercase_text(requirements);
    let pyproject = opt_lowercase_text(pyproject);
    let a = match &requirements {
        Some(s) => Some(s.as_str()),
        None => None,
    };
    let b = match &pyproject {
        Some(s) => Some(s.as_str()),
        None => None,
    };
    python_tooling_result(a, b)
}

/// What can be done about a check that did not come out well.
pub fn fix_hints_for_check(id: &str) -> (r: Vec<String>)
    ensures
        text::texts(r@) == fix_hints(id@),
{
    let mut r: Vec<String> = Vec::new();
    if text::same_text(id, "gitignore_env") {
        r.push("Add `.env` (and optionally `*.env`) to `.gitignore`.".to_owned());
        r.push("If secrets were committed, rotate them and rewrite history if needed.".to_owned());
    } else if text::same_text(id, "node_scripts") {
        r.push("Add scripts: `lint`, `build`, and `typecheck` (or `tsc`).".to_owned());
        r.push("Run them in CI for consistent quality gates.".to_owned());
    } else if text::same_text(id, "python_tooling") {
        r.push("Add ruff (lint+format), pytest (tests), and optionally mypy (typecheck).".to_owned());
        r.push("Expose `lint`/`test` commands so CI can run them.".to_owned());
    } else if text::same_text(id, "large_files") {
        r.push("Consider Git LFS for large binaries/assets.".to_owned());
        r.push("Move generated artifacts out of the repo (build outputs, caches).".to_owned());
    } else if text::same_text(id, "secrets") {
        r.push("Treat matches as leaks until proven otherwise.".to_owned());
        r.push("Rotate keys/tokens and move them to env/secret manager.".to_owned());
        r.push("Remove secrets from git history if they were committed.".to_owned());
    }
    assert(text::texts(r@) =~= fix_hints(id@));
    r
}

/// Lines of an ignore file count each for itself: two files put together name
/// environment files exactly when one of them does.
pub proof fn env_rules_add_up(a: Seq<char>, b: Seq<char>)
    ensures
        has_env_rule(a + "\n"@ + b) == (has_env_rule(a) || has_env_rule(b)),
{
    reveal_strlit("\n");
    let s = a + "\n"@ + b;
    let n = a.len() as int;
    assert(s[n] == '\n');
    assert(forall|k: int| 0 <= k < n ==> s[k] == a[k]);
    assert(forall|k: int| 0 <= k < b.len() ==> s[n + 1 + k] == b[k]);
    if has_env_rule(a) {
        let (x, y) = choose|x: int, y: int| #[trigger]
            is_line(a, x, y) && is_env_rule(text::trim(a.subrange(x, y)));
        assert(is_line(s, x, y));
        assert(s.subrange(x, y) =~= a.subrange(x, y));
    }
    if has_env_rule(b) {
        let (x, y) = choose|x: int, y: int| #[trigger]
            is_line(b, x, y) && is_env_rule(text::trim(b.subrange(x, y)));
        assert forall|k: int| n + 1 + x <= k < n + 1 + y implies #[trigger] s[k] != '\n' by {
            assert(s[k] == b[k - n - 1]);
        }
        assert(is_line(s, n + 1 + x, n + 1 + y));
        assert(s.subrange(n + 1 + x, n + 1 + y) =~= b.subrange(x, y));
    }
    if has_env_rule(s) {
        let (x, y) = choose|x: int, y: int| #[trigger]
            is_line(s, x, y) && is_env_rule(text::trim(s.subrange(x, y)));
        if y <= n {
            assert forall|k: int| x <= k < y implies #[trigger] a[k] != '\n' by {
                assert(s[k] != '\n');
            }
            assert(is_line(a, x, y));
            assert(s.subrange(x, y) =~= a.subrange(x, y));
        } else {
            assert(x > n) by {
                if x <= n {
                    assert(s[n] != '\n');
                }
            }
            assert forall|k: int| x - n - 1 <= k < y - n - 1 implies #[trigger] b[k] != '\n' by {
                assert(s[n + 1 + k] != '\n');
            }
            assert(is_line(b, x - n - 1, y - n - 1));
            assert(s.subrange(x, y) =~= b.subrange(x - n - 1, y - n - 1));
        }
    }
}

/// Environment files are warned of exactly when one was seen and no rule of an
/// ignore file names such files.
pub proof fn env_warning_means_unprotected(gitignore: Option<Seq<char>>, saw_env_file: bool)
    ensures
        gitignore_env(gitignore, saw_env_file).severity == Severity::Warn <==> saw_env_file && !(
        gitignore matches Some(s) && has_env_rule(s)),
{
}

/// A check on contents comes out harmless exactly when it has no details to give.
pub proof fn warnings_have_details(
    gitignore: Option<Seq<char>>,
    saw_env_file: bool,
    largest: Seq<FileView>,
    names: Option<Seq<Seq<char>>>,
    requirements: Option<Seq<char>>,
    pyproject: Option<Seq<char>>,
)
    ensures
        has_details_iff_warning(gitignore_env(gitignore, saw_env_file)),
        has_details_iff_warning(large_files(largest)),
        has_details_iff_warning(node_scripts(Some(names))),
        has_details_iff_warning(python_tooling(requirements, pyproject)),
{
}

/// The check came out harmless without details, or as a warning with details.
pub open spec fn has_details_iff_warning(c: CheckView) -> bool {
    if c.details.len() == 0 {
        c.severity == Severity::Info
    } else {
        c.severity == Severity::Warn
    }
}

/// A line of an ignore file names environment files exactly when it is `.env` or
/// `*.env`, alone or behind a folder and a `/`, and no comment.
pub proof fn env_rule_forms(line: Seq<char>)
    ensures
        is_env_rule(line) <==> {
            &&& line.len() > 0 && line[0] != '#'
            &&& {
                ||| line == ".env"@
                ||| line == "*.env"@
                ||| exists|folder: Seq<char>| line == #[trigger] (folder + "/.env"@)
                ||| exists|folder: Seq<char>| line == #[trigger] (folder + "/*.env"@)
            }
        },
{
    text::ending_is_what_stands_last(line, "/.env"@);
    text::ending_is_what_stands_last(line, "/*.env"@);
}

/// An ignore file of one line names environment files exactly when that line
/// does, whatever white space stands round it.
pub proof fn single_line_is_trimmed(before: Seq<char>, rule: Seq<char>, after: Seq<char>)
    requires
        text::is_blank(before),
        text::is_blank(after),
        !before.contains('\n') && !rule.contains('\n') && !after.contains('\n'),
        rule.len() > 0 ==> !text::is_white_space(rule[0]) && !text::is_white_space(rule.last()),
    ensures
        has_env_rule(before + rule + after) == is_env_rule(rule),
{
    let s = before + rule + after;
    text::trim_leaves_core(before, rule, after);
    assert forall|k: int| 0 <= k < s.len() implies #[trigger] s[k] != '\n' by {
        if k < before.len() {
            assert(s[k] == before[k]);
        } else if k < before.len() + rule.len() {
            assert(s[k] == rule[k - before.len()]);
        } else {
            assert(s[k] == after[k - before.len() - rule.len()]);
        }
    }
    assert(s.subrange(0, s.len() as int) =~= s);
    if is_env_rule(rule) {
        assert(is_line(s, 0, s.len() as int));
    }
    if has_env_rule(s) {
        let (a, b) = choose|a: int, b: int| #[trigger]
            is_line(s, a, b) && is_env_rule(text::trim(s.subrange(a, b)));
        assert(a == 0 && b == s.len()) by {
            if a > 0 {
                assert(s[a - 1] == '\n');
            }
            if b < s.len() {
                assert(s[b] == '\n');
            }
        }
    }
}

/// The check on environment files, in all four cases: whether such a file was
/// seen, and whether the ignore file names them.
pub proof fn env_check_has_four_outcomes(gitignore: Option<Seq<char>>, saw_env_file: bool)
    ensures
        ({
            let c = gitignore_env(gitignore, saw_env_file);
            let named = gitignore is Some && has_env_rule(gitignore->0);
            &&& c.id == "gitignore_env"@ && c.title == ".env ignored"@
            &&& saw_env_file && !named ==> {
                &&& c.severity is Warn
                &&& c.message == "Add .env to .gitignore to reduce secret leaks."@
                &&& c.details.len() == 1
                &&& c.details[0] == "Found .env-like files, but .gitignore does not include an .env rule."@
            }
            &&& !saw_env_file || named ==> c.severity is Info && c.details.len() == 0
            &&& saw_env_file && named ==> c.message == "Env files detected and ignored."@
            &&& !saw_env_file && named ==> c.message
                == "No env files detected, but .gitignore contains env rules."@
            &&& !saw_env_file && !named ==> c.message == "No env files detected."@
        }),
{
}

/// Files are judged each for itself and in their order.
pub proof fn large_files_add_up(a: Seq<FileView>, b: Seq<FileView>)
    ensures
        very_large(Seq::empty()).len() == 0,
        very_large(a + b) == very_large(a) + very_large(b),
    decreases b.len(),
{
    if b.len() == 0 {
        assert(a + b =~= a);
        assert(very_large(a) + very_large(b) =~= very_large(a));
    } else {
        assert((a + b).drop_last() =~= a + b.drop_last());
        large_files_add_up(a, b.drop_last());
        assert(very_large(a + b) =~= very_large(a) + very_large(b));
    }
}

/// A file is named, with its size, exactly when it has fifty megabytes or more.
pub proof fn fifty_megabytes_are_very_large(f: FileView)
    ensures
        f.bytes >= 50 * 1024 * 1024 ==> very_large(seq![f]) == seq![
            f.path + " ("@ + size::size_text(f.bytes as nat) + ")"@,
        ],
        f.bytes < 50 * 1024 * 1024 ==> very_large(seq![f]).len() == 0,
{
    assert(seq![f].drop_last() =~= seq![]);
    assert(very_large(seq![]) =~= seq![]);
}

/// Every file of the list that has fifty megabytes or more is named, and then
/// the check is a warning.
pub proof fn every_very_large_file_is_named(files: Seq<FileView>, i: int)
    requires
        0 <= i < files.len(),
        files[i].bytes >= 50 * 1024 * 1024,
    ensures
        large_files(files).details.contains(
            files[i].path + " ("@ + size::size_text(files[i].bytes as nat) + ")"@,
        ),
        large_files(files).severity is Warn,
{
    let before = files.take(i);
    let after = files.skip(i + 1);
    let f = files[i];
    assert(files =~= before + seq![f] + after);
    large_files_add_up(before + seq![f], after);
    large_files_add_up(before, seq![f]);
    fifty_megabytes_are_very_large(f);
    let n = very_large(before).len() as int;
    assert(very_large(files)[n] == f.path + " ("@ + size::size_text(f.bytes as nat) + ")"@);
}

/// The check on large files is harmless exactly when no file is named.
pub proof fn large_file_check_has_two_outcomes(files: Seq<FileView>)
    ensures
        ({
            let c = large_files(files);
            &&& c.id == "large_files"@ && c.title == "Large files"@
            &&& c.details == very_large(files)
            &&& c.details.len() == 0 ==> c.severity is Info && c.message == "No very large files in top list."@
            &&& c.details.len() > 0 ==> c.severity is Warn && c.message
                == "Very large files detected (>= 50MB)."@
        }),
{
}

/// A package is asked for the scripts `lint`, `build` and one of `typecheck`,
/// `check-types` and `tsc`. What it lacks is named, in this order, and what it
/// has is not; it is harmless exactly when it lacks none. A package without
/// scripts lacks all; a package file that is absent or no JSON is a warning.
pub proof fn missing_scripts_are_named(names: Seq<Seq<char>>)
    ensures
        ({
            let c = node_scripts(Some(Some(names)));
            let lint: int = if names.contains("lint"@) { 0 } else { 1 };
            let build: int = if names.contains("build"@) { 0 } else { 1 };
            let types: int = if names.contains("typecheck"@) || names.contains("check-types"@)
                || names.contains("tsc"@) { 0 } else { 1 };
            &&& c.id == "node_scripts"@ && c.title == "Node scripts"@
            &&& c.details.len() == lint + build + types
            &&& lint == 1 ==> c.details[0] == "Missing script: lint"@
            &&& build == 1 ==> c.details[lint] == "Missing script: build"@
            &&& types == 1 ==> c.details[lint + build] == "Missing script: typecheck (or check-types/tsc)"@
            &&& lint + build + types == 0 ==> c.severity is Info && c.message
                == "Found lint/build/typecheck scripts."@
            &&& lint + build + types > 0 ==> c.severity is Warn && c.message
                == "Add missing scripts for consistent CI."@
        }),
        node_scripts(Some(None)) == node_scripts(Some(Some(Seq::empty()))),
        ({
            let c = node_scripts(None);
            &&& c.id == "node_scripts"@ && c.title == "Node scripts"@
            &&& c.severity is Warn && c.details.len() == 0
            &&& c.message == "package.json could not be parsed."@
        }),
{
}

/// The file is there and holds `part`.
pub open spec fn file_holds(contents: Option<Seq<char>>, part: Seq<char>) -> bool {
    contents is Some && exists|before: Seq<char>, after: Seq<char>| #[trigger]
        text::is_made_of(contents->0, before, part, after)
}

proof fn mentioning_is_holding(contents: Option<Seq<char>>, part: Seq<char>)
    ensures
        mentions(contents, part) == file_holds(contents, part),
{
    if contents is Some {
        text::containing_is_standing_between(contents->0, part);
    }
}

/// A Python tool is found where the requirements hold its name or the project
/// file its table, and reported as missing, in the order of the names, exactly
/// where it is not found; both files are given in lower case.
pub proof fn missing_tools_are_named(requirements: Option<Seq<char>>, pyproject: Option<Seq<char>>)
    ensures
        ({
            let c = python_tooling(requirements, pyproject);
            let black: int = if file_holds(requirements, "black"@) || file_holds(
                pyproject,
                "[tool.black]"@,
            ) { 0 } else { 1 };
            let mypy: int = if file_holds(requirements, "mypy"@) || file_holds(pyproject, "[tool.mypy]"@) {
                0
            } else {
                1
            };
            let pytest: int = if file_holds(requirements, "pytest"@) || file_holds(
                pyproject,
                "[tool.pytest]"@,
            ) || file_holds(pyproject, "[tool.pytest.ini_options]"@) { 0 } else { 1 };
            let ruff: int = if file_holds(requirements, "ruff"@) || file_holds(pyproject, "[tool.ruff]"@) {
                0
            } else {
                1
            };
            &&& c.id == "python_tooling"@ && c.title == "Python tooling"@
            &&& c.details.len() == black + mypy + pytest + ruff
            &&& black == 1 ==> c.details[0] == "Missing: black"@
            &&& mypy == 1 ==> c.details[black] == "Missing: mypy"@
            &&& pytest == 1 ==> c.details[black + mypy] == "Missing: pytest"@
            &&& ruff == 1 ==> c.details[black + mypy + pytest] == "Missing: ruff"@
            &&& black + mypy + pytest + ruff == 0 ==> c.severity is Info && c.message
                == "Python tooling detected."@
            &&& black + mypy + pytest + ruff > 0 ==> c.severity is Warn && c.message
                == "Consider adding lint/format/typecheck/test tooling."@
        }),
{
    mentioning_is_holding(requirements, "black"@);
    mentioning_is_holding(requirements, "mypy"@);
    mentioning_is_holding(requirements, "pytest"@);
    mentioning_is_holding(requirements, "ruff"@);
    mentioning_is_holding(pyproject, "[tool.black]"@);
    mentioning_is_holding(pyproject, "[tool.mypy]"@);
    mentioning_is_holding(pyproject, "[tool.pytest]"@);
    mentioning_is_holding(pyproject, "[tool.pytest.ini_options]"@);
    mentioning_is_holding(pyproject, "[tool.ruff]"@);
}

/// A tool whose name the requirements hold, in lower case, is not reported as
/// missing; requirements that hold all four are harmless, whatever the project
/// file says.
pub proof fn required_tools_are_found(requirements: Option<Seq<char>>, pyproject: Option<Seq<char>>)
    ensures
        ({
            let c = python_tooling(requirements, pyproject);
            &&& file_holds(requirements, "black"@) ==> !c.details.contains("Missing: black"@)
            &&& file_holds(requirements, "mypy"@) ==> !c.details.contains("Missing: mypy"@)
            &&& file_holds(requirements, "pytest"@) ==> !c.details.contains("Missing: pytest"@)
            &&& file_holds(requirements, "ruff"@) ==> !c.details.contains("Missing: ruff"@)
            &&& file_holds(requirements, "black"@) && file_holds(requirements, "mypy"@) && file_holds(
                requirements,
                "pytest"@,
            ) && file_holds(requirements, "ruff"@) ==> c.severity is Info && c.details.len() == 0
        }),
{
    missing_tools_are_named(requirements, pyproject);
    reveal_strlit("Missing: black");
    reveal_strlit("Missing: mypy");
    reveal_strlit("Missing: pytest");
    reveal_strlit("Missing: ruff");
    assert("Missing: mypy"@[9] != "Missing: ruff"@[9]);
    assert("Missing: black"@.len() == 14 && "Missing: mypy"@.len() == 13 && "Missing: pytest"@.len() == 15);
}

/// A file that is absent has no lower-case form; one that is there has that of
/// its text.
pub proof fn lower_case_of_file(s: Seq<char>, i: int)
    requires
        0 <= i < s.len(),
    ensures
        opt_lowercase(Some(s)) == Some(text::unicode_lowercase(s)),
        opt_lowercase(None) is None,
        opt_ascii_lowercase(Some(s)) is Some && opt_ascii_lowercase(Some(s))->0.len() == s.len(),
        opt_ascii_lowercase(Some(s))->0[i] == text::ascii_lower(s[i]),
        opt_ascii_lowercase(None) is None,
{
}

/// Every check of a scan has its own remedies, and no other id has any.
pub proof fn remedies_belong_to_checks(id: Seq<char>)
    ensures
        id == "gitignore_env"@ ==> {
            &&& fix_hints(id).len() == 2
            &&& fix_hints(id)[0] == "Add `.env` (and optionally `*.env`) to `.gitignore`."@
            &&& fix_hints(id)[1] == "If secrets were committed, rotate them and rewrite history if needed."@
        },
        id == "node_scripts"@ ==> {
            &&& fix_hints(id).len() == 2
            &&& fix_hints(id)[0] == "Add scripts: `lint`, `build`, and `typecheck` (or `tsc`)."@
            &&& fix_hints(id)[1] == "Run them in CI for consistent quality gates."@
        },
        id == "python_tooling"@ ==> {
            &&& fix_hints(id).len() == 2
            &&& fix_hints(id)[0]
                == "Add ruff (lint+format), pytest (tests), and optionally mypy (typecheck)."@
            &&& fix_hints(id)[1] == "Expose `lint`/`test` commands so CI can run them."@
        },
        id == "large_files"@ ==> {
            &&& fix_hints(id).len() == 2
            &&& fix_hints(id)[0] == "Consider Git LFS for large binaries/assets."@
            &&& fix_hints(id)[1] == "Move generated artifacts out of the repo (build outputs, caches)."@
        },
        id == "secrets"@ ==> {
            &&& fix_hints(id).len() == 3
            &&& fix_hints(id)[0] == "Treat matches as leaks until proven otherwise."@
            &&& fix_hints(id)[1] == "Rotate keys/tokens and move them to env/secret manager."@
            &&& fix_hints(id)[2] == "Remove secrets from git history if they were committed."@
        },
        id != "gitignore_env"@ && id != "node_scripts"@ && id != "python_tooling"@ && id != "large_files"@
            && id != "secrets"@ ==> fix_hints(id).len() == 0,
{
    reveal_strlit("gitignore_env");
    reveal_strlit("large_files");
    reveal_strlit("node_scripts");
    reveal_strlit("python_tooling");
    reveal_strlit("secrets");
    assert("gitignore_env"@.len() == 13);
    assert("large_files"@.len() == 11);
    assert("node_scripts"@.len() == 12);
    assert("python_tooling"@.len() == 14);
    assert("secrets"@.len() == 7);
}

/// The names of scripts are those that were read, absent where they were.
pub proof fn script_names_are_those_read(v: Vec<String>)
    ensures
        names_view(None) is None,
        names_view(Some(None)) == Some(None::<Seq<Seq<char>>>),
        names_view(Some(Some(v))) == Some(Some(text::texts(v@))),
{
}

} // verus!
