//! The search for secrets in the files of a repository.

use vstd::prelude::*;

use crate::checks;
use crate::model;
use crate::model::{CheckResult, CheckView, Severity};
use crate::text;
use crate::walk;

verus! {

/// The number of files after which the search ends, whatever else is allowed.
pub const MAX_SEARCHED: usize = 15000;

/// The size up to which a file is read.
pub const MAX_READ: u64 = 262144;

/// The number of findings after which the search ends.
pub const MAX_FINDINGS: usize = 25;

/// A compiled regular expression.
#[verifier::external_type_specification]
#[verifier::external_body]
pub struct ExRegex(regex::Regex);

/// The pattern that a regular expression made by `Regex::new` was compiled from.
pub uninterp spec fn regex_pattern(re: regex::Regex) -> Seq<char>;

/// `Regex::new` compiles the pattern.
pub uninterp spec fn regex_compiles(pattern: Seq<char>) -> bool;

/// The regular expression that `Regex::new` makes of `pattern` matches somewhere in `haystack`.
pub uninterp spec fn regex_matches(pattern: Seq<char>, haystack: Seq<char>) -> bool;

/// Calls `regex::Regex::new`. Whether a pattern compiles depends on the
/// pattern alone, and the regular expression stands for that pattern.
#[verifier::external_body]
fn compile(pattern: &str) -> (r: Option<regex::Regex>)
    ensures
        r is Some == regex_compiles(pattern@),
        r is Some ==> regex_pattern(r->0) == pattern@,
{
    regex::Regex::new(pattern).ok()
}

/// Calls `regex::Regex::is_match` on a regular expression that
/// `regex::Regex::new` made. The answer depends on its pattern and on the text.
#[verifier::external_body]
fn is_match(re: &regex::Regex, haystack: &str) -> (r: bool)
    ensures
        r == regex_matches(regex_pattern(*re), haystack@),
{
    re.is_match(haystack)
}

/// A kind of secret, and what it looks like.
#[derive(Debug)]
pub struct Marker {
    name: String,
    re: regex::Regex,
}

/// The view of a [`Marker`].
#[verifier::ext_equal]
pub struct MarkerView {
    pub name: Seq<char>,
    pub pattern: Seq<char>,
}

impl View for Marker {
    type V = MarkerView;

    closed spec fn view(&self) -> MarkerView {
        MarkerView { name: self.name@, pattern: regex_pattern(self.re) }
    }
}

/// The views of a list of markers.
pub open spec fn markers_view(v: Seq<Marker>) -> Seq<MarkerView> {
    v.map_values(|m: Marker| m@)
}

/// The kinds of secret that are searched for.
pub open spec fn known_markers() -> Seq<MarkerView> {
    seq![
        MarkerView { name: "aws_access_key_id"@, pattern: "AKIA[0-9A-Z]{16}"@ },
        MarkerView { name: "private_key"@, pattern: "-----BEGIN (?:RSA )?PRIVATE KEY-----"@ },
        MarkerView { name: "github_pat"@, pattern: "ghp_[A-Za-z0-9]{36,}"@ },
        MarkerView {
            name: "discord_token"@,
            pattern: "(?i)(discord|bot)[-_ ]?token\\s*=\\s*[^\\s]{20,}"@,
        },
        MarkerView { name: "stripe_key"@, pattern: "sk_(?:live|test)_[A-Za-z0-9]{16,}"@ },
    ]
}

/// Those of `markers` whose pattern compiles.
pub open spec fn usable(markers: Seq<MarkerView>) -> Seq<MarkerView>
    decreases markers.len(),
{
    if markers.len() == 0 {
        seq![]
    } else if regex_compiles(markers.last().pattern) {
        usable(markers.drop_last()).push(markers.last())
    } else {
        usable(markers.drop_last())
    }
}

/// The finding of a secret of the kind `name` in the file `path`.
pub open spec fn finding(name: Seq<char>, path: Seq<char>) -> Seq<char> {
    name + ": "@ + path
}

/// The findings in a file: one for each marker that matches its contents.
pub open spec fn findings(
    markers: Seq<MarkerView>,
    path: Seq<char>,
    contents: Seq<char>,
) -> Seq<Seq<char>>
    decreases markers.len(),
{
    if markers.len() == 0 {
        seq![]
    } else {
        let front = findings(markers.drop_last(), path, contents);
        if regex_matches(markers.last().pattern, contents) {
            front.push(finding(markers.last().name, path))
        } else {
            front
        }
    }
}

/// As many findings as are reported.
pub open spec fn reported(all: Seq<Seq<char>>) -> Seq<Seq<char>> {
    if all.len() <= MAX_FINDINGS {
        all
    } else {
        all.take(MAX_FINDINGS as int)
    }
}

/// The number of files that are searched.
pub open spec fn search_limit(max_files: nat) -> nat {
    if max_files <= MAX_SEARCHED {
        max_files
    } else {
        MAX_SEARCHED as nat
    }
}

/// A file of that size is read; one whose size cannot be found out is not.
pub open spec fn is_small(size: Option<u64>) -> bool {
    match size {
        Some(n) => n <= MAX_READ,
        None => false,
    }
}

/// The outcome of the check on secrets.
pub open spec fn secrets_check(details: Seq<Seq<char>>) -> CheckView {
    checks::outcome(
        "secrets"@,
        "Secrets"@,
        if details.len() == 0 {
            Severity::Info
        } else {
            Severity::Error
        },
        if details.len() == 0 {
            "No obvious secret markers found (light scan)."@
        } else {
            "Potential secret markers found."@
        },
        details,
    )
}

/// What is done with an entry of the walk.
#[derive(Clone, Copy, Debug, PartialEq, Eq, Structural)]
pub enum Admission {
    /// The search is over.
    Stop,
    /// The entry is passed over.
    Skip,
    /// The file is read, if it is small.
    Read,
}

/// A search under way.
#[derive(Debug)]
pub struct SecretScan {
    markers: Vec<Marker>,
    scanned: usize,
    details: Vec<String>,
}

/// The view of a [`SecretScan`].
#[verifier::ext_equal]
pub struct SecretScanView {
    pub markers: Seq<MarkerView>,
    pub scanned: nat,
    pub details: Seq<Seq<char>>,
}

impl View for SecretScan {
    type V = SecretScanView;

    closed spec fn view(&self) -> SecretScanView {
        SecretScanView {
            markers: markers_view(self.markers@),
            scanned: self.scanned as nat,
            details: text::texts(self.details@),
        }
    }
}

/// A search at its start.
pub open spec fn start_of_search() -> SecretScanView {
    SecretScanView { markers: usable(known_markers()), scanned: 0, details: seq![] }
}

/// `s` after another entry was met: files are counted until one lies beyond the
/// limit.
pub open spec fn after_meeting(s: SecretScanView, is_file: bool, max_files: nat) -> SecretScanView {
    if is_file && s.scanned <= search_limit(max_files) {
        SecretScanView { scanned: s.scanned + 1, ..s }
    } else {
        s
    }
}

/// What is done with an entry after which the search stands at `s`: the search
/// ends with the first file beyond the limit; of the files before it, those
/// that are not taken for binary are read.
pub open spec fn admission(
    s: SecretScanView,
    is_file: bool,
    name: Option<Seq<char>>,
    max_files: nat,
) -> Admission {
    if !is_file {
        Admission::Skip
    } else if s.scanned > search_limit(max_files) {
        Admission::Stop
    } else if walk::likely_binary(name) {
        Admission::Skip
    } else {
        Admission::Read
    }
}

/// `s` after a file was read; `contents` is absent where it is no text.
pub open spec fn after_reading(
    s: SecretScanView,
    path: Seq<char>,
    contents: Option<Seq<char>>,
) -> SecretScanView {
    match contents {
        None => s,
        Some(c) => SecretScanView { details: reported(s.details + findings(s.markers, path, c)), ..s },
    }
}

/// More findings can be reported.
pub open spec fn has_room(s: SecretScanView) -> bool {
    s.details.len() < MAX_FINDINGS
}

/// Adds a marker, if its pattern compiles.
fn push_marker(markers: &mut Vec<Marker>, name: &str, pattern: &str)
    ensures
        markers_view(final(markers)@) == if regex_compiles(pattern@) {
            markers_view(old(markers)@).push(MarkerView { name: name@, pattern: pattern@ })
        } else {
            markers_view(old(markers)@)
        },
{
    if let Some(re) = compile(pattern) {
        let ghost before = markers@;
        let m = Marker { name: name.to_owned(), re };
        markers.push(m);
        assert(markers_view(markers@) =~= markers_view(before).push(m@));
    }
}

/// The markers that are searched for.
pub fn secret_markers() -> (r: Vec<Marker>)
    ensures
        markers_view(r@) == usable(known_markers()),
{
    let mut r: Vec<Marker> = Vec::new();
    let ghost known = known_markers();
    assert(markers_view(r@) =~= usable(known.take(0)));
    push_marker(&mut r, "aws_access_key_id", "AKIA[0-9A-Z]{16}");
    assert(known.take(1).drop_last() =~= known.take(0));
    assert(markers_view(r@) == usable(known.take(1)));
    push_marker(&mut r, "private_key", "-----BEGIN (?:RSA )?PRIVATE KEY-----");
    assert(known.take(2).drop_last() =~= known.take(1));
    assert(markers_view(r@) == usable(known.take(2)));
    push_marker(&mut r, "github_pat", "ghp_[A-Za-z0-9]{36,}");
    assert(known.take(3).drop_last() =~= known.take(2));
    assert(markers_view(r@) == usable(known.take(3)));
    push_marker(&mut r, "discord_token", "(?i)(discord|bot)[-_ ]?token\\s*=\\s*[^\\s]{20,}");
    assert(known.take(4).drop_last() =~= known.take(3));
    assert(markers_view(r@) == usable(known.take(4)));
    push_marker(&mut r, "stripe_key", "sk_(?:live|test)_[A-Za-z0-9]{16,}");
    assert(known.take(5).drop_last() =~= known.take(4));
    assert(known.take(5) =~= known);
    r
}

/// Notes the finding of a secret of the kind `name` in the file `path`, if it
/// was found; `true` says that the search is over.
pub fn record_finding(details: &mut Vec<String>, name: &str, path: &str, found: bool) -> (over: bool)
    ensures
        text::texts(final(details)@) == if found {
            text::texts(old(details)@).push(finding(name@, path@))
        } else {
            text::texts(old(details)@)
        },
        over == (found && final(details)@.len() >= MAX_FINDINGS),
{
    if !found {
        return false;
    }
    let ghost before = details@;
    let mut s = name.to_owned();
    s.append(": ");
    s.append(path);
    details.push(s);
    assert(text::texts(details@) =~= text::texts(before).push(s@));
    details.len() >= MAX_FINDINGS
}

/// Whether a file of that size is read.
pub fn is_small_file(size: Option<u64>) -> (r: bool)
    ensures
        r == is_small(size),
{
    match size {
        Some(n) => n <= MAX_READ,
        None => false,
    }
}

/// The check on secrets, for the findings.
pub fn secrets_result(details: Vec<String>) -> (c: CheckResult)
    ensures
        c@ == secrets_check(text::texts(details@)),
{
    assert(text::texts(details@).len() == details@.len());
    let severity = if details.len() == 0 { Severity::Info } else { Severity::Error };
    let message = if details.len() == 0 {
        "No obvious secret markers found (light scan)."
    } else {
        "Potential secret markers found."
    };
    checks::new_check("secrets", "Secrets", severity, message, details)
}

/// The check on secrets, at the end of a search.
pub fn check_secret_markers(scan: SecretScan) -> (c: CheckResult)
    ensures
        c@ == secrets_check(scan@.details),
{
    secrets_result(scan.details)
}

impl SecretScan {
    /// A search at its start.
    pub fn new() -> (s: Self)
        ensures
            s@ == start_of_search(),
    {
        let s = SecretScan { markers: secret_markers(), scanned: 0, details: Vec::new() };
        assert(s@ =~= start_of_search());
        s
    }

    /// Decides what is done with the next entry of the walk.
    pub fn meet(&mut self, is_file: bool, name: Option<&str>, max_files: usize) -> (a: Admission)
        ensures
            final(self)@ == after_meeting(old(self)@, is_file, max_files as nat),
            a == admission(final(self)@, is_file, model::opt_text(name), max_files as nat),
    {
        if !is_file {
            return Admission::Skip;
        }
        let limit: usize = if max_files <= MAX_SEARCHED { max_files } else { MAX_SEARCHED };
        if self.scanned <= limit {
            self.scanned = self.scanned + 1;
        }
        if self.scanned > limit {
            return Admission::Stop;
        }
        if walk::is_likely_binary_path(name) {
            return Admission::Skip;
        }
        Admission::Read
    }

    /// Searches a file; `false` says that the search is over.
    pub fn examine(&mut self, path: &str, contents: Option<&str>) -> (go_on: bool)
        requires
            old(self)@.details.len() < MAX_FINDINGS,
        ensures
            final(self)@ == after_reading(old(self)@, path@, model::opt_text(contents)),
            go_on == has_room(final(self)@),
    {
        let text = match contents {
            Some(c) => c,
            None => return true,
        };
        let ghost all = markers_view(self.markers@);
        let ghost start = text::texts(self.details@);
        let mut i: usize = 0;
        assert(all.take(0) =~= seq![]);
        assert(start =~= start + findings(all.take(0), path@, text@));
        while i < self.markers.len()
            invariant
                all == markers_view(self.markers@),
                self.markers == old(self).markers,
                self.scanned == old(self).scanned,
                start == text::texts(old(self).details@),
                i <= self.markers@.len(),
                self.details@.len() < MAX_FINDINGS,
                contents == Some(text),
                text::texts(self.details@) == start + findings(all.take(i as int), path@, text@),
            decreases self.markers@.len() - i,
        {
            let found = is_match(&self.markers[i].re, text);
            let ghost before = text::texts(self.details@);
            proof {
                assert(all.take(i + 1).drop_last() =~= all.take(i as int));
                assert(all.take(i + 1).last() == self.markers@[i as int]@);
            }
            let over = record_finding(&mut self.details, self.markers[i].name.as_str(), path, found);
            proof {
                assert(text::texts(self.details@) =~= start + findings(all.take(i + 1), path@, text@));
                assert(text::texts(self.details@).len() == self.details@.len());
            }
            if over {
                proof {
                    findings_grow(all, i + 1, path@, text@);
                    let got = start + findings(all, path@, text@);
                    assert(reported(got) =~= text::texts(self.details@));
                }
                return false;
            }
            i += 1;
        }
        assert(all.take(i as int) =~= all);
        true
    }
}

/// The findings of the first markers come first.
proof fn findings_grow(markers: Seq<MarkerView>, n: int, path: Seq<char>, contents: Seq<char>)
    requires
        0 <= n <= markers.len(),
    ensures
        findings(markers.take(n), path, contents).len() <= findings(markers, path, contents).len(),
        findings(markers, path, contents).take(findings(markers.take(n), path, contents).len() as int)
            == findings(markers.take(n), path, contents),
    decreases markers.len(),
{
    if n == markers.len() {
        assert(markers.take(n) =~= markers);
        let all = findings(markers, path, contents);
        assert(all.take(all.len() as int) =~= all);
    } else {
        let front = markers.drop_last();
        findings_grow(front, n, path, contents);
        assert(front.take(n) =~= markers.take(n));
        let part = findings(markers.take(n), path, contents);
        assert(findings(markers, path, contents).take(part.len() as int) =~= findings(
            front,
            path,
            contents,
        ).take(part.len() as int));
    }
}

/// An entry that a search met: its name where that is text, its path as it is
/// shown, its size where it can be found out, its contents where they are text.
#[verifier::ext_equal]
pub struct SearchedEntry {
    pub name: Option<Seq<char>>,
    pub is_file: bool,
    pub path: Seq<char>,
    pub size: Option<u64>,
    pub contents: Option<Seq<char>>,
}

/// `s` after another entry was met, and read if it is to be.
pub open spec fn after_entry(s: SecretScanView, e: SearchedEntry, max_files: nat) -> SecretScanView {
    let met = after_meeting(s, e.is_file, max_files);
    if admission(met, e.is_file, e.name, max_files) == Admission::Read && is_small(e.size) {
        after_reading(met, e.path, e.contents)
    } else {
        met
    }
}

/// The search has ended.
pub open spec fn is_over(s: SecretScanView, max_files: nat) -> bool {
    s.scanned > search_limit(max_files) || s.details.len() >= MAX_FINDINGS
}

/// A search that met `entries`.
pub open spec fn search_of(entries: Seq<SearchedEntry>, max_files: nat) -> SecretScanView
    decreases entries.len(),
{
    if entries.len() == 0 {
        start_of_search()
    } else {
        let s = search_of(entries.drop_last(), max_files);
        if is_over(s, max_files) {
            s
        } else {
            after_entry(s, entries.last(), max_files)
        }
    }
}

/// The first `limit` files among the entries.
pub open spec fn files_taken(entries: Seq<SearchedEntry>, limit: nat) -> Seq<SearchedEntry>
    decreases entries.len(),
{
    if entries.len() == 0 {
        seq![]
    } else {
        let front = files_taken(entries.drop_last(), limit);
        if entries.last().is_file && front.len() < limit {
            front.push(entries.last())
        } else {
            front
        }
    }
}

/// The findings in a file, if it is one that is searched.
pub open spec fn findings_in(e: SearchedEntry) -> Seq<Seq<char>> {
    match e.contents {
        Some(c) => if !walk::likely_binary(e.name) && is_small(e.size) {
            findings(usable(known_markers()), e.path, c)
        } else {
            seq![]
        },
        None => seq![],
    }
}

/// The findings in all files together.
pub open spec fn all_findings(files: Seq<SearchedEntry>) -> Seq<Seq<char>>
    decreases files.len(),
{
    if files.len() == 0 {
        seq![]
    } else {
        all_findings(files.drop_last()) + findings_in(files.last())
    }
}

proof fn search_invariant(entries: Seq<SearchedEntry>, max_files: nat)
    ensures
        ({
            let s = search_of(entries, max_files);
            let taken = files_taken(entries, search_limit(max_files));
            &&& s.markers == usable(known_markers())
            &&& s.details == reported(all_findings(taken))
            &&& s.scanned <= search_limit(max_files) + 1
            &&& s.details.len() < MAX_FINDINGS ==> taken.len() == if s.scanned <= search_limit(max_files) {
                s.scanned
            } else {
                search_limit(max_files)
            }
        }),
    decreases entries.len(),
{
    if entries.len() > 0 {
        let front = entries.drop_last();
        let e = entries.last();
        search_invariant(front, max_files);
        let limit = search_limit(max_files);
        let s = search_of(front, max_files);
        let before = files_taken(front, limit);
        let taken = files_taken(entries, limit);
        if e.is_file && before.len() < limit {
            assert(taken.drop_last() =~= before);
            let old_all = all_findings(before);
            let all = all_findings(taken);
            assert(all == old_all + findings_in(e));
            if s.details.len() >= MAX_FINDINGS {
                assert(reported(all) =~= reported(old_all));
            } else if findings_in(e).len() == 0 {
                assert(all =~= old_all);
            }
            if let Some(c) = e.contents {
                if findings(s.markers, e.path, c).len() == 0 {
                    assert(s.details + findings(s.markers, e.path, c) =~= s.details);
                }
            }
        }
    } else {
        assert(files_taken(entries, search_limit(max_files)) =~= seq![]);
    }
}

/// A search reports the first findings in the first files that it may search:
/// as many findings as are reported, in the order of the files and of the
/// markers, and none besides.
pub proof fn search_reports_first_findings(entries: Seq<SearchedEntry>, max_files: nat)
    ensures
        search_of(entries, max_files).details == reported(
            all_findings(files_taken(entries, search_limit(max_files))),
        ),
        search_of(entries, max_files).details.len() <= MAX_FINDINGS,
        search_of(entries, max_files).scanned <= search_limit(max_files) + 1,
{
    search_invariant(entries, max_files);
}

/// The check on secrets is either clean, without details, or an error with details.
pub proof fn secrets_are_errors(details: Seq<Seq<char>>)
    ensures
        secrets_check(details).severity == Severity::Error <==> details.len() > 0,
        secrets_check(details).severity == Severity::Info <==> details.len() == 0,
{
}

/// Meeting the entries of a walk one by one, and reading those that are to be
/// read, until the search is over, gives the search of the walk; what it might
/// meet after that changes nothing.
pub proof fn search_follows_walk(entries: Seq<SearchedEntry>, e: SearchedEntry, max_files: nat)
    ensures
        search_of(Seq::empty(), max_files) == start_of_search(),
        !is_over(search_of(entries, max_files), max_files) ==> search_of(entries.push(e), max_files)
            == after_entry(search_of(entries, max_files), e, max_files),
        is_over(search_of(entries, max_files), max_files) ==> search_of(entries.push(e), max_files)
            == search_of(entries, max_files),
{
    assert(entries.push(e).drop_last() =~= entries);
}

/// The line on a secret, where its pattern compiles and matches the contents.
pub open spec fn line_if_matched(
    pattern: Seq<char>,
    contents: Seq<char>,
    kind: Seq<char>,
    path: Seq<char>,
) -> Seq<Seq<char>> {
    if regex_compiles(pattern) && regex_matches(pattern, contents) {
        seq![kind + ": "@ + path]
    } else {
        seq![]
    }
}

/// The lines on the secrets in a file: Amazon access keys, private keys with or
/// without `RSA`, personal access tokens of GitHub, tokens of Discord and of
/// bots, and live and test keys of Stripe.
pub open spec fn lines_on_file(path: Seq<char>, contents: Seq<char>) -> Seq<Seq<char>> {
    line_if_matched("AKIA[0-9A-Z]{16}"@, contents, "aws_access_key_id"@, path) + line_if_matched(
        "-----BEGIN (?:RSA )?PRIVATE KEY-----"@,
        contents,
        "private_key"@,
        path,
    ) + line_if_matched("ghp_[A-Za-z0-9]{36,}"@, contents, "github_pat"@, path) + line_if_matched(
        "(?i)(discord|bot)[-_ ]?token\\s*=\\s*[^\\s]{20,}"@,
        contents,
        "discord_token"@,
        path,
    ) + line_if_matched("sk_(?:live|test)_[A-Za-z0-9]{16,}"@, contents, "stripe_key"@, path)
}

proof fn usable_findings_add_up(markers: Seq<MarkerView>, path: Seq<char>, contents: Seq<char>)
    ensures
        markers.len() > 0 ==> findings(usable(markers), path, contents) == findings(
            usable(markers.drop_last()),
            path,
            contents,
        ) + line_if_matched(markers.last().pattern, contents, markers.last().name, path),
{
    if markers.len() > 0 {
        let front = usable(markers.drop_last());
        if regex_compiles(markers.last().pattern) {
            assert(usable(markers).drop_last() =~= front);
        }
        assert(findings(usable(markers), path, contents) =~= findings(front, path, contents)
            + line_if_matched(markers.last().pattern, contents, markers.last().name, path));
    }
}

/// A search begins without findings and without files. It looks for five kinds
/// of secret, each by its own pattern; what it finds in a file is one line for
/// each kind that matches, in this order, and no other.
pub proof fn five_kinds_of_secret_are_found(path: Seq<char>, contents: Seq<char>)
    ensures
        start_of_search().scanned == 0,
        start_of_search().details.len() == 0,
        findings(start_of_search().markers, path, contents) == lines_on_file(path, contents),
        after_reading(start_of_search(), path, Some(contents)).details == lines_on_file(path, contents),
{
    let known = known_markers();
    assert(known.take(5) =~= known);
    assert(known.take(5).drop_last() =~= known.take(4));
    assert(known.take(4).drop_last() =~= known.take(3));
    assert(known.take(3).drop_last() =~= known.take(2));
    assert(known.take(2).drop_last() =~= known.take(1));
    assert(known.take(1).drop_last() =~= known.take(0));
    usable_findings_add_up(known.take(5), path, contents);
    usable_findings_add_up(known.take(4), path, contents);
    usable_findings_add_up(known.take(3), path, contents);
    usable_findings_add_up(known.take(2), path, contents);
    usable_findings_add_up(known.take(1), path, contents);
    assert(known.take(0) =~= seq![]);
    assert(usable(seq![]) =~= seq![]);
    assert(findings(seq![], path, contents) =~= seq![]);
    let found = findings(start_of_search().markers, path, contents);
    assert(found =~= lines_on_file(path, contents));
    assert(start_of_search().details + found =~= found);
}

/// Whatever was found before, a file in which one of the five kinds of secret is
/// found is reported under that kind, as long as there is room for the lines on
/// it.
pub proof fn every_kind_of_secret_is_reported(s: SecretScanView, path: Seq<char>, contents: Seq<char>)
    requires
        s.markers == start_of_search().markers,
        s.details.len() + 5 <= 25,
    ensures
        ({
            let details = after_reading(s, path, Some(contents)).details;
            &&& details == s.details + lines_on_file(path, contents)
            &&& is_found("AKIA[0-9A-Z]{16}"@, contents) ==> details.contains(
                "aws_access_key_id"@ + ": "@ + path,
            )
            &&& is_found("-----BEGIN (?:RSA )?PRIVATE KEY-----"@, contents) ==> details.contains(
                "private_key"@ + ": "@ + path,
            )
            &&& is_found("ghp_[A-Za-z0-9]{36,}"@, contents) ==> details.contains(
                "github_pat"@ + ": "@ + path,
            )
            &&& is_found("(?i)(discord|bot)[-_ ]?token\\s*=\\s*[^\\s]{20,}"@, contents)
                ==> details.contains("discord_token"@ + ": "@ + path)
            &&& is_found("sk_(?:live|test)_[A-Za-z0-9]{16,}"@, contents) ==> details.contains(
                "stripe_key"@ + ": "@ + path,
            )
        }),
{
    five_kinds_of_secret_are_found(path, contents);
    let details = after_reading(s, path, Some(contents)).details;
    let a = line_if_matched("AKIA[0-9A-Z]{16}"@, contents, "aws_access_key_id"@, path);
    let b = line_if_matched("-----BEGIN (?:RSA )?PRIVATE KEY-----"@, contents, "private_key"@, path);
    let c = line_if_matched("ghp_[A-Za-z0-9]{36,}"@, contents, "github_pat"@, path);
    let d = line_if_matched(
        "(?i)(discord|bot)[-_ ]?token\\s*=\\s*[^\\s]{20,}"@,
        contents,
        "discord_token"@,
        path,
    );
    let e = line_if_matched("sk_(?:live|test)_[A-Za-z0-9]{16,}"@, contents, "stripe_key"@, path);
    let n = s.details.len() as int;
    if a.len() > 0 {
        assert(details[n] == a[0]);
    }
    if b.len() > 0 {
        assert(details[n + a.len()] == b[0]);
    }
    if c.len() > 0 {
        assert(details[n + a.len() + b.len()] == c[0]);
    }
    if d.len() > 0 {
        assert(details[n + a.len() + b.len() + c.len()] == d[0]);
    }
    if e.len() > 0 {
        assert(details[n + a.len() + b.len() + c.len() + d.len()] == e[0]);
    }
}

/// The pattern compiles and matches somewhere in the contents.
pub open spec fn is_found(pattern: Seq<char>, contents: Seq<char>) -> bool {
    regex_compiles(pattern) && regex_matches(pattern, contents)
}

/// Reading a file adds what is found in it behind the earlier findings, up to
/// twenty-five in all, and changes neither the markers nor the count of files; a
/// file that is no text adds nothing.
pub proof fn findings_are_kept_up_to_a_limit(s: SecretScanView, path: Seq<char>, contents: Seq<char>, i: int)
    requires
        0 <= i < 25,
        i < s.details.len() + findings(s.markers, path, contents).len(),
    ensures
        ({
            let after = after_reading(s, path, Some(contents));
            let found = findings(s.markers, path, contents);
            &&& after.markers == s.markers
            &&& after.scanned == s.scanned
            &&& after.details.len() == if s.details.len() + found.len() <= 25 {
                s.details.len() + found.len()
            } else {
                25
            }
            &&& i < s.details.len() ==> after.details[i] == s.details[i]
            &&& i >= s.details.len() ==> after.details[i] == found[i - s.details.len()]
        }),
        after_reading(s, path, None) == s,
{
}

/// The search counts the files it meets. Those up to the limit, fifteen thousand
/// at most, are read unless their names are those of binary files; the first one
/// beyond it ends the search. What is no file is passed over.
pub proof fn first_files_are_searched(
    s: SecretScanView,
    is_file: bool,
    name: Option<Seq<char>>,
    max_files: nat,
)
    ensures
        ({
            let met = after_meeting(s, is_file, max_files);
            let a = admission(met, is_file, name, max_files);
            &&& met.details == s.details && met.markers == s.markers
            &&& !is_file ==> met == s && a == Admission::Skip
            &&& is_file && s.scanned < max_files && s.scanned < 15000 ==> {
                &&& met.scanned == s.scanned + 1
                &&& walk::likely_binary(name) ==> a == Admission::Skip
                &&& !walk::likely_binary(name) ==> a == Admission::Read
            }
            &&& is_file && (s.scanned >= max_files || s.scanned >= 15000) ==> a == Admission::Stop
        }),
{
}

/// Files of up to 256 kilobytes are read; larger ones are not, nor those whose
/// size is not known.
pub proof fn small_files_are_read(size: u64)
    ensures
        is_small(Some(size)) <==> size <= 256 * 1024,
        !is_small(None),
{
}

/// The check on secrets says what was found: an error with all findings as its
/// details where there is one, and else that there is none.
pub proof fn findings_make_an_error(details: Seq<Seq<char>>)
    ensures
        ({
            let c = secrets_check(details);
            &&& c.id == "secrets"@ && c.title == "Secrets"@
            &&& c.details == details
            &&& details.len() > 0 ==> c.severity is Error && c.message == "Potential secret markers found."@
            &&& details.len() == 0 ==> c.severity is Info && c.message
                == "No obvious secret markers found (light scan)."@
        }),
{
}

proof fn finding_is_among_all(files: Seq<SearchedEntry>, i: int, line: Seq<char>)
    requires
        0 <= i < files.len(),
        findings_in(files[i]).contains(line),
    ensures
        all_findings(files).contains(line),
    decreases files.len(),
{
    let front = files.drop_last();
    let before = all_findings(front);
    if i == files.len() - 1 {
        let k = choose|k: int| 0 <= k < findings_in(files[i]).len() && findings_in(files[i])[k] == line;
        assert(all_findings(files)[before.len() + k] == line);
    } else {
        assert(front[i] == files[i]);
        finding_is_among_all(front, i, line);
        let k = choose|k: int| 0 <= k < before.len() && before[k] == line;
        assert(all_findings(files)[k] == line);
    }
}

/// A leak is reported wherever it stands: in any of the files that are searched,
/// each line on a file of up to 256 kilobytes that is not binary is among the
/// findings, as long as there are no more than are reported.
pub proof fn leaks_are_reported_wherever_they_stand(
    entries: Seq<SearchedEntry>,
    max_files: nat,
    i: int,
    line: Seq<char>,
)
    requires
        0 <= i < files_taken(entries, search_limit(max_files)).len(),
        all_findings(files_taken(entries, search_limit(max_files))).len() <= 25,
    ensures
        ({
            let e = files_taken(entries, search_limit(max_files))[i];
            e.contents is Some && e.size is Some && e.size->0 <= 256 * 1024 && !walk::likely_binary(e.name)
                && lines_on_file(e.path, e.contents->0).contains(line) ==> search_of(
                entries,
                max_files,
            ).details.contains(line)
        }),
{
    let files = files_taken(entries, search_limit(max_files));
    let e = files[i];
    search_reports_first_findings(entries, max_files);
    if e.contents is Some && e.size is Some && e.size->0 <= 256 * 1024 && !walk::likely_binary(e.name)
        && lines_on_file(e.path, e.contents->0).contains(line) {
        five_kinds_of_secret_are_found(e.path, e.contents->0);
        finding_is_among_all(files, i, line);
    }
}

/// The search goes on as long as it has fewer than twenty-five findings.
pub proof fn search_ends_with_enough_findings(s: SecretScanView)
    ensures
        has_room(s) <==> s.details.len() < 25,
{
}

} // verus!
