//! The walk through a repository: which entries are entered, and what the
//! files that are met add to the tally.

use vstd::prelude::*;

use crate::largest;
use crate::model;
use crate::model::{FileEntry, FileView};
use crate::text;

verus! {

/// The number of files in the list of the largest.
pub const LARGEST_SHOWN: usize = 10;

/// Names of version control data, dependencies, caches and build outputs.
pub open spec fn is_skipped(name: Seq<char>) -> bool {
    ||| name == ".git"@
    ||| name == "target"@
    ||| name == "node_modules"@
    ||| name == "__pycache__"@
    ||| name == ".pytest_cache"@
    ||| name == "dist"@
    ||| name == "build"@
    ||| name == ".next"@
    ||| name == ".turbo"@
    ||| name == ".venv"@
    ||| name == "venv"@
}

/// The walk enters an entry of that name, `depth` levels below the root: not
/// one whose name is not text, the root, and below it every name not skipped.
pub open spec fn descends(name: Option<Seq<char>>, depth: usize) -> bool {
    match name {
        None => false,
        Some(n) => depth == 0 || !is_skipped(n),
    }
}

/// Endings, in lower case, of the names of files that are not text.
pub open spec fn has_binary_ending(lower: Seq<char>) -> bool {
    ||| text::ends_with(lower, ".png"@)
    ||| text::ends_with(lower, ".jpg"@)
    ||| text::ends_with(lower, ".jpeg"@)
    ||| text::ends_with(lower, ".webp"@)
    ||| text::ends_with(lower, ".gif"@)
    ||| text::ends_with(lower, ".mp4"@)
    ||| text::ends_with(lower, ".mp3"@)
    ||| text::ends_with(lower, ".wav"@)
    ||| text::ends_with(lower, ".ico"@)
    ||| text::ends_with(lower, ".pdf"@)
    ||| text::ends_with(lower, ".zip"@)
    ||| text::ends_with(lower, ".rar"@)
    ||| text::ends_with(lower, ".7z"@)
    ||| text::ends_with(lower, ".exe"@)
    ||| text::ends_with(lower, ".dll"@)
    ||| text::ends_with(lower, ".node"@)
}

/// A file of that name is taken for binary; one whose name is not text is not.
pub open spec fn likely_binary(name: Option<Seq<char>>) -> bool {
    match name {
        None => false,
        Some(n) => has_binary_ending(text::unicode_lowercase(n)),
    }
}

/// A character that separates names in a path: `/`, or `\`, which does so on
/// Windows alone.
pub open spec fn is_sep(c: char) -> bool {
    c == '/' || c == '\\'
}

/// At `i` the path holds an empty name or the name `.`; such names do not count.
pub open spec fn is_void_name_at(p: Seq<char>, i: int) -> bool {
    is_sep(p[i]) || p[i] == '.' && (i + 1 == p.len() || is_sep(p[i + 1]))
}

/// The path neither begins nor ends with a name that does not count.
pub open spec fn has_plain_ends(p: Seq<char>) -> bool {
    p.len() > 0 ==> {
        &&& !is_void_name_at(p, 0)
        &&& !is_sep(p.last())
        &&& p.last() == '.' && p.len() > 1 ==> !is_sep(p[p.len() - 2])
    }
}

/// The path ends with a name that counts.
pub open spec fn has_plain_end(p: Seq<char>) -> bool {
    &&& p.len() > 0
    &&& !is_sep(p.last())
    &&& p.last() == '.' ==> p.len() > 1 && !is_sep(p[p.len() - 2])
}

/// The path begins as a network or device path does.
pub open spec fn has_double_start(p: Seq<char>) -> bool {
    p.len() > 1 && is_sep(p[0]) && is_sep(p[1])
}

/// A path that can be prolonged by `/` and more names: not a lone separator,
/// not a bare drive, and not the beginning of a network or device path.
pub open spec fn is_open_path(p: Seq<char>) -> bool {
    &&& p.len() > 0
    &&& p.len() == 1 ==> !is_sep(p[0])
    &&& p.len() == 2 ==> p[1] != ':'
    &&& !has_double_start(p)
}

/// What is left of `path` below `root`, where the text shows it.
pub open spec fn below(root: Seq<char>, path: Seq<char>) -> Option<Seq<char>> {
    let n = root.len() as int;
    if path == root {
        Some(seq![])
    } else if n == 0 && has_plain_end(path) {
        Some(path)
    } else if n > 0 && root.last() == '/' && !has_double_start(root) && path.len() > n && path.take(n)
        == root && has_plain_ends(path.skip(n)) {
        Some(path.skip(n))
    } else if root == path.push('/') && is_open_path(path) {
        Some(seq![])
    } else if is_open_path(root) && path.len() > n && path.take(n) == root && path[n] == '/'
        && has_plain_ends(path.skip(n + 1)) {
        Some(path.skip(n + 1))
    } else {
        None
    }
}

/// `path` is `root`, a separator and names of which the first and the last
/// count; a `\` does not stand behind a last name `.`, which it would prolong.
pub open spec fn prolongs(root: Seq<char>, path: Seq<char>) -> bool {
    let n = root.len() as int;
    &&& 0 < n < path.len()
    &&& path.take(n) == root
    &&& is_sep(path[n])
    &&& has_plain_ends(path.skip(n + 1))
    &&& path[n] == '\\' && n > 1 && root[n - 1] == '.' ==> root[n - 2] != '/'
}

/// `path` is `root`, which ends in `/`, and names of which the first and the
/// last count.
pub open spec fn continues(root: Seq<char>, path: Seq<char>) -> bool {
    let n = root.len() as int;
    &&& 0 < n < path.len()
    &&& root.last() == '/'
    &&& path.take(n) == root
    &&& has_plain_ends(path.skip(n))
}

/// A path in the long form that Windows gives to a folder on a drive or on a
/// network share: more than the drive or the share alone.
pub open spec fn is_long_path(p: Seq<char>) -> bool {
    &&& p.len() > 7 && p.take(4) == "\\\\?\\"@
    &&& p[5] == ':' && p[6] == '\\' || p.subrange(4, 8) == "UNC\\"@ && exists|i: int, j: int|
        8 <= i < j < p.len() - 1 && #[trigger] p[i] == '\\' && #[trigger] p[j] == '\\'
}

/// A path of a folder that a separator and more names can follow on any
/// platform on which that separator is one.
pub open spec fn is_folder_path(p: Seq<char>) -> bool {
    (is_open_path(p) || is_long_path(p)) && !is_sep(p.last())
}

/// The path without a final `/`.
pub open spec fn bare(p: Seq<char>) -> Seq<char> {
    if p.len() > 1 && p.last() == '/' && !is_sep(p[p.len() - 2]) {
        p.drop_last()
    } else {
        p
    }
}

/// A path without a drive in which every name counts.
pub open spec fn is_plain_root(p: Seq<char>) -> bool {
    &&& is_plain_path(p)
    &&& p.len() > 1 ==> p[1] != ':'
}

/// A path in which every name counts.
pub open spec fn is_plain_path(p: Seq<char>) -> bool {
    &&& p.len() > 0
    &&& p.len() > 1 ==> !is_sep(p.last())
    &&& is_sep(p[0]) || !is_void_name_at(p, 0)
    &&& forall|i: int|
        0 <= i < p.len() - 1 && is_sep(#[trigger] p[i]) ==> !is_void_name_at(p, i + 1)
}

/// The texts are the same up to `k`, and from there on the names differ,
/// whichever characters separate them.
pub open spec fn parts_at(root: Seq<char>, path: Seq<char>, k: int) -> bool {
    &&& 0 <= k <= root.len()
    &&& k <= path.len()
    &&& path.take(k) == root.take(k)
    &&& if k == path.len() {
        k < root.len()
    } else if k == root.len() {
        !is_sep(path[k]) && !(k == 1 && is_sep(root[0]))
    } else {
        &&& path[k] != root[k]
        &&& !(is_sep(path[k]) && is_sep(root[k]))
        &&& k >= 1 && is_sep(path[k - 1]) ==> !is_void_name_at(path, k)
        &&& k >= 2 && is_sep(path[k - 2]) ==> !is_void_name_at(path, k - 1)
    }
}

/// The text shows that `path` does not lie below `root`, a plain path that may
/// end in `/`.
pub open spec fn lies_apart(root: Seq<char>, path: Seq<char>) -> bool {
    is_plain_root(bare(root)) && exists|k: int| #[trigger] parts_at(bare(root), path, k)
}

/// A path as it is shown: what is left of it below the root, the whole where it
/// does not lie there. A path that prolongs or continues the root is shown whole
/// or without the root; unless the root is a folder, the separator that prolongs
/// it may stay. Where the text does not decide, a part of the path.
pub open spec fn is_shown_as(root: Seq<char>, path: Seq<char>, shown: Seq<char>) -> bool {
    let n = root.len() as int;
    &&& below(root, path) matches Some(rest) ==> shown == rest
    &&& lies_apart(root, path) ==> shown == path
    &&& prolongs(root, path) ==> {
        ||| shown == path
        ||| shown == path.skip(n + 1)
        ||| shown == path.skip(n) && !is_folder_path(root)
    }
    &&& continues(root, path) ==> shown == path || shown == path.skip(n)
    &&& text::contains_text(path, shown)
}

/// `root` prolonged by `p`; no `/` is put behind an empty root or behind
/// another.
pub open spec fn joined(root: Seq<char>, p: Seq<char>) -> Seq<char> {
    if root.len() == 0 || root.last() == '/' {
        root + p
    } else {
        root + "/"@ + p
    }
}

/// The names in a path, with `/` between them.
pub open spec fn names(p: Seq<char>) -> Seq<Seq<char>>
    decreases p.len(),
{
    if p.len() == 0 {
        seq![seq![]]
    } else {
        let front = names(p.drop_last());
        if p.last() == '/' {
            front.push(seq![])
        } else {
            front.drop_last().push(front.last().push(p.last()))
        }
    }
}

/// Which ecosystems a repository belongs to.
#[derive(Clone, Copy, Debug, PartialEq, Eq, Structural)]
pub struct DetectedFlags {
    pub node: bool,
    pub rust: bool,
    pub python: bool,
}

/// The words for the ecosystems.
pub open spec fn detected(f: DetectedFlags) -> Seq<Seq<char>> {
    (if f.node {
        seq!["node"@]
    } else {
        seq![]
    }) + (if f.rust {
        seq!["rust"@]
    } else {
        seq![]
    }) + (if f.python {
        seq!["python"@]
    } else {
        seq![]
    })
}

/// An entry that the walk met.
#[derive(Debug)]
pub struct WalkEntry {
    /// The name, where it is text.
    pub name: Option<String>,
    pub is_file: bool,
    /// The path as it is shown, relative to the root.
    pub path: String,
    /// The size, where it can be read.
    pub size: Option<u64>,
}

/// The view of a [`WalkEntry`].
#[verifier::ext_equal]
pub struct EntryView {
    pub name: Option<Seq<char>>,
    pub is_file: bool,
    pub path: Seq<char>,
    pub size: Option<u64>,
}

/// What a walk has found so far.
#[derive(Debug)]
pub struct Tally {
    pub total_files: usize,
    pub total_bytes: u64,
    pub largest: Vec<FileEntry>,
    pub flags: DetectedFlags,
    pub saw_env_file: bool,
}

/// The view of a [`Tally`].
#[verifier::ext_equal]
pub struct TallyView {
    pub total_files: nat,
    pub total_bytes: u64,
    pub largest: Seq<FileView>,
    pub flags: DetectedFlags,
    pub saw_env_file: bool,
}

impl View for WalkEntry {
    type V = EntryView;

    open spec fn view(&self) -> EntryView {
        EntryView {
            name: match self.name {
                Some(n) => Some(n@),
                None => None,
            },
            is_file: self.is_file,
            path: self.path@,
            size: self.size,
        }
    }
}

impl View for Tally {
    type V = TallyView;

    open spec fn view(&self) -> TallyView {
        TallyView {
            total_files: self.total_files as nat,
            total_bytes: self.total_bytes,
            largest: model::files_view(self.largest@),
            flags: self.flags,
            saw_env_file: self.saw_env_file,
        }
    }
}

/// `name` is that of a Node package file.
pub open spec fn is_node_name(name: Seq<char>) -> bool {
    text::same_ignoring_case(name, "package.json"@)
}

/// `name` is that of a Cargo package file.
pub open spec fn is_rust_name(name: Seq<char>) -> bool {
    text::same_ignoring_case(name, "Cargo.toml"@)
}

/// `name` is that of a Python project or requirements file.
pub open spec fn is_python_name(name: Seq<char>) -> bool {
    text::same_ignoring_case(name, "pyproject.toml"@) || text::same_ignoring_case(name, "requirements.txt"@)
}

/// `name` is that of an environment file.
pub open spec fn is_env_name(name: Seq<char>) -> bool {
    text::same_ignoring_case(name, ".env"@) || text::ends_with(name, ".env"@)
}

/// A tally at the start of a walk.
pub open spec fn empty_tally() -> TallyView {
    TallyView {
        total_files: 0,
        total_bytes: 0,
        largest: seq![],
        flags: DetectedFlags { node: false, rust: false, python: false },
        saw_env_file: false,
    }
}

/// The sum, or the largest number where it is beyond that.
pub open spec fn saturating_sum(a: u64, b: u64) -> u64 {
    if a + b <= u64::MAX {
        (a + b) as u64
    } else {
        u64::MAX
    }
}

/// `t` after a file of that name.
pub open spec fn with_name(t: TallyView, name: Option<Seq<char>>) -> TallyView {
    match name {
        None => t,
        Some(n) => TallyView {
            flags: DetectedFlags {
                node: t.flags.node || is_node_name(n),
                rust: t.flags.rust || is_rust_name(n),
                python: t.flags.python || is_python_name(n),
            },
            saw_env_file: t.saw_env_file || is_env_name(n),
            ..t
        },
    }
}

/// `t` after a file of that path and size.
pub open spec fn with_size(t: TallyView, path: Seq<char>, size: Option<u64>) -> TallyView {
    match size {
        None => t,
        Some(bytes) => TallyView {
            total_bytes: saturating_sum(t.total_bytes, bytes),
            largest: largest::keep_largest(t.largest, FileView { path, bytes }, LARGEST_SHOWN as nat),
            ..t
        },
    }
}

/// `t` after another entry. What is no file changes nothing; the first file
/// beyond `max_files` is counted and nothing else.
pub open spec fn after_entry(t: TallyView, e: EntryView, max_files: nat) -> TallyView {
    let counted = TallyView { total_files: t.total_files + 1, ..t };
    if !e.is_file {
        t
    } else if counted.total_files > max_files {
        counted
    } else {
        with_size(with_name(counted, e.name), e.path, e.size)
    }
}

/// The walk goes on behind the entry.
pub open spec fn goes_on(t: TallyView, e: EntryView, max_files: nat) -> bool {
    !e.is_file || after_entry(t, e, max_files).total_files <= max_files
}

/// The tally of a walk that met `entries`, and stopped after the first file
/// beyond `max_files`.
pub open spec fn tally_of(entries: Seq<EntryView>, max_files: nat) -> TallyView
    decreases entries.len(),
{
    if entries.len() == 0 {
        empty_tally()
    } else {
        let t = tally_of(entries.drop_last(), max_files);
        if t.total_files > max_files {
            t
        } else {
            after_entry(t, entries.last(), max_files)
        }
    }
}

impl Default for DetectedFlags {
    fn default() -> (r: Self)
        ensures
            r == (DetectedFlags { node: false, rust: false, python: false }),
    {
        DetectedFlags { node: false, rust: false, python: false }
    }
}

impl DetectedFlags {
    /// The words for the ecosystems.
    pub fn as_vec(self) -> (r: Vec<String>)
        ensures
            text::texts(r@) == detected(self),
    {
        let mut v: Vec<String> = Vec::new();
        if self.node {
            v.push("node".to_owned());
        }
        if self.rust {
            v.push("rust".to_owned());
        }
        if self.python {
            v.push("python".to_owned());
        }
        assert(text::texts(v@) =~= detected(self));
        v
    }
}

/// Whether the walk enters an entry.
pub fn should_descend(name: Option<&str>, depth: usize) -> (r: bool)
    ensures
        r == descends(model::opt_text(name), depth),
{
    match name {
        None => false,
        Some(n) => depth == 0 || !(text::same_text(n, ".git") || text::same_text(n, "target")
            || text::same_text(n, "node_modules") || text::same_text(n, "__pycache__")
            || text::same_text(n, ".pytest_cache") || text::same_text(n, "dist") || text::same_text(
            n,
            "build",
        ) || text::same_text(n, ".next") || text::same_text(n, ".turbo") || text::same_text(n, ".venv")
            || text::same_text(n, "venv")),
    }
}

/// Whether a name, given in lower case, has the ending of a file that is not text.
pub fn name_has_binary_ending(lower: &str) -> (r: bool)
    ensures
        r == has_binary_ending(lower@),
{
    text::text_ends_with(lower, ".png") || text::text_ends_with(lower, ".jpg")
        || text::text_ends_with(lower, ".jpeg") || text::text_ends_with(lower, ".webp")
        || text::text_ends_with(lower, ".gif") || text::text_ends_with(lower, ".mp4")
        || text::text_ends_with(lower, ".mp3") || text::text_ends_with(lower, ".wav")
        || text::text_ends_with(lower, ".ico") || text::text_ends_with(lower, ".pdf")
        || text::text_ends_with(lower, ".zip") || text::text_ends_with(lower, ".rar")
        || text::text_ends_with(lower, ".7z") || text::text_ends_with(lower, ".exe")
        || text::text_ends_with(lower, ".dll") || text::text_ends_with(lower, ".node")
}

/// Whether a file of that name is taken for binary.
pub fn is_likely_binary_path(name: Option<&str>) -> (r: bool)
    ensures
        r == likely_binary(model::opt_text(name)),
        name matches Some(n) ==> (vstd::utf8::is_ascii_chars(n@) ==> r == has_binary_ending(
            n@.map_values(|c: char| text::ascii_lower(c)),
        )),
{
    match name {
        None => false,
        Some(n) => {
            let lower = text::lowercase_text(n);
            name_has_binary_ending(lower.as_str())
        },
    }
}

/// Calls `std::path::Path::strip_prefix`, which compares paths name by name,
/// and gives what is left as text; `None` where `root` is no prefix. Which
/// characters separate names, and what a drive or a network path is, differs
/// between Unix and Windows: stated is what holds on both. What is left of a
/// path that prolongs or continues the root is what stands behind the root,
/// without the separator where the root is a folder. What is left is always a
/// part of `path`.
#[verifier::external_body]
fn strip_prefix(path: &str, root: &str) -> (r: Option<String>)
    ensures
        below(root@, path@) matches Some(rest) ==> r is Some && r->0@ == rest,
        lies_apart(root@, path@) ==> r is None,
        r is Some && prolongs(root@, path@) ==> {
            ||| r->0@ == path@.skip(root@.len() as int + 1)
            ||| r->0@ == path@.skip(root@.len() as int) && !is_folder_path(root@)
        },
        r is Some && continues(root@, path@) ==> r->0@ == path@.skip(root@.len() as int),
        r is Some ==> text::contains_text(path@, r->0@),
{
    std::path::Path::new(path).strip_prefix(root).ok().map(|p| p.display().to_string())
}

/// What was left of a path, or the whole path where it did not lie below the root.
pub fn rest_or_whole(rest: Option<String>, path: &str) -> (r: String)
    ensures
        r@ == (match rest {
            Some(s) => s@,
            None => path@,
        }),
{
    match rest {
        Some(s) => s,
        None => path.to_owned(),
    }
}

/// A path relative to the root, or the whole path where it does not lie below
/// it. Where the text does not decide, the platform's own rules do; some part
/// of the path is given in any case.
pub fn rel_path(root: &str, path: &str) -> (r: String)
    ensures
        is_shown_as(root@, path@, r@),
{
    let rest = strip_prefix(path, root);
    assert(path@.subrange(0, path@.len() as int) =~= path@);
    assert(text::stands_at(path@, path@, 0));
    rest_or_whole(rest, path)
}

impl Tally {
    /// A tally at the start of a walk.
    pub fn new() -> (t: Self)
        ensures
            t@ == empty_tally(),
    {
        let t = Tally {
            total_files: 0,
            total_bytes: 0,
            largest: Vec::new(),
            flags: DetectedFlags::default(),
            saw_env_file: false,
        };
        assert(model::files_view(t.largest@) =~= seq![]);
        t
    }

    /// Notes the name of a file.
    fn note_name(&mut self, name: &Option<String>)
        ensures
            final(self)@ == with_name(
                old(self)@,
                match *name {
                    Some(n) => Some(n@),
                    None => None,
                },
            ),
    {
        if let Some(n) = name {
            let n = n.as_str();
            proof {
                names_are_apart(n@);
            }
            if text::text_same_ignoring_case(n, "package.json") {
                self.flags.node = true;
            } else if text::text_same_ignoring_case(n, "Cargo.toml") {
                self.flags.rust = true;
            } else if text::text_same_ignoring_case(n, "pyproject.toml") || text::text_same_ignoring_case(
                n,
                "requirements.txt",
            ) {
                self.flags.python = true;
            } else if text::text_same_ignoring_case(n, ".env") || text::text_ends_with(n, ".env") {
                self.saw_env_file = true;
            }
        }
    }

    /// Takes in another entry of the walk; `false` says that the walk is over.
    pub fn observe(&mut self, entry: WalkEntry, max_files: usize) -> (go_on: bool)
        requires
            old(self).total_files < usize::MAX,
        ensures
            final(self)@ == after_entry(old(self)@, entry@, max_files as nat),
            go_on == goes_on(old(self)@, entry@, max_files as nat),
    {
        if !entry.is_file {
            return true;
        }
        self.total_files = self.total_files + 1;
        if self.total_files > max_files {
            return false;
        }
        self.note_name(&entry.name);
        if let Some(size) = entry.size {
            self.total_bytes = self.total_bytes.saturating_add(size);
            largest::maybe_push_largest(
                &mut self.largest,
                FileEntry { path: entry.path, bytes: size },
                LARGEST_SHOWN,
            );
        }
        true
    }
}

/// No name stands for two of the kinds of file that the tally notes.
proof fn names_are_apart(n: Seq<char>)
    ensures
        is_node_name(n) ==> !is_rust_name(n) && !is_python_name(n) && !is_env_name(n),
        is_rust_name(n) ==> !is_python_name(n) && !is_env_name(n),
        is_python_name(n) ==> !is_env_name(n),
{
    reveal_strlit("package.json");
    reveal_strlit("Cargo.toml");
    reveal_strlit("pyproject.toml");
    reveal_strlit("requirements.txt");
    reveal_strlit(".env");
    if text::ends_with(n, ".env"@) {
        let end = n.skip(n.len() - 4);
        assert(end[3] == 'v');
        assert(n[n.len() - 1] == 'v');
    }
    if is_node_name(n) || is_rust_name(n) || is_python_name(n) {
        assert(text::ascii_lower(n[n.len() - 1]) != 'v');
        assert(text::ascii_lower(n[0]) != text::ascii_lower('.'));
        assert(text::ascii_lower(n[0]) == 'p' || text::ascii_lower(n[0]) == 'c' || text::ascii_lower(n[0]) == 'r');
    }
}

/// How many of the entries are files.
pub open spec fn files_met(entries: Seq<EntryView>) -> nat
    decreases entries.len(),
{
    if entries.len() == 0 {
        0
    } else {
        files_met(entries.drop_last()) + if entries.last().is_file {
            1nat
        } else {
            0nat
        }
    }
}

/// The first `max_files` files among the entries.
pub open spec fn files_taken(entries: Seq<EntryView>, max_files: nat) -> Seq<EntryView>
    decreases entries.len(),
{
    if entries.len() == 0 {
        seq![]
    } else {
        let front = files_taken(entries.drop_last(), max_files);
        if entries.last().is_file && front.len() < max_files {
            front.push(entries.last())
        } else {
            front
        }
    }
}

/// The files whose size could be read.
pub open spec fn measured(files: Seq<EntryView>) -> Seq<FileView>
    decreases files.len(),
{
    if files.len() == 0 {
        seq![]
    } else {
        match files.last().size {
            Some(bytes) => measured(files.drop_last()).push(FileView { path: files.last().path, bytes }),
            None => measured(files.drop_last()),
        }
    }
}

/// The bytes of all files together.
pub open spec fn sum_of_sizes(files: Seq<FileView>) -> nat
    decreases files.len(),
{
    if files.len() == 0 {
        0
    } else {
        sum_of_sizes(files.drop_last()) + files.last().bytes as nat
    }
}

/// Some file has a name for which `p` holds.
pub open spec fn any_name(files: Seq<EntryView>, p: spec_fn(Seq<char>) -> bool) -> bool {
    exists|i: int| 0 <= i < files.len() && has_name(#[trigger] files[i], p)
}

/// The entry has a name for which `p` holds.
pub open spec fn has_name(e: EntryView, p: spec_fn(Seq<char>) -> bool) -> bool {
    match e.name {
        Some(n) => p(n),
        None => false,
    }
}

proof fn any_name_push(files: Seq<EntryView>, e: EntryView, p: spec_fn(Seq<char>) -> bool)
    ensures
        any_name(files.push(e), p) == (any_name(files, p) || has_name(e, p)),
{
    let all = files.push(e);
    if any_name(files, p) {
        let i = choose|i: int| 0 <= i < files.len() && has_name(#[trigger] files[i], p);
        assert(has_name(all[i], p));
    }
    if has_name(e, p) {
        assert(has_name(all[files.len() as int], p));
    }
    if any_name(all, p) {
        let i = choose|i: int| 0 <= i < all.len() && has_name(#[trigger] all[i], p);
        if i < files.len() {
            assert(has_name(files[i], p));
        }
    }
}

/// A walk counts the files it met, up to one beyond `max_files`. Of the first
/// `max_files` files it lists the largest, from the largest down; it sums up
/// their sizes, as far as the sum can be held; and it notes an ecosystem or an
/// environment file exactly when one of them has such a name.
pub proof fn tally_describes_walk(entries: Seq<EntryView>, max_files: nat)
    ensures
        ({
            let t = tally_of(entries, max_files);
            let taken = files_taken(entries, max_files);
            let sizes = measured(taken);
            &&& t.total_files == if files_met(entries) <= max_files {
                files_met(entries)
            } else {
                max_files + 1
            }
            &&& t.largest == largest::first(largest::by_size(sizes), LARGEST_SHOWN as nat)
            &&& t.largest.len() <= LARGEST_SHOWN
            &&& largest::is_by_size(t.largest)
            &&& t.total_bytes == if sum_of_sizes(sizes) <= u64::MAX {
                sum_of_sizes(sizes)
            } else {
                u64::MAX as nat
            }
            &&& t.flags.node == any_name(taken, |n: Seq<char>| is_node_name(n))
            &&& t.flags.rust == any_name(taken, |n: Seq<char>| is_rust_name(n))
            &&& t.flags.python == any_name(taken, |n: Seq<char>| is_python_name(n))
            &&& t.saw_env_file == any_name(taken, |n: Seq<char>| is_env_name(n))
        }),
{
    tally_invariant(entries, max_files);
    let sizes = measured(files_taken(entries, max_files));
    largest::by_size_is_a_stable_sort(sizes, 0);
    let all = largest::by_size(sizes);
    let list = tally_of(entries, max_files).largest;
    assert forall|i: int, j: int| 0 <= i <= j < list.len() implies #[trigger] list[i].bytes
        >= #[trigger] list[j].bytes by {
        assert(all[i].bytes >= all[j].bytes);
    }
}

proof fn tally_invariant(entries: Seq<EntryView>, max_files: nat)
    ensures
        ({
            let t = tally_of(entries, max_files);
            let taken = files_taken(entries, max_files);
            let sizes = measured(taken);
            &&& t.total_files == if files_met(entries) <= max_files {
                files_met(entries)
            } else {
                max_files + 1
            }
            &&& taken.len() == if files_met(entries) <= max_files {
                files_met(entries)
            } else {
                max_files
            }
            &&& t.largest == largest::first(largest::by_size(sizes), LARGEST_SHOWN as nat)
            &&& t.total_bytes == if sum_of_sizes(sizes) <= u64::MAX {
                sum_of_sizes(sizes)
            } else {
                u64::MAX as nat
            }
            &&& t.flags.node == any_name(taken, |n: Seq<char>| is_node_name(n))
            &&& t.flags.rust == any_name(taken, |n: Seq<char>| is_rust_name(n))
            &&& t.flags.python == any_name(taken, |n: Seq<char>| is_python_name(n))
            &&& t.saw_env_file == any_name(taken, |n: Seq<char>| is_env_name(n))
        }),
    decreases entries.len(),
{
    if entries.len() > 0 {
        let front = entries.drop_last();
        let e = entries.last();
        tally_invariant(front, max_files);
        let before = files_taken(front, max_files);
        let taken = files_taken(entries, max_files);
        if e.is_file && before.len() < max_files {
            any_name_push(before, e, |n: Seq<char>| is_node_name(n));
            any_name_push(before, e, |n: Seq<char>| is_rust_name(n));
            any_name_push(before, e, |n: Seq<char>| is_python_name(n));
            any_name_push(before, e, |n: Seq<char>| is_env_name(n));
            assert(taken.drop_last() =~= before);
            if let Some(bytes) = e.size {
                let f = FileView { path: e.path, bytes };
                largest::keep_largest_step(measured(before), f, LARGEST_SHOWN as nat);
                assert(measured(taken) == measured(before).push(f));
                assert(measured(taken).drop_last() =~= measured(before));
            }
        }
    } else {
        assert(largest::by_size(measured(files_taken(entries, max_files))) =~= seq![]);
    }
}

/// Taking in the entries of a walk one by one, until the walk is over, gives
/// the tally of the walk; what it might meet after that changes nothing.
pub proof fn tally_follows_walk(entries: Seq<EntryView>, e: EntryView, max_files: nat)
    ensures
        tally_of(Seq::empty(), max_files) == empty_tally(),
        tally_of(entries, max_files).total_files <= max_files ==> tally_of(entries.push(e), max_files)
            == after_entry(tally_of(entries, max_files), e, max_files),
        tally_of(entries, max_files).total_files > max_files ==> tally_of(entries.push(e), max_files)
            == tally_of(entries, max_files),
{
    assert(entries.push(e).drop_last() =~= entries);
}

/// A relative path, put behind a root, is shown as it was: whatever the root is
/// that can be prolonged, empty or ended by `/` too, and whatever names the path
/// holds, as long as it begins and ends with one that counts.
pub proof fn joined_path_comes_back(root: Seq<char>, p: Seq<char>)
    requires
        root.len() == 0 || is_open_path(root) || root.last() == '/' && !has_double_start(root),
        p.len() > 0,
        has_plain_ends(p),
    ensures
        below(root, joined(root, p)) == Some(p),
        forall|shown: Seq<char>| is_shown_as(root, joined(root, p), shown) ==> shown == p,
{
    reveal_strlit("/");
    let n = root.len() as int;
    let path = joined(root, p);
    if n == 0 {
        assert(path =~= p);
    } else {
        assert(path.take(n) =~= root);
        if root.last() == '/' {
            assert(path.skip(n) =~= p);
        } else {
            assert(path.skip(n + 1) =~= p);
            assert(path[n] == '/');
        }
    }
    assert(path.len() > n);
}

/// A relative path, put behind any root whatever, is shown as it was or whole,
/// or keeps the `/` that was put before it.
pub proof fn joined_path_keeps_its_names(root: Seq<char>, p: Seq<char>)
    requires
        p.len() > 0,
        has_plain_ends(p),
    ensures
        forall|shown: Seq<char>| #[trigger]
            is_shown_as(root, joined(root, p), shown) ==> {
                ||| shown == p
                ||| shown == joined(root, p)
                ||| shown == "/"@ + p
            },
{
    reveal_strlit("/");
    let n = root.len() as int;
    let path = joined(root, p);
    if n == 0 {
        joined_path_comes_back(root, p);
    } else {
        assert(path.take(n) =~= root);
        if root.last() == '/' {
            assert(path.skip(n) =~= p);
            assert(continues(root, path));
        } else {
            assert(path.skip(n + 1) =~= p);
            assert(path.skip(n) =~= "/"@ + p);
            assert(prolongs(root, path));
        }
    }
}

/// A relative path, put behind a folder with a `\` between them, is shown as it
/// was where `\` separates names, and whole where it does not.
pub proof fn path_behind_backslash_comes_back_or_stays(root: Seq<char>, p: Seq<char>)
    requires
        is_folder_path(root),
        root.len() > 1 && root.last() == '.' ==> root[root.len() - 2] != '/',
        p.len() > 0,
        has_plain_ends(p),
    ensures
        forall|shown: Seq<char>| #[trigger]
            is_shown_as(root, root.push('\\') + p, shown) ==> shown == p || shown == root.push('\\') + p,
{
    let n = root.len() as int;
    let path = root.push('\\') + p;
    assert(path.take(n) =~= root);
    assert(path.skip(n + 1) =~= p);
    assert(prolongs(root, path));
}

/// Every path can be shown, and where the text decides, in one way: what is left
/// below the root, or the whole.
pub proof fn shown_path_is_unique(root: Seq<char>, path: Seq<char>)
    ensures
        !(below(root, path) is Some && lies_apart(root, path)),
        is_shown_as(
            root,
            path,
            match below(root, path) {
                Some(rest) => rest,
                None => path,
            },
        ),
{
    let n = root.len() as int;
    let b = bare(root);
    let m = b.len() as int;
    if below(root, path) is Some && lies_apart(root, path) {
        let k = choose|k: int| #[trigger] parts_at(b, path, k);
        assert(path.len() >= m && path.take(m) =~= b) by {
            if path != root && root != path.push('/') {
                assert(path.take(m) =~= path.take(n).take(m));
            }
        }
        if k < m {
            assert(path.take(m)[k] == path[k]);
        }
        if path.len() > m && n > m {
            assert(path.take(n)[m] == path[m]);
        }
    }
    assert(path.subrange(0, path.len() as int) =~= path);
    assert(text::stands_at(path, path, 0));
    assert(path.subrange(0, 0) =~= seq![]);
    assert(text::stands_at(path, seq![], 0));
    if path.len() > n {
        assert(path.subrange(n, path.len() as int) =~= path.skip(n));
        assert(text::stands_at(path, path.skip(n), n));
        assert(path.subrange(n + 1, path.len() as int) =~= path.skip(n + 1));
        assert(text::stands_at(path, path.skip(n + 1), n + 1));
    }
}

/// How long two texts are the same.
proof fn same_until(a: Seq<char>, b: Seq<char>) -> (k: int)
    ensures
        0 <= k <= a.len(),
        k <= b.len(),
        a.take(k) == b.take(k),
        k < a.len() && k < b.len() ==> a[k] != b[k],
    decreases a.len(),
{
    if a.len() == 0 || b.len() == 0 {
        assert(a.take(0) =~= b.take(0));
        0
    } else if a[0] != b[0] {
        assert(a.take(0) =~= b.take(0));
        0
    } else {
        let k = same_until(a.skip(1), b.skip(1));
        assert(a.take(k + 1) =~= seq![a[0]] + a.skip(1).take(k));
        assert(b.take(k + 1) =~= seq![b[0]] + b.skip(1).take(k));
        if k + 1 < a.len() && k + 1 < b.len() {
            assert(a.skip(1)[k] == a[k + 1]);
            assert(b.skip(1)[k] == b[k + 1]);
        }
        k + 1
    }
}

/// Names put together give the path.
proof fn names_make_path(p: Seq<char>)
    ensures
        names(p).len() > 0,
        text::join(names(p), "/"@) == p,
    decreases p.len(),
{
    reveal_strlit("/");
    if p.len() == 0 {
        assert(text::join(names(p), "/"@) =~= p);
    } else {
        let q = p.drop_last();
        names_make_path(q);
        let front = names(q);
        let all = names(p);
        if p.last() == '/' {
            assert(all.drop_last() =~= front);
            assert(text::join(all, "/"@) =~= p);
        } else {
            assert(all.drop_last() =~= front.drop_last());
            let head = text::join(front.drop_last(), "/"@) + "/"@;
            assert(all.last() =~= front.last().push(p.last()));
            if front.len() > 1 {
                assert(text::join(front, "/"@) == head + front.last());
                assert(text::join(all, "/"@) == head + all.last());
            }
            assert(text::join(all, "/"@) =~= q.push(p.last()));
            assert(p =~= q.push(p.last()));
        }
    }
}

/// The names in a path that was prolonged.
proof fn names_of_prolonged(a: Seq<char>, b: Seq<char>)
    ensures
        names(a + "/"@ + b) == names(a) + names(b),
    decreases b.len(),
{
    reveal_strlit("/");
    let p = a + "/"@ + b;
    if b.len() == 0 {
        assert(p.drop_last() =~= a);
        assert(names(p) =~= names(a) + names(b));
    } else {
        let q = b.drop_last();
        names_of_prolonged(a, q);
        names_make_path(q);
        assert(p.drop_last() =~= a + "/"@ + q);
        assert(names(p) =~= names(a) + names(b));
    }
}

/// Two lists of names put together.
proof fn join_of_both(a: Seq<Seq<char>>, b: Seq<Seq<char>>)
    requires
        a.len() > 0,
        b.len() > 0,
    ensures
        text::join(a + b, "/"@) == text::join(a, "/"@) + "/"@ + text::join(b, "/"@),
    decreases b.len(),
{
    let all = a + b;
    assert(all.drop_last() =~= a + b.drop_last());
    if b.len() == 1 {
        assert(all.drop_last() =~= a);
    } else {
        join_of_both(a, b.drop_last());
        assert(text::join(all, "/"@) =~= text::join(a, "/"@) + "/"@ + text::join(b, "/"@));
    }
}

/// A path whose names are all ordinary and separated by `/` is shown relative to
/// such a root, ended by `/` or not, exactly when it begins with the names of
/// the root, and whole otherwise: the paths are compared name by name.
pub proof fn paths_compare_by_names(root: Seq<char>, path: Seq<char>)
    requires
        is_plain_root(bare(root)),
        is_plain_path(path),
        !root.contains('\\'),
        !path.contains('\\'),
    ensures
        below(root, path) is Some || lies_apart(root, path),
        root != "/"@ ==> (below(root, path) is Some <==> names(bare(root)).len() <= names(path).len()
            && names(path).take(names(bare(root)).len() as int) == names(bare(root))),
        root == "/"@ ==> (below(root, path) is Some <==> path[0] == '/'),
        below(root, path) == below(bare(root), path),
{
    reveal_strlit("/");
    let b = bare(root);
    let n = root.len() as int;
    if b == root {
        plain_paths_compare_by_names(root, path);
    } else {
        assert(b.contains('\\') ==> root.contains('\\')) by {
            if b.contains('\\') {
                let i = choose|i: int| 0 <= i < b.len() && b[i] == '\\';
                assert(root[i] == '\\');
            }
        }
        assert(bare(b) == b);
        plain_paths_compare_by_names(b, path);
        assert(root =~= b.push('/'));
        assert(b[0] == '/' ==> b.len() > 1);
        assert(is_open_path(b)) by {
            if b.len() > 1 && is_sep(b[0]) {
                assert(!is_void_name_at(b, 1));
            }
        }
        assert(root[0] == b[0]);
        assert(b.len() > 1 ==> root[1] == b[1]);
        if path.len() >= n {
            assert(path.take(n) == root <==> path.take(n - 1) == b && path[n - 1] == '/') by {
                assert(path.take(n) =~= path.take(n - 1).push(path[n - 1]));
                if path.take(n) == root {
                    assert(path.take(n - 1) =~= root.take(n - 1));
                    assert(root.take(n - 1) =~= b);
                    assert(path.take(n)[n - 1] == path[n - 1]);
                }
            }
            if path[n - 1] == '/' {
                plain_path_ends(path, n);
            }
        }
        if root == path.push('/') {
            assert(path =~= b);
        }
    }
}

/// The same for a root that does not end in `/`.
proof fn plain_paths_compare_by_names(root: Seq<char>, path: Seq<char>)
    requires
        is_plain_root(root),
        bare(root) == root,
        is_plain_path(path),
        !root.contains('\\'),
        !path.contains('\\'),
    ensures
        below(root, path) is Some || lies_apart(root, path),
        root != "/"@ ==> (below(root, path) is Some <==> names(root).len() <= names(path).len() && names(
            path,
        ).take(names(root).len() as int) == names(root)),
        root == "/"@ ==> (below(root, path) is Some <==> path[0] == '/'),
{
    reveal_strlit("/");
    let n = root.len() as int;
    assert(forall|i: int| 0 <= i < root.len() ==> #[trigger] root[i] != '\\');
    assert(forall|i: int| 0 <= i < path.len() ==> #[trigger] path[i] != '\\');
    if root[0] == '/' && n == 1 {
        assert(root =~= "/"@);
    }
    assert(is_open_path(root) || root == "/"@) by {
        if n > 1 && is_sep(root[0]) {
            assert(!is_void_name_at(root, 1));
        }
    }
    if path[0] == '/' {
        plain_path_ends(path, 1);
    }
    if path.len() > n && path[n] == '/' {
        plain_path_ends(path, n + 1);
    }
    let k = same_until(root, path);
    if below(root, path) is None {
        assert(parts_at(root, path, k)) by {
            if k == path.len() && k == n {
                assert(path.take(k) =~= path);
                assert(root.take(k) =~= root);
            } else if k < path.len() && k == n {
                assert(root.take(k) =~= root);
            } else if k < path.len() {
                if k >= 1 {
                    assert(path.take(k)[k - 1] == path[k - 1]);
                    assert(root.take(k)[k - 1] == root[k - 1]);
                }
            }
        }
    }
    if root != "/"@ {
        if below(root, path) is Some {
            if path == root {
                assert(names(path).take(names(root).len() as int) =~= names(root));
            } else {
                let rest = path.skip(n + 1);
                assert(path =~= root + "/"@ + rest);
                names_of_prolonged(root, rest);
                assert(names(path).take(names(root).len() as int) =~= names(root));
            }
        }
        if names(root).len() <= names(path).len() && names(path).take(names(root).len() as int) == names(
            root,
        ) {
            let tail = names(path).skip(names(root).len() as int);
            names_make_path(root);
            names_make_path(path);
            assert(names(path) =~= names(root) + tail);
            if tail.len() == 0 {
                assert(names(path) =~= names(root));
            } else {
                join_of_both(names(root), tail);
                assert(path.take(n) =~= root);
                assert(path[n] == '/');
            }
        }
    }
}

/// A plain path cut behind a `/` begins and ends with names that count.
proof fn plain_path_ends(path: Seq<char>, i: int)
    requires
        is_plain_path(path),
        1 <= i <= path.len(),
        path[i - 1] == '/',
    ensures
        has_plain_ends(path.skip(i)),
{
    let rest = path.skip(i);
    if rest.len() > 0 {
        assert(!is_void_name_at(path, i));
        assert(rest[0] == path[i]);
        assert(rest.last() == path.last());
        if rest.len() > 1 {
            assert(rest[1] == path[i + 1]);
            let m = path.len() - 2;
            assert(rest[rest.len() - 2] == path[m]);
            if is_sep(path[m]) {
                assert(!is_void_name_at(path, m + 1));
            }
        }
    }
}

/// Below the root the walk enters every entry whose name is text, but for those
/// of version control data, dependencies, caches and build outputs; the root is
/// entered whatever its name.
pub proof fn walk_leaves_out_generated_folders(name: Seq<char>, depth: usize)
    ensures
        depth == 0 ==> descends(Some(name), depth),
        depth > 0 ==> (descends(Some(name), depth) <==> !seq![
            ".git"@,
            "target"@,
            "node_modules"@,
            "__pycache__"@,
            ".pytest_cache"@,
            "dist"@,
            "build"@,
            ".next"@,
            ".turbo"@,
            ".venv"@,
            "venv"@,
        ].contains(name)),
        !descends(None, depth),
{
    let skipped = seq![
        ".git"@,
        "target"@,
        "node_modules"@,
        "__pycache__"@,
        ".pytest_cache"@,
        "dist"@,
        "build"@,
        ".next"@,
        ".turbo"@,
        ".venv"@,
        "venv"@,
    ];
    assert(skipped[0] == ".git"@);
    assert(skipped[1] == "target"@);
    assert(skipped[2] == "node_modules"@);
    assert(skipped[3] == "__pycache__"@);
    assert(skipped[4] == ".pytest_cache"@);
    assert(skipped[5] == "dist"@);
    assert(skipped[6] == "build"@);
    assert(skipped[7] == ".next"@);
    assert(skipped[8] == ".turbo"@);
    assert(skipped[9] == ".venv"@);
    assert(skipped[10] == "venv"@);
}

/// `lower` is some text followed by `ending`.
pub open spec fn is_ended_by(lower: Seq<char>, ending: Seq<char>) -> bool {
    exists|front: Seq<char>| lower == #[trigger] (front + ending)
}

/// A file is taken for binary exactly when its name, in lower case, ends as those
/// of pictures, sounds, films, documents, archives, programs and libraries do.
pub proof fn binary_files_are_known_by_their_ending(name: Seq<char>)
    ensures
        likely_binary(Some(name)) <==> {
            let n = text::unicode_lowercase(name);
            ||| is_ended_by(n, ".png"@) || is_ended_by(n, ".jpg"@) || is_ended_by(n, ".jpeg"@)
            ||| is_ended_by(n, ".webp"@) || is_ended_by(n, ".gif"@) || is_ended_by(n, ".ico"@)
            ||| is_ended_by(n, ".mp4"@) || is_ended_by(n, ".mp3"@) || is_ended_by(n, ".wav"@)
            ||| is_ended_by(n, ".pdf"@) || is_ended_by(n, ".zip"@) || is_ended_by(n, ".rar"@)
            ||| is_ended_by(n, ".7z"@) || is_ended_by(n, ".exe"@) || is_ended_by(n, ".dll"@)
            ||| is_ended_by(n, ".node"@)
        },
        likely_binary(Some(name)) == has_binary_ending(text::unicode_lowercase(name)),
        !likely_binary(None),
{
    let n = text::unicode_lowercase(name);
    text::ending_is_what_stands_last(n, ".png"@);
    text::ending_is_what_stands_last(n, ".jpg"@);
    text::ending_is_what_stands_last(n, ".jpeg"@);
    text::ending_is_what_stands_last(n, ".webp"@);
    text::ending_is_what_stands_last(n, ".gif"@);
    text::ending_is_what_stands_last(n, ".mp4"@);
    text::ending_is_what_stands_last(n, ".mp3"@);
    text::ending_is_what_stands_last(n, ".wav"@);
    text::ending_is_what_stands_last(n, ".ico"@);
    text::ending_is_what_stands_last(n, ".pdf"@);
    text::ending_is_what_stands_last(n, ".zip"@);
    text::ending_is_what_stands_last(n, ".rar"@);
    text::ending_is_what_stands_last(n, ".7z"@);
    text::ending_is_what_stands_last(n, ".exe"@);
    text::ending_is_what_stands_last(n, ".dll"@);
    text::ending_is_what_stands_last(n, ".node"@);
}

/// `name` is a text whose letters, capital or small, are those of `word`.
pub open spec fn is_spelled(name: Option<Seq<char>>, word: Seq<char>) -> bool {
    name matches Some(n) && n.len() == word.len() && forall|i: int|
        0 <= i < n.len() ==> text::is_same_letter(#[trigger] n[i], word[i])
}

/// A file within the limit makes the tally note Node by the name `package.json`,
/// Rust by `Cargo.toml`, Python by `pyproject.toml` or `requirements.txt`, in
/// capital or small letters, and an environment file by `.env`, in either, or by
/// a name that ends so; no other name is noted, and what was noted stays.
pub proof fn file_names_tell_ecosystems(t: TallyView, e: EntryView, max_files: nat)
    requires
        e.is_file,
        t.total_files < max_files,
    ensures
        ({
            let after = after_entry(t, e, max_files);
            &&& after.flags.node <==> t.flags.node || is_spelled(e.name, "package.json"@)
            &&& after.flags.rust <==> t.flags.rust || is_spelled(e.name, "Cargo.toml"@)
            &&& after.flags.python <==> t.flags.python || is_spelled(e.name, "pyproject.toml"@) || is_spelled(
                e.name,
                "requirements.txt"@,
            )
            &&& after.saw_env_file <==> t.saw_env_file || is_spelled(e.name, ".env"@) || (e.name matches Some(
                n,
            ) && is_ended_by(n, ".env"@))
        }),
{
    if let Some(n) = e.name {
        text::case_is_all_that_differs(n, "package.json"@);
        text::case_is_all_that_differs(n, "Cargo.toml"@);
        text::case_is_all_that_differs(n, "pyproject.toml"@);
        text::case_is_all_that_differs(n, "requirements.txt"@);
        text::case_is_all_that_differs(n, ".env"@);
        text::ending_is_what_stands_last(n, ".env"@);
    }
}

/// An entry that is no file changes nothing. A file is counted. The first one
/// beyond the limit changes nothing else; one within it adds its size, where
/// that is known, to the sum, which stops at the largest number, and takes its
/// place among the ten largest.
pub proof fn files_are_counted_and_measured(t: TallyView, e: EntryView, max_files: nat)
    ensures
        ({
            let after = after_entry(t, e, max_files);
            let f = FileView { path: e.path, bytes: e.size->0 };
            &&& !e.is_file ==> after == t
            &&& e.is_file ==> after.total_files == t.total_files + 1
            &&& e.is_file && t.total_files >= max_files ==> after == (TallyView {
                total_files: t.total_files + 1,
                ..t
            })
            &&& e.is_file && t.total_files < max_files && e.size is None ==> after.total_bytes
                == t.total_bytes && after.largest == t.largest
            &&& e.is_file && t.total_files < max_files && e.size is Some ==> {
                &&& after.total_bytes <= u64::MAX
                &&& t.total_bytes + e.size->0 <= u64::MAX ==> after.total_bytes == t.total_bytes + e.size->0
                &&& t.total_bytes + e.size->0 > u64::MAX ==> after.total_bytes == u64::MAX
                &&& after.largest.len() == if t.largest.len() + 1 <= 10 {
                    t.largest.len() + 1
                } else {
                    10
                }
                &&& largest::is_by_size(after.largest)
                &&& forall|i: int|
                    0 <= i < after.largest.len() ==> #[trigger] after.largest[i] == largest::by_size(
                        t.largest.push(f),
                    )[i]
            }
        }),
{
    let f = FileView { path: e.path, bytes: e.size->0 };
    largest::no_larger_file_is_left_out(t.largest, f, 10);
    largest::keep_largest_is_bounded(t.largest, f, 10);
}

/// Some file of the walk, among the first `max_files`, is spelled so.
pub open spec fn walk_has(entries: Seq<EntryView>, max_files: nat, word: Seq<char>) -> bool {
    exists|i: int|
        0 <= i < files_taken(entries, max_files).len() && is_spelled(
            (#[trigger] files_taken(entries, max_files)[i]).name,
            word,
        )
}

/// A whole walk notes an ecosystem exactly when one of the first `max_files`
/// files has the name of one of its package files.
pub proof fn walk_tells_ecosystems(entries: Seq<EntryView>, max_files: nat)
    ensures
        ({
            let flags = tally_of(entries, max_files).flags;
            &&& flags.node <==> walk_has(entries, max_files, "package.json"@)
            &&& flags.rust <==> walk_has(entries, max_files, "Cargo.toml"@)
            &&& flags.python <==> walk_has(entries, max_files, "pyproject.toml"@) || walk_has(
                entries,
                max_files,
                "requirements.txt"@,
            )
        }),
{
    tally_describes_walk(entries, max_files);
    let taken = files_taken(entries, max_files);
    assert forall|i: int| 0 <= i < taken.len() implies {
        let e = #[trigger] taken[i];
        &&& has_name(e, |n: Seq<char>| is_node_name(n)) == is_spelled(e.name, "package.json"@)
        &&& has_name(e, |n: Seq<char>| is_rust_name(n)) == is_spelled(e.name, "Cargo.toml"@)
        &&& has_name(e, |n: Seq<char>| is_python_name(n)) == (is_spelled(e.name, "pyproject.toml"@)
            || is_spelled(e.name, "requirements.txt"@))
    } by {
        if let Some(n) = taken[i].name {
            text::case_is_all_that_differs(n, "package.json"@);
            text::case_is_all_that_differs(n, "Cargo.toml"@);
            text::case_is_all_that_differs(n, "pyproject.toml"@);
            text::case_is_all_that_differs(n, "requirements.txt"@);
        }
    }
}

/// Nothing is noted before the walk begins.
pub proof fn walk_begins_with_nothing()
    ensures
        empty_tally().total_files == 0,
        empty_tally().total_bytes == 0,
        empty_tally().largest.len() == 0,
        !empty_tally().flags.node && !empty_tally().flags.rust && !empty_tally().flags.python,
        !empty_tally().saw_env_file,
{
}

/// The words for the ecosystems are given exactly where they were noted, each
/// once: Node first, Python last.
pub proof fn ecosystems_have_words(f: DetectedFlags)
    ensures
        ({
            let words = detected(f);
            let node: int = if f.node { 1 } else { 0 };
            let rust: int = if f.rust { 1 } else { 0 };
            let python: int = if f.python { 1 } else { 0 };
            &&& words.len() == node + rust + python
            &&& f.node ==> words[0] == "node"@
            &&& f.rust ==> words[node] == "rust"@
            &&& f.python ==> words[node + rust] == "python"@
        }),
{
}

/// The walk goes on behind what is no file, and behind each of the first
/// `max_files` files; the next file ends it.
pub proof fn walk_ends_with_the_first_file_beyond(t: TallyView, e: EntryView, max_files: nat)
    ensures
        goes_on(t, e, max_files) <==> !e.is_file || t.total_files < max_files,
{
}

/// The views of an entry and of a tally show every field of them.
pub proof fn views_show_whole_entry_and_tally(e: WalkEntry, t: Tally, i: int)
    ensures
        e@.name is Some == e.name is Some,
        e.name is Some ==> e@.name->0 == e.name->0@,
        e@.is_file == e.is_file,
        e@.path == e.path@,
        e@.size == e.size,
        t@.total_files == t.total_files,
        t@.total_bytes == t.total_bytes,
        t@.flags == t.flags,
        t@.saw_env_file == t.saw_env_file,
        t@.largest.len() == t.largest@.len(),
        0 <= i < t.largest@.len() ==> t@.largest[i].path == t.largest@[i].path@ && t@.largest[i].bytes
            == t.largest@[i].bytes,
{
}

} // verus!
