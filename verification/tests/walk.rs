use repo_health::largest::{maybe_push_largest, sort_by_size};
use repo_health::model::FileEntry;
use repo_health::walk::{
    is_likely_binary_path, name_has_binary_ending, rel_path, rest_or_whole, should_descend, DetectedFlags, Tally,
    WalkEntry,
};

fn file(path: &str, bytes: u64) -> FileEntry {
    FileEntry { path: path.to_string(), bytes }
}

fn entry(name: &str, size: u64) -> WalkEntry {
    WalkEntry { name: Some(name.to_string()), is_file: true, path: name.to_string(), size: Some(size) }
}

fn shown(list: &[FileEntry]) -> Vec<(String, u64)> {
    list.iter().map(|f| (f.path.clone(), f.bytes)).collect()
}

#[test]
fn largest_list_is_stable_and_bounded() {
    let mut list = Vec::new();
    for (path, bytes) in [("a", 5), ("b", 9), ("c", 5), ("d", 1), ("e", 9)] {
        maybe_push_largest(&mut list, file(path, bytes), 4);
    }
    let expected: Vec<(String, u64)> =
        [("b", 9), ("e", 9), ("a", 5), ("c", 5)].iter().map(|(p, b)| (p.to_string(), *b)).collect();
    assert_eq!(shown(&list), expected);
    maybe_push_largest(&mut list, file("f", 2), 0);
    assert!(list.is_empty());
}

#[test]
fn sorting_agrees_with_std() {
    let mut n: u64 = 7;
    for len in 0..40u64 {
        let mut list = Vec::new();
        for i in 0..len {
            n = n.wrapping_mul(6364136223846793005).wrapping_add(1442695040888963407);
            list.push(file(&format!("f{i}"), (n >> 33) % 6));
        }
        let mut expected = list.clone();
        expected.sort_by_key(|f| std::cmp::Reverse(f.bytes));
        sort_by_size(&mut list);
        assert_eq!(shown(&list), shown(&expected));
    }
}

#[test]
fn walk_enters_root_and_ordinary_names() {
    assert!(should_descend(Some("target"), 0));
    assert!(should_descend(Some("src"), 1));
    assert!(should_descend(Some("Target"), 3));
    assert!(!should_descend(None, 0));
    for name in [
        ".git", "target", "node_modules", "__pycache__", ".pytest_cache", "dist", "build", ".next", ".turbo", ".venv",
        "venv",
    ] {
        assert!(!should_descend(Some(name), 1), "{name}");
    }
}

#[test]
fn binary_files_are_known_by_their_names() {
    for ending in [
        "png", "jpg", "jpeg", "webp", "gif", "mp4", "mp3", "wav", "ico", "pdf", "zip", "rar", "7z", "exe", "dll",
        "node",
    ] {
        assert!(is_likely_binary_path(Some(&format!("x.{ending}"))), "{ending}");
        assert!(is_likely_binary_path(Some(&format!("X.{}", ending.to_uppercase()))), "{ending}");
        assert!(!name_has_binary_ending(&format!("X.{}", ending.to_uppercase())) || ending == "7z", "{ending}");
    }
    assert!(!is_likely_binary_path(Some("png")));
    assert!(!is_likely_binary_path(Some("a.png.txt")));
    assert!(!is_likely_binary_path(None));
    assert!(name_has_binary_ending("é.png"));
}

#[test]
fn paths_are_shown_below_the_root() {
    assert_eq!(rel_path("/repo", "/repo/src/a.rs"), "src/a.rs");
    assert_eq!(rel_path("/repo", "/repo"), "");
    assert_eq!(rel_path("/", "/etc/hosts"), "etc/hosts");
    assert_eq!(rel_path("/repo", "/repository/a"), "/repository/a");
    assert_eq!(rel_path("/repo/x", "/repo"), "/repo");
    assert_eq!(rel_path("repo", "repo/.github/a..b"), ".github/a..b");
    assert_eq!(rel_path("/", "repo"), "repo");
    assert_eq!(rel_path("r", "/r/a"), "/r/a");
    assert_eq!(rest_or_whole(Some("a".to_string()), "/x/a"), "a");
    assert_eq!(rest_or_whole(None, "/x/a"), "/x/a");
}

#[test]
fn paths_with_unusual_names_are_shown_below_the_root() {
    assert_eq!(rel_path("/repo", "/repo/a:b/c:d"), "a:b/c:d");
    assert_eq!(rel_path("/re:po", "/re:po/a"), "a");
    assert_eq!(rel_path("/repo", "/repo/a\\b"), "a\\b");
    assert_eq!(rel_path("/repo", "/repo/a/../b"), "a/../b");
    assert_eq!(rel_path("/repo", "/repo/.."), "..");
    assert_eq!(rel_path("/repo", "/repo/a//b/./c"), "a//b/./c");
    assert_eq!(rel_path("/repo/", "/repo//a"), "a");
    assert_eq!(rel_path("/repo", "/repo/"), "");
    assert_eq!(rel_path(".", "./a"), "a");
    assert_eq!(rel_path("..", "../a"), "a");
    assert_eq!(rel_path("/", "/a:b"), "a:b");
    assert_eq!(rel_path("a\\b", "a\\b/c"), "c");
    assert_eq!(rel_path("c:/r", "c:/r/a"), "a");
}

#[test]
fn paths_outside_the_root_are_shown_whole() {
    assert_eq!(rel_path("/r/a", "/r/ab/x"), "/r/ab/x");
    assert_eq!(rel_path("/r/a", "/r/a:b/x"), "/r/a:b/x");
    assert_eq!(rel_path("/r/a", "/r/b\\a"), "/r/b\\a");
    assert_eq!(rel_path("/r/a", "/r/../a"), "/r/../a");
    assert_eq!(rel_path("/r/a", "/r/"), "/r/");
    assert_eq!(rel_path("/r", "c:/r/a"), "c:/r/a");
    assert_eq!(rel_path("a", "./a"), "./a");
    assert_eq!(rel_path("a", ""), "");
    assert_eq!(rel_path("/r/ab", "/r/a/b"), "/r/a/b");
    assert_eq!(rel_path("/r/..", "/r/a"), "/r/a");
}

#[test]
fn roots_may_be_empty_or_end_in_a_slash() {
    assert_eq!(rel_path("r/", "r/p"), "p");
    assert_eq!(rel_path("/repo/", "/repo/src/a:b.rs"), "src/a:b.rs");
    assert_eq!(rel_path("/repo/", "/repo/"), "");
    assert_eq!(rel_path("/repo/", "/repo"), "");
    assert_eq!(rel_path("./", "./a"), "a");
    assert_eq!(rel_path("c:/", "c:/a"), "a");
    assert_eq!(rel_path("r/", "rx/p"), "rx/p");
    assert_eq!(rel_path("/r/a/", "/r/ab/x"), "/r/ab/x");
    assert_eq!(rel_path("/r/a/", "/r"), "/r");
    assert_eq!(rel_path("", "a/b"), "a/b");
    assert_eq!(rel_path("", "/a/.."), "/a/..");
    assert_eq!(rel_path("", "c:a"), "c:a");
    assert_eq!(rel_path("", ""), "");
}

#[test]
fn paths_behind_a_backslash_come_back_or_stay() {
    let roots = ["/repo", "r", ".", "c:\\r", "\\\\?\\C:\\r", "\\\\?\\UNC\\host\\share\\r"];
    for root in roots {
        let path = format!("{root}\\a\\b:c");
        let shown = rel_path(root, &path);
        assert!(shown == path || shown == "a\\b:c", "{shown}");
    }
    for root in ["//host/share/", "//", "\\\\?\\C:/"] {
        let path = format!("{root}a");
        let shown = rel_path(root, &path);
        assert!(shown == path || shown == "a", "{shown}");
    }
    for root in ["c:", "\\\\?\\C:", "/repo/", "//host/share", "\\"] {
        for sep in ["\\", "/"] {
            let path = format!("{root}{sep}a");
            let shown = rel_path(root, &path);
            assert!(shown == path || shown == "a" || shown == format!("{sep}a"), "{shown}");
        }
    }
}

#[test]
fn tally_counts_names_and_sizes() {
    let mut t = Tally::new();
    assert!(t.observe(entry("PACKAGE.json", 10), 100));
    assert!(t.observe(entry("cargo.toml", u64::MAX), 100));
    assert!(t.observe(entry("prod.env", 20), 100));
    assert!(t.observe(WalkEntry { size: None, ..entry("Requirements.txt", 0) }, 100));
    assert!(t.observe(WalkEntry { name: None, ..entry("?", 30) }, 100));
    assert!(t.observe(WalkEntry { is_file: false, ..entry(".env", 40) }, 100));
    assert_eq!(t.total_files, 5);
    assert_eq!(t.total_bytes, u64::MAX);
    assert_eq!(t.flags, DetectedFlags { node: true, rust: true, python: true });
    assert!(t.saw_env_file);
    assert_eq!(
        shown(&t.largest).iter().map(|(p, _)| p.as_str()).collect::<Vec<_>>(),
        ["cargo.toml", "?", "prod.env", "PACKAGE.json"]
    );
    assert_eq!(t.flags.as_vec(), ["node", "rust", "python"]);
    assert!(DetectedFlags::default().as_vec().is_empty());
}

#[test]
fn environment_files_are_known_by_their_names() {
    for (name, env) in [(".env", true), (".ENV", true), ("a.env", true), ("a.ENV", false), (".env.local", false)] {
        let mut t = Tally::new();
        t.observe(entry(name, 0), 10);
        assert_eq!(t.saw_env_file, env, "{name}");
    }
}

#[test]
fn tally_stops_one_beyond_the_limit() {
    let mut t = Tally::new();
    assert!(t.observe(entry("a", 1), 2));
    assert!(t.observe(entry("b", 2), 2));
    assert!(!t.observe(entry("package.json", 4), 2));
    assert_eq!(t.total_files, 3);
    assert_eq!(t.total_bytes, 3);
    assert!(!t.flags.node);
    let mut t = Tally::new();
    assert!(!t.observe(entry("a", 1), 0));
    assert_eq!(t.total_files, 1);
}

#[test]
fn tally_keeps_the_ten_largest() {
    let mut t = Tally::new();
    for i in 0..25u64 {
        t.observe(entry(&format!("f{i}"), (i * 7) % 25), 100);
    }
    let sizes: Vec<u64> = t.largest.iter().map(|f| f.bytes).collect();
    assert_eq!(sizes, [24, 23, 22, 21, 20, 19, 18, 17, 16, 15]);
}
