use repo_health::model::Severity;
use repo_health::secrets::{
    check_secret_markers, is_small_file, record_finding, secret_markers, secrets_result, Admission, SecretScan,
};

fn aws() -> String {
    format!("key = AKIA{}", "Z9".repeat(8))
}

#[test]
fn all_markers_compile() {
    assert_eq!(secret_markers().len(), 5);
}

#[test]
fn each_kind_of_secret_is_found() {
    let samples = [
        ("aws_access_key_id", aws()),
        ("private_key", format!("-----BEGIN {}PRIVATE KEY-----", "RSA ")),
        ("private_key", format!("-----BEGIN {}KEY-----", "PRIVATE ")),
        ("github_pat", format!("ghp_{}", "a".repeat(36))),
        ("discord_token", format!("Bot-Token = {}", "x".repeat(20))),
        ("stripe_key", format!("sk_{}_{}", "test", "b".repeat(16))),
    ];
    for (name, text) in samples {
        let mut s = SecretScan::new();
        assert_eq!(s.meet(true, Some("a.txt"), 10), Admission::Read);
        assert!(s.examine("dir/a.txt", Some(&text)));
        let c = check_secret_markers(s);
        assert_eq!(c.id, "secrets");
        assert_eq!(c.title, "Secrets");
        assert_eq!(c.severity, Severity::Error);
        assert_eq!(c.message, "Potential secret markers found.");
        assert_eq!(c.details, [format!("{name}: dir/a.txt")]);
    }
}

#[test]
fn clean_files_give_no_findings() {
    let mut s = SecretScan::new();
    assert!(s.examine("a", Some("nothing here")));
    assert!(s.examine("a", Some(&format!("AKIA{}", "Z".repeat(15)))));
    assert!(s.examine("b", None));
    let c = check_secret_markers(s);
    assert_eq!(c.severity, Severity::Info);
    assert_eq!(c.message, "No obvious secret markers found (light scan).");
    assert!(c.details.is_empty());
}

#[test]
fn search_ends_after_enough_findings() {
    let text = format!("{} ghp_{}", aws(), "a".repeat(40));
    let mut s = SecretScan::new();
    for i in 0..12 {
        assert!(s.examine(&format!("f{i}"), Some(&text)));
    }
    assert!(!s.examine("f12", Some(&text)));
    let c = check_secret_markers(s);
    assert_eq!(c.details.len(), 25);
    assert_eq!(c.details[0], "aws_access_key_id: f0");
    assert_eq!(c.details[1], "github_pat: f0");
    assert_eq!(c.details[24], "aws_access_key_id: f12");
}

#[test]
fn search_ends_after_enough_files() {
    let mut s = SecretScan::new();
    assert_eq!(s.meet(false, Some("dir"), 2), Admission::Skip);
    assert_eq!(s.meet(true, Some("a.PNG"), 2), Admission::Skip);
    assert_eq!(s.meet(true, None, 2), Admission::Read);
    assert_eq!(s.meet(true, Some("b"), 2), Admission::Stop);

    let mut s = SecretScan::new();
    for _ in 0..15_000 {
        assert_eq!(s.meet(true, Some("a"), usize::MAX), Admission::Read);
    }
    assert_eq!(s.meet(true, Some("a"), usize::MAX), Admission::Stop);
}

#[test]
fn only_small_files_are_read() {
    assert!(is_small_file(Some(0)));
    assert!(is_small_file(Some(256 * 1024)));
    assert!(!is_small_file(Some(256 * 1024 + 1)));
    assert!(!is_small_file(None));
}

#[test]
fn findings_are_recorded_in_order() {
    let mut details = vec!["x: y".to_string(); 23];
    assert!(!record_finding(&mut details, "a", "p", false));
    assert_eq!(details.len(), 23);
    assert!(!record_finding(&mut details, "a", "p", true));
    assert!(record_finding(&mut details, "b", "q", true));
    assert_eq!(details[23], "a: p");
    assert_eq!(details[24], "b: q");
    assert_eq!(secrets_result(details).severity, Severity::Error);
    assert_eq!(secrets_result(Vec::new()).severity, Severity::Info);
}

#[test]
fn search_that_is_over_stays_over() {
    let mut search = SecretScan::new();
    assert_eq!(search.meet(true, Some("a.txt"), 2), Admission::Read);
    assert_eq!(search.meet(true, Some("a.png"), 2), Admission::Skip);
    assert_eq!(search.meet(true, Some("b.txt"), 2), Admission::Stop);
    assert_eq!(search.meet(true, Some("b.txt"), 2), Admission::Stop);
    assert_eq!(search.meet(false, None, 2), Admission::Skip);
    assert_eq!(search.meet(true, Some("b.txt"), 4), Admission::Read);
    let mut none = SecretScan::new();
    assert_eq!(none.meet(true, Some("a.txt"), 0), Admission::Stop);
}
