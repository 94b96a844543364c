use repo_health::model::ScanResult;
use repo_health::scan::{scan_repo, RootFiles};
use repo_health::screen::{
    check_list_lines, detail_lines, footer_line, header_lines, help_area, help_fits, help_lines, marked_check,
    metrics_lines, Area, Line, Tone, CHECKS_SHARE, DETAILS_SHARE, FOOTER_HEIGHT, HEADER_HEIGHT, LIST_SHARE,
    METRICS_SHARE,
};
use repo_health::secrets::SecretScan;
use repo_health::state::{
    follow_export, follow_save_baseline, handle_key, now_ms, AppState, Key, KeyAction, KeyPress, OpenedRoot,
};
use repo_health::walk::{Tally, WalkEntry};

fn scan(saw_env: bool) -> ScanResult {
    let mut t = Tally::new();
    let name = if saw_env { ".env" } else { "a" };
    t.observe(
        WalkEntry { name: Some(name.to_string()), is_file: true, path: name.to_string(), size: Some(2048) },
        10,
    );
    let files = RootFiles { gitignore: None, package_json: None, requirements: None, pyproject: None };
    scan_repo("/repo", t, &files, SecretScan::new())
}

fn state() -> AppState {
    AppState::new("/repo".to_string(), Some(scan(false)), Ok(scan(true)), 100, 142)
}

fn press(app: &mut AppState, key: Key) -> KeyAction {
    handle_key(app, KeyPress { key, control: false })
}

fn text(line: &Line) -> String {
    line.spans.iter().map(|s| s.text.as_str()).collect()
}

#[test]
fn first_scan_is_compared_with_the_baseline() {
    let app = state();
    assert_eq!(app.status, "OK");
    assert_eq!(app.last_scan_ms, 42);
    assert_eq!(app.checks_len(), 3);
    let d = app.baseline_diff.as_ref().unwrap();
    assert_eq!(d.score_delta, -10);
    assert_eq!(d.regressions, [".env ignored: info -> warn"]);
    let app = AppState::new("/x".to_string(), None, Err("gone".to_string()), 9, 3);
    assert_eq!(app.status, "Error: gone");
    assert_eq!(app.last_scan_ms, 0);
    assert_eq!(app.checks_len(), 0);
    assert!(app.baseline_diff.is_none());
}

#[test]
fn keys_move_the_selection() {
    let mut app = state();
    assert_eq!(press(&mut app, Key::Up), KeyAction::Nothing);
    assert_eq!(app.selected_check, 0);
    press(&mut app, Key::PageDown);
    assert_eq!(app.detail_scroll, 8);
    press(&mut app, Key::Char('j'));
    assert_eq!((app.selected_check, app.detail_scroll), (1, 0));
    press(&mut app, Key::Down);
    press(&mut app, Key::PageDown);
    press(&mut app, Key::Down);
    assert_eq!((app.selected_check, app.detail_scroll), (2, 8));
    press(&mut app, Key::PageUp);
    press(&mut app, Key::PageUp);
    assert_eq!(app.detail_scroll, 0);
    press(&mut app, Key::Char('k'));
    assert_eq!(app.selected_check, 1);
    app.move_selection(i32::MAX - 1);
    assert_eq!(app.selected_check, 2);
    app.move_selection(-100);
    assert_eq!(app.selected_check, 0);
    app.scroll_detail(i16::MAX);
    assert_eq!(app.detail_scroll, 32767);
    app.scroll_detail(-3);
    assert_eq!(app.detail_scroll, 32764);
}

#[test]
fn keys_ask_for_actions() {
    let mut app = state();
    for (key, action) in [
        (Key::Char('q'), KeyAction::Quit),
        (Key::Esc, KeyAction::Quit),
        (Key::Char('r'), KeyAction::Rescan),
        (Key::Char('o'), KeyAction::OpenFolder),
        (Key::Char('e'), KeyAction::Export),
        (Key::Char('b'), KeyAction::SaveBaseline),
        (Key::Char('c'), KeyAction::Nothing),
        (Key::Char('x'), KeyAction::Nothing),
        (Key::Other, KeyAction::Nothing),
    ] {
        assert_eq!(press(&mut app, key), action, "{key:?}");
    }
    assert_eq!(handle_key(&mut app, KeyPress { key: Key::Char('c'), control: true }), KeyAction::Quit);
}

#[test]
fn help_takes_the_keys() {
    let mut app = state();
    press(&mut app, Key::Char('?'));
    assert!(app.show_help);
    for key in [Key::Char('r'), Key::Char('o'), Key::Char('e'), Key::Char('b'), Key::Down, Key::PageDown] {
        assert_eq!(press(&mut app, key), KeyAction::Nothing);
    }
    assert_eq!((app.selected_check, app.detail_scroll, app.show_help), (0, 0, true));
    assert_eq!(press(&mut app, Key::Char('q')), KeyAction::Quit);
    assert_eq!(handle_key(&mut app, KeyPress { key: Key::Char('c'), control: true }), KeyAction::Quit);
    assert_eq!(press(&mut app, Key::Esc), KeyAction::Nothing);
    assert!(!app.show_help);
    press(&mut app, Key::Char('h'));
    press(&mut app, Key::Char('h'));
    assert!(!app.show_help);
    app.toggle_help();
    app.toggle_help();
    assert!(!app.show_help);
}

#[test]
fn rescan_keeps_the_selection_in_the_list() {
    let mut app = state();
    app.move_selection(2);
    app.rescan(Ok(scan(false)), 5, 6);
    assert_eq!(app.selected_check, 2);
    assert_eq!(app.baseline_diff.as_ref().unwrap().score_delta, 0);
    let mut short = scan(true);
    short.checks.truncate(1);
    app.rescan(Ok(short), 5, 6);
    assert_eq!(app.selected_check, 0);
    app.rescan(Err("x".to_string()), 5, 6);
    assert_eq!(app.status, "Error: x");
    assert!(app.baseline_diff.is_some());
    app.reload_baseline(None);
    app.rescan(Ok(scan(true)), 5, 6);
    assert!(app.baseline_diff.is_none());
}

#[test]
fn report_is_exported() {
    let mut app = state();
    let report = app.export_text().unwrap();
    assert!(report.starts_with("# repo-health\n\n**Root:** `/repo`\n"));
    assert_eq!(app.export_markdown(Ok("/repo/r.md".to_string())), Ok(()));
    assert_eq!(app.status, "Exported: /repo/r.md");
    assert_eq!(app.export_markdown(Err("denied".to_string())), Err("denied".to_string()));
    assert_eq!(app.status, "Exported: /repo/r.md");
    follow_export(&mut app, Err("denied".to_string()));
    assert_eq!(app.status, "Export error: denied");
    follow_export(&mut app, Ok("/repo/s.md".to_string()));
    assert_eq!(app.status, "Exported: /repo/s.md");
    assert_eq!((app.root.as_str(), app.selected_check, app.checks_len()), ("/repo", 0, 3));
    app.rescan(Err("x".to_string()), 0, 0);
    assert!(app.export_text().is_none());
    assert_eq!(app.export_markdown(Err("denied".to_string())), Ok(()));
    assert_eq!(app.status, "Nothing to export.");
    app.status = String::new();
    follow_export(&mut app, Ok("/repo/r.md".to_string()));
    assert_eq!(app.status, "Nothing to export.");
}

#[test]
fn baseline_is_saved() {
    let mut app = state();
    assert_eq!(app.save_baseline_current(Err("denied".to_string())), Err("denied".to_string()));
    assert_eq!(app.status, "OK");
    assert_eq!(app.baseline_diff.as_ref().unwrap().score_delta, -10);
    follow_save_baseline(&mut app, Err("denied".to_string()));
    assert_eq!(app.status, "Baseline error: denied");
    assert_eq!(app.baseline_diff.as_ref().unwrap().score_delta, -10);
    assert_eq!(app.save_baseline_current(Ok("/repo/b.json".to_string())), Ok(()));
    assert_eq!(app.status, "Baseline saved: /repo/b.json");
    let d = app.baseline_diff.as_ref().unwrap();
    assert_eq!((d.baseline_score, d.score_delta, d.warn_delta, d.error_delta), (90, 0, 0, 0));
    assert!(d.regressions.is_empty());
    follow_save_baseline(&mut app, Ok("/repo/c.json".to_string()));
    assert_eq!(app.status, "Baseline saved: /repo/c.json");
    app.rescan(Err("x".to_string()), 0, 0);
    assert_eq!(app.save_baseline_current(Err("denied".to_string())), Ok(()));
    assert_eq!(app.status, "Nothing to baseline.");
}

#[test]
fn navigation_keys_work_with_control_held() {
    let mut app = state();
    let mut hold = |key: Key| {
        assert_eq!(handle_key(&mut app, KeyPress { key, control: true }), KeyAction::Nothing);
        (app.selected_check, app.detail_scroll)
    };
    assert_eq!(hold(Key::Down), (1, 0));
    assert_eq!(hold(Key::Char('j')), (2, 0));
    assert_eq!(hold(Key::PageDown), (2, 8));
    assert_eq!(hold(Key::PageDown), (2, 16));
    assert_eq!(hold(Key::PageUp), (2, 8));
    assert_eq!(hold(Key::Up), (1, 0));
    assert_eq!(hold(Key::Char('k')), (0, 0));
}

#[test]
fn selection_stays_in_the_list_through_a_run() {
    let mut app = state();
    let in_list = |app: &AppState| app.result.is_none() || app.selected_check < app.checks_len();
    for key in [Key::Down, Key::Char('j'), Key::Down, Key::PageDown, Key::Char('h'), Key::Down, Key::Esc] {
        press(&mut app, key);
        assert!(in_list(&app));
    }
    assert_eq!(app.selected_check, 2);
    assert_eq!(press(&mut app, Key::Char('b')), KeyAction::SaveBaseline);
    follow_save_baseline(&mut app, Ok("/repo/b.json".to_string()));
    assert_eq!(press(&mut app, Key::Char('r')), KeyAction::Rescan);
    app.rescan(Err("gone".to_string()), 0, 1);
    press(&mut app, Key::Down);
    assert_eq!(app.selected_check, 0);
    app.rescan(Ok(scan(false)), 0, 1);
    press(&mut app, Key::Down);
    assert!(in_list(&app));
    assert_eq!(app.selected_check, 1);
    assert_eq!(press(&mut app, Key::Char('o')), KeyAction::OpenFolder);
    app.pick_new_root(Some(OpenedRoot {
        root: "/other".to_string(),
        baseline: None,
        outcome: Ok(scan(true)),
        start_ms: 0,
        end_ms: 1,
    }));
    press(&mut app, Key::Up);
    assert!(in_list(&app));
    assert_eq!(app.selected_check, 0);
}

#[test]
fn screen_is_shared_out() {
    assert_eq!((HEADER_HEIGHT, FOOTER_HEIGHT), (3, 2));
    assert_eq!((METRICS_SHARE, CHECKS_SHARE), (42, 58));
    assert_eq!((LIST_SHARE, DETAILS_SHARE), (55, 45));
}

#[test]
fn help_fits_where_its_corner_can_be_held() {
    assert!(help_fits(Area { x: 0, y: 0, width: 80, height: 24 }));
    assert!(help_fits(Area { x: u16::MAX, y: u16::MAX, width: 30, height: 10 }));
    assert!(help_fits(Area { x: u16::MAX - 3, y: 0, width: 80, height: 24 }));
    assert!(!help_fits(Area { x: u16::MAX - 2, y: 0, width: 80, height: 24 }));
    assert!(!help_fits(Area { x: 0, y: u16::MAX - 2, width: 80, height: 24 }));
}

#[test]
fn folder_is_opened() {
    let mut app = state();
    app.move_selection(2);
    app.pick_new_root(None);
    assert_eq!(app.status, "Open folder canceled.");
    assert_eq!(app.root, "/repo");
    app.pick_new_root(Some(OpenedRoot {
        root: "/other".to_string(),
        baseline: None,
        outcome: Ok(scan(false)),
        start_ms: 1,
        end_ms: 4,
    }));
    assert_eq!(app.status, "Opened: /other");
    assert_eq!(app.root, "/other");
    assert_eq!((app.selected_check, app.last_scan_ms), (0, 3));
    assert!(app.baseline_diff.is_none());
}

#[test]
fn clock_before_the_epoch_is_zero() {
    assert_eq!(now_ms(Some(5)), 5);
    assert_eq!(now_ms(None), 0);
}

#[test]
fn header_and_footer_have_exact_text() {
    let app = state();
    let lines = header_lines(&app);
    assert_eq!(text(&lines[0]), "repo-health  /repo");
    assert_eq!(
        text(&lines[1]),
        "↑/↓ select  o open  r rescan  h help  e export  b baseline  q quit  score 90  baseline 100 (delta -10)"
    );
    assert_eq!(lines[1].spans[0].tone, Tone::Yellow);
    assert_eq!(lines[1].spans[16].tone, Tone::Gray);
    assert_eq!(text(&footer_line(&app)), "OK  scan 42ms");
    let empty = AppState::new("/x".to_string(), None, Err("e".to_string()), 0, 0);
    assert!(text(&header_lines(&empty)[1]).ends_with("score 0  baseline none"));
}

#[test]
fn metrics_have_exact_text() {
    let app = state();
    let lines: Vec<String> = metrics_lines(&app).iter().map(text).collect();
    assert_eq!(
        lines,
        [
            "Score: 90  (2 info, 1 warn, 0 error)",
            "Baseline: 100  dScore -10 | dWarn +1 | dError +0",
            "Regressions: 1",
            "Files: 1",
            "Size: 2.00 KB",
            "",
            "Largest",
            "  2.00 KB  .env",
        ]
    );
    let empty = AppState::new("/x".to_string(), None, Err("e".to_string()), 0, 0);
    for lines in [metrics_lines(&empty), check_list_lines(&empty), detail_lines(&empty)] {
        assert_eq!(lines.iter().map(text).collect::<Vec<_>>(), ["No data."]);
    }
    assert_eq!(marked_check(&empty), None);
}

#[test]
fn checks_and_details_have_exact_text() {
    let mut app = state();
    let list = check_list_lines(&app);
    assert_eq!(
        list.iter().map(text).collect::<Vec<_>>(),
        ["[warn] .env ignored", "[info] Large files", "[info] Secrets"]
    );
    assert_eq!(list[0].spans[0].tone, Tone::Yellow);
    assert_eq!(list[1].spans[0].tone, Tone::Green);
    assert_eq!(marked_check(&app), Some(0));
    assert_eq!(
        detail_lines(&app).iter().map(text).collect::<Vec<_>>(),
        [
            "[warn] .env ignored",
            "",
            "Add .env to .gitignore to reduce secret leaks.",
            "",
            "• Found .env-like files, but .gitignore does not include an .env rule.",
            "",
            "Suggested fixes",
            "• Add `.env` (and optionally `*.env`) to `.gitignore`.",
            "• If secrets were committed, rotate them and rewrite history if needed.",
        ]
    );
    app.selected_check = 9;
    assert_eq!(detail_lines(&app).iter().map(text).collect::<Vec<_>>(), ["No selection."]);
    assert_eq!(marked_check(&app), Some(2));
    app.result.as_mut().unwrap().checks[0].id = "own".to_string();
    app.result.as_mut().unwrap().checks[0].details.clear();
    app.selected_check = 0;
    assert_eq!(detail_lines(&app).len(), 3);
}

#[test]
fn help_is_set_in_the_middle() {
    let lines = help_lines();
    assert_eq!(lines.len(), 9);
    assert_eq!(text(&lines[0]), "Navigation:  ↑/↓ or j/k select check, PgUp/PgDn scroll details");
    assert_eq!(text(&lines[8]), "Tip:  Press h or ? to close this help.");
    assert_eq!(
        help_area(Area { x: 1, y: 2, width: 100, height: 40 }),
        Area { x: 8, y: 13, width: 86, height: 18 }
    );
    assert_eq!(
        help_area(Area { x: 0, y: 0, width: 50, height: 20 }),
        Area { x: 3, y: 3, width: 44, height: 14 }
    );
    assert_eq!(
        help_area(Area { x: 0, y: 0, width: 4, height: 3 }),
        Area { x: 0, y: 0, width: 30, height: 10 }
    );
}
