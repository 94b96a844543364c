//! The state of the terminal interface, and what keys do to it.

use vstd::prelude::*;

use crate::baseline;
use crate::model;
use crate::model::{BaselineDiff, DiffView, ScanResult, ScanView};
use crate::report;
use crate::scan;
use crate::severity;
use crate::text;

verus! {

/// The number of lines by which a page key scrolls.
pub const PAGE: i16 = 8;

/// A key.
#[derive(Clone, Copy, Debug, PartialEq, Eq, Structural)]
pub enum Key {
    Char(char),
    Up,
    Down,
    PageUp,
    PageDown,
    Esc,
    Other,
}

/// A key that was pressed; `control` says that the control key, and no other
/// modifier, was held.
#[derive(Clone, Copy, Debug, PartialEq, Eq, Structural)]
pub struct KeyPress {
    pub key: Key,
    pub control: bool,
}

/// What a key asks for beyond a change of the state.
#[derive(Clone, Copy, Debug, PartialEq, Eq, Structural)]
pub enum KeyAction {
    Nothing,
    Quit,
    Rescan,
    OpenFolder,
    Export,
    SaveBaseline,
}

/// The state of the interface.
#[derive(Debug)]
pub struct AppState {
    pub root: String,
    pub last_scan_ms: u128,
    pub result: Option<ScanResult>,
    pub baseline: Option<ScanResult>,
    pub baseline_diff: Option<BaselineDiff>,
    pub status: String,
    pub selected_check: usize,
    pub detail_scroll: u16,
    pub show_help: bool,
}

/// The view of an [`AppState`].
#[verifier::ext_equal]
pub struct AppView {
    pub root: Seq<char>,
    pub last_scan_ms: u128,
    pub result: Option<ScanView>,
    pub baseline: Option<ScanView>,
    pub baseline_diff: Option<DiffView>,
    pub status: Seq<char>,
    pub selected_check: usize,
    pub detail_scroll: u16,
    pub show_help: bool,
}

/// A folder that was opened: its path, its baseline if it has one, and how its
/// scan, from `start_ms` to `end_ms`, came out.
#[derive(Debug)]
pub struct OpenedRoot {
    pub root: String,
    pub baseline: Option<ScanResult>,
    pub outcome: Result<ScanResult, String>,
    pub start_ms: u128,
    pub end_ms: u128,
}

impl View for AppState {
    type V = AppView;

    open spec fn view(&self) -> AppView {
        AppView {
            root: self.root@,
            last_scan_ms: self.last_scan_ms,
            result: model::opt_scan(self.result),
            baseline: model::opt_scan(self.baseline),
            baseline_diff: model::opt_diff(self.baseline_diff),
            status: self.status@,
            selected_check: self.selected_check,
            detail_scroll: self.detail_scroll,
            show_help: self.show_help,
        }
    }
}

/// The view of how a scan came out.
pub open spec fn outcome_view(o: Result<ScanResult, String>) -> Result<ScanView, Seq<char>> {
    match o {
        Ok(r) => Ok(r@),
        Err(e) => Err(e@),
    }
}

/// The number of checks that are shown.
pub open spec fn shown_checks(s: AppView) -> nat {
    match s.result {
        Some(r) => r.checks.len(),
        None => 0,
    }
}

/// The interface can show a scan: its checks can be numbered and counted.
pub open spec fn presentable(r: ScanView) -> bool {
    r.checks.len() <= i32::MAX && report::countable(r.metrics.counts)
}

/// How a scan came out can be shown and compared with `baseline`.
pub open spec fn acceptable(o: Result<ScanView, Seq<char>>, baseline: Option<ScanView>) -> bool {
    match o {
        Ok(r) => {
            &&& presentable(r)
            &&& baseline matches Some(b) ==> baseline::comparable(r.metrics.counts, b.metrics.counts)
        },
        Err(_) => true,
    }
}

/// What holds of every state: the selection is one of the checks, and
/// selection and scroll position stay within what keys can reach.
pub open spec fn valid(s: AppView) -> bool {
    &&& s.selected_check <= i32::MAX
    &&& s.detail_scroll <= i16::MAX
    &&& s.result matches Some(r) ==> {
        &&& presentable(r)
        &&& s.selected_check <= last_index(r.checks.len())
    }
}

/// The last index into a list of that length; 0 for an empty list.
pub open spec fn last_index(len: nat) -> nat {
    if len == 0 {
        0
    } else {
        (len - 1) as nat
    }
}

/// The time from `start_ms` to `end_ms`; 0 where the clock ran backwards.
pub open spec fn elapsed(start_ms: u128, end_ms: u128) -> u128 {
    if end_ms >= start_ms {
        (end_ms - start_ms) as u128
    } else {
        0
    }
}

/// `s` after a scan.
pub open spec fn rescanned(
    s: AppView,
    outcome: Result<ScanView, Seq<char>>,
    start_ms: u128,
    end_ms: u128,
) -> AppView {
    let last_scan_ms = elapsed(start_ms, end_ms);
    match outcome {
        Ok(r) => AppView {
            last_scan_ms,
            result: Some(r),
            baseline_diff: match s.baseline {
                Some(b) => Some(baseline::diff(r, b)),
                None => None,
            },
            status: "OK"@,
            selected_check: if s.selected_check <= last_index(r.checks.len()) {
                s.selected_check
            } else {
                last_index(r.checks.len()) as usize
            },
            detail_scroll: 0,
            ..s
        },
        Err(e) => AppView { last_scan_ms, result: None, status: "Error: "@ + e, ..s },
    }
}

/// `s` with that baseline.
pub open spec fn with_baseline(s: AppView, baseline: Option<ScanView>) -> AppView {
    AppView { baseline, ..s }
}

/// A state before the first scan.
pub open spec fn unscanned(root: Seq<char>) -> AppView {
    AppView {
        root,
        last_scan_ms: 0,
        result: None,
        baseline: None,
        baseline_diff: None,
        status: seq![],
        selected_check: 0,
        detail_scroll: 0,
        show_help: false,
    }
}

/// `n` kept between 0 and `max`.
pub open spec fn clamped(n: int, max: int) -> int {
    if n < 0 {
        0
    } else if n > max {
        max
    } else {
        n
    }
}

/// `s` after the selection was moved by `delta`, within the list.
pub open spec fn moved(s: AppView, delta: int) -> AppView {
    let len = shown_checks(s);
    if len == 0 {
        AppView { selected_check: 0, ..s }
    } else {
        let next = clamped(s.selected_check + delta, len - 1);
        if next != s.selected_check {
            AppView { selected_check: next as usize, detail_scroll: 0, ..s }
        } else {
            s
        }
    }
}

/// `s` after the details were scrolled by `delta`, not beyond the top.
pub open spec fn scrolled(s: AppView, delta: int) -> AppView {
    let next = s.detail_scroll + delta;
    AppView {
        detail_scroll: if next < 0 {
            0
        } else {
            next as u16
        },
        ..s
    }
}

/// `s` with the help shown or hidden.
pub open spec fn help_toggled(s: AppView) -> AppView {
    AppView { show_help: !s.show_help, ..s }
}

/// The error that is handed on when there was a scan to write and it could not
/// be written.
pub open spec fn failure(s: AppView, written: Result<Seq<char>, Seq<char>>) -> Option<Seq<char>> {
    match written {
        Err(e) if s.result is Some => Some(e),
        _ => None,
    }
}

/// The report on what `s` shows; none before a scan.
pub open spec fn report_of(s: AppView) -> Option<Seq<char>> {
    match s.result {
        Some(scan) => Some(text::unlines(report::markdown_lines(scan, s.baseline_diff))),
        None => None,
    }
}

/// `s` after a report was written, or could not be.
pub open spec fn exported(s: AppView, written: Result<Seq<char>, Seq<char>>) -> AppView {
    if s.result is None {
        AppView { status: "Nothing to export."@, ..s }
    } else {
        match written {
            Ok(path) => AppView { status: "Exported: "@ + path, ..s },
            Err(_) => s,
        }
    }
}

/// `s` after its scan was saved as the baseline, or could not be.
pub open spec fn baseline_saved(s: AppView, saved: Result<Seq<char>, Seq<char>>) -> AppView {
    match s.result {
        None => AppView { status: "Nothing to baseline."@, ..s },
        Some(r) => match saved {
            Ok(path) => AppView {
                baseline: Some(r),
                baseline_diff: Some(baseline::diff(r, r)),
                status: "Baseline saved: "@ + path,
                ..s
            },
            Err(_) => s,
        },
    }
}

/// `s` after the key that exports was followed.
pub open spec fn export_followed(s: AppView, written: Result<Seq<char>, Seq<char>>) -> AppView {
    match failure(s, written) {
        Some(e) => AppView { status: "Export error: "@ + e, ..s },
        None => exported(s, written),
    }
}

/// `s` after the key that saves a baseline was followed.
pub open spec fn save_followed(s: AppView, saved: Result<Seq<char>, Seq<char>>) -> AppView {
    match failure(s, saved) {
        Some(e) => AppView { status: "Baseline error: "@ + e, ..s },
        None => baseline_saved(s, saved),
    }
}

/// `s` after another folder was opened.
pub open spec fn opened(
    s: AppView,
    root: Seq<char>,
    baseline: Option<ScanView>,
    outcome: Result<ScanView, Seq<char>>,
    start_ms: u128,
    end_ms: u128,
) -> AppView {
    let turned = AppView { root, selected_check: 0, detail_scroll: 0, baseline, ..s };
    AppView { status: "Opened: "@ + root, ..rescanned(turned, outcome, start_ms, end_ms) }
}

/// The view of a text, or of the text of an error.
pub open spec fn text_result(r: Result<String, String>) -> Result<Seq<char>, Seq<char>> {
    match r {
        Ok(s) => Ok(s@),
        Err(e) => Err(e@),
    }
}

/// The key ends the program.
pub open spec fn quits(s: AppView, k: KeyPress) -> bool {
    ||| k.key == Key::Char('q')
    ||| k.key == Key::Char('c') && k.control
    ||| k.key == Key::Esc && !s.show_help
}

/// What the key asks for. While the help is shown, only leaving it.
pub open spec fn action_of(s: AppView, k: KeyPress) -> KeyAction {
    if quits(s, k) {
        KeyAction::Quit
    } else if s.show_help {
        KeyAction::Nothing
    } else {
        match k.key {
            Key::Char('r') => KeyAction::Rescan,
            Key::Char('o') => KeyAction::OpenFolder,
            Key::Char('e') => KeyAction::Export,
            Key::Char('b') => KeyAction::SaveBaseline,
            _ => KeyAction::Nothing,
        }
    }
}

/// `s` after the key.
pub open spec fn after_key(s: AppView, k: KeyPress) -> AppView {
    if quits(s, k) {
        s
    } else if s.show_help {
        if k.key == Key::Esc || k.key == Key::Char('h') || k.key == Key::Char('?') {
            help_toggled(s)
        } else {
            s
        }
    } else {
        match k.key {
            Key::Up | Key::Char('k') => moved(s, -1),
            Key::Down | Key::Char('j') => moved(s, 1),
            Key::PageUp => scrolled(s, -(PAGE as int)),
            Key::PageDown => scrolled(s, PAGE as int),
            Key::Char('h') | Key::Char('?') => help_toggled(s),
            _ => s,
        }
    }
}

/// The key does not scroll the details beyond what can be counted.
pub open spec fn can_follow(s: AppView, k: KeyPress) -> bool {
    k.key == Key::PageDown && !s.show_help ==> s.detail_scroll + PAGE <= i16::MAX
}

/// The milliseconds since the epoch; 0 where the clock stands before it.
pub fn now_ms(since_epoch: Option<u128>) -> (r: u128)
    ensures
        r == (match since_epoch {
            Some(ms) => ms,
            None => 0,
        }),
{
    match since_epoch {
        Some(ms) => ms,
        None => 0,
    }
}

impl AppState {
    /// The state after the first scan, from `start_ms` to `end_ms`, of the
    /// folder `root` with that baseline.
    pub fn new(
        root: String,
        baseline: Option<ScanResult>,
        outcome: Result<ScanResult, String>,
        start_ms: u128,
        end_ms: u128,
    ) -> (s: Self)
        requires
            acceptable(outcome_view(outcome), model::opt_scan(baseline)),
        ensures
            s@ == rescanned(
                with_baseline(unscanned(root@), model::opt_scan(baseline)),
                outcome_view(outcome),
                start_ms,
                end_ms,
            ),
            valid(s@),
    {
        let mut s = AppState {
            root,
            last_scan_ms: 0,
            result: None,
            baseline: None,
            baseline_diff: None,
            status: String::new(),
            selected_check: 0,
            detail_scroll: 0,
            show_help: false,
        };
        assert(s@ =~= unscanned(root@));
        s.reload_baseline(baseline);
        s.rescan(outcome, start_ms, end_ms);
        s
    }

    /// Takes in how a scan, from `start_ms` to `end_ms`, came out.
    pub fn rescan(&mut self, outcome: Result<ScanResult, String>, start_ms: u128, end_ms: u128)
        requires
            valid(old(self)@),
            acceptable(outcome_view(outcome), old(self)@.baseline),
        ensures
            final(self)@ == rescanned(old(self)@, outcome_view(outcome), start_ms, end_ms),
            valid(final(self)@),
    {
        match outcome {
            Ok(r) => {
                assert(r@.checks.len() == r.checks@.len());
                let last: usize = if r.checks.len() == 0 { 0 } else { r.checks.len() - 1 };
                if self.selected_check > last {
                    self.selected_check = last;
                }
                self.detail_scroll = 0;
                self.baseline_diff = match &self.baseline {
                    Some(b) => Some(baseline::compute_baseline_diff(&r, b)),
                    None => None,
                };
                self.result = Some(r);
                self.status = "OK".to_owned();
            },
            Err(e) => {
                self.result = None;
                let mut s = "Error: ".to_owned();
                s.append(e.as_str());
                self.status = s;
            },
        }
        self.last_scan_ms = if end_ms >= start_ms { end_ms - start_ms } else { 0 };
    }

    /// The number of checks that are shown.
    pub fn checks_len(&self) -> (n: usize)
        ensures
            n == shown_checks(self@),
    {
        match &self.result {
            Some(r) => {
                assert(r@.checks.len() == r.checks@.len());
                r.checks.len()
            },
            None => 0,
        }
    }

    /// Moves the selection by `delta`, within the list.
    pub fn move_selection(&mut self, delta: i32)
        requires
            valid(old(self)@),
            shown_checks(old(self)@) > 0 ==> severity::fits_i32(old(self).selected_check + delta),
        ensures
            final(self)@ == moved(old(self)@, delta as int),
            valid(final(self)@),
    {
        let len = self.checks_len();
        if len == 0 {
            self.selected_check = 0;
            return;
        }
        let cur: i32 = self.selected_check as i32;
        let max: i32 = (len - 1) as i32;
        let sum: i32 = cur + delta;
        let next: i32 = if sum < 0 {
            0
        } else if sum > max {
            max
        } else {
            sum
        };
        if next as usize != self.selected_check {
            self.selected_check = next as usize;
            self.detail_scroll = 0;
        }
    }

    /// Scrolls the details by `delta`, not beyond the top.
    pub fn scroll_detail(&mut self, delta: i16)
        requires
            valid(old(self)@),
            i16::MIN <= old(self).detail_scroll + delta <= i16::MAX,
        ensures
            final(self)@ == scrolled(old(self)@, delta as int),
            valid(final(self)@),
    {
        let sum: i16 = self.detail_scroll as i16 + delta;
        let next: u16 = if sum < 0 { 0 } else { sum as u16 };
        self.detail_scroll = next;
    }

    /// The report to write; none before a scan.
    pub fn export_text(&self) -> (r: Option<String>)
        requires
            valid(self@),
        ensures
            match report_of(self@) {
                Some(t) => r is Some && r->0@ == t,
                None => r is None,
            },
    {
        match &self.result {
            Some(result) => {
                let mut out = String::new();
                let diff = match &self.baseline_diff {
                    Some(d) => Some(d),
                    None => None,
                };
                report::write_markdown(&mut out, result, diff);
                assert(out@ =~= text::unlines(
                    report::markdown_lines(result@, model::opt_diff(self.baseline_diff)),
                ));
                Some(out)
            },
            None => None,
        }
    }

    /// Takes in where a report was written, or hands on why it could not be.
    pub fn export_markdown(&mut self, written: Result<String, String>) -> (r: Result<(), String>)
        ensures
            final(self)@ == exported(old(self)@, text_result(written)),
            match failure(old(self)@, text_result(written)) {
                Some(e) => r is Err && r->Err_0@ == e,
                None => r is Ok,
            },
    {
        if self.result.is_none() {
            self.status = "Nothing to export.".to_owned();
            return Ok(());
        }
        match written {
            Ok(path) => {
                let mut s = "Exported: ".to_owned();
                s.append(path.as_str());
                self.status = s;
                Ok(())
            },
            Err(e) => Err(e),
        }
    }

    /// Takes in the baseline that was loaded, if there is one.
    pub fn reload_baseline(&mut self, loaded: Option<ScanResult>)
        ensures
            final(self)@ == with_baseline(old(self)@, model::opt_scan(loaded)),
    {
        self.baseline = loaded;
    }

    /// Takes in where the scan was saved as the baseline, or hands on why it
    /// could not be.
    pub fn save_baseline_current(&mut self, saved: Result<String, String>) -> (r: Result<(), String>)
        ensures
            final(self)@ == baseline_saved(old(self)@, text_result(saved)),
            match failure(old(self)@, text_result(saved)) {
                Some(e) => r is Err && r->Err_0@ == e,
                None => r is Ok,
            },
    {
        let result = match &self.result {
            Some(r) => r.clone(),
            None => {
                self.status = "Nothing to baseline.".to_owned();
                return Ok(());
            },
        };
        match saved {
            Ok(path) => {
                self.baseline_diff = Some(baseline::compute_baseline_diff(&result, &result));
                self.baseline = Some(result);
                let mut s = "Baseline saved: ".to_owned();
                s.append(path.as_str());
                self.status = s;
                Ok(())
            },
            Err(e) => Err(e),
        }
    }

    /// Shows the help, or hides it.
    pub fn toggle_help(&mut self)
        ensures
            final(self)@ == help_toggled(old(self)@),
    {
        self.show_help = !self.show_help;
    }

    /// Takes in the folder that was opened, if one was.
    pub fn pick_new_root(&mut self, picked: Option<OpenedRoot>)
        requires
            valid(old(self)@),
            picked matches Some(p) ==> acceptable(outcome_view(p.outcome), model::opt_scan(p.baseline)),
        ensures
            match picked {
                None => final(self)@ == (AppView { status: "Open folder canceled."@, ..old(self)@ }),
                Some(p) => final(self)@ == opened(
                    old(self)@,
                    p.root@,
                    model::opt_scan(p.baseline),
                    outcome_view(p.outcome),
                    p.start_ms,
                    p.end_ms,
                ),
            },
            valid(final(self)@),
    {
        match picked {
            None => {
                self.status = "Open folder canceled.".to_owned();
            },
            Some(p) => {
                let OpenedRoot { root, baseline, outcome, start_ms, end_ms } = p;
                self.root = root;
                self.selected_check = 0;
                self.detail_scroll = 0;
                self.reload_baseline(baseline);
                self.rescan(outcome, start_ms, end_ms);
                let mut s = "Opened: ".to_owned();
                s.append(self.root.as_str());
                self.status = s;
            },
        }
    }
}

/// Follows a key, and says what it asks for beyond a change of the state.
pub fn handle_key(app: &mut AppState, k: KeyPress) -> (a: KeyAction)
    requires
        valid(old(app)@),
        can_follow(old(app)@, k),
    ensures
        final(app)@ == after_key(old(app)@, k),
        a == action_of(old(app)@, k),
        valid(final(app)@),
{
    if app.show_help {
        match k.key {
            Key::Char('q') => KeyAction::Quit,
            Key::Char('c') => if k.control {
                KeyAction::Quit
            } else {
                KeyAction::Nothing
            },
            Key::Esc | Key::Char('h') | Key::Char('?') => {
                app.show_help = false;
                KeyAction::Nothing
            },
            _ => KeyAction::Nothing,
        }
    } else {
        match k.key {
            Key::Char('q') | Key::Esc => KeyAction::Quit,
            Key::Char('c') => if k.control {
                KeyAction::Quit
            } else {
                KeyAction::Nothing
            },
            Key::Char('r') => KeyAction::Rescan,
            Key::Char('o') => KeyAction::OpenFolder,
            Key::Up | Key::Char('k') => {
                app.move_selection(-1);
                KeyAction::Nothing
            },
            Key::Down | Key::Char('j') => {
                app.move_selection(1);
                KeyAction::Nothing
            },
            Key::PageUp => {
                app.scroll_detail(-PAGE);
                KeyAction::Nothing
            },
            Key::PageDown => {
                app.scroll_detail(PAGE);
                KeyAction::Nothing
            },
            Key::Char('h') | Key::Char('?') => {
                app.toggle_help();
                KeyAction::Nothing
            },
            Key::Char('e') => KeyAction::Export,
            Key::Char('b') => KeyAction::SaveBaseline,
            _ => KeyAction::Nothing,
        }
    }
}

/// Follows the key that exports, given where the report was written or why it
/// could not be.
pub fn follow_export(app: &mut AppState, written: Result<String, String>)
    ensures
        final(app)@ == export_followed(old(app)@, text_result(written)),
{
    if let Err(e) = app.export_markdown(written) {
        let mut s = "Export error: ".to_owned();
        s.append(e.as_str());
        app.status = s;
    }
}

/// Follows the key that saves a baseline, given where it was saved or why it
/// could not be.
pub fn follow_save_baseline(app: &mut AppState, saved: Result<String, String>)
    ensures
        final(app)@ == save_followed(old(app)@, text_result(saved)),
{
    if let Err(e) = app.save_baseline_current(saved) {
        let mut s = "Baseline error: ".to_owned();
        s.append(e.as_str());
        app.status = s;
    }
}

/// Whatever key is followed, the state stays valid; a key changes the selection,
/// the scroll position and the help at most.
pub proof fn keys_keep_state_valid(s: AppView, k: KeyPress)
    requires
        valid(s),
        can_follow(s, k),
    ensures
        valid(after_key(s, k)),
        after_key(s, k) == (AppView {
            selected_check: after_key(s, k).selected_check,
            detail_scroll: after_key(s, k).detail_scroll,
            show_help: after_key(s, k).show_help,
            ..s
        }),
{
}

/// Whatever is taken in, the state stays valid.
pub proof fn events_keep_state_valid(
    s: AppView,
    baseline: Option<ScanView>,
    outcome: Result<ScanView, Seq<char>>,
    start_ms: u128,
    end_ms: u128,
    root: Seq<char>,
    written: Result<Seq<char>, Seq<char>>,
)
    requires
        valid(s),
        acceptable(outcome, s.baseline),
    ensures
        valid(rescanned(s, outcome, start_ms, end_ms)),
        valid(opened(s, root, baseline, outcome, start_ms, end_ms)),
        valid(with_baseline(s, baseline)),
        valid(help_toggled(s)),
        valid(exported(s, written)),
        valid(baseline_saved(s, written)),
        valid(export_followed(s, written)),
        valid(save_followed(s, written)),
{
}

/// A key that ends the program changes nothing, and so does a key that asks
/// for a scan, a folder, a report or a baseline.
pub proof fn asking_keys_change_nothing(s: AppView, k: KeyPress)
    ensures
        action_of(s, k) != KeyAction::Nothing ==> after_key(s, k) == s,
{
}

/// The letters `j`, `k` and `h` stand for the arrow keys and the question mark,
/// whether or not the control key is held.
pub proof fn letters_stand_for_keys(s: AppView, control: bool)
    ensures
        after_key(s, KeyPress { key: Key::Char('j'), control }) == after_key(
            s,
            KeyPress { key: Key::Down, control },
        ),
        after_key(s, KeyPress { key: Key::Char('k'), control }) == after_key(
            s,
            KeyPress { key: Key::Up, control },
        ),
        after_key(s, KeyPress { key: Key::Char('h'), control }) == after_key(
            s,
            KeyPress { key: Key::Char('?'), control },
        ),
{
}

/// The key is one of those that move the selection or scroll the details.
pub open spec fn navigates(key: Key) -> bool {
    ||| key == Key::Up || key == Key::Char('k')
    ||| key == Key::Down || key == Key::Char('j')
    ||| key == Key::PageUp
    ||| key == Key::PageDown
}

/// While the help is hidden, the arrow keys and their letters move the selection
/// by one and the page keys scroll the details by eight lines, whether or not the
/// control key is held; they ask for nothing else.
pub proof fn navigation_keys_move_and_scroll(s: AppView, control: bool)
    requires
        !s.show_help,
    ensures
        after_key(s, KeyPress { key: Key::Up, control }) == moved(s, -1),
        after_key(s, KeyPress { key: Key::Char('k'), control }) == moved(s, -1),
        after_key(s, KeyPress { key: Key::Down, control }) == moved(s, 1),
        after_key(s, KeyPress { key: Key::Char('j'), control }) == moved(s, 1),
        after_key(s, KeyPress { key: Key::PageUp, control }) == scrolled(s, -8),
        after_key(s, KeyPress { key: Key::PageDown, control }) == scrolled(s, 8),
        forall|key: Key| #[trigger] navigates(key) ==> action_of(s, KeyPress { key, control })
            == KeyAction::Nothing,
{
}

/// While the help is shown, keys end the program, hide the help, or do nothing.
pub proof fn help_takes_all_keys(s: AppView, k: KeyPress)
    requires
        s.show_help,
    ensures
        action_of(s, k) == KeyAction::Quit || action_of(s, k) == KeyAction::Nothing,
        after_key(s, k) == s || after_key(s, k) == help_toggled(s),
{
}

/// Showing and hiding the help leaves the state as it was.
pub proof fn help_toggles_back(s: AppView)
    ensures
        help_toggled(help_toggled(s)) == s,
{
}

/// Moving the selection down and up again leads back to the same check, unless
/// it was the last one.
pub proof fn moving_back_selects_again(s: AppView)
    requires
        valid(s),
        s.selected_check + 1 < shown_checks(s),
    ensures
        moved(s, 1).selected_check == s.selected_check + 1,
        moved(moved(s, 1), -1) == (AppView { detail_scroll: 0, ..s }),
{
    assert(shown_checks(moved(s, 1)) == shown_checks(s));
    assert(moved(moved(s, 1), -1) =~= (AppView { detail_scroll: 0, ..s }));
}

/// The selection never leaves the list.
pub proof fn selection_stays_in_list(s: AppView, delta: int)
    requires
        valid(s),
        shown_checks(s) > 0,
    ensures
        moved(s, delta).selected_check < shown_checks(moved(s, delta)),
{
}

/// A scan that was just saved as the baseline shows no change against it.
pub proof fn saved_baseline_shows_no_change(s: AppView, path: Seq<char>)
    requires
        s.result is Some,
        baseline::distinct_ids(s.result->0.checks),
    ensures
        ({
            let after = baseline_saved(s, Ok(path));
            &&& after.baseline == s.result
            &&& after.baseline_diff is Some
            &&& after.baseline_diff->0.score_delta == 0
            &&& after.baseline_diff->0.warn_delta == 0
            &&& after.baseline_diff->0.error_delta == 0
            &&& after.baseline_diff->0.regressions == Seq::<Seq<char>>::empty()
        }),
{
    baseline::diff_with_itself_is_empty(s.result->0);
}

/// A scan that failed leaves nothing to show, export or save.
pub proof fn failed_scan_leaves_nothing(
    s: AppView,
    e: Seq<char>,
    start_ms: u128,
    end_ms: u128,
    written: Result<Seq<char>, Seq<char>>,
)
    ensures
        ({
            let after = rescanned(s, Err(e), start_ms, end_ms);
            &&& shown_checks(after) == 0
            &&& exported(after, written).status == "Nothing to export."@
            &&& baseline_saved(after, written) == (AppView { status: "Nothing to baseline."@, ..after })
        }),
{
}

/// An export changes the status alone. Without a scan it says that there is
/// nothing; a report that was written is named; one that could not be leaves
/// all as it was, hands the error on, and the key then names it.
pub proof fn export_changes_status_alone(s: AppView, written: Result<Seq<char>, Seq<char>>)
    ensures
        exported(s, written) == (AppView { status: exported(s, written).status, ..s }),
        export_followed(s, written) == (AppView { status: export_followed(s, written).status, ..s }),
        s.result is None ==> failure(s, written) is None && exported(s, written).status
            == "Nothing to export."@,
        s.result is Some && written is Ok ==> failure(s, written) is None && exported(s, written).status
            == "Exported: "@ + written->Ok_0,
        s.result is Some && written is Err ==> {
            &&& exported(s, written) == s
            &&& failure(s, written) == Some(written->Err_0)
            &&& export_followed(s, written).status == "Export error: "@ + written->Err_0
        },
        failure(s, written) is None ==> export_followed(s, written) == exported(s, written),
{
}

/// A baseline that could not be saved leaves all as it was and hands the error
/// on; the key then changes the status alone. Saving changes the baseline, what
/// is shown of it and the status at most.
pub proof fn failed_save_changes_status_alone(s: AppView, saved: Result<Seq<char>, Seq<char>>)
    ensures
        s.result is Some && saved is Err ==> {
            &&& baseline_saved(s, saved) == s
            &&& failure(s, saved) == Some(saved->Err_0)
            &&& save_followed(s, saved) == (AppView { status: "Baseline error: "@ + saved->Err_0, ..s })
        },
        failure(s, saved) is None ==> save_followed(s, saved) == baseline_saved(s, saved),
        baseline_saved(s, saved) == (AppView {
            baseline: baseline_saved(s, saved).baseline,
            baseline_diff: baseline_saved(s, saved).baseline_diff,
            status: baseline_saved(s, saved).status,
            ..s
        }),
{
}

/// Something that happens to the interface: a key, or what came of something
/// that a key asked for.
pub enum Event {
    Pressed(KeyPress),
    Scanned { outcome: Result<ScanView, Seq<char>>, start_ms: u128, end_ms: u128 },
    Opened {
        root: Seq<char>,
        baseline: Option<ScanView>,
        outcome: Result<ScanView, Seq<char>>,
        start_ms: u128,
        end_ms: u128,
    },
    OpenCanceled,
    Exported(Result<Seq<char>, Seq<char>>),
    Saved(Result<Seq<char>, Seq<char>>),
}

/// `s` after one event.
pub open spec fn after_event(s: AppView, e: Event) -> AppView {
    match e {
        Event::Pressed(k) => after_key(s, k),
        Event::Scanned { outcome, start_ms, end_ms } => rescanned(s, outcome, start_ms, end_ms),
        Event::Opened { root, baseline, outcome, start_ms, end_ms } => opened(
            s,
            root,
            baseline,
            outcome,
            start_ms,
            end_ms,
        ),
        Event::OpenCanceled => AppView { status: "Open folder canceled."@, ..s },
        Event::Exported(written) => export_followed(s, written),
        Event::Saved(saved) => save_followed(s, saved),
    }
}

/// What a scan brought is a scan of some repository, and can be compared with
/// the baseline.
pub open spec fn is_outcome(o: Result<ScanView, Seq<char>>, baseline: Option<ScanView>) -> bool {
    acceptable(o, baseline) && (o matches Ok(r) ==> scan::is_scan(r))
}

/// The event can be taken in.
pub open spec fn can_happen(s: AppView, e: Event) -> bool {
    match e {
        Event::Pressed(k) => can_follow(s, k),
        Event::Scanned { outcome, .. } => is_outcome(outcome, s.baseline),
        Event::Opened { baseline, outcome, .. } => is_outcome(outcome, baseline),
        _ => true,
    }
}

/// `s` after the events, one after the other.
pub open spec fn after_events(s: AppView, events: Seq<Event>) -> AppView
    decreases events.len(),
{
    if events.len() == 0 {
        s
    } else {
        after_event(after_events(s, events.drop_last()), events.last())
    }
}

/// Each event can be taken in when its turn comes.
pub open spec fn can_all_happen(s: AppView, events: Seq<Event>) -> bool
    decreases events.len(),
{
    events.len() > 0 ==> {
        &&& can_all_happen(s, events.drop_last())
        &&& can_happen(after_events(s, events.drop_last()), events.last())
    }
}

/// The state is valid, and what it shows is the scan of some repository.
pub open spec fn shows_scan(s: AppView) -> bool {
    valid(s) && (s.result matches Some(r) ==> scan::is_scan(r))
}

/// An event leaves a state that is valid and shows a scan.
proof fn event_keeps_scan(s: AppView, e: Event)
    requires
        shows_scan(s),
        can_happen(s, e),
    ensures
        shows_scan(after_event(s, e)),
{
    match e {
        Event::Pressed(k) => {
            keys_keep_state_valid(s, k);
        },
        _ => {},
    }
}

/// From the first scan on, whatever keys are pressed and whatever comes of what
/// they ask for, in any order: the state is valid, what it shows is a scan, and
/// the selected check is one of the checks of that scan.
pub proof fn runs_keep_selection_in_list(
    root: Seq<char>,
    baseline: Option<ScanView>,
    outcome: Result<ScanView, Seq<char>>,
    start_ms: u128,
    end_ms: u128,
    events: Seq<Event>,
)
    requires
        is_outcome(outcome, baseline),
        can_all_happen(
            rescanned(with_baseline(unscanned(root), baseline), outcome, start_ms, end_ms),
            events,
        ),
    ensures
        ({
            let s = after_events(
                rescanned(with_baseline(unscanned(root), baseline), outcome, start_ms, end_ms),
                events,
            );
            &&& shows_scan(s)
            &&& s.result matches Some(r) ==> s.selected_check < r.checks.len()
        }),
    decreases events.len(),
{
    let first = rescanned(with_baseline(unscanned(root), baseline), outcome, start_ms, end_ms);
    if events.len() > 0 {
        runs_keep_selection_in_list(root, baseline, outcome, start_ms, end_ms, events.drop_last());
        event_keeps_scan(after_events(first, events.drop_last()), events.last());
    }
    let s = after_events(first, events);
    if s.result is Some {
        scan::every_scan_has_checks(s.result->0);
    }
}

/// The keys end the program: `q` always, `c` with the control key always, and
/// escape while the help is hidden; no other does.
pub proof fn quitting_keys(s: AppView, k: KeyPress)
    ensures
        action_of(s, k) == KeyAction::Quit <==> {
            ||| k.key == Key::Char('q')
            ||| k.key == Key::Char('c') && k.control
            ||| k.key == Key::Esc && !s.show_help
        },
{
}

/// While the help is hidden, `r` asks for a scan, `o` for a folder, `e` for a
/// report and `b` for a baseline, whether or not the control key is held; no
/// other key does, and none while the help is shown.
pub proof fn asking_keys(s: AppView, k: KeyPress)
    ensures
        action_of(s, k) == KeyAction::Rescan <==> !s.show_help && k.key == Key::Char('r'),
        action_of(s, k) == KeyAction::OpenFolder <==> !s.show_help && k.key == Key::Char('o'),
        action_of(s, k) == KeyAction::Export <==> !s.show_help && k.key == Key::Char('e'),
        action_of(s, k) == KeyAction::SaveBaseline <==> !s.show_help && k.key == Key::Char('b'),
{
}

/// The keys `h` and `?` show the help, and hide it again, as escape then does;
/// nothing else changes.
pub proof fn help_keys(s: AppView, k: KeyPress)
    ensures
        k.key == Key::Char('h') || k.key == Key::Char('?') ==> after_key(s, k) == (AppView {
            show_help: !s.show_help,
            ..s
        }) && action_of(s, k) == KeyAction::Nothing,
        k.key == Key::Esc && s.show_help ==> after_key(s, k) == (AppView { show_help: false, ..s })
            && action_of(s, k) == KeyAction::Nothing,
        after_key(s, k).show_help != s.show_help ==> k.key == Key::Char('h') || k.key == Key::Char('?')
            || k.key == Key::Esc,
{
}

/// A key that neither moves, nor scrolls, nor shows or hides the help changes
/// nothing; while the help is shown, only those that hide it change something.
pub proof fn other_keys_change_nothing(s: AppView, k: KeyPress)
    ensures
        !navigates(k.key) && k.key != Key::Char('h') && k.key != Key::Char('?') && k.key != Key::Esc
            ==> after_key(s, k) == s,
        s.show_help && navigates(k.key) ==> after_key(s, k) == s && action_of(s, k) == KeyAction::Nothing,
{
}

/// The selection moves by as many checks as asked, to the first or the last
/// where the list ends before; a check that is newly selected is shown from its
/// first line on, and nothing else changes.
pub proof fn moving_goes_as_far_as_asked(s: AppView, delta: int)
    requires
        valid(s),
    ensures
        ({
            let n = match s.result {
                Some(r) => r.checks.len() as int,
                None => 0int,
            };
            let after = moved(s, delta);
            &&& n == 0 ==> after == (AppView { selected_check: 0, ..s })
            &&& n > 0 && 0 <= s.selected_check + delta < n ==> after.selected_check == s.selected_check + delta
            &&& n > 0 && s.selected_check + delta < 0 ==> after.selected_check == 0
            &&& n > 0 && s.selected_check + delta >= n ==> after.selected_check == n - 1
            &&& n > 0 && after.selected_check != s.selected_check ==> after.detail_scroll == 0
            &&& n > 0 && after.selected_check == s.selected_check ==> after == s
            &&& after == (AppView {
                selected_check: after.selected_check,
                detail_scroll: after.detail_scroll,
                ..s
            })
        }),
{
}

/// The details scroll by as many lines as asked, to the first line where that
/// lies before, and nothing else changes.
pub proof fn scrolling_goes_as_far_as_asked(s: AppView, delta: int)
    requires
        s.detail_scroll + delta <= u16::MAX,
    ensures
        s.detail_scroll + delta >= 0 ==> scrolled(s, delta).detail_scroll == s.detail_scroll + delta,
        s.detail_scroll + delta < 0 ==> scrolled(s, delta).detail_scroll == 0,
        scrolled(s, delta) == (AppView { detail_scroll: scrolled(s, delta).detail_scroll, ..s }),
{
}

/// A scan that came out is shown, compared with the baseline where there is one,
/// from the first line on and with the selection kept within it.
pub proof fn scan_is_taken_in(s: AppView, r: ScanView, start_ms: u128, end_ms: u128)
    requires
        valid(s),
        presentable(r),
    ensures
        ({
            let after = rescanned(s, Ok(r), start_ms, end_ms);
            &&& after.result == Some(r)
            &&& after.status == "OK"@
            &&& after.detail_scroll == 0
            &&& s.baseline is None ==> after.baseline_diff is None
            &&& s.baseline is Some ==> after.baseline_diff == Some(baseline::diff(r, s.baseline->0))
            &&& s.selected_check < r.checks.len() ==> after.selected_check == s.selected_check
            &&& s.selected_check >= r.checks.len() && r.checks.len() > 0 ==> after.selected_check
                == r.checks.len() - 1
            &&& r.checks.len() == 0 ==> after.selected_check == 0
            &&& after.root == s.root && after.baseline == s.baseline && after.show_help == s.show_help
        }),
{
}

/// A scan that failed leaves no result, and the status says why; the rest stays.
pub proof fn failed_scan_is_told(s: AppView, e: Seq<char>, start_ms: u128, end_ms: u128)
    ensures
        ({
            let after = rescanned(s, Err(e), start_ms, end_ms);
            &&& after.result is None
            &&& after.status == "Error: "@ + e
            &&& after == (AppView {
                result: None,
                status: after.status,
                last_scan_ms: after.last_scan_ms,
                ..s
            })
        }),
{
}

/// A scan takes the time from its start to its end; none where the clock ran
/// backwards.
pub proof fn scans_are_timed(
    s: AppView,
    outcome: Result<ScanView, Seq<char>>,
    start_ms: u128,
    end_ms: u128,
)
    ensures
        start_ms <= end_ms ==> start_ms + rescanned(s, outcome, start_ms, end_ms).last_scan_ms == end_ms,
        start_ms > end_ms ==> rescanned(s, outcome, start_ms, end_ms).last_scan_ms == 0,
{
}

/// A folder that is opened replaces the one before, with its own baseline, its
/// own scan and the first check selected, and is named in the status whatever
/// came of the scan.
pub proof fn opened_folder_is_taken_in(
    s: AppView,
    root: Seq<char>,
    baseline: Option<ScanView>,
    outcome: Result<ScanView, Seq<char>>,
    start_ms: u128,
    end_ms: u128,
)
    ensures
        ({
            let after = opened(s, root, baseline, outcome, start_ms, end_ms);
            &&& after.root == root
            &&& after.status == "Opened: "@ + root
            &&& after.baseline == baseline
            &&& after.selected_check == 0
            &&& after.detail_scroll == 0
            &&& after.show_help == s.show_help
            &&& outcome is Ok ==> after.result == Some(outcome->Ok_0)
            &&& outcome is Err ==> after.result is None
            &&& outcome is Ok && baseline is Some ==> after.baseline_diff == Some(
                baseline::diff(outcome->Ok_0, baseline->0),
            )
            &&& outcome is Ok && baseline is None ==> after.baseline_diff is None
            &&& start_ms <= end_ms ==> start_ms + after.last_scan_ms == end_ms
        }),
{
}

/// A scan that was saved is the baseline from then on, compared with itself; the
/// status names the file. Without a scan there is nothing to save.
pub proof fn saved_scan_is_the_baseline(s: AppView, path: Seq<char>)
    ensures
        s.result is Some ==> {
            let after = save_followed(s, Ok(path));
            &&& after.baseline == s.result
            &&& after.baseline_diff == Some(baseline::diff(s.result->0, s.result->0))
            &&& after.status == "Baseline saved: "@ + path
            &&& after.result == s.result
        },
        s.result is None ==> save_followed(s, Ok(path)) == (AppView {
            status: "Nothing to baseline."@,
            ..s
        }),
{
}

/// Before the first scan nothing is shown but the root.
pub proof fn interface_begins_empty(root: Seq<char>, baseline: Option<ScanView>)
    ensures
        ({
            let s = with_baseline(unscanned(root), baseline);
            &&& s.root == root && s.baseline == baseline
            &&& s.result is None && s.baseline_diff is None
            &&& s.status.len() == 0
            &&& s.last_scan_ms == 0 && s.selected_check == 0 && s.detail_scroll == 0
            &&& !s.show_help
        }),
{
}

/// The view of the state shows every field of it.
pub proof fn view_shows_whole_state(a: AppState)
    ensures
        a@.root == a.root@,
        a@.status == a.status@,
        a@.last_scan_ms == a.last_scan_ms,
        a@.selected_check == a.selected_check,
        a@.detail_scroll == a.detail_scroll,
        a@.show_help == a.show_help,
        a@.result is Some == a.result is Some,
        a.result is Some ==> a@.result->0 == a.result->0@,
        a@.baseline is Some == a.baseline is Some,
        a.baseline is Some ==> a@.baseline->0 == a.baseline->0@,
        a@.baseline_diff is Some == a.baseline_diff is Some,
        a.baseline_diff is Some ==> a@.baseline_diff->0 == a.baseline_diff->0@,
{
}

/// What is exported is the Markdown report on the scan that is shown, with the
/// comparison that is shown; without a scan nothing is.
pub proof fn shown_scan_is_exported(s: AppView, json: Seq<char>)
    ensures
        s.result is Some ==> report_of(s) == Some(
            report::report_text(model::Mode::Md, s.result->0, s.baseline_diff, json),
        ),
        s.result is None ==> report_of(s) is None,
{
    report::report_has_the_form_asked_for(s.result->0, s.baseline_diff, json);
}

/// A baseline that is loaded replaces the one before and changes nothing else.
pub proof fn loaded_baseline_replaces_the_last(s: AppView, loaded: Option<ScanView>)
    ensures
        with_baseline(s, loaded) == (AppView { baseline: loaded, ..s }),
        s.result is Some ==> shown_checks(s) == s.result->0.checks.len(),
        s.result is None ==> shown_checks(s) == 0,
{
}

} // verus!
