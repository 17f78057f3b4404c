use std::cell::RefCell;
use std::collections::HashMap;

use rustiq::app::{App, DiffViewMode, Screen};
use rustiq::domain::{Baseline, Comment, DiffFile, DiffLine, DiffLineKind, FileStatus, Hunk};
use rustiq::keys::{Key, KeyCode, KeyOutcome};
use rustiq::ports::{CommentStore, GitRepository};
use rustiq::comments::ClipboardOutcome;
use rustiq::store::JsonCommentStore;
use rustiq::theme::Theme;

struct FakeRepo {
    baselines: Vec<Baseline>,
    files: Vec<DiffFile>,
    contents: RefCell<HashMap<String, Vec<String>>>,
    fail_diff: bool,
    asked: RefCell<Vec<String>>,
}

impl GitRepository for FakeRepo {
    fn log(&self) -> Result<Vec<Baseline>, String> {
        Ok(self.baselines.clone())
    }
    fn diff(&self, baseline: &Baseline) -> Result<Vec<DiffFile>, String> {
        self.asked.borrow_mut().push(baseline.label());
        if self.fail_diff {
            Err("no such commit".to_string())
        } else {
            Ok(self.files.clone())
        }
    }
    fn read_lines(&self, path: &String) -> Result<Vec<String>, String> {
        self.asked.borrow_mut().push(path.clone());
        self.contents.borrow().get(path).cloned().ok_or_else(|| "missing".to_string())
    }
}

struct FakeStore {
    saved: RefCell<Vec<Comment>>,
    fail: RefCell<Option<String>>,
    exported: RefCell<Option<String>>,
}

impl CommentStore for FakeStore {
    fn load(&self) -> Result<Vec<Comment>, String> {
        Ok(self.saved.borrow().clone())
    }
    fn save(&self, comments: &Vec<Comment>) -> Result<(), String> {
        if let Some(e) = self.fail.borrow().clone() {
            return Err(e);
        }
        *self.saved.borrow_mut() = comments.clone();
        Ok(())
    }
    fn write_export(&self, text: &String) -> Result<(), String> {
        if let Some(e) = self.fail.borrow().clone() {
            return Err(e);
        }
        *self.exported.borrow_mut() = Some(text.clone());
        Ok(())
    }
}

fn line(kind: DiffLineKind, old: Option<u32>, new: Option<u32>, content: &str) -> DiffLine {
    DiffLine { kind, old_lineno: old, new_lineno: new, content: content.to_string() }
}

fn sample_files() -> Vec<DiffFile> {
    vec![
        DiffFile {
            path: "a.rs".to_string(),
            old_path: None,
            status: FileStatus::Modified,
            hunks: vec![
                Hunk {
                    header: "@@ -1,2 +1,2 @@".to_string(),
                    lines: vec![
                        line(DiffLineKind::Context, Some(1), Some(1), "l1"),
                        line(DiffLineKind::Removed, Some(2), None, "old"),
                        line(DiffLineKind::Added, None, Some(2), "l2"),
                    ],
                },
                Hunk {
                    header: "@@ -5 +5 @@".to_string(),
                    lines: vec![line(DiffLineKind::Context, Some(3), Some(3), "l3")],
                },
            ],
        },
        DiffFile {
            path: "b.rs".to_string(),
            old_path: None,
            status: FileStatus::Added,
            hunks: vec![Hunk { header: String::new(), lines: vec![line(DiffLineKind::Added, None, Some(1), "x")] }],
        },
    ]
}

fn repo() -> FakeRepo {
    let mut contents = HashMap::new();
    contents.insert("a.rs".to_string(), vec!["l1".to_string(), "l2".to_string(), "l3".to_string()]);
    contents.insert("b.rs".to_string(), vec!["x".to_string()]);
    FakeRepo {
        baselines: vec![
            Baseline::WorkingTree,
            Baseline::Commit { oid: "0123456789abcdef".to_string(), summary: "first".to_string() },
        ],
        files: sample_files(),
        contents: RefCell::new(contents),
        fail_diff: false,
        asked: RefCell::new(vec![]),
    }
}

fn store() -> FakeStore {
    FakeStore { saved: RefCell::new(vec![]), fail: RefCell::new(None), exported: RefCell::new(None) }
}

fn key(code: KeyCode) -> Key {
    Key { code, shift: false }
}

fn ch(c: char) -> Key {
    key(KeyCode::Char(c))
}

fn press(app: &mut App, r: &FakeRepo, s: &FakeStore, k: Key) -> KeyOutcome {
    app.handle_key(k, r, s).expect("key handled")
}

fn typed(app: &mut App, r: &FakeRepo, s: &FakeStore, text: &str) {
    for c in text.chars() {
        press(app, r, s, ch(c));
    }
}

/// An app on the main screen, diff loaded, cursor on the first line of a.rs.
fn loaded() -> (App, FakeRepo, FakeStore) {
    let r = repo();
    let s = store();
    let mut app = App::new(&r, &s).unwrap();
    press(&mut app, &r, &s, key(KeyCode::Enter));
    (app, r, s)
}

#[test]
fn starts_on_the_baseline_picker() {
    let r = repo();
    let s = store();
    let app = App::new(&r, &s).unwrap();
    assert_eq!(app.screen, Screen::BaselinePicker);
    assert_eq!(app.theme, Theme::DefaultDark);
    assert_eq!(app.view_mode, DiffViewMode::Stacked);
    assert_eq!(app.baselines.len(), 2);
    assert_eq!(app.baseline_cursor, 0);
    assert!(app.files.is_empty());
    assert_eq!(app.diff_viewport_height, 1);
    assert!(app.status_message.is_none());
}

#[test]
fn baseline_picker_keys() {
    let r = repo();
    let s = store();
    let mut app = App::new(&r, &s).unwrap();
    press(&mut app, &r, &s, key(KeyCode::Up));
    assert_eq!(app.baseline_cursor, 0);
    press(&mut app, &r, &s, ch('j'));
    assert_eq!(app.baseline_cursor, 1);
    press(&mut app, &r, &s, key(KeyCode::Down));
    assert_eq!(app.baseline_cursor, 1);
    press(&mut app, &r, &s, ch('k'));
    assert_eq!(app.baseline_cursor, 0);
    assert!(matches!(press(&mut app, &r, &s, ch('x')), KeyOutcome::Continue));
    assert!(matches!(press(&mut app, &r, &s, key(KeyCode::Esc)), KeyOutcome::Quit));
    assert!(matches!(press(&mut app, &r, &s, ch('q')), KeyOutcome::Quit));
}

#[test]
fn selecting_a_baseline_loads_its_diff() {
    let (app, _r, _s) = loaded();
    assert_eq!(app.screen, Screen::Main);
    assert_eq!(app.files.len(), 2);
    assert_eq!(app.file_cursor, 0);
    assert_eq!(app.diff_line_cursor, 0);
    assert_eq!(app.current_file().unwrap().path, "a.rs");
    let lines: Vec<&str> = app.all_diff_lines().iter().map(|l| l.content.as_str()).collect();
    assert_eq!(lines, vec!["l1", "old", "l2", "l3"]);
    assert_eq!(app.current_line_no(), Some(1));
    assert_eq!(app.current_file_path(), Some("a.rs".to_string()));
}

#[test]
fn no_baseline_is_reported() {
    let mut r = repo();
    r.baselines = vec![];
    let s = store();
    let mut app = App::new(&r, &s).unwrap();
    press(&mut app, &r, &s, key(KeyCode::Enter));
    assert_eq!(app.screen, Screen::BaselinePicker);
    assert_eq!(app.status_message.as_deref(), Some("No baseline is available."));
}

#[test]
fn a_failing_diff_is_an_error_and_changes_nothing() {
    let mut r = repo();
    r.fail_diff = true;
    let s = store();
    let mut app = App::new(&r, &s).unwrap();
    let res = app.handle_key(key(KeyCode::Enter), &r, &s);
    assert_eq!(res.err(), Some("no such commit".to_string()));
    assert_eq!(app.screen, Screen::BaselinePicker);
}

#[test]
fn moving_through_lines_and_files() {
    let (mut app, r, s) = loaded();
    press(&mut app, &r, &s, key(KeyCode::Down));
    assert_eq!(app.diff_line_cursor, 1);
    // one visible line: the view follows the cursor
    assert_eq!(app.diff_scroll, 1);
    assert_eq!(app.current_line_no(), None);
    press(&mut app, &r, &s, ch('j'));
    press(&mut app, &r, &s, ch('j'));
    press(&mut app, &r, &s, ch('j'));
    assert_eq!(app.diff_line_cursor, 3);
    assert_eq!(app.diff_scroll, 3);
    press(&mut app, &r, &s, ch('k'));
    assert_eq!(app.diff_line_cursor, 2);
    assert_eq!(app.diff_scroll, 2);
    press(&mut app, &r, &s, key(KeyCode::Tab));
    assert_eq!(app.file_cursor, 1);
    assert_eq!((app.diff_line_cursor, app.diff_scroll), (0, 0));
    press(&mut app, &r, &s, key(KeyCode::Tab));
    assert_eq!(app.file_cursor, 1);
    press(&mut app, &r, &s, key(KeyCode::BackTab));
    assert_eq!(app.file_cursor, 0);
    press(&mut app, &r, &s, Key { code: KeyCode::Down, shift: true });
    assert_eq!(app.file_cursor, 1);
    press(&mut app, &r, &s, Key { code: KeyCode::Char('k'), shift: true });
    assert_eq!(app.file_cursor, 0);
    press(&mut app, &r, &s, key(KeyCode::PageDown));
    assert_eq!(app.diff_scroll, 10);
    press(&mut app, &r, &s, key(KeyCode::PageUp));
    press(&mut app, &r, &s, key(KeyCode::PageUp));
    assert_eq!(app.diff_scroll, 0);
}

#[test]
fn down_then_up_returns_to_the_line() {
    let (mut app, _r, _s) = loaded();
    app.diff_line_down();
    app.diff_line_up();
    assert_eq!(app.diff_line_cursor, 0);
    app.file_down();
    app.file_up();
    assert_eq!(app.file_cursor, 0);
}

#[test]
fn wider_viewport_scrolls_only_past_its_end() {
    let (mut app, _r, _s) = loaded();
    app.diff_viewport_height = 3;
    app.diff_line_down();
    app.diff_line_down();
    assert_eq!((app.diff_line_cursor, app.diff_scroll), (2, 0));
    app.diff_line_down();
    assert_eq!((app.diff_line_cursor, app.diff_scroll), (3, 1));
    app.diff_line_up();
    app.diff_line_up();
    assert_eq!((app.diff_line_cursor, app.diff_scroll), (1, 1));
    app.diff_line_up();
    assert_eq!((app.diff_line_cursor, app.diff_scroll), (0, 0));
}

#[test]
fn layout_and_theme_keys() {
    let (mut app, r, s) = loaded();
    press(&mut app, &r, &s, ch('s'));
    assert_eq!(app.view_mode, DiffViewMode::Split);
    press(&mut app, &r, &s, ch('S'));
    assert_eq!(app.view_mode, DiffViewMode::Stacked);
    press(&mut app, &r, &s, ch('T'));
    assert_eq!(app.theme, Theme::GithubLight);
    press(&mut app, &r, &s, ch('t'));
    assert_eq!(app.theme, Theme::DefaultDark);
    assert!(matches!(press(&mut app, &r, &s, ch('q')), KeyOutcome::Quit));
}

#[test]
fn adding_a_comment_then_finding_it() {
    let (mut app, r, s) = loaded();
    press(&mut app, &r, &s, ch('c'));
    assert_eq!(app.screen, Screen::CommentInput);
    assert!(app.comment_editing_id.is_none());
    assert_eq!(app.comment_input_text, "");
    typed(&mut app, &r, &s, "  looks odd ");
    press(&mut app, &r, &s, key(KeyCode::Backspace));
    assert_eq!(app.comment_input_text, "  looks odd");
    press(&mut app, &r, &s, key(KeyCode::Enter));
    assert_eq!(app.screen, Screen::Main);
    assert_eq!(app.status_message.as_deref(), Some("Comment saved."));
    assert_eq!(app.comments.len(), 1);
    let c = app.comment_for_current_line().unwrap();
    assert_eq!(c.text, "looks odd");
    assert_eq!(c.file, "a.rs");
    assert_eq!(c.line_no, 1);
    assert!(!c.stale);
    let lines = vec!["l1".to_string(), "l2".to_string(), "l3".to_string()];
    assert_eq!(c.anchor_hash, JsonCommentStore::anchor_hash(&lines, 1));
    assert_eq!(s.saved.borrow().len(), 1);
    assert_eq!(s.saved.borrow()[0].text, "looks odd");
    assert!(app.comment_for_line(&"a.rs".to_string(), 1).is_some());
    assert!(app.comment_for_line(&"a.rs".to_string(), 2).is_none());
}

#[test]
fn blank_comment_is_not_saved() {
    let (mut app, r, s) = loaded();
    press(&mut app, &r, &s, ch('c'));
    typed(&mut app, &r, &s, "  \t ");
    press(&mut app, &r, &s, key(KeyCode::Enter));
    assert_eq!(app.screen, Screen::Main);
    assert!(app.comments.is_empty());
    assert!(app.status_message.is_none());
}

#[test]
fn comment_on_a_removed_line_is_not_saved() {
    let (mut app, r, s) = loaded();
    app.diff_line_down(); // the removed line has no new line number
    press(&mut app, &r, &s, ch('c'));
    typed(&mut app, &r, &s, "x");
    press(&mut app, &r, &s, key(KeyCode::Enter));
    assert_eq!(app.screen, Screen::Main);
    assert!(app.comments.is_empty());
}

#[test]
fn editing_a_comment_keeps_its_identity() {
    let (mut app, r, s) = loaded();
    press(&mut app, &r, &s, ch('c'));
    typed(&mut app, &r, &s, "first");
    press(&mut app, &r, &s, key(KeyCode::Enter));
    let id = app.comments[0].id;
    let created = app.comments[0].created_at;
    press(&mut app, &r, &s, ch('e'));
    assert_eq!(app.comment_editing_id, Some(id));
    assert_eq!(app.comment_input_text, "first");
    typed(&mut app, &r, &s, "!");
    press(&mut app, &r, &s, key(KeyCode::Enter));
    assert_eq!(app.comments.len(), 1);
    assert_eq!(app.comments[0].id, id);
    assert_eq!(app.comments[0].text, "first!");
    assert_eq!(app.comments[0].created_at, created);
    assert!(app.comment_editing_id.is_none());
}

#[test]
fn escape_cancels_the_input() {
    let (mut app, r, s) = loaded();
    press(&mut app, &r, &s, ch('c'));
    typed(&mut app, &r, &s, "abc");
    press(&mut app, &r, &s, key(KeyCode::Esc));
    assert_eq!(app.screen, Screen::Main);
    assert_eq!(app.comment_input_text, "");
    assert!(app.comment_editing_id.is_none());
    assert!(app.comments.is_empty());
}

#[test]
fn failed_save_keeps_the_input_open() {
    let (mut app, r, s) = loaded();
    *s.fail.borrow_mut() = Some("disk full".to_string());
    press(&mut app, &r, &s, ch('c'));
    typed(&mut app, &r, &s, "note");
    press(&mut app, &r, &s, key(KeyCode::Enter));
    assert_eq!(app.status_message.as_deref(), Some("Save failed: disk full"));
    assert_eq!(app.screen, Screen::CommentInput);
    assert!(app.comments.is_empty());
}

#[test]
fn deleting_the_comment_on_a_line() {
    let (mut app, r, s) = loaded();
    press(&mut app, &r, &s, ch('c'));
    typed(&mut app, &r, &s, "one");
    press(&mut app, &r, &s, key(KeyCode::Enter));
    app.diff_line_down();
    app.diff_line_down();
    press(&mut app, &r, &s, ch('c'));
    typed(&mut app, &r, &s, "two");
    press(&mut app, &r, &s, key(KeyCode::Enter));
    assert_eq!(app.comments.len(), 2);
    press(&mut app, &r, &s, ch('d'));
    assert_eq!(app.status_message.as_deref(), Some("Comment deleted."));
    assert_eq!(app.comments.len(), 1);
    assert_eq!(app.comments[0].text, "one");
    assert_eq!(s.saved.borrow().len(), 1);
    // deleting where there is none stores the same list
    press(&mut app, &r, &s, ch('d'));
    assert_eq!(app.comments.len(), 1);
}

#[test]
fn failed_delete_keeps_the_comment() {
    let (mut app, r, s) = loaded();
    press(&mut app, &r, &s, ch('c'));
    typed(&mut app, &r, &s, "one");
    press(&mut app, &r, &s, key(KeyCode::Enter));
    *s.fail.borrow_mut() = Some("read-only".to_string());
    press(&mut app, &r, &s, ch('d'));
    assert_eq!(app.status_message.as_deref(), Some("Save failed: read-only"));
    assert_eq!(app.comments.len(), 1);
}

#[test]
fn export_view_shows_the_comments_in_diff_format() {
    let (mut app, r, s) = loaded();
    press(&mut app, &r, &s, ch('v'));
    assert_eq!(app.status_message.as_deref(), Some("No comments to view."));
    assert_eq!(app.screen, Screen::Main);
    app.diff_line_down();
    app.diff_line_down();
    press(&mut app, &r, &s, ch('c'));
    typed(&mut app, &r, &s, "why?");
    press(&mut app, &r, &s, key(KeyCode::Enter));
    press(&mut app, &r, &s, ch('V'));
    assert_eq!(app.screen, Screen::CommentExport);
    let expected = "=== a.rs : line 2 ===\n--- a/a.rs\n+++ b/a.rs\n@@ -1,3 +1,3 @@\n  l1\n> l2\n  l3\n# Comment: why?\n\n";
    assert_eq!(app.comment_export_text, expected);
    assert_eq!(s.exported.borrow().as_deref(), Some(expected));
    assert_eq!(app.comment_export_line_count, 9);
    assert_eq!(app.comment_export_scroll, 0);
    // scrolling stops at the last line
    for _ in 0..20 {
        press(&mut app, &r, &s, ch('j'));
    }
    assert_eq!(app.comment_export_scroll, 8);
    press(&mut app, &r, &s, key(KeyCode::PageUp));
    assert_eq!(app.comment_export_scroll, 0);
    press(&mut app, &r, &s, key(KeyCode::PageDown));
    assert_eq!(app.comment_export_scroll, 8);
    press(&mut app, &r, &s, key(KeyCode::Up));
    assert_eq!(app.comment_export_scroll, 7);
    press(&mut app, &r, &s, ch('q'));
    assert_eq!(app.screen, Screen::Main);
}

#[test]
fn export_of_a_long_file_shows_twenty_one_lines_of_context() {
    let (mut app, r, s) = loaded();
    let long: Vec<String> = (1..=40).map(|i| format!("x{i}")).collect();
    r.contents.borrow_mut().insert("a.rs".to_string(), long);
    app.comments.push(Comment::new("a.rs".to_string(), 20, "h".to_string(), "mid".to_string()));
    let text = app.format_comments_for_export(&r);
    let mut expected = String::from("=== a.rs : line 20 ===\n");
    expected.push_str("--- a/a.rs\n+++ b/a.rs\n@@ -10,21 +10,21 @@\n");
    for i in 10..=30 {
        expected.push_str(&format!("{} x{i}\n", if i == 20 { ">" } else { " " }));
    }
    expected.push_str("# Comment: mid\n\n");
    assert_eq!(text, expected);
    let _ = s;
}

#[test]
fn copy_to_clipboard_hands_out_the_export() {
    let (mut app, r, s) = loaded();
    press(&mut app, &r, &s, ch('C'));
    assert_eq!(app.status_message.as_deref(), Some("No comments to export."));
    press(&mut app, &r, &s, ch('c'));
    typed(&mut app, &r, &s, "n");
    press(&mut app, &r, &s, key(KeyCode::Enter));
    let out = press(&mut app, &r, &s, ch('C'));
    let expected = app.format_comments_for_export(&r);
    match out {
        KeyOutcome::CopyToClipboard(t) => assert_eq!(t, expected),
        _ => panic!("expected text to copy"),
    }
    // `C` keeps the status message
    assert_eq!(app.status_message.as_deref(), Some("Comment saved."));
    app.record_clipboard_outcome(ClipboardOutcome::Copied);
    assert_eq!(app.status_message.as_deref(), Some("Copied 1 comment(s) to clipboard."));
    app.record_clipboard_outcome(ClipboardOutcome::WrittenTo("/tmp/x.txt".to_string()));
    assert_eq!(app.status_message.as_deref(), Some("Clipboard unavailable. Written to /tmp/x.txt"));
    app.record_clipboard_outcome(ClipboardOutcome::Failed("denied".to_string()));
    assert_eq!(app.status_message.as_deref(), Some("Clipboard export failed: denied"));
    // any other key clears it
    press(&mut app, &r, &s, key(KeyCode::Left));
    assert!(app.status_message.is_none());
}

#[test]
fn editing_near_a_comment_marks_it_stale() {
    let (mut app, r, s) = loaded();
    press(&mut app, &r, &s, ch('c'));
    typed(&mut app, &r, &s, "n");
    press(&mut app, &r, &s, key(KeyCode::Enter));
    // unchanged file: still fresh after a refresh
    press(&mut app, &r, &s, ch('r'));
    assert!(!app.comments[0].stale);
    r.contents.borrow_mut().insert("a.rs".to_string(), vec!["l1".to_string(), "changed".to_string(), "l3".to_string()]);
    press(&mut app, &r, &s, ch('r'));
    assert!(app.comments[0].stale);
    assert_eq!(app.stale_count(), 1);
    let text = app.format_comments_for_export(&r);
    assert!(text.starts_with("=== a.rs : line 1 ===\n[STALE]\n"));
    // editing the comment makes it fresh again
    press(&mut app, &r, &s, ch('e'));
    press(&mut app, &r, &s, key(KeyCode::Enter));
    assert!(!app.comments[0].stale);
}

#[test]
fn a_comment_far_beyond_the_end_of_its_file_turns_stale_with_an_empty_context() {
    let (mut app, r, s) = loaded();
    app.comments.push(Comment::new("b.rs".to_string(), 50, "h".to_string(), "shrunk".to_string()));
    app.comments.push(Comment::new("missing.rs".to_string(), 20, "h".to_string(), "gone".to_string()));
    press(&mut app, &r, &s, ch('r'));
    assert_eq!(app.screen, Screen::Main);
    assert!(app.comments.iter().all(|c| c.stale));
    let expected = "=== b.rs : line 50 ===\n[STALE]\n--- a/b.rs\n+++ b/b.rs\n@@ -2,0 +2,0 @@\n# Comment: shrunk\n\n\
=== missing.rs : line 20 ===\n[STALE]\n--- a/missing.rs\n+++ b/missing.rs\n@@ -1,0 +1,0 @@\n# Comment: gone\n\n";
    assert_eq!(app.format_comments_for_export(&r), expected);
    press(&mut app, &r, &s, ch('v'));
    assert_eq!(app.screen, Screen::CommentExport);
    assert_eq!(app.comment_export_text, expected);
    assert_eq!(s.exported.borrow().as_deref(), Some(expected));
    press(&mut app, &r, &s, ch('q'));
    assert!(matches!(press(&mut app, &r, &s, ch('C')), KeyOutcome::CopyToClipboard(t) if t == expected));
}

#[test]
fn deleting_undoes_adding_a_comment() {
    let (mut app, r, s) = loaded();
    press(&mut app, &r, &s, ch('c'));
    typed(&mut app, &r, &s, "temporary");
    press(&mut app, &r, &s, key(KeyCode::Enter));
    assert_eq!(app.comments.len(), 1);
    press(&mut app, &r, &s, ch('d'));
    assert!(app.comments.is_empty());
    assert!(s.saved.borrow().is_empty());
}

#[test]
fn editing_a_comment_that_is_gone_changes_nothing() {
    let (mut app, r, s) = loaded();
    press(&mut app, &r, &s, ch('c'));
    typed(&mut app, &r, &s, "kept");
    press(&mut app, &r, &s, key(KeyCode::Enter));
    press(&mut app, &r, &s, ch('c'));
    app.comment_editing_id = Some(12345);
    typed(&mut app, &r, &s, "x");
    press(&mut app, &r, &s, key(KeyCode::Enter));
    assert_eq!(app.comments.len(), 1);
    assert_eq!(app.comments[0].text, "kept");
    assert_eq!(app.status_message.as_deref(), Some("Comment saved."));
}

#[test]
fn saving_on_a_line_of_an_unreadable_file_anchors_it_in_no_lines() {
    let mut r = repo();
    r.files.push(DiffFile {
        path: "gone.rs".to_string(),
        old_path: None,
        status: FileStatus::Added,
        hunks: vec![Hunk { header: String::new(), lines: vec![line(DiffLineKind::Added, None, Some(30), "x")] }],
    });
    let s = store();
    let mut app = App::new(&r, &s).unwrap();
    press(&mut app, &r, &s, key(KeyCode::Enter));
    app.file_down();
    app.file_down();
    assert_eq!(app.current_file_path(), Some("gone.rs".to_string()));
    press(&mut app, &r, &s, ch('c'));
    typed(&mut app, &r, &s, "x");
    press(&mut app, &r, &s, key(KeyCode::Enter));
    assert_eq!(app.comments.len(), 1);
    assert_eq!(app.comments[0].line_no, 30);
    assert_eq!(app.comments[0].anchor_hash, JsonCommentStore::anchor_hash(&Vec::new(), 30));
    assert_eq!(
        app.comments[0].anchor_hash,
        "e3b0c44298fc1c149afbf4c8996fb92427ae41e4649b934ca495991b7852b855"
    );
    assert_eq!(app.screen, Screen::Main);
    assert_eq!(app.status_message.as_deref(), Some("Comment saved."));
}

#[test]
fn export_view_reports_an_export_file_that_was_not_written() {
    let (mut app, r, s) = loaded();
    app.diff_line_down();
    app.diff_line_down();
    press(&mut app, &r, &s, ch('c'));
    typed(&mut app, &r, &s, "note");
    press(&mut app, &r, &s, key(KeyCode::Enter));
    *s.fail.borrow_mut() = Some("disk full".to_string());
    press(&mut app, &r, &s, ch('v'));
    assert_eq!(app.screen, Screen::CommentExport);
    assert_eq!(app.status_message.as_deref(), Some("Export file not written: disk full"));
    assert!(s.exported.borrow().is_none());
}

#[test]
fn the_diff_is_asked_for_the_baseline_under_the_cursor_and_each_commented_file_is_read() {
    let r = repo();
    let s = store();
    let mut app = App::new(&r, &s).unwrap();
    app.comments.push(Comment::new("b.rs".to_string(), 1, "h".to_string(), "one".to_string()));
    app.comments.push(Comment::new("a.rs".to_string(), 2, "h".to_string(), "two".to_string()));
    press(&mut app, &r, &s, key(KeyCode::Down));
    press(&mut app, &r, &s, key(KeyCode::Enter));
    assert_eq!(
        *r.asked.borrow(),
        vec![Baseline::Commit { oid: "0123456789abcdef".to_string(), summary: "first".to_string() }.label(), "b.rs".to_string(), "a.rs".to_string()]
    );
}

struct UnreadableStore;

impl CommentStore for UnreadableStore {
    fn load(&self) -> Result<Vec<Comment>, String> {
        Err("comments.json is not JSON".to_string())
    }
    fn save(&self, _comments: &Vec<Comment>) -> Result<(), String> {
        Ok(())
    }
    fn write_export(&self, _text: &String) -> Result<(), String> {
        Ok(())
    }
}

#[test]
fn start_up_passes_on_an_unreadable_comment_file() {
    let r = repo();
    assert_eq!(App::new(&r, &UnreadableStore).err().as_deref(), Some("comments.json is not JSON"));
}

#[test]
fn saving_hands_all_comments_to_the_store() {
    let (mut app, r, s) = loaded();
    app.diff_line_down();
    app.diff_line_down();
    press(&mut app, &r, &s, ch('c'));
    typed(&mut app, &r, &s, "kept");
    press(&mut app, &r, &s, key(KeyCode::Enter));
    let saved = s.saved.borrow();
    assert_eq!(saved.len(), 1);
    assert_eq!(saved[0].text, "kept");
    assert_eq!(saved[0].id, app.comments[0].id);
    assert_eq!(saved[0].anchor_hash, app.comments[0].anchor_hash);
}
