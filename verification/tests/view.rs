use rustiq::app::{App, DiffViewMode};
use rustiq::domain::{Comment, DiffFile, DiffLine, DiffLineKind, FileStatus};
use rustiq::theme::Theme;
use rustiq::view::{diff_line_colors, shows_syntax_colours};

fn app_with(files: usize, comments: Vec<Comment>) -> App {
    let mut app = App::with_data(vec![], comments);
    for i in 0..files {
        app.files.push(DiffFile { path: format!("f{i}"), old_path: None, status: FileStatus::Modified, hunks: vec![] });
    }
    app
}

#[test]
fn status_line() {
    let app = app_with(0, vec![]);
    assert_eq!(
        app.status_text(),
        " STACKED | Theme: default-dark | no changes | 💬 0 comments  c add · e edit · d del · C copy · V view · T theme · r refresh · q quit "
    );
    let mut stale = Comment::new("f0".to_string(), 3, "h".to_string(), "t".to_string());
    stale.stale = true;
    let fresh = Comment::new("f1".to_string(), 4, "h".to_string(), "t".to_string());
    let mut app = app_with(2, vec![stale, fresh]);
    app.view_mode = DiffViewMode::Split;
    assert_eq!(
        app.status_text(),
        " SPLIT | Theme: default-dark | 2 files | 💬 2 comments (1 stale)  c add · e edit · d del · C copy · V view · T theme · r refresh · q quit "
    );
    app.status_message = Some("Comment saved.".to_string());
    assert_eq!(app.status_text(), "Comment saved.");
}

#[test]
fn counts_and_markers() {
    let mut stale = Comment::new("f0".to_string(), 3, "h".to_string(), "t".to_string());
    stale.stale = true;
    let other = Comment::new("f0".to_string(), 5, "h".to_string(), "t".to_string());
    let app = app_with(1, vec![stale, other]);
    assert_eq!(app.comment_count_for_file(&"f0".to_string()), 2);
    assert_eq!(app.comment_count_for_file(&"f1".to_string()), 0);
    assert_eq!(app.stale_count(), 1);
    assert_eq!(app.gutter_marker(&"f0".to_string(), Some(3)), " [S]");
    assert_eq!(app.gutter_marker(&"f0".to_string(), Some(5)), " 💬 ");
    assert_eq!(app.gutter_marker(&"f0".to_string(), Some(4)), "    ");
    assert_eq!(app.gutter_marker(&"f0".to_string(), None), "    ");
}

#[test]
fn input_cursor_wraps_and_stays_inside() {
    let mut app = app_with(0, vec![]);
    assert_eq!(app.input_cursor(10, 2), (0, 0));
    app.comment_input_text = "abcdefghijklmnopqrstuvwxy".to_string(); // 25 characters
    assert_eq!(app.input_cursor(10, 2), (5, 1));
    assert_eq!(app.input_cursor(10, 5), (5, 2));
    assert_eq!(app.input_cursor(0, 0), (0, 0));
    app.comment_input_text = "ééé".to_string();
    assert_eq!(app.input_cursor(2, 3), (1, 1));
}

#[test]
fn layout_labels() {
    assert_eq!(DiffViewMode::Stacked.label(), "STACKED");
    assert_eq!(DiffViewMode::Split.label(), "SPLIT");
    assert_eq!(DiffViewMode::Stacked.toggle(), DiffViewMode::Split);
    assert_eq!(DiffViewMode::Split.toggle().toggle(), DiffViewMode::Split);
}

#[test]
fn gutter_shows_numbers_marker_and_prefix() {
    let mut stale = Comment::new("f0".to_string(), 7, "h".to_string(), "t".to_string());
    stale.stale = true;
    let app = app_with(1, vec![stale, Comment::new("f0".to_string(), 12345, "h".to_string(), "t".to_string())]);
    let added = DiffLine { kind: DiffLineKind::Added, old_lineno: None, new_lineno: Some(7), content: "x".to_string() };
    assert_eq!(app.gutter_text(&"f0".to_string(), &added), "        7 [S]+");
    let context = DiffLine { kind: DiffLineKind::Context, old_lineno: Some(12), new_lineno: Some(13), content: "y".to_string() };
    assert_eq!(app.gutter_text(&"f0".to_string(), &context), "  12   13     ");
    let removed = DiffLine { kind: DiffLineKind::Removed, old_lineno: Some(40), new_lineno: None, content: "z".to_string() };
    assert_eq!(app.gutter_text(&"f0".to_string(), &removed), "  40         -");
    let wide = DiffLine { kind: DiffLineKind::Context, old_lineno: Some(12345), new_lineno: Some(12345), content: "w".to_string() };
    assert_eq!(app.gutter_text(&"f0".to_string(), &wide), "12345 12345 💬  ");
}

#[test]
fn diff_line_colours_follow_kind_and_cursor() {
    let t = Theme::DefaultDark;
    assert_eq!(diff_line_colors(DiffLineKind::Added, t, false), (t.added_bg(), t.added_fg()));
    assert_eq!(diff_line_colors(DiffLineKind::Removed, t, false), (t.removed_bg(), t.removed_fg()));
    assert_eq!(diff_line_colors(DiffLineKind::Context, t, false), (t.bg(), t.fg()));
    assert_eq!(diff_line_colors(DiffLineKind::Added, t, true), (t.selection_bg(), t.added_fg()));
}

#[test]
fn only_context_lines_show_syntax_colours() {
    assert!(shows_syntax_colours(DiffLineKind::Context, true));
    assert!(!shows_syntax_colours(DiffLineKind::Context, false));
    assert!(!shows_syntax_colours(DiffLineKind::Added, true));
    assert!(!shows_syntax_colours(DiffLineKind::Removed, true));
}

#[test]
fn comment_counts_compare_paths_by_component() {
    let app = app_with(0, vec![
        Comment::new("src//a.rs".to_string(), 1, "h".to_string(), "t".to_string()),
        Comment::new("src/./a.rs/".to_string(), 2, "h".to_string(), "t".to_string()),
        Comment::new("./src/a.rs".to_string(), 3, "h".to_string(), "t".to_string()),
    ]);
    assert_eq!(app.comment_count_for_file(&"src/a.rs".to_string()), 2);
    assert!(app.comment_for_line(&"src/a.rs".to_string(), 2).is_some());
}
