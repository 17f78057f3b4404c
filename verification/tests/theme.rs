use rustiq::theme::{Rgb, Theme};
use rustiq::view::badge_color;
use rustiq::domain::FileStatus;

#[test]
fn themes_cycle() {
    assert_eq!(Theme::DefaultDark.cycle(), Theme::GithubLight);
    assert_eq!(Theme::GithubLight.cycle(), Theme::DefaultDark);
    for t in [Theme::DefaultDark, Theme::GithubLight] {
        assert_eq!(t.cycle().cycle(), t);
        assert_eq!(t.cycle().is_dark(), !t.is_dark());
    }
}

#[test]
fn theme_names() {
    assert_eq!(Theme::DefaultDark.name(), "default-dark");
    assert_eq!(Theme::GithubLight.name(), "github-light");
    assert!(Theme::DefaultDark.is_dark());
    assert!(!Theme::GithubLight.is_dark());
}

#[test]
fn theme_colours() {
    let d = Theme::DefaultDark;
    let l = Theme::GithubLight;
    assert_eq!(d.bg(), Rgb { r: 24, g: 24, b: 37 });
    assert_eq!(l.bg(), Rgb { r: 255, g: 255, b: 255 });
    assert_eq!(d.fg(), Rgb { r: 205, g: 214, b: 244 });
    assert_eq!(l.fg(), Rgb { r: 36, g: 41, b: 47 });
    assert_eq!(d.border(), Rgb { r: 88, g: 91, b: 112 });
    assert_eq!(l.border(), Rgb { r: 208, g: 215, b: 222 });
    assert_eq!(d.selection_bg(), Rgb { r: 49, g: 50, b: 68 });
    assert_eq!(l.selection_bg(), Rgb { r: 234, g: 238, b: 242 });
    assert_eq!(d.added_bg(), Rgb { r: 30, g: 70, b: 32 });
    assert_eq!(l.added_bg(), Rgb { r: 204, g: 255, b: 204 });
    assert_eq!(d.removed_bg(), Rgb { r: 80, g: 20, b: 20 });
    assert_eq!(l.removed_bg(), Rgb { r: 255, g: 220, b: 220 });
    assert_eq!(d.added_fg(), Rgb { r: 166, g: 227, b: 161 });
    assert_eq!(l.added_fg(), Rgb { r: 22, g: 128, b: 37 });
    assert_eq!(d.removed_fg(), Rgb { r: 243, g: 139, b: 168 });
    assert_eq!(l.removed_fg(), Rgb { r: 176, g: 0, b: 32 });
    assert_eq!(d.stale_fg(), Rgb { r: 127, g: 132, b: 156 });
    assert_eq!(l.stale_fg(), Rgb { r: 140, g: 140, b: 140 });
    assert_eq!(d.comment_fg(), Rgb { r: 250, g: 179, b: 135 });
    assert_eq!(l.comment_fg(), Rgb { r: 154, g: 103, b: 0 });
    assert_eq!(d.comment_bg(), Rgb { r: 10, g: 12, b: 20 });
    assert_eq!(l.comment_bg(), Rgb { r: 26, g: 29, b: 36 });
    assert_eq!(d.comment_text_fg(), Rgb { r: 230, g: 235, b: 255 });
    assert_eq!(l.comment_text_fg(), Rgb { r: 242, g: 246, b: 252 });
    assert_eq!(d.comment_border(), Rgb { r: 245, g: 169, b: 127 });
    assert_eq!(l.comment_border(), Rgb { r: 255, g: 196, b: 120 });
    assert_eq!(d.commented_line_bg(), Rgb { r: 58, g: 42, b: 30 });
    assert_eq!(l.commented_line_bg(), Rgb { r: 255, g: 226, b: 186 });
}

#[test]
fn badge_colours() {
    let t = Theme::DefaultDark;
    assert_eq!(badge_color(FileStatus::Added, t), t.added_fg());
    assert_eq!(badge_color(FileStatus::Deleted, t), t.removed_fg());
    assert_eq!(badge_color(FileStatus::Modified, t), Rgb { r: 137, g: 180, b: 250 });
    assert_eq!(badge_color(FileStatus::Renamed, t), Rgb { r: 203, g: 166, b: 247 });
}
