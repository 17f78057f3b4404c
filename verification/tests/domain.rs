use rustiq::domain::{delta_to_status, keeps_old_path, Baseline, Comment, Delta, DiffLineKind, FileStatus};

#[test]
fn badges() {
    assert_eq!(FileStatus::Modified.badge(), "M");
    assert_eq!(FileStatus::Added.badge(), "A");
    assert_eq!(FileStatus::Deleted.badge(), "D");
    assert_eq!(FileStatus::Renamed.badge(), "MV");
}

#[test]
fn delta_statuses() {
    assert_eq!(delta_to_status(Delta::Added), FileStatus::Added);
    assert_eq!(delta_to_status(Delta::Untracked), FileStatus::Added);
    assert_eq!(delta_to_status(Delta::Deleted), FileStatus::Deleted);
    assert_eq!(delta_to_status(Delta::Renamed), FileStatus::Renamed);
    assert_eq!(delta_to_status(Delta::Copied), FileStatus::Renamed);
    assert_eq!(delta_to_status(Delta::Modified), FileStatus::Modified);
    assert_eq!(delta_to_status(Delta::Typechange), FileStatus::Modified);
    assert_eq!(delta_to_status(Delta::Conflicted), FileStatus::Modified);
    assert!(keeps_old_path(Delta::Renamed));
    assert!(keeps_old_path(Delta::Copied));
    assert!(!keeps_old_path(Delta::Modified));
}

#[test]
fn line_kinds() {
    assert_eq!(DiffLineKind::Added.prefix(), "+");
    assert_eq!(DiffLineKind::Removed.prefix(), "-");
    assert_eq!(DiffLineKind::Context.prefix(), " ");
    assert!(!DiffLineKind::Added.on_old_side() && DiffLineKind::Added.on_new_side());
    assert!(DiffLineKind::Removed.on_old_side() && !DiffLineKind::Removed.on_new_side());
    assert!(DiffLineKind::Context.on_old_side() && DiffLineKind::Context.on_new_side());
}

#[test]
fn baseline_labels() {
    assert_eq!(Baseline::WorkingTree.label(), "Working Tree (staged + unstaged)");
    let c = Baseline::Commit {
        oid: "0123456789abcdef0123456789abcdef01234567".to_string(),
        summary: "Fix the parser".to_string(),
    };
    assert_eq!(c.label(), "0123456 Fix the parser");
    let short = Baseline::Commit { oid: "abcdefg".to_string(), summary: String::new() };
    assert_eq!(short.label(), "abcdefg ");
}

#[test]
fn new_comment_is_fresh() {
    let c = Comment::new("src/a.rs".to_string(), 12, "h".to_string(), "note".to_string());
    assert_eq!(c.file, "src/a.rs");
    assert_eq!(c.line_no, 12);
    assert_eq!(c.anchor_hash, "h");
    assert_eq!(c.text, "note");
    assert!(!c.stale);
    assert_eq!(c.created_at, c.updated_at);
    assert!(c.created_at.nanos < 2_000_000_000);
    // a version-4, RFC 4122 UUID
    assert_eq!((c.id >> 76) & 0xF, 4);
    assert_eq!((c.id >> 62) & 0x3, 2);
    let d = Comment::new("src/a.rs".to_string(), 12, "h".to_string(), "note".to_string());
    assert_ne!(c.id, d.id);
    // the creation time is the current time
    let now = std::time::SystemTime::now().duration_since(std::time::UNIX_EPOCH).unwrap().as_secs() as i64;
    assert!((c.created_at.secs - now).abs() < 60);
}
