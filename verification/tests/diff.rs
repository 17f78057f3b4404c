use rustiq::diff::{baselines_from_log, merge_diff_files, DiffBuilder, LOG_LIMIT};
use rustiq::domain::{Baseline, Delta, DiffFile, DiffLineKind, FileStatus};

fn file(path: &str, status: FileStatus) -> DiffFile {
    DiffFile { path: path.to_string(), old_path: None, status, hunks: vec![] }
}

#[test]
fn builder_assembles_files_hunks_and_lines() {
    let mut b = DiffBuilder::new();
    b.on_file("a.rs".to_string(), Some("old_a.rs".to_string()), Delta::Modified);
    b.on_file("b.rs".to_string(), Some("old_b.rs".to_string()), Delta::Renamed);
    b.on_hunk(&"a.rs".to_string(), "@@ -1,2 +1,2 @@\n".to_string());
    b.on_line(&"a.rs".to_string(), ' ', Some(1), Some(1), "keep\n");
    b.on_line(&"a.rs".to_string(), '-', Some(2), None, "old\n");
    b.on_line(&"a.rs".to_string(), '+', None, Some(2), "new\n\n");
    b.on_line(&"b.rs".to_string(), '+', None, Some(1), "first");
    b.on_hunk(&"zzz.rs".to_string(), "ignored".to_string());
    b.on_line(&"zzz.rs".to_string(), '+', None, Some(1), "ignored");
    let files = b.finish();
    assert_eq!(files.len(), 2);
    let a = &files[0];
    assert_eq!(a.path, "a.rs");
    assert_eq!(a.old_path, None);
    assert_eq!(a.status, FileStatus::Modified);
    assert_eq!(a.hunks.len(), 1);
    assert_eq!(a.hunks[0].header, "@@ -1,2 +1,2 @@\n");
    let l = &a.hunks[0].lines;
    assert_eq!(l.len(), 3);
    assert_eq!((l[0].kind, l[0].old_lineno, l[0].new_lineno, l[0].content.as_str()), (DiffLineKind::Context, Some(1), Some(1), "keep"));
    assert_eq!((l[1].kind, l[1].old_lineno, l[1].new_lineno, l[1].content.as_str()), (DiffLineKind::Removed, Some(2), None, "old"));
    assert_eq!((l[2].kind, l[2].old_lineno, l[2].new_lineno, l[2].content.as_str()), (DiffLineKind::Added, None, Some(2), "new"));
    let b = &files[1];
    assert_eq!(b.old_path, Some("old_b.rs".to_string()));
    assert_eq!(b.status, FileStatus::Renamed);
    // a line without a hunk gets a hunk with an empty header
    assert_eq!(b.hunks.len(), 1);
    assert_eq!(b.hunks[0].header, "");
    assert_eq!(b.hunks[0].lines[0].content, "first");
}

#[test]
fn builder_uses_the_first_file_with_the_path() {
    let mut b = DiffBuilder::new();
    b.on_file("a.rs".to_string(), None, Delta::Added);
    b.on_file("a.rs".to_string(), None, Delta::Deleted);
    b.on_hunk(&"a.rs".to_string(), "h".to_string());
    let files = b.finish();
    assert_eq!(files[0].hunks.len(), 1);
    assert_eq!(files[1].hunks.len(), 0);
    assert_eq!(files[0].status, FileStatus::Added);
}

#[test]
fn merge_keeps_staged_and_adds_new_unstaged() {
    let staged = vec![file("a", FileStatus::Modified), file("b", FileStatus::Added)];
    let unstaged = vec![
        file("b", FileStatus::Modified),
        file("c", FileStatus::Added),
        file("c", FileStatus::Modified),
        file("a", FileStatus::Deleted),
    ];
    let m = merge_diff_files(staged, unstaged);
    let got: Vec<(&str, FileStatus)> = m.iter().map(|f| (f.path.as_str(), f.status)).collect();
    assert_eq!(got, vec![("a", FileStatus::Modified), ("b", FileStatus::Added), ("c", FileStatus::Added)]);
}

#[test]
fn baselines_start_with_the_working_tree() {
    let commits: Vec<(String, String)> =
        (0..250).map(|i| (format!("{i:040}"), format!("commit {i}"))).collect();
    let b = baselines_from_log(commits);
    assert_eq!(b.len(), 1 + LOG_LIMIT);
    assert_eq!(LOG_LIMIT, 200);
    assert_eq!(b[0], Baseline::WorkingTree);
    assert_eq!(b[1], Baseline::Commit { oid: format!("{:040}", 0), summary: "commit 0".to_string() });
    assert_eq!(b[200], Baseline::Commit { oid: format!("{:040}", 199), summary: "commit 199".to_string() });
    let few = baselines_from_log(vec![("x".repeat(40), "s".to_string())]);
    assert_eq!(few.len(), 2);
}
