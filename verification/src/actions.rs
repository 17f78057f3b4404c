//! The viewer's operations that consult the repository or the comment
//! store. What those return is up to them; each operation says what holds
//! for every answer, and its deciding part is a function of its own with an
//! exact contract.
use vstd::prelude::*;

use crate::app::{App, Screen};
use crate::domain::{Baseline, Comment, DiffFile};
use crate::export::{export_text, lines_views};
use crate::ports::{CommentStore, GitRepository};
use crate::comments::{
    persist_message, restaled, saved_comments, with_status, without_at,
};
use crate::store::anchor_of;
use crate::text::{string_views, trim};

verus! {

/// `b` is `a` after `next` was offered to the store with `outcome`, saving
/// a comment: on success the comments become `next`, editing ends and the
/// main screen shows; the status message tells either way.
pub open spec fn save_finished(a: App, b: App, next: Seq<Comment>, outcome: Result<(), String>) -> bool {
    &&& b.status_message matches Some(m) && m@ == persist_message(outcome, "Comment saved."@)
    &&& outcome is Ok ==> {
        &&& b == (App {
            status_message: b.status_message,
            comments: b.comments,
            comment_editing_id: None,
            screen: Screen::Main,
            ..a
        })
        &&& b.comments@ == next
    }
    &&& outcome is Err ==> b == (App { status_message: b.status_message, ..a })
}

/// `b` is `a` after `next` was offered to the store with `outcome`, deleting
/// comments: on success the comments become `next`; the status message
/// tells either way.
pub open spec fn delete_finished(a: App, b: App, next: Seq<Comment>, outcome: Result<(), String>) -> bool {
    &&& b.status_message matches Some(m) && m@ == persist_message(outcome, "Comment deleted."@)
    &&& outcome is Ok ==> {
        &&& b == (App { status_message: b.status_message, comments: b.comments, ..a })
        &&& b.comments@ == next
    }
    &&& outcome is Err ==> b == (App { status_message: b.status_message, ..a })
}

/// `b` shows a new diff from its first file and line, with staleness
/// re-checked against `lines`; which files the diff holds is up to the
/// repository.
pub open spec fn diff_loaded(a: App, b: App, lines: Seq<Seq<Seq<char>>>) -> bool {
    &&& lines.len() == a.comments@.len()
    &&& b == (App {
        files: b.files,
        file_cursor: 0,
        diff_scroll: 0,
        diff_line_cursor: 0,
        screen: Screen::Main,
        comments: b.comments,
        ..a
    })
    &&& restaled(a.comments@, b.comments@, lines)
}

/// The lines of a file as a read of it was answered: the lines read, or
/// none when the read failed.
pub open spec fn answered_lines(ans: Result<Vec<String>, String>) -> Seq<Seq<char>> {
    match ans {
        Ok(l) => string_views(l@),
        Err(_) => seq![],
    }
}

/// `lines` are the lines of the file at `path` as `repo` answered a read of it.
pub open spec fn read_answer<R: GitRepository>(repo: R, path: Seq<char>, lines: Seq<Seq<char>>) -> bool {
    exists|ans: Result<Vec<String>, String>| #[trigger] repo.reads(path, ans) && lines == answered_lines(ans)
}

/// `lines` holds, for each comment, the lines of the comment's file as
/// `repo` answered a read of that file.
pub open spec fn read_for_comments<R: GitRepository>(repo: R, comments: Seq<Comment>, lines: Seq<Seq<Seq<char>>>) -> bool {
    &&& lines.len() == comments.len()
    &&& forall|i: int| 0 <= i < comments.len() ==> #[trigger] read_answer(repo, comments[i].file@, lines[i])
}

/// What selecting the baseline under the cursor does: the repository is
/// asked for the diff against that baseline, then for the lines of each
/// commented file; the error of the diff is passed on, and otherwise the
/// diff shows with staleness re-checked against the lines read.
pub open spec fn select_baseline_post<R: GitRepository>(repo: R, a: App, b: App, r: Result<(), String>) -> bool {
    if a.baseline_cursor < a.baselines@.len() {
        exists|d: Result<Vec<DiffFile>, String>|
            #[trigger] repo.diffs(a.baselines@[a.baseline_cursor as int], d) && match d {
                Err(e) => r == Err::<(), String>(e) && b == a,
                Ok(files) => exists|lines: Seq<Seq<Seq<char>>>|
                    {
                        &&& #[trigger] read_for_comments(repo, a.comments@, lines)
                        &&& r is Ok
                        &&& diff_loaded(a, b, lines)
                        &&& b.files == files
                    },
            }
    } else {
        &&& r is Ok
        &&& with_status(a, b, "No baseline is available."@)
    }
}

/// What saving the typed comment does: the repository is asked for the
/// lines of the commented file (none when it cannot be read), the comments
/// with the saved one, anchored in those lines, are handed to the store, and
/// its answer is taken.
pub open spec fn save_post<R: GitRepository, S: CommentStore>(repo: R, store: S, a: App, b: App) -> bool {
    if a.ready_to_save() {
        let file = a.current_file_view()->0.path;
        let line = a.line_no_at_cursor()->0;
        exists|ans: Result<Vec<String>, String>|
            #[trigger] repo.reads(file, ans) && exists|next: Seq<Comment>, outcome: Result<(), String>|
                #![trigger store.saves(next, outcome)]
                {
                    &&& saved_comments(
                        a.comments@,
                        a.comment_editing_id,
                        file,
                        line,
                        trim(a.comment_input_text@),
                        anchor_of(answered_lines(ans), line as int),
                        next,
                    )
                    &&& store.saves(next, outcome)
                    &&& save_finished(a, b, next, outcome)
                }
    } else {
        b == (App { screen: Screen::Main, ..a })
    }
}

/// What deleting the comments on the current line does: the others are
/// handed to the store and its answer is taken.
pub open spec fn delete_post<S: CommentStore>(store: S, a: App, b: App) -> bool {
    match (a.current_file_view(), a.line_no_at_cursor()) {
        (Some(f), Some(l)) => exists|outcome: Result<(), String>|
            #[trigger] store.saves(without_at(a.comments@, f.path, l), outcome)
                && delete_finished(a, b, without_at(a.comments@, f.path, l), outcome),
        _ => b == a,
    }
}

/// The status message after the export was handed to the store with
/// answer `w`: unchanged when it was kept, else the reason.
pub open spec fn export_file_status(before: Option<String>, after: Option<String>, w: Result<(), String>) -> bool {
    match w {
        Ok(_) => after == before,
        Err(e) => after matches Some(m) && m@ == "Export file not written: "@ + e@,
    }
}

/// `b` shows the export of all comments, where `lines` are the current
/// lines of each comment's file, and the store answered `w` when handed
/// the export.
pub open spec fn export_shown(a: App, b: App, lines: Seq<Seq<Seq<char>>>, w: Result<(), String>) -> bool {
    &&& b == (App {
        comment_export_text: b.comment_export_text,
        comment_export_line_count: b.comment_export_line_count,
        comment_export_scroll: 0,
        screen: Screen::CommentExport,
        status_message: b.status_message,
        ..a
    })
    &&& b.comment_export_text@ == export_text(a.comments@, lines, a.comments@.len() as int)
    &&& b.comment_export_line_count == crate::text::lines(b.comment_export_text@).len() as u16
    &&& export_file_status(a.status_message, b.status_message, w)
}

/// What opening the export view does: the repository is asked for the
/// lines of each commented file; the export is shown and handed to the
/// store to keep.
pub open spec fn open_export_post<R: GitRepository, S: CommentStore>(repo: R, store: S, a: App, b: App) -> bool {
    if a.comments@.len() == 0 {
        with_status(a, b, "No comments to view."@)
    } else {
        exists|lines: Seq<Seq<Seq<char>>>|
            #[trigger] read_for_comments(repo, a.comments@, lines) && exists|w: Result<(), String>|
                #[trigger] store.exports(export_text(a.comments@, lines, a.comments@.len() as int), w)
                    && export_shown(a, b, lines, w)
    }
}

/// What preparing the clipboard export does: the text to copy, if any.
pub open spec fn clipboard_export_post<R: GitRepository>(repo: R, a: App, b: App, r: Option<String>) -> bool {
    if a.comments@.len() == 0 {
        &&& r is None
        &&& with_status(a, b, "No comments to export."@)
    } else {
        &&& b == a
        &&& exists|lines: Seq<Seq<Seq<char>>>|
            #[trigger] read_for_comments(repo, a.comments@, lines) && (r matches Some(text) && text@
                == export_text(a.comments@, lines, a.comments@.len() as int))
    }
}

impl App {
    /// The viewer at start-up: the repository's baselines and the stored
    /// comments; the first error of the two requests is passed on.
    pub fn new<R: GitRepository, S: CommentStore>(repo: &R, comment_store: &S) -> (r: Result<App, String>)
        ensures
            exists|lg: Result<Vec<Baseline>, String>|
                #[trigger] repo.logs(lg) && match lg {
                    Err(e) => r == Err::<App, String>(e),
                    Ok(baselines) => exists|ld: Result<Vec<Comment>, String>|
                        #[trigger] comment_store.loads(ld) && match ld {
                            Err(e) => r == Err::<App, String>(e),
                            Ok(comments) => r matches Ok(app) && app.initial(baselines, comments),
                        },
                },
    {
        let lg = repo.log();
        let baselines = match lg {
            Ok(b) => b,
            Err(e) => return Err(e),
        };
        let ld = comment_store.load();
        let comments = match ld {
            Ok(c) => c,
            Err(e) => return Err(e),
        };
        // stale detection deferred to after first diff load (need file content)
        Ok(App::with_data(baselines, comments))
    }

    /// The current lines of each comment's file (none where the file cannot
    /// be read).
    fn read_comment_lines<R: GitRepository>(&self, repo: &R) -> (r: Vec<Vec<String>>)
        ensures
            read_for_comments(*repo, self.comments@, lines_views(r@)),
    {
        let mut r: Vec<Vec<String>> = Vec::new();
        let n = self.comments.len();
        for i in 0..n
            invariant
                n == self.comments@.len(),
                r@.len() == i,
                forall|j: int|
                    0 <= j < i ==> #[trigger] read_answer(*repo, self.comments@[j].file@, string_views(r@[j]@)),
        {
            let ans = repo.read_lines(&self.comments[i].file);
            let ghost g = ans;
            let l = match ans {
                Ok(l) => l,
                Err(_) => Vec::new(),
            };
            assert(string_views(l@) == answered_lines(g));
            assert(read_answer(*repo, self.comments@[i as int].file@, string_views(l@)));
            r.push(l);
            assert(r@[i as int] == l);
        }
        assert forall|i: int| 0 <= i < self.comments@.len() implies #[trigger] read_answer(
            *repo,
            self.comments@[i].file@,
            lines_views(r@)[i],
        ) by {
            assert(lines_views(r@)[i] == string_views(r@[i]@));
        }
        r
    }

    /// Shows the diff against the baseline under the cursor and re-checks
    /// which comments are stale. Fails when the repository cannot produce
    /// the diff.
    pub fn select_baseline<R: GitRepository>(&mut self, repo: &R) -> (r: Result<(), String>)
        ensures
            select_baseline_post(*repo, *old(self), *final(self), r),
    {
        if self.baseline_cursor >= self.baselines.len() {
            self.status_message = Some("No baseline is available.".to_owned());
            return Ok(());
        }
        let d = repo.diff(&self.baselines[self.baseline_cursor]);
        assert(repo.diffs(self.baselines@[self.baseline_cursor as int], d));
        let files = match d {
            Ok(f) => f,
            Err(e) => return Err(e),
        };
        let lines = self.read_comment_lines(repo);
        assert(read_for_comments(*repo, self.comments@, lines_views(lines@)));
        let ghost a = *self;
        self.apply_diff(files, &lines);
        assert(diff_loaded(a, *self, lines_views(lines@)));
        Ok(())
    }

    /// Saves the typed comment: a new comment on the current line, or the
    /// edited one, anchored in the working-tree file (in no lines where it
    /// cannot be read); then stores all comments.
    pub fn save_comment<R: GitRepository, S: CommentStore>(&mut self, repo: &R, comment_store: &S)
        ensures
            save_post(*repo, *comment_store, *old(self), *final(self)),
    {
        let target = match self.save_target() {
            Some(t) => t,
            None => {
                self.screen = Screen::Main;
                return;
            },
        };
        let ans = repo.read_lines(&target.file);
        let ghost g = ans;
        let lines = match ans {
            Ok(l) => l,
            Err(_) => Vec::new(),
        };
        let line_no = target.line_no;
        let ghost a = *self;
        let ghost tfile = target.file@;
        let ghost ttext = target.text@;
        let ghost lv = crate::text::string_views(lines@);
        assert(lv == answered_lines(g));
        assert(repo.reads(tfile, g));
        assert(tfile == a.current_file_view()->0.path);
        assert(line_no == a.line_no_at_cursor()->0);
        let next = self.comments_after_save(target, &lines);
        let outcome = comment_store.save(&next);
        let ghost next_view = next@;
        assert(comment_store.saves(next_view, outcome));
        self.finish_save(next, outcome);
        assert(save_finished(a, *self, next_view, outcome));
        assert(saved_comments(
            a.comments@,
            a.comment_editing_id,
            tfile,
            line_no,
            ttext,
            anchor_of(lv, line_no as int),
            next_view,
        ));
    }

    /// Deletes the comments on the current line and stores the rest.
    pub fn delete_comment_on_current_line<S: CommentStore>(&mut self, comment_store: &S)
        ensures
            delete_post(*comment_store, *old(self), *final(self)),
    {
        let file = match self.current_file_path() {
            Some(f) => f,
            None => return,
        };
        let line_no = match self.current_line_no() {
            Some(l) => l,
            None => return,
        };
        let next = self.comments_without(&file, line_no);
        let outcome = comment_store.save(&next);
        let ghost a = *self;
        let ghost next_view = next@;
        assert(comment_store.saves(next_view, outcome));
        self.finish_delete(next, outcome);
        assert(delete_finished(a, *self, next_view, outcome));
    }

    /// The export of all comments, with the context read from the working
    /// tree (empty for a comment whose file is gone or has shrunk below it).
    pub fn format_comments_for_export<R: GitRepository>(&self, repo: &R) -> (r: String)
        ensures
            exists|lines: Seq<Seq<Seq<char>>>|
                #[trigger] read_for_comments(*repo, self.comments@, lines)
                    && r@ == export_text(self.comments@, lines, self.comments@.len() as int),
    {
        let lines = self.read_comment_lines(repo);
        assert(read_for_comments(*repo, self.comments@, lines_views(lines@)));
        self.render_comments(&lines)
    }

    /// Opens the export view of all comments and hands the export to the
    /// store to keep, or says there are none.
    pub fn open_comment_export<R: GitRepository, S: CommentStore>(&mut self, repo: &R, comment_store: &S)
        ensures
            open_export_post(*repo, *comment_store, *old(self), *final(self)),
    {
        if self.comments.len() == 0 {
            self.status_message = Some("No comments to view.".to_owned());
            return;
        }
        let lines = self.read_comment_lines(repo);
        assert(read_for_comments(*repo, self.comments@, lines_views(lines@)));
        let ghost a = *self;
        self.show_export(&lines);
        let w = comment_store.write_export(&self.comment_export_text);
        assert(comment_store.exports(
            export_text(a.comments@, lines_views(lines@), a.comments@.len() as int),
            w,
        ));
        match w {
            Ok(()) => {},
            Err(e) => {
                let mut m = "Export file not written: ".to_owned();
                m.append(e.as_str());
                self.status_message = Some(m);
            },
        }
        assert(export_shown(a, *self, lines_views(lines@), w));
    }

    /// The text to copy to the clipboard: the export of all comments, or
    /// nothing (with a status message) when there are none.
    pub fn export_comments_to_clipboard<R: GitRepository>(&mut self, repo: &R) -> (r: Option<String>)
        ensures
            clipboard_export_post(*repo, *old(self), *final(self), r),
    {
        if self.comments.len() == 0 {
            self.status_message = Some("No comments to export.".to_owned());
            return None;
        }
        Some(self.format_comments_for_export(repo))
    }
}

} // verus!
