//! Comments in the viewer: finding the comment on a line, editing,
//! saving and deleting comments, marking stale ones, and exporting them.
use vstd::prelude::*;

use crate::app::{App, Screen};
use crate::domain::{Comment, DiffFile};
use crate::export::{export_text, format_comments, lines_views};
use crate::store::{anchor_of, JsonCommentStore};
use crate::text::{decimal, line_count, paths_equal, push_decimal, same_path, string_views, trim, trim_str};

verus! {

// ---------------------------------------------------------------------------
// Finding comments
// ---------------------------------------------------------------------------

/// Whether `c` is a comment on line `line` of `file` (a path naming the
/// same file as the comment's).
pub open spec fn is_at(c: Comment, file: Seq<char>, line: usize) -> bool {
    same_path(c.file@, file) && c.line_no == line
}

/// Whether `i` is the first comment of `cs` on line `line` of `file`.
pub open spec fn is_first_at(cs: Seq<Comment>, file: Seq<char>, line: usize, i: int) -> bool {
    &&& 0 <= i < cs.len()
    &&& is_at(cs[i], file, line)
    &&& forall|j: int| 0 <= j < i ==> !is_at(#[trigger] cs[j], file, line)
}

/// Whether some comment of `cs` is on line `line` of `file`.
pub open spec fn has_comment_at(cs: Seq<Comment>, file: Seq<char>, line: usize) -> bool {
    exists|i: int| 0 <= i < cs.len() && is_at(#[trigger] cs[i], file, line)
}

/// The index of the first comment of `cs` on line `line` of `file`.
pub open spec fn comment_at(cs: Seq<Comment>, file: Seq<char>, line: usize) -> Option<int> {
    if has_comment_at(cs, file, line) {
        Some(choose|i: int| is_first_at(cs, file, line, i))
    } else {
        None
    }
}

/// `comment_at` names the first comment on the line.
pub proof fn lemma_comment_at(cs: Seq<Comment>, file: Seq<char>, line: usize, i: int)
    requires
        is_first_at(cs, file, line, i),
    ensures
        comment_at(cs, file, line) == Some(i),
{
    let k = choose|k: int| is_first_at(cs, file, line, k);
    assert(is_first_at(cs, file, line, k));
    if k < i {
        assert(!is_at(cs[k], file, line));
    }
    if i < k {
        assert(!is_at(cs[i], file, line));
    }
}

/// Whether `i` is the first comment of `cs` with the id `id`.
pub open spec fn is_first_with_id(cs: Seq<Comment>, id: u128, i: int) -> bool {
    &&& 0 <= i < cs.len()
    &&& cs[i].id == id
    &&& forall|j: int| 0 <= j < i ==> (#[trigger] cs[j]).id != id
}

/// The index of the first comment of `cs` with the id `id`.
pub open spec fn comment_with_id(cs: Seq<Comment>, id: u128) -> Option<int> {
    if exists|i: int| 0 <= i < cs.len() && (#[trigger] cs[i]).id == id {
        Some(choose|i: int| is_first_with_id(cs, id, i))
    } else {
        None
    }
}

proof fn lemma_comment_with_id(cs: Seq<Comment>, id: u128, i: int)
    requires
        is_first_with_id(cs, id, i),
    ensures
        comment_with_id(cs, id) == Some(i),
{
    let k = choose|k: int| is_first_with_id(cs, id, k);
    assert(is_first_with_id(cs, id, k));
    if k < i {
        assert(cs[k].id != id);
    }
    if i < k {
        assert(cs[i].id != id);
    }
}

fn find_comment_at(cs: &Vec<Comment>, file: &String, line_no: usize) -> (r: Option<usize>)
    ensures
        r matches Some(i) ==> is_first_at(cs@, file@, line_no, i as int),
        r matches Some(i) ==> comment_at(cs@, file@, line_no) == Some(i as int),
        r is None ==> comment_at(cs@, file@, line_no) is None,
{
    let n = cs.len();
    for i in 0..n
        invariant
            n == cs@.len(),
            forall|j: int| 0 <= j < i ==> !is_at(#[trigger] cs@[j], file@, line_no),
    {
        if paths_equal(&cs[i].file, file) && cs[i].line_no == line_no {
            proof {
                lemma_comment_at(cs@, file@, line_no, i as int);
            }
            return Some(i);
        }
    }
    None
}

fn find_comment_with_id(cs: &Vec<Comment>, id: u128) -> (r: Option<usize>)
    ensures
        r matches Some(i) ==> is_first_with_id(cs@, id, i as int),
        r matches Some(i) ==> comment_with_id(cs@, id) == Some(i as int),
        r is None ==> comment_with_id(cs@, id) is None,
{
    let n = cs.len();
    for i in 0..n
        invariant
            n == cs@.len(),
            forall|j: int| 0 <= j < i ==> (#[trigger] cs@[j]).id != id,
    {
        if cs[i].id == id {
            proof {
                lemma_comment_with_id(cs@, id, i as int);
            }
            return Some(i);
        }
    }
    None
}

// ---------------------------------------------------------------------------
// Changes to the comment list
// ---------------------------------------------------------------------------

/// `cs` without the comments on line `line` of `file`, in order.
pub open spec fn without_at(cs: Seq<Comment>, file: Seq<char>, line: usize) -> Seq<Comment>
    decreases cs.len(),
{
    if cs.len() == 0 {
        seq![]
    } else if is_at(cs.last(), file, line) {
        without_at(cs.drop_last(), file, line)
    } else {
        without_at(cs.drop_last(), file, line).push(cs.last())
    }
}

/// `n` is `o` with a new text and anchor, updated at some time and no
/// longer stale.
pub open spec fn edited(o: Comment, n: Comment, text: Seq<char>, anchor: Seq<char>) -> bool {
    &&& n == (Comment { text: n.text, anchor_hash: n.anchor_hash, updated_at: n.updated_at, stale: false, ..o })
    &&& n.text@ == text
    &&& n.anchor_hash@ == anchor
    &&& n.updated_at.nanos < 2_000_000_000
}

/// `c` is a new comment on line `line` of `file` with `text` and `anchor`.
pub open spec fn fresh(c: Comment, file: Seq<char>, line: usize, text: Seq<char>, anchor: Seq<char>) -> bool {
    &&& c.file@ == file
    &&& c.line_no == line
    &&& c.text@ == text
    &&& c.anchor_hash@ == anchor
    &&& !c.stale
    &&& c.created_at == c.updated_at
    &&& c.created_at.nanos < 2_000_000_000
    &&& c.id & 0x0000_0000_0000_F000_C000_0000_0000_0000u128 == 0x0000_0000_0000_4000_8000_0000_0000_0000u128
}

/// The comments after saving `text` on line `line` of `file`, with context
/// anchor `anchor`: when a comment is being edited, the first comment with
/// its id gets the new text and anchor (nothing changes if there is none);
/// otherwise a new comment is appended.
pub open spec fn saved_comments(
    cs: Seq<Comment>,
    editing: Option<u128>,
    file: Seq<char>,
    line: usize,
    text: Seq<char>,
    anchor: Seq<char>,
    next: Seq<Comment>,
) -> bool {
    match editing {
        Some(id) => match comment_with_id(cs, id) {
            Some(k) => {
                &&& next.len() == cs.len()
                &&& forall|j: int| 0 <= j < cs.len() && j != k ==> next[j] == cs[j]
                &&& edited(cs[k], next[k], text, anchor)
            },
            None => next == cs,
        },
        None => {
            &&& next.len() == cs.len() + 1
            &&& next.take(cs.len() as int) == cs
            &&& fresh(next.last(), file, line, text, anchor)
        },
    }
}

/// The comments after re-checking staleness: each comment is stale exactly
/// when the anchor of its context in `lines` differs from its saved anchor.
pub open spec fn restaled(cs: Seq<Comment>, next: Seq<Comment>, lines: Seq<Seq<Seq<char>>>) -> bool {
    &&& next.len() == cs.len()
    &&& forall|i: int|
        0 <= i < cs.len() ==> #[trigger] next[i] == (Comment {
            stale: anchor_of(lines[i], cs[i].line_no as int) != cs[i].anchor_hash@,
            ..cs[i]
        })
}

/// The status message after trying to store the comments.
pub open spec fn persist_message(outcome: Result<(), String>, ok: Seq<char>) -> Seq<char> {
    match outcome {
        Ok(_) => ok,
        Err(e) => "Save failed: "@ + e@,
    }
}

/// `b` is `a` with the status message `msg`.
pub open spec fn with_status(a: App, b: App, msg: Seq<char>) -> bool {
    &&& b == (App { status_message: b.status_message, ..a })
    &&& b.status_message matches Some(m) && m@ == msg
}

/// What a comment to save is made of.
pub struct SaveTarget {
    pub file: String,
    pub line_no: usize,
    pub text: String,
}

/// How copying the export to the clipboard went.
pub enum ClipboardOutcome {
    /// The text is on the clipboard.
    Copied,
    /// No clipboard; the text was written to the file at this path.
    WrittenTo(String),
    /// Neither worked; the error.
    Failed(String),
}

/// The status message after an attempt to copy `n` comments.
pub open spec fn clipboard_message(outcome: ClipboardOutcome, n: nat) -> Seq<char> {
    match outcome {
        ClipboardOutcome::Copied => "Copied "@ + decimal(n) + " comment(s) to clipboard."@,
        ClipboardOutcome::WrittenTo(p) => "Clipboard unavailable. Written to "@ + p@,
        ClipboardOutcome::Failed(e) => "Clipboard export failed: "@ + e@,
    }
}

impl App {
    /// The index of the first comment on the line under the cursor.
    pub open spec fn current_comment_index(self) -> Option<int> {
        match (self.current_file_view(), self.line_no_at_cursor()) {
            (Some(f), Some(l)) => comment_at(self.comments@, f.path, l),
            _ => None,
        }
    }

    /// Whether there is something to save: a non-blank input, on a line of
    /// the new file.
    pub open spec fn ready_to_save(self) -> bool {
        &&& trim(self.comment_input_text@).len() > 0
        &&& self.current_file_view() is Some
        &&& self.line_no_at_cursor() is Some
    }

    /// The first comment on line `line_no` of `file`.
    pub fn comment_for_line(&self, file: &String, line_no: usize) -> (r: Option<&Comment>)
        ensures
            r == (match comment_at(self.comments@, file@, line_no) {
                Some(i) => Some(&self.comments@[i]),
                None => None,
            }),
    {
        match find_comment_at(&self.comments, file, line_no) {
            Some(i) => Some(&self.comments[i]),
            None => None,
        }
    }

    /// The first comment on the line under the cursor.
    pub fn comment_for_current_line(&self) -> (r: Option<&Comment>)
        ensures
            r == (match self.current_comment_index() {
                Some(i) => Some(&self.comments@[i]),
                None => None,
            }),
    {
        let file = match self.current_file_path() {
            Some(f) => f,
            None => return None,
        };
        let line_no = match self.current_line_no() {
            Some(l) => l,
            None => return None,
        };
        self.comment_for_line(&file, line_no)
    }

    /// Opens the comment input: editing the comment on the current line if
    /// there is one, else an empty new comment.
    pub fn open_comment_input(&mut self)
        ensures
            *final(self) == (App {
                comment_editing_id: final(self).comment_editing_id,
                comment_input_text: final(self).comment_input_text,
                screen: Screen::CommentInput,
                ..*old(self)
            }),
            match old(self).current_comment_index() {
                Some(i) => final(self).comment_editing_id == Some(old(self).comments@[i].id)
                    && final(self).comment_input_text == old(self).comments@[i].text,
                None => final(self).comment_editing_id is None && final(self).comment_input_text@.len() == 0,
            },
    {
        let existing = match self.comment_for_current_line() {
            Some(c) => Some((c.id, c.text.clone())),
            None => None,
        };
        match existing {
            Some((id, text)) => {
                self.comment_editing_id = Some(id);
                self.comment_input_text = text;
            },
            None => {
                self.comment_editing_id = None;
                self.comment_input_text = String::new();
            },
        }
        self.screen = Screen::CommentInput;
    }

    /// Sets the status message after trying to store the comments; whether
    /// they were stored.
    fn record_persist(&mut self, outcome: &Result<(), String>, ok: &str) -> (saved: bool)
        ensures
            with_status(*old(self), *final(self), persist_message(*outcome, ok@)),
            saved == outcome is Ok,
    {
        match outcome {
            Ok(()) => {
                self.status_message = Some(ok.to_owned());
                true
            },
            Err(e) => {
                let mut m = "Save failed: ".to_owned();
                m.append(e.as_str());
                self.status_message = Some(m);
                false
            },
        }
    }

    /// The comment to save from the input, if the input is not blank and the
    /// cursor is on a line of the new file.
    pub fn save_target(&self) -> (r: Option<SaveTarget>)
        ensures
            r is Some <==> self.ready_to_save(),
            r matches Some(t) ==> {
                &&& t.text@ == trim(self.comment_input_text@)
                &&& self.current_file_view() matches Some(f) && t.file@ == f.path
                &&& self.line_no_at_cursor() == Some(t.line_no)
            },
    {
        let text = trim_str(self.comment_input_text.as_str()).to_owned();
        if text.as_str().unicode_len() == 0 {
            return None;
        }
        let file = match self.current_file_path() {
            Some(f) => f,
            None => return None,
        };
        let line_no = match self.current_line_no() {
            Some(l) => l,
            None => return None,
        };
        Some(SaveTarget { file, line_no, text })
    }

    /// The comments after saving `target`, whose file currently has `lines`.
    pub fn comments_after_save(&self, target: SaveTarget, lines: &Vec<String>) -> (next: Vec<Comment>)
        ensures
            saved_comments(
                self.comments@,
                self.comment_editing_id,
                target.file@,
                target.line_no,
                target.text@,
                anchor_of(string_views(lines@), target.line_no as int),
                next@,
            ),
    {
        let anchor_hash = JsonCommentStore::anchor_hash(lines, target.line_no);
        let mut next = self.comments.clone();
        assert(next@ =~= self.comments@);
        match self.comment_editing_id {
            Some(edit_id) => {
                match find_comment_with_id(&next, edit_id) {
                    Some(k) => {
                        let mut c = next.remove(k);
                        c.text = target.text;
                        c.anchor_hash = anchor_hash;
                        c.updated_at = crate::domain::utc_now();
                        c.stale = false;
                        next.insert(k, c);
                    },
                    None => {},
                }
            },
            None => {
                next.push(Comment::new(target.file, target.line_no, anchor_hash, target.text));
                assert(next@.take(self.comments@.len() as int) =~= self.comments@);
            },
        }
        next
    }

    /// Takes the result of storing `next`: on success the comments become
    /// `next`, editing ends and the main screen shows; the status message
    /// tells either way.
    pub fn finish_save(&mut self, next: Vec<Comment>, outcome: Result<(), String>)
        ensures
            final(self).status_message matches Some(m) && m@ == persist_message(outcome, "Comment saved."@),
            outcome is Ok ==> *final(self) == (App {
                status_message: final(self).status_message,
                comments: next,
                comment_editing_id: None,
                screen: Screen::Main,
                ..*old(self)
            }),
            outcome is Err ==> *final(self) == (App { status_message: final(self).status_message, ..*old(self) }),
    {
        if self.record_persist(&outcome, "Comment saved.") {
            self.comments = next;
            self.comment_editing_id = None;
            self.screen = Screen::Main;
        }
    }

    /// The comments without those on line `line_no` of `file`.
    pub fn comments_without(&self, file: &String, line_no: usize) -> (next: Vec<Comment>)
        ensures
            next@ == without_at(self.comments@, file@, line_no),
    {
        let mut next: Vec<Comment> = Vec::new();
        let n = self.comments.len();
        for i in 0..n
            invariant
                n == self.comments@.len(),
                next@ == without_at(self.comments@.take(i as int), file@, line_no),
        {
            let c = &self.comments[i];
            assert(self.comments@.take(i + 1).drop_last() =~= self.comments@.take(i as int));
            if !(paths_equal(&c.file, file) && c.line_no == line_no) {
                next.push(c.clone());
            }
        }
        assert(self.comments@.take(n as int) =~= self.comments@);
        next
    }

    /// Takes the result of storing `next` after a deletion: on success the
    /// comments become `next`; the status message tells either way.
    pub fn finish_delete(&mut self, next: Vec<Comment>, outcome: Result<(), String>)
        ensures
            final(self).status_message matches Some(m) && m@ == persist_message(outcome, "Comment deleted."@),
            outcome is Ok ==> *final(self) == (App {
                status_message: final(self).status_message,
                comments: next,
                ..*old(self)
            }),
            outcome is Err ==> *final(self) == (App { status_message: final(self).status_message, ..*old(self) }),
    {
        if self.record_persist(&outcome, "Comment deleted.") {
            self.comments = next;
        }
    }

    /// Re-checks every comment against `lines`, the current lines of its file.
    pub fn check_stale_comments(&mut self, lines: &Vec<Vec<String>>)
        requires
            lines@.len() == old(self).comments@.len(),
        ensures
            *final(self) == (App { comments: final(self).comments, ..*old(self) }),
            restaled(old(self).comments@, final(self).comments@, lines_views(lines@)),
    {
        let mut old_comments: Vec<Comment> = Vec::new();
        std::mem::swap(&mut old_comments, &mut self.comments);
        let ghost cs = old_comments@;
        let ghost lv = lines_views(lines@);
        let n = old_comments.len();
        for i in 0..n
            invariant
                n == cs.len(),
                cs == old_comments@,
                lv.len() == cs.len(),
                lv == lines_views(lines@),
                self.comments@.len() == i,
                *self == (App { comments: self.comments, ..*old(self) }),
                forall|j: int|
                    0 <= j < i ==> #[trigger] self.comments@[j] == (Comment {
                        stale: anchor_of(lv[j], cs[j].line_no as int) != cs[j].anchor_hash@,
                        ..cs[j]
                    }),
        {
            let mut c = old_comments[i].clone();
            assert(lv[i as int] == string_views(lines@[i as int]@));
            let current = JsonCommentStore::anchor_hash(&lines[i], c.line_no);
            c.stale = current != c.anchor_hash;
            self.comments.push(c);
        }
    }

    /// Shows `files`, the diff against a new baseline, from its first file
    /// and line, and re-checks staleness against `lines`.
    pub fn apply_diff(&mut self, files: Vec<DiffFile>, lines: &Vec<Vec<String>>)
        requires
            lines@.len() == old(self).comments@.len(),
        ensures
            *final(self) == (App {
                files,
                file_cursor: 0,
                diff_scroll: 0,
                diff_line_cursor: 0,
                screen: Screen::Main,
                comments: final(self).comments,
                ..*old(self)
            }),
            restaled(old(self).comments@, final(self).comments@, lines_views(lines@)),
    {
        self.files = files;
        self.file_cursor = 0;
        self.diff_scroll = 0;
        self.diff_line_cursor = 0;
        self.screen = Screen::Main;
        self.check_stale_comments(lines);
    }

    /// The export of all comments, given the current lines of each
    /// comment's file.
    pub fn render_comments(&self, lines: &Vec<Vec<String>>) -> (r: String)
        requires
            lines@.len() == self.comments@.len(),
        ensures
            r@ == export_text(self.comments@, lines_views(lines@), self.comments@.len() as int),
    {
        format_comments(&self.comments, lines)
    }

    /// Shows the export of all comments given the current lines of each
    /// comment's file, scrolled to the top.
    pub fn show_export(&mut self, lines: &Vec<Vec<String>>)
        requires
            lines@.len() == old(self).comments@.len(),
        ensures
            *final(self) == (App {
                comment_export_text: final(self).comment_export_text,
                comment_export_line_count: final(self).comment_export_line_count,
                comment_export_scroll: 0,
                screen: Screen::CommentExport,
                ..*old(self)
            }),
            final(self).comment_export_text@ == export_text(
                old(self).comments@,
                lines_views(lines@),
                old(self).comments@.len() as int,
            ),
            final(self).comment_export_line_count == crate::text::lines(final(self).comment_export_text@).len() as u16,
    {
        let text = self.render_comments(lines);
        let count = line_count(text.as_str());
        self.comment_export_text = text;
        self.comment_export_line_count = count as u16;
        self.comment_export_scroll = 0;
        self.screen = Screen::CommentExport;
    }

    /// Sets the status message after an attempt to copy the export.
    pub fn record_clipboard_outcome(&mut self, outcome: ClipboardOutcome)
        ensures
            with_status(
                *old(self),
                *final(self),
                clipboard_message(outcome, old(self).comments@.len()),
            ),
    {
        let msg = match outcome {
            ClipboardOutcome::Copied => {
                let mut m = "Copied ".to_owned();
                push_decimal(&mut m, self.comments.len());
                m.append(" comment(s) to clipboard.");
                m
            },
            ClipboardOutcome::WrittenTo(path) => {
                let mut m = "Clipboard unavailable. Written to ".to_owned();
                m.append(path.as_str());
                m
            },
            ClipboardOutcome::Failed(e) => {
                let mut m = "Clipboard export failed: ".to_owned();
                m.append(e.as_str());
                m
            },
        };
        self.status_message = Some(msg);
    }
}

} // verus!
