//! The viewer's state machine: screens, cursors and scrolling, and the
//! operations on comments on the code.
use vstd::prelude::*;

use crate::domain::{flat_lines, Baseline, Comment, DiffFile, DiffLine, DiffLineView};
use crate::theme::Theme;

verus! {

/// How the diff of a file is laid out.
#[derive(Debug, Clone, Copy, PartialEq, Eq, Structural)]
pub enum DiffViewMode {
    Stacked,
    Split,
}

impl DiffViewMode {
    /// The other layout.
    #[verifier::allow_in_spec]
    pub fn toggle(self) -> DiffViewMode
        returns
            (match self {
                DiffViewMode::Stacked => DiffViewMode::Split,
                DiffViewMode::Split => DiffViewMode::Stacked,
            }),
    {
        match self {
            DiffViewMode::Stacked => DiffViewMode::Split,
            DiffViewMode::Split => DiffViewMode::Stacked,
        }
    }
}

/// Which screen is shown.
#[derive(Debug, Clone, Copy, PartialEq, Eq, Structural)]
pub enum Screen {
    BaselinePicker,
    Main,
    CommentInput,
    CommentExport,
}

/// The state of the viewer.
pub struct App {
    // state
    pub screen: Screen,
    pub theme: Theme,
    pub view_mode: DiffViewMode,
    // baseline picker
    pub baselines: Vec<Baseline>,
    pub baseline_cursor: usize,
    // file list
    pub files: Vec<DiffFile>,
    pub file_cursor: usize,
    // diff scroll
    pub diff_scroll: u16,
    // diff line cursor (for comments)
    pub diff_line_cursor: usize,
    // comments
    pub comments: Vec<Comment>,
    // comment input overlay
    pub comment_input_text: String,
    pub comment_editing_id: Option<u128>,
    pub comment_export_scroll: u16,
    pub comment_export_text: String,
    pub comment_export_line_count: u16,
    pub status_message: Option<String>,
    pub diff_viewport_height: u16,
}

/// The views of a sequence of diff-line references.
pub open spec fn line_refs_view(v: Seq<&DiffLine>) -> Seq<DiffLineView> {
    v.map_values(|l: &DiffLine| l@)
}

impl App {
    /// The file under the file cursor.
    pub open spec fn current_file_view(self) -> Option<crate::domain::DiffFileView> {
        if self.file_cursor < self.files@.len() {
            Some(self.files@[self.file_cursor as int]@)
        } else {
            None
        }
    }

    /// All diff lines of the current file, hunk after hunk.
    pub open spec fn diff_lines(self) -> Seq<DiffLineView> {
        match self.current_file_view() {
            Some(f) => flat_lines(f.hunks),
            None => seq![],
        }
    }

    /// The new-file line number under the diff line cursor.
    pub open spec fn line_no_at_cursor(self) -> Option<usize> {
        if self.diff_line_cursor < self.diff_lines().len() {
            match self.diff_lines()[self.diff_line_cursor as int].new_lineno {
                Some(n) => Some(n as usize),
                None => None,
            }
        } else {
            None
        }
    }

    /// The state right after start-up.
    pub open spec fn initial(self, baselines: Vec<Baseline>, comments: Vec<Comment>) -> bool {
        &&& self.screen == Screen::BaselinePicker
        &&& self.theme == Theme::DefaultDark
        &&& self.view_mode == DiffViewMode::Stacked
        &&& self.baselines == baselines
        &&& self.baseline_cursor == 0
        &&& self.files@.len() == 0
        &&& self.file_cursor == 0
        &&& self.diff_scroll == 0
        &&& self.diff_line_cursor == 0
        &&& self.comments == comments
        &&& self.comment_input_text@.len() == 0
        &&& self.comment_editing_id is None
        &&& self.comment_export_scroll == 0
        &&& self.comment_export_text@.len() == 0
        &&& self.comment_export_line_count == 0
        &&& self.status_message is None
        &&& self.diff_viewport_height == 1
    }

    /// The viewer at start-up, showing the baseline picker over `baselines`,
    /// with the stored `comments` (staleness is checked once a diff is loaded).
    pub fn with_data(baselines: Vec<Baseline>, comments: Vec<Comment>) -> (app: App)
        ensures
            app.initial(baselines, comments),
    {
        App {
            screen: Screen::BaselinePicker,
            theme: Theme::DefaultDark,
            view_mode: DiffViewMode::Stacked,
            baselines,
            baseline_cursor: 0,
            files: Vec::new(),
            file_cursor: 0,
            diff_scroll: 0,
            diff_line_cursor: 0,
            comments,
            comment_input_text: String::new(),
            comment_editing_id: None,
            comment_export_scroll: 0,
            comment_export_text: String::new(),
            comment_export_line_count: 0,
            status_message: None,
            diff_viewport_height: 1,
        }
    }

    /// The file under the file cursor.
    pub fn current_file(&self) -> (r: Option<&DiffFile>)
        ensures
            r matches Some(f) ==> self.current_file_view() == Some(f@),
            r is None ==> self.current_file_view() is None,
    {
        if self.file_cursor < self.files.len() {
            Some(&self.files[self.file_cursor])
        } else {
            None
        }
    }

    /// All diff lines of the current file, hunk after hunk.
    pub fn all_diff_lines(&self) -> (r: Vec<&DiffLine>)
        ensures
            line_refs_view(r@) == self.diff_lines(),
    {
        let mut out: Vec<&DiffLine> = Vec::new();
        match self.current_file() {
            None => {
                assert(line_refs_view(out@) =~= self.diff_lines());
            },
            Some(f) => {
                let ghost hunks = f@.hunks;
                let nh = f.hunks.len();
                for i in 0..nh
                    invariant
                        nh == f.hunks@.len(),
                        hunks == f@.hunks,
                        line_refs_view(out@) == flat_lines(hunks.take(i as int)),
                {
                    let h = &f.hunks[i];
                    let nl = h.lines.len();
                    let ghost base = line_refs_view(out@);
                    assert(hunks[i as int] == h@);
                    for j in 0..nl
                        invariant
                            nl == h.lines@.len(),
                            line_refs_view(out@) == base + h@.lines.take(j as int),
                    {
                        let ghost prev = out@;
                        out.push(&h.lines[j]);
                        assert(h@.lines[j as int] == h.lines@[j as int]@);
                        assert(out@ == prev.push(&h.lines@[j as int]));
                        assert(line_refs_view(out@) =~= line_refs_view(prev).push(h.lines@[j as int]@));
                        assert(h@.lines.take(j + 1) =~= h@.lines.take(j as int).push(h@.lines[j as int]));
                        assert(line_refs_view(out@) =~= base + h@.lines.take(j + 1));
                    }
                    assert(h@.lines.take(nl as int) =~= h@.lines);
                    assert(hunks.take(i + 1).drop_last() =~= hunks.take(i as int));
                }
                assert(hunks.take(nh as int) =~= hunks);
            },
        }
        out
    }

    /// The new-file line number under the diff line cursor, if that line
    /// exists in the new file.
    pub fn current_line_no(&self) -> (r: Option<usize>)
        ensures
            r == self.line_no_at_cursor(),
    {
        let lines = self.all_diff_lines();
        if self.diff_line_cursor < lines.len() {
            let l = lines[self.diff_line_cursor];
            assert(l@ == self.diff_lines()[self.diff_line_cursor as int]);
            match l.new_lineno {
                Some(n) => Some(n as usize),
                None => None,
            }
        } else {
            None
        }
    }

    /// The path of the current file.
    pub fn current_file_path(&self) -> (r: Option<String>)
        ensures
            r matches Some(p) ==> self.current_file_view() matches Some(f) && p@ == f.path,
            r is None ==> self.current_file_view() is None,
    {
        match self.current_file() {
            Some(f) => Some(f.path.clone()),
            None => None,
        }
    }
}

/// The state after moving the file cursor up one file (the diff view
/// returns to its top); unchanged at the first file.
pub open spec fn file_up_spec(a: App) -> App {
    if a.file_cursor > 0 {
        App { file_cursor: (a.file_cursor - 1) as usize, diff_scroll: 0, diff_line_cursor: 0, ..a }
    } else {
        a
    }
}

/// The state after moving the file cursor down one file (the diff view
/// returns to its top); unchanged at the last file.
pub open spec fn file_down_spec(a: App) -> App {
    if a.file_cursor + 1 < a.files@.len() {
        App { file_cursor: (a.file_cursor + 1) as usize, diff_scroll: 0, diff_line_cursor: 0, ..a }
    } else {
        a
    }
}

/// The state after moving the diff line cursor up one line; the view
/// scrolls up to keep the cursor visible.
pub open spec fn diff_line_up_spec(a: App) -> App {
    if a.diff_line_cursor > 0 {
        let c = (a.diff_line_cursor - 1) as usize;
        if c < a.diff_scroll {
            App { diff_line_cursor: c, diff_scroll: c as u16, ..a }
        } else {
            App { diff_line_cursor: c, ..a }
        }
    } else {
        a
    }
}

/// The number of diff lines visible at once (at least one).
pub open spec fn visible_lines(a: App) -> int {
    if a.diff_viewport_height >= 1 {
        a.diff_viewport_height as int
    } else {
        1
    }
}

/// The state after moving the diff line cursor down one line; the view
/// scrolls down to keep the cursor visible.
pub open spec fn diff_line_down_spec(a: App) -> App {
    if a.diff_line_cursor + 1 < a.diff_lines().len() {
        let c = (a.diff_line_cursor + 1) as usize;
        if c >= a.diff_scroll + visible_lines(a) {
            App { diff_line_cursor: c, diff_scroll: (c + 1 - visible_lines(a)) as u16, ..a }
        } else {
            App { diff_line_cursor: c, ..a }
        }
    } else {
        a
    }
}

impl App {
    /// Moves to the previous file.
    pub fn file_up(&mut self)
        ensures
            *final(self) == file_up_spec(*old(self)),
    {
        if self.file_cursor > 0 {
            self.file_cursor -= 1;
            self.diff_scroll = 0;
            self.diff_line_cursor = 0;
        }
    }

    /// Moves to the next file.
    pub fn file_down(&mut self)
        ensures
            *final(self) == file_down_spec(*old(self)),
    {
        if self.files.len() > 0 && self.file_cursor < self.files.len() - 1 {
            self.file_cursor += 1;
            self.diff_scroll = 0;
            self.diff_line_cursor = 0;
        }
    }

    /// Moves the diff line cursor up.
    pub fn diff_line_up(&mut self)
        ensures
            *final(self) == diff_line_up_spec(*old(self)),
    {
        if self.diff_line_cursor > 0 {
            self.diff_line_cursor -= 1;
            if self.diff_line_cursor < self.diff_scroll as usize {
                self.diff_scroll = self.diff_line_cursor as u16;
            }
        }
    }

    /// Moves the diff line cursor down.
    pub fn diff_line_down(&mut self)
        ensures
            *final(self) == diff_line_down_spec(*old(self)),
    {
        let total = self.all_diff_lines().len();
        if total > 0 && self.diff_line_cursor < total - 1 {
            self.diff_line_cursor += 1;
            let visible = if self.diff_viewport_height >= 1 {
                self.diff_viewport_height as usize
            } else {
                1
            };
            if self.diff_line_cursor >= self.diff_scroll as usize + visible {
                self.diff_scroll = (self.diff_line_cursor + 1 - visible) as u16;
            }
        }
    }
}

} // verus!
