//! What the screens display, apart from drawing it: labels, counts, the
//! status line, comment markers and the cursor of the comment input.
use vstd::prelude::*;

use crate::app::{App, DiffViewMode};
use crate::domain::{Comment, DiffLine, DiffLineKind, FileStatus};
use crate::comments::comment_at;
use crate::text::{decimal, paths_equal, push_char, push_decimal, same_path};
use crate::theme::{Rgb, Theme};

verus! {

/// The number of comments of `cs` on `file`.
pub open spec fn comments_on(cs: Seq<Comment>, file: Seq<char>) -> nat
    decreases cs.len(),
{
    if cs.len() == 0 {
        0
    } else {
        comments_on(cs.drop_last(), file) + if same_path(cs.last().file@, file) {
            1nat
        } else {
            0nat
        }
    }
}

/// The number of stale comments of `cs`.
pub open spec fn stale_comments(cs: Seq<Comment>) -> nat
    decreases cs.len(),
{
    if cs.len() == 0 {
        0
    } else {
        stale_comments(cs.drop_last()) + if cs.last().stale {
            1nat
        } else {
            0nat
        }
    }
}

proof fn lemma_counts_bounded(cs: Seq<Comment>, file: Seq<char>)
    ensures
        comments_on(cs, file) <= cs.len(),
        stale_comments(cs) <= cs.len(),
    decreases cs.len(),
{
    if cs.len() > 0 {
        lemma_counts_bounded(cs.drop_last(), file);
    }
}

/// The name of a theme.
pub open spec fn theme_name(t: Theme) -> Seq<char> {
    match t {
        Theme::DefaultDark => "default-dark"@,
        Theme::GithubLight => "github-light"@,
    }
}

/// The label of a layout in the status line.
pub open spec fn mode_label(m: DiffViewMode) -> Seq<char> {
    match m {
        DiffViewMode::Stacked => "STACKED"@,
        DiffViewMode::Split => "SPLIT"@,
    }
}

/// The status line: the status message if there is one, else the layout,
/// theme, number of changed files and comments (and stale ones), and a key
/// summary.
pub open spec fn status_line(a: App) -> Seq<char> {
    match a.status_message {
        Some(m) => m@,
        None => {
            let files = if a.files@.len() == 0 {
                "no changes"@
            } else {
                decimal(a.files@.len()) + " files"@
            };
            let stale = stale_comments(a.comments@);
            let stale_part = if stale > 0 {
                " ("@ + decimal(stale) + " stale)"@
            } else {
                seq![]
            };
            " "@ + mode_label(a.view_mode) + " | Theme: "@ + theme_name(a.theme) + " | "@ + files
                + " | \u{1f4ac} "@ + decimal(a.comments@.len()) + " comments"@ + stale_part
                + "  c add \u{b7} e edit \u{b7} d del \u{b7} C copy \u{b7} V view \u{b7} T theme \u{b7} r refresh \u{b7} q quit "@
        },
    }
}

/// A line number as the gutter shows it: right-aligned in four columns
/// (wider numbers take the room they need), or four blanks without one.
pub open spec fn number_cell(n: Option<u32>) -> Seq<char> {
    match n {
        Some(k) => Seq::new(
            if decimal(k as nat).len() < 4 { (4 - decimal(k as nat).len()) as nat } else { 0nat },
            |_i: int| ' ',
        ) + decimal(k as nat),
        None => "    "@,
    }
}

/// The marker of a diff line in its prefix column.
pub open spec fn prefix_of(kind: DiffLineKind) -> Seq<char> {
    match kind {
        DiffLineKind::Added => "+"@,
        DiffLineKind::Removed => "-"@,
        DiffLineKind::Context => " "@,
    }
}

/// Appends the gutter cell of the line number `n` to `out`.
fn push_number_cell(out: &mut String, n: Option<u32>)
    ensures
        final(out)@ == old(out)@ + number_cell(n),
{
    let ghost base = out@;
    match n {
        Some(k) => {
            let digits = crate::text::decimal_string(k as usize);
            let len = digits.as_str().unicode_len();
            let mut pad: usize = 0;
            let ghost want: nat = if decimal(k as nat).len() < 4 { (4 - decimal(k as nat).len()) as nat } else { 0nat };
            while pad + len < 4
                invariant
                    len == decimal(k as nat).len(),
                    digits@ == decimal(k as nat),
                    pad <= want,
                    want == (if len < 4 { (4 - len) as nat } else { 0nat }),
                    out@ == base + Seq::new(pad as nat, |_i: int| ' '),
                decreases 4 - (pad + len),
            {
                push_char(out, ' ');
                assert(out@ =~= base + Seq::new((pad + 1) as nat, |_i: int| ' '));
                pad = pad + 1;
            }
            assert(pad == want);
            out.append(digits.as_str());
            assert(out@ =~= base + number_cell(n));
        },
        None => {
            out.append("    ");
            assert(out@ =~= base + number_cell(n));
        },
    }
}

/// The background and foreground of a diff line: the selection background
/// under the cursor, else the kind's; the kind's foreground.
pub fn diff_line_colors(kind: DiffLineKind, t: Theme, selected: bool) -> (r: (Rgb, Rgb))
    ensures
        r.1 == (match kind {
            DiffLineKind::Added => t.added_fg(),
            DiffLineKind::Removed => t.removed_fg(),
            DiffLineKind::Context => t.fg(),
        }),
        r.0 == (if selected {
            t.selection_bg()
        } else {
            match kind {
                DiffLineKind::Added => t.added_bg(),
                DiffLineKind::Removed => t.removed_bg(),
                DiffLineKind::Context => t.bg(),
            }
        }),
{
    let (line_bg, line_fg) = match kind {
        DiffLineKind::Added => (t.added_bg(), t.added_fg()),
        DiffLineKind::Removed => (t.removed_bg(), t.removed_fg()),
        DiffLineKind::Context => (t.bg(), t.fg()),
    };
    let bg = if selected {
        t.selection_bg()
    } else {
        line_bg
    };
    (bg, line_fg)
}

/// Whether a diff line shows syntax colours: a context line with
/// highlighted spans does; added and removed lines, and lines without
/// spans, show in their diff colours.
pub fn shows_syntax_colours(kind: DiffLineKind, has_spans: bool) -> (r: bool)
    ensures
        r == (has_spans && kind is Context),
{
    match kind {
        DiffLineKind::Context => has_spans,
        _ => false,
    }
}

/// The colour of a file's status badge.
pub fn badge_color(status: FileStatus, t: Theme) -> (c: Rgb)
    ensures
        c == (match status {
            FileStatus::Added => t.added_fg(),
            FileStatus::Deleted => t.removed_fg(),
            FileStatus::Modified => Rgb { r: 137, g: 180, b: 250 },
            FileStatus::Renamed => Rgb { r: 203, g: 166, b: 247 },
        }),
{
    match status {
        FileStatus::Added => t.added_fg(),
        FileStatus::Deleted => t.removed_fg(),
        FileStatus::Modified => Rgb { r: 137, g: 180, b: 250 },
        FileStatus::Renamed => Rgb { r: 203, g: 166, b: 247 },
    }
}

impl DiffViewMode {
    /// The label of the layout in the status line.
    pub fn label(self) -> (r: &'static str)
        ensures
            r@ == mode_label(self),
    {
        match self {
            DiffViewMode::Stacked => "STACKED",
            DiffViewMode::Split => "SPLIT",
        }
    }
}

/// Where the cursor of the comment input stands, as (column, row), for
/// `chars` typed characters in a pane `width` wide and `height` high: the
/// text wraps at the width, and the cursor stays on the last row.
pub open spec fn input_cursor_at(chars: nat, width: u16, height: u16) -> (u16, u16) {
    let w = if width >= 1 { width as nat } else { 1nat };
    let h = if height >= 1 { height as nat } else { 1nat };
    let row = if chars / w >= h { (h - 1) as nat } else { chars / w };
    ((chars % w) as u16, row as u16)
}

impl App {
    /// The number of comments on `file`.
    pub fn comment_count_for_file(&self, file: &String) -> (n: usize)
        ensures
            n == comments_on(self.comments@, file@),
    {
        let mut n: usize = 0;
        let len = self.comments.len();
        for i in 0..len
            invariant
                len == self.comments@.len(),
                n == comments_on(self.comments@.take(i as int), file@),
        {
            assert(self.comments@.take(i + 1).drop_last() =~= self.comments@.take(i as int));
            proof {
                lemma_counts_bounded(self.comments@.take(i as int), file@);
            }
            if paths_equal(&self.comments[i].file, file) {
                n = n + 1;
            }
        }
        assert(self.comments@.take(len as int) =~= self.comments@);
        n
    }

    /// The number of stale comments.
    pub fn stale_count(&self) -> (n: usize)
        ensures
            n == stale_comments(self.comments@),
    {
        let mut n: usize = 0;
        let len = self.comments.len();
        for i in 0..len
            invariant
                len == self.comments@.len(),
                n == stale_comments(self.comments@.take(i as int)),
        {
            assert(self.comments@.take(i + 1).drop_last() =~= self.comments@.take(i as int));
            proof {
                lemma_counts_bounded(self.comments@.take(i as int), seq![]);
            }
            if self.comments[i].stale {
                n = n + 1;
            }
        }
        assert(self.comments@.take(len as int) =~= self.comments@);
        n
    }

    /// The marker after the line numbers of a diff line of `file` with the
    /// new-file line number `new_lineno`: stale comment, comment, or blank.
    pub fn gutter_marker(&self, file: &String, new_lineno: Option<u32>) -> (r: &'static str)
        ensures
            r@ == self.gutter_marker_view(file@, new_lineno),
    {
        let found = match new_lineno {
            Some(n) => self.comment_for_line(file, n as usize),
            None => None,
        };
        match found {
            Some(c) => if c.stale {
                " [S]"
            } else {
                " \u{1f4ac} "
            },
            None => "    ",
        }
    }

    /// The gutter of a diff line of `file`: the old and the new line
    /// number, the comment marker of the line, then the line's prefix.
    pub fn gutter_text(&self, file: &String, dl: &DiffLine) -> (r: String)
        ensures
            r@ == number_cell(dl.old_lineno) + " "@ + number_cell(dl.new_lineno) + self.gutter_marker_view(
                file@,
                dl.new_lineno,
            ) + prefix_of(dl.kind),
    {
        let mut out = String::new();
        push_number_cell(&mut out, dl.old_lineno);
        push_char(&mut out, ' ');
        push_number_cell(&mut out, dl.new_lineno);
        out.append(self.gutter_marker(file, dl.new_lineno));
        out.append(dl.kind.prefix());
        proof {
            reveal_strlit(" ");
        }
        assert(out@ =~= number_cell(dl.old_lineno) + " "@ + number_cell(dl.new_lineno) + self.gutter_marker_view(
            file@,
            dl.new_lineno,
        ) + prefix_of(dl.kind));
        out
    }

    /// The marker after the line numbers of a diff line of `file` with the
    /// new-file line number `new_lineno`.
    pub open spec fn gutter_marker_view(&self, file: Seq<char>, new_lineno: Option<u32>) -> Seq<char> {
        match new_lineno {
            Some(n) => match comment_at(self.comments@, file, n as usize) {
                Some(i) => if self.comments@[i].stale {
                    " [S]"@
                } else {
                    " \u{1f4ac} "@
                },
                None => "    "@,
            },
            None => "    "@,
        }
    }

    /// The status line.
    pub fn status_text(&self) -> (r: String)
        ensures
            r@ == status_line(*self),
    {
        match &self.status_message {
            Some(m) => m.clone(),
            None => {
                let mut s = " ".to_owned();
                s.append(self.view_mode.label());
                s.append(" | Theme: ");
                s.append(self.theme.name());
                s.append(" | ");
                if self.files.len() == 0 {
                    s.append("no changes");
                } else {
                    push_decimal(&mut s, self.files.len());
                    s.append(" files");
                }
                s.append(" | \u{1f4ac} ");
                push_decimal(&mut s, self.comments.len());
                s.append(" comments");
                let stale = self.stale_count();
                if stale > 0 {
                    s.append(" (");
                    push_decimal(&mut s, stale);
                    s.append(" stale)");
                }
                s.append("  c add \u{b7} e edit \u{b7} d del \u{b7} C copy \u{b7} V view \u{b7} T theme \u{b7} r refresh \u{b7} q quit ");
                assert(s@ =~= status_line(*self));
                s
            },
        }
    }

    /// Where the cursor of the comment input stands in a pane `width` wide
    /// and `height` high, as (column, row).
    pub fn input_cursor(&self, width: u16, height: u16) -> (r: (u16, u16))
        ensures
            r == input_cursor_at(self.comment_input_text@.len(), width, height),
    {
        let w: usize = if width >= 1 {
            width as usize
        } else {
            1
        };
        let h: usize = if height >= 1 {
            height as usize
        } else {
            1
        };
        let cols = self.comment_input_text.as_str().unicode_len();
        let mut row = cols / w;
        if row >= h {
            row = h - 1;
        }
        let col = cols % w;
        (col as u16, row as u16)
    }
}

} // verus!
