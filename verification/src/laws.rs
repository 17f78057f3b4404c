//! Properties that hold across the viewer's operations.
use vstd::prelude::*;

use crate::actions::save_post;
use crate::app::{
    diff_line_down_spec, diff_line_up_spec, file_down_spec, file_up_spec, visible_lines, App,
    DiffViewMode,
};
use crate::diff::{has_path, merge_files, new_file_view};
use crate::export::{block_title, context_entries, export_block, file_header, range_header};
use crate::highlight::{span_of, StyledSpan, Token};
use crate::text::decimal;
use crate::domain::{Comment, Delta, DiffFileView, FileStatus};
use crate::comments::{
    comment_at, comment_with_id, has_comment_at, is_at, is_first_at, lemma_comment_at, restaled, saved_comments,
    without_at,
};
use crate::store::{anchor_of, window, window_end, window_start};
use crate::keys::{key_post, Key, KeyOutcome};
use crate::ports::{CommentStore, GitRepository};
use crate::theme::Theme;

verus! {

/// Cycling the theme twice gives the theme back, and each cycle switches
/// between dark and light.
pub proof fn law_theme_cycle(t: Theme)
    ensures
        t.cycle().cycle() == t,
        t.cycle().is_dark() == !t.is_dark(),
{
}

/// Toggling the layout twice gives the layout back, and a toggle always
/// changes it.
pub proof fn law_toggle(m: DiffViewMode)
    ensures
        m.toggle().toggle() == m,
        m.toggle() != m,
{
}

/// The cursors stay on existing files and lines: the file cursor is on a
/// file (or at zero when there are none), and the diff line cursor on a line
/// of the current file (or at zero).
pub open spec fn cursors_in_range(a: App) -> bool {
    &&& a.file_cursor == 0 || a.file_cursor < a.files@.len()
    &&& a.diff_line_cursor == 0 || a.diff_line_cursor < a.diff_lines().len()
}

/// Every key keeps the cursors in range, and the baseline cursor on a
/// baseline (or at zero when there are none).
#[verifier::rlimit(30)]
pub proof fn law_keys_keep_cursors_in_range<R: GitRepository, S: CommentStore>(
    repo: R,
    store: S,
    a: App,
    b: App,
    key: Key,
    r: Result<KeyOutcome, String>,
)
    requires
        cursors_in_range(a),
        a.baseline_cursor == 0 || a.baseline_cursor < a.baselines@.len(),
        key_post(repo, store, a, b, key, r),
    ensures
        cursors_in_range(b),
        b.baseline_cursor == 0 || b.baseline_cursor < b.baselines@.len(),
{
}

/// Moving between files and lines keeps the cursors in range.
pub proof fn law_navigation_keeps_cursors_in_range(a: App)
    requires
        cursors_in_range(a),
    ensures
        cursors_in_range(file_up_spec(a)),
        cursors_in_range(file_down_spec(a)),
        cursors_in_range(diff_line_up_spec(a)),
        cursors_in_range(diff_line_down_spec(a)),
{
}

/// Moving to the next file and back returns to the file one started from,
/// at the top of its diff.
pub proof fn law_file_down_then_up(a: App)
    requires
        a.file_cursor + 1 < a.files@.len(),
        a.files@.len() <= usize::MAX,
    ensures
        file_up_spec(file_down_spec(a)).file_cursor == a.file_cursor,
        file_up_spec(file_down_spec(a)).diff_line_cursor == 0,
        file_up_spec(file_down_spec(a)).diff_scroll == 0,
{
}

/// Moving the diff line cursor down and back up returns it to its line.
pub proof fn law_line_down_then_up(a: App)
    requires
        a.diff_line_cursor + 1 < a.diff_lines().len(),
        a.diff_lines().len() <= usize::MAX,
    ensures
        diff_line_up_spec(diff_line_down_spec(a)).diff_line_cursor == a.diff_line_cursor,
{
}

/// After the diff line cursor moves down it is visible: at or below the
/// first shown line and above the last (as long as the scroll offset fits
/// its 16 bits).
pub proof fn law_line_down_keeps_cursor_visible(a: App)
    requires
        a.diff_scroll <= a.diff_line_cursor < a.diff_scroll + visible_lines(a),
        a.diff_line_cursor + 1 < a.diff_lines().len(),
        a.diff_line_cursor + 2 - visible_lines(a) <= u16::MAX,
    ensures
        ({
            let b = diff_line_down_spec(a);
            b.diff_scroll <= b.diff_line_cursor < b.diff_scroll + visible_lines(b)
        }),
{
}

/// After the diff line cursor moves up it is visible: at or below the first
/// shown line.
pub proof fn law_line_up_keeps_cursor_visible(a: App)
    requires
        a.diff_scroll <= a.diff_line_cursor,
    ensures
        diff_line_up_spec(a).diff_scroll <= diff_line_up_spec(a).diff_line_cursor,
{
}

/// The context of a comment lies inside its file and spans at most
/// twenty-one lines: ten before the commented line, the line, and ten after
/// it.
pub proof fn law_window_size(len: int, line_no: int)
    requires
        0 <= len,
        0 <= line_no,
    ensures
        0 <= window_start(len, line_no) <= window_end(len, line_no) <= len,
        window_end(len, line_no) - window_start(len, line_no) <= 21,
{
}

/// A comment on a line eleven or more past the end of its file (or of a
/// file that is gone, read as no lines) has an empty context: its anchor is
/// that of no lines.
pub proof fn law_context_past_the_end_is_empty(lines: Seq<Seq<char>>, line_no: int)
    requires
        line_no >= lines.len() + 11,
    ensures
        window(lines, line_no) == Seq::<Seq<char>>::empty(),
        anchor_of(lines, line_no) == anchor_of(Seq::<Seq<char>>::empty(), line_no),
{
    assert(window(lines, line_no) =~= Seq::<Seq<char>>::empty());
    assert(window(Seq::<Seq<char>>::empty(), line_no) =~= Seq::<Seq<char>>::empty());
}

/// The anchor of a comment only depends on the lines around it: two
/// versions of a file whose context windows end at the same place (both
/// having the ten lines after the commented line, or both the same length)
/// and that agree on the lines of that window give the same anchor. So
/// edits elsewhere in the file never make a comment stale.
pub proof fn law_anchor_depends_on_context_only(l1: Seq<Seq<char>>, l2: Seq<Seq<char>>, line_no: int)
    requires
        line_no >= 0,
        window_end(l1.len() as int, line_no) == window_end(l2.len() as int, line_no),
        forall|k: int|
            window_start(l1.len() as int, line_no) <= k < window_end(l1.len() as int, line_no) ==> l1[k] == l2[k],
    ensures
        anchor_of(l1, line_no) == anchor_of(l2, line_no),
{
    assert(window(l1, line_no) =~= window(l2, line_no));
}

/// A comment whose context is unchanged since it was saved is not stale
/// after a staleness check; one whose context anchor changed is.
pub proof fn law_stale_iff_context_changed(cs: Seq<Comment>, next: Seq<Comment>, lines: Seq<Seq<Seq<char>>>, i: int)
    requires
        restaled(cs, next, lines),
        0 <= i < cs.len(),
    ensures
        next[i].stale <==> anchor_of(lines[i], cs[i].line_no as int) != cs[i].anchor_hash@,
        next[i].id == cs[i].id,
        next[i].text == cs[i].text,
{
}

/// Saving a new comment on a line that had none makes it the comment found
/// on that line, with the saved text.
pub proof fn law_saved_comment_is_found(
    cs: Seq<Comment>,
    file: Seq<char>,
    line: usize,
    text: Seq<char>,
    anchor: Seq<char>,
    next: Seq<Comment>,
)
    requires
        saved_comments(cs, None, file, line, text, anchor, next),
        !has_comment_at(cs, file, line),
    ensures
        comment_at(next, file, line) == Some(cs.len() as int),
        next[cs.len() as int].text@ == text,
{
    assert forall|j: int| 0 <= j < cs.len() implies !is_at(#[trigger] next[j], file, line) by {
        assert(next[j] == next.take(cs.len() as int)[j]);
        if is_at(next[j], file, line) {
            assert(is_at(cs[j], file, line));
        }
    }
    assert(is_first_at(next, file, line, cs.len() as int));
    lemma_comment_at(next, file, line, cs.len() as int);
}

/// The same at the level of the whole viewer: once the typed text is saved
/// as a new comment (and stored), the line under the cursor shows it.
pub proof fn law_save_then_lookup<R: GitRepository, S: CommentStore>(repo: R, store: S, a: App, b: App)
    requires
        save_post(repo, store, a, b),
        a.ready_to_save(),
        a.comment_editing_id is None,
        !has_comment_at(a.comments@, a.current_file_view()->0.path, a.line_no_at_cursor()->0),
        b.status_message matches Some(m) && m@ == "Comment saved."@,
    ensures
        ({
            let file = a.current_file_view()->0.path;
            let line = a.line_no_at_cursor()->0;
            &&& comment_at(b.comments@, file, line) == Some(a.comments@.len() as int)
            &&& b.comments@[a.comments@.len() as int].text@ == crate::text::trim(a.comment_input_text@)
        }),
{
    let file = a.current_file_view()->0.path;
    let line = a.line_no_at_cursor()->0;
    let ans = choose|ans: Result<Vec<String>, String>|
        #[trigger] repo.reads(file, ans) && exists|next: Seq<Comment>, outcome: Result<(), String>|
            #![trigger store.saves(next, outcome)]
            {
                &&& saved_comments(
                    a.comments@,
                    a.comment_editing_id,
                    file,
                    line,
                    crate::text::trim(a.comment_input_text@),
                    anchor_of(crate::actions::answered_lines(ans), line as int),
                    next,
                )
                &&& store.saves(next, outcome)
                &&& crate::actions::save_finished(a, b, next, outcome)
            };
    let lines = crate::actions::answered_lines(ans);
    let (next, outcome) = choose|next: Seq<Comment>, outcome: Result<(), String>|
        {
            &&& saved_comments(
                a.comments@,
                a.comment_editing_id,
                file,
                line,
                crate::text::trim(a.comment_input_text@),
                anchor_of(lines, line as int),
                next,
            )
            &&& store.saves(next, outcome)
            &&& crate::actions::save_finished(a, b, next, outcome)
        };
    if outcome is Err {
        let e = outcome->Err_0;
        reveal_strlit("Save failed: ");
        reveal_strlit("Comment saved.");
        assert(("Save failed: "@ + e@)[0] == 'S');
        assert(("Save failed: "@ + e@)[1] == 'a');
        assert("Comment saved."@[0] == 'C');
    }
    law_saved_comment_is_found(
        a.comments@,
        file,
        line,
        crate::text::trim(a.comment_input_text@),
        anchor_of(lines, line as int),
        next,
    );
}

/// Deleting the comments on a line leaves none there and keeps every other
/// comment, in order.
pub proof fn law_delete_removes_only_that_line(cs: Seq<Comment>, file: Seq<char>, line: usize)
    ensures
        !has_comment_at(without_at(cs, file, line), file, line),
        forall|c: Comment| #[trigger] without_at(cs, file, line).contains(c) ==> cs.contains(c),
        forall|c: Comment| cs.contains(c) && !is_at(c, file, line) ==> #[trigger] without_at(cs, file, line).contains(c),
    decreases cs.len(),
{
    if cs.len() > 0 {
        let rest = cs.drop_last();
        law_delete_removes_only_that_line(rest, file, line);
        let w = without_at(rest, file, line);
        assert forall|c: Comment| cs.contains(c) && !is_at(c, file, line) implies #[trigger] without_at(cs, file, line).contains(c) by {
            let k = choose|k: int| 0 <= k < cs.len() && cs[k] == c;
            if k < cs.len() - 1 {
                assert(rest[k] == c);
                assert(rest.contains(c));
            }
            if !is_at(cs.last(), file, line) {
                assert(without_at(cs, file, line) == w.push(cs.last()));
                if k < cs.len() - 1 {
                    assert(w.contains(c));
                    let m = choose|m: int| 0 <= m < w.len() && w[m] == c;
                    assert(w.push(cs.last())[m] == w[m]);
                    assert(w.push(cs.last())[m] == c);
                } else {
                    assert(w.push(cs.last())[w.len() as int] == c);
                }
            }
        }
        assert forall|c: Comment| #[trigger] without_at(cs, file, line).contains(c) implies cs.contains(c) by {
            if !is_at(cs.last(), file, line) {
                let m = choose|m: int| 0 <= m < without_at(cs, file, line).len() && without_at(cs, file, line)[m] == c;
                if m < w.len() {
                    assert(w[m] == c);
                    assert(w.contains(c));
                    assert(rest.contains(c));
                    let k = choose|k: int| 0 <= k < rest.len() && rest[k] == c;
                    assert(cs[k] == c);
                } else {
                    assert(cs[cs.len() - 1] == c);
                }
            } else {
                assert(w.contains(c));
                assert(rest.contains(c));
                let k = choose|k: int| 0 <= k < rest.len() && rest[k] == c;
                assert(cs[k] == c);
            }
        }
        assert forall|i: int| 0 <= i < without_at(cs, file, line).len() implies !is_at(#[trigger] without_at(cs, file, line)[i], file, line) by {
            if !is_at(cs.last(), file, line) && i < w.len() {
                assert(without_at(cs, file, line)[i] == w[i]);
            }
        }
    }
}

/// Deleting the comments on a line where there are none changes nothing.
pub proof fn law_delete_where_none(cs: Seq<Comment>, file: Seq<char>, line: usize)
    requires
        !has_comment_at(cs, file, line),
    ensures
        without_at(cs, file, line) == cs,
    decreases cs.len(),
{
    if cs.len() > 0 {
        let rest = cs.drop_last();
        assert forall|i: int| 0 <= i < rest.len() implies !is_at(#[trigger] rest[i], file, line) by {
            assert(rest[i] == cs[i]);
        }
        law_delete_where_none(rest, file, line);
        assert(!is_at(cs[cs.len() - 1], file, line));
        assert(rest.push(cs.last()) =~= cs);
    }
}

/// Deleting the comments on a line undoes adding the first comment there.
pub proof fn law_delete_undoes_new_comment(cs: Seq<Comment>, c: Comment, file: Seq<char>, line: usize)
    requires
        !has_comment_at(cs, file, line),
        is_at(c, file, line),
    ensures
        without_at(cs.push(c), file, line) == cs,
{
    assert(cs.push(c).drop_last() =~= cs);
    law_delete_where_none(cs, file, line);
}

/// Merging the working-tree diffs keeps the staged files first and
/// unchanged, and lists the path of every unstaged file.
pub proof fn law_merge_keeps_staged_and_covers_unstaged(files: Seq<DiffFileView>, extra: Seq<DiffFileView>)
    ensures
        merge_files(files, extra).len() >= files.len(),
        merge_files(files, extra).take(files.len() as int) == files,
        forall|i: int| 0 <= i < extra.len() ==> has_path(merge_files(files, extra), #[trigger] extra[i].path),
    decreases extra.len(),
{
    if extra.len() > 0 {
        let rest = extra.drop_last();
        law_merge_keeps_staged_and_covers_unstaged(files, rest);
        let acc = merge_files(files, rest);
        let m = merge_files(files, extra);
        assert forall|i: int| 0 <= i < extra.len() implies has_path(m, #[trigger] extra[i].path) by {
            if i < extra.len() - 1 {
                assert(extra[i] == rest[i]);
                assert(has_path(acc, rest[i].path));
                let k = choose|k: int| 0 <= k < acc.len() && acc[k].path == rest[i].path;
                if !has_path(acc, extra.last().path) {
                    assert(m[k] == acc[k]);
                }
            } else if !has_path(acc, extra.last().path) {
                assert(m[acc.len() as int] == extra.last());
            }
        }
        if !has_path(acc, extra.last().path) {
            assert(m.take(files.len() as int) =~= acc.take(files.len() as int));
        }
    }
}

/// Paths listed at most once.
pub open spec fn distinct_paths(files: Seq<DiffFileView>) -> bool {
    forall|i: int, j: int| 0 <= i < j < files.len() ==> files[i].path != files[j].path
}

/// Merging never lists a path twice when the staged files do not.
pub proof fn law_merge_keeps_paths_distinct(files: Seq<DiffFileView>, extra: Seq<DiffFileView>)
    requires
        distinct_paths(files),
    ensures
        distinct_paths(merge_files(files, extra)),
    decreases extra.len(),
{
    if extra.len() > 0 {
        law_merge_keeps_paths_distinct(files, extra.drop_last());
        let acc = merge_files(files, extra.drop_last());
        if !has_path(acc, extra.last().path) {
            let m = acc.push(extra.last());
            assert forall|i: int, j: int| 0 <= i < j < m.len() implies m[i].path != m[j].path by {
                if j == acc.len() {
                    assert(m[i] == acc[i]);
                } else {
                    assert(m[i] == acc[i] && m[j] == acc[j]);
                }
            }
        }
    }
}

/// After the export view opens, the store was handed exactly the text the
/// view shows, so the export file (where the store keeps it) holds what
/// the user sees.
pub proof fn law_export_file_holds_the_export_shown<R: GitRepository, S: CommentStore>(
    repo: R,
    store: S,
    a: App,
    b: App,
)
    requires
        crate::actions::open_export_post(repo, store, a, b),
        a.comments@.len() > 0,
    ensures
        b.screen == crate::app::Screen::CommentExport,
        exists|w: Result<(), String>| #[trigger] store.exports(b.comment_export_text@, w),
{
    let lines = choose|lines: Seq<Seq<Seq<char>>>|
        #[trigger] crate::actions::read_for_comments(repo, a.comments@, lines) && exists|w: Result<(), String>|
            #[trigger] store.exports(crate::export::export_text(a.comments@, lines, a.comments@.len() as int), w)
                && crate::actions::export_shown(a, b, lines, w);
    let w = choose|w: Result<(), String>|
        #[trigger] store.exports(crate::export::export_text(a.comments@, lines, a.comments@.len() as int), w)
            && crate::actions::export_shown(a, b, lines, w);
    assert(store.exports(b.comment_export_text@, w));
}

/// A staleness check changes nothing of a comment but its stale flag: the
/// saved anchor, the id, the place, the text and the times stay. So a
/// second check against the same lines changes nothing at all: a comment
/// whose context changed stays stale on every check until it is edited.
pub proof fn law_staleness_check_keeps_the_anchor(
    cs: Seq<Comment>,
    once: Seq<Comment>,
    twice: Seq<Comment>,
    lines: Seq<Seq<Seq<char>>>,
)
    requires
        restaled(cs, once, lines),
        restaled(once, twice, lines),
    ensures
        forall|i: int|
            0 <= i < cs.len() ==> {
                &&& (#[trigger] once[i]).anchor_hash == cs[i].anchor_hash
                &&& once[i].id == cs[i].id
                &&& once[i].file == cs[i].file
                &&& once[i].line_no == cs[i].line_no
                &&& once[i].text == cs[i].text
                &&& once[i].created_at == cs[i].created_at
                &&& once[i].updated_at == cs[i].updated_at
            },
        twice == once,
{
    assert forall|i: int| 0 <= i < once.len() implies twice[i] == once[i] by {
        assert(once[i] == (Comment {
            stale: anchor_of(lines[i], cs[i].line_no as int) != cs[i].anchor_hash@,
            ..cs[i]
        }));
        assert(twice[i] == (Comment {
            stale: anchor_of(lines[i], once[i].line_no as int) != once[i].anchor_hash@,
            ..once[i]
        }));
    }
    assert(twice =~= once);
}

/// The header line that names a comment's file and line in the export.
pub open spec fn title_line(c: Comment) -> Seq<char> {
    "=== "@ + c.file@ + " : line "@ + decimal(c.line_no as nat) + " ===\n"@
}

/// Staleness only adds a `[STALE]` line after a block's title: the stale
/// and the fresh block of the same comment are otherwise the same, context
/// lines included.
pub proof fn law_stale_only_adds_a_marker(c: Comment, lines: Seq<Seq<char>>)
    ensures
        export_block(Comment { stale: false, ..c }, lines).take(title_line(c).len() as int) == title_line(c),
        export_block(Comment { stale: true, ..c }, lines) == title_line(c) + "[STALE]\n"@ + export_block(
            Comment { stale: false, ..c },
            lines,
        ).skip(title_line(c).len() as int),
{
    let f = Comment { stale: false, ..c };
    let st = Comment { stale: true, ..c };
    let t = title_line(c);
    let start = window_start(lines.len() as int, c.line_no as int);
    let end = window_end(lines.len() as int, c.line_no as int);
    let rest = file_header(c.file@) + range_header(start, end) + context_entries(lines, start, end, c.line_no as int)
        + "# Comment: "@ + c.text@ + "\n\n"@;
    assert(block_title(f) =~= t);
    assert(block_title(st) =~= t + "[STALE]\n"@);
    assert(export_block(f, lines) =~= t + rest);
    assert(export_block(st, lines) =~= t + "[STALE]\n"@ + rest);
    assert((t + rest).take(t.len() as int) =~= t);
    assert((t + rest).skip(t.len() as int) =~= rest);
}

/// The lines `w`, the first of them being line `first + 1` of the file,
/// each on a line of its own after `">"` (the commented line `line_no`) or
/// `" "`, and a space.
pub open spec fn listing(w: Seq<Seq<char>>, first: int, line_no: int) -> Seq<char>
    decreases w.len(),
{
    if w.len() == 0 {
        seq![]
    } else {
        listing(w.drop_last(), first, line_no) + (if first + w.len() == line_no {
            ">"@
        } else {
            " "@
        }) + " "@ + w.last() + "\n"@
    }
}

proof fn lemma_entries_list(lines: Seq<Seq<char>>, start: int, end: int, line_no: int)
    requires
        0 <= start <= end <= lines.len(),
    ensures
        context_entries(lines, start, end, line_no) == listing(lines.subrange(start, end), start, line_no),
    decreases end - start,
{
    if end > start {
        lemma_entries_list(lines, start, end - 1, line_no);
        assert(lines.subrange(start, end).drop_last() =~= lines.subrange(start, end - 1));
        assert(context_entries(lines, start, end, line_no) =~= listing(lines.subrange(start, end), start, line_no));
    } else {
        assert(lines.subrange(start, end) =~= Seq::<Seq<char>>::empty());
    }
}

/// Every comment's export block, stale or not, lists exactly the lines its
/// anchor is taken over (`window`), with `>` on the commented line, under a
/// `@@` header that counts them; then the comment's text.
pub proof fn law_export_lists_the_anchored_context(c: Comment, lines: Seq<Seq<char>>)
    ensures
        ({
            let start = window_start(lines.len() as int, c.line_no as int);
            let w = window(lines, c.line_no as int);
            export_block(c, lines) == block_title(c) + file_header(c.file@) + range_header(start, start + w.len())
                + listing(w, start, c.line_no as int) + "# Comment: "@ + c.text@ + "\n\n"@
        }),
{
    let start = window_start(lines.len() as int, c.line_no as int);
    let end = window_end(lines.len() as int, c.line_no as int);
    law_window_size(lines.len() as int, c.line_no as int);
    lemma_entries_list(lines, start, end, c.line_no as int);
}

/// The style of a highlighted span follows its token's font style: bold
/// exactly when the style has the bold bit (1), italic exactly when it has
/// the italic bit (4); the colour is the token's.
pub proof fn law_span_style_follows_font_bits(t: Token, s: StyledSpan)
    requires
        span_of(t, s),
    ensures
        s.bold <==> t.font_bits % 2 == 1,
        s.italic <==> (t.font_bits / 4) % 2 == 1,
        s.fg == Some(t.fg),
{
    let b = t.font_bits;
    assert((b & 1 != 0) == (b % 2 == 1)) by (bit_vector);
    assert((b & 4 != 0) == ((b / 4) % 2 == 1)) by (bit_vector);
}

/// A reported file is listed with its path, no hunks yet, and the status
/// its delta stands for: added for an added or untracked file, deleted for a
/// deleted one, renamed for a renamed or copied one (which alone keep their
/// old path), modified for any other.
pub proof fn law_reported_file_status(path: Seq<char>, old_path: Option<Seq<char>>, d: Delta)
    ensures
        ({
            let f = new_file_view(path, old_path, d);
            &&& f.path == path
            &&& f.hunks.len() == 0
            &&& (f.status == FileStatus::Added) <==> (d == Delta::Added || d == Delta::Untracked)
            &&& (f.status == FileStatus::Deleted) <==> (d == Delta::Deleted)
            &&& (f.status == FileStatus::Renamed) <==> (d == Delta::Renamed || d == Delta::Copied)
            &&& f.old_path is Some ==> (d == Delta::Renamed || d == Delta::Copied)
        }),
{
}

/// Editing a comment re-anchors it in the current lines around its line
/// and clears its stale flag, so a later check against those same lines
/// finds it fresh.
pub proof fn law_edit_reanchors(
    cs: Seq<Comment>,
    id: u128,
    k: int,
    file: Seq<char>,
    line: usize,
    text: Seq<char>,
    lines: Seq<Seq<char>>,
    next: Seq<Comment>,
    all_lines: Seq<Seq<Seq<char>>>,
    checked: Seq<Comment>,
)
    requires
        comment_with_id(cs, id) == Some(k),
        0 <= k < cs.len(),
        cs[k].line_no == line,
        saved_comments(cs, Some(id), file, line, text, anchor_of(lines, line as int), next),
        restaled(next, checked, all_lines),
        all_lines.len() == next.len(),
        all_lines[k] == lines,
    ensures
        next[k].anchor_hash@ == anchor_of(lines, line as int),
        next[k].text@ == text,
        next[k].id == cs[k].id,
        next[k].line_no == line,
        !next[k].stale,
        !checked[k].stale,
{
    assert(checked[k] == (Comment {
        stale: anchor_of(all_lines[k], next[k].line_no as int) != next[k].anchor_hash@,
        ..next[k]
    }));
}

} // verus!
