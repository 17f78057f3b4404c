//! The plain-text export of all comments, in diff format with the lines
//! around each commented line.
use vstd::prelude::*;

use crate::domain::Comment;
use crate::store::{window_bounds, window_end, window_start};
use crate::text::{decimal, push_char, push_decimal, string_views};

verus! {

/// One context line of an export block: `">"` marks the commented line,
/// `" "` the others, then a space, the line and a newline.
pub open spec fn context_entry(lines: Seq<Seq<char>>, k: int, line_no: int) -> Seq<char> {
    (if k + 1 == line_no {
        ">"@
    } else {
        " "@
    }) + " "@ + lines[k] + "\n"@
}

/// The context entries for the lines `start..end`.
pub open spec fn context_entries(lines: Seq<Seq<char>>, start: int, end: int, line_no: int) -> Seq<char>
    decreases end - start,
{
    if end <= start {
        seq![]
    } else {
        context_entries(lines, start, end - 1, line_no) + context_entry(lines, end - 1, line_no)
    }
}

/// The header lines of an export block: the file and line, a `[STALE]`
/// marker for stale comments, and a unified-diff header of the context.
pub open spec fn block_header(c: Comment, start: int, end: int) -> Seq<char> {
    block_title(c) + file_header(c.file@) + range_header(start, end)
}

/// `=== <file> : line <n> ===`, then `[STALE]` for a stale comment.
pub open spec fn block_title(c: Comment) -> Seq<char> {
    "=== "@ + c.file@ + " : line "@ + decimal(c.line_no as nat) + " ===\n"@ + (if c.stale {
        "[STALE]\n"@
    } else {
        seq![]
    })
}

/// The `---` and `+++` lines of a unified diff of `file`.
pub open spec fn file_header(file: Seq<char>) -> Seq<char> {
    "--- a/"@ + file + "\n"@ + "+++ b/"@ + file + "\n"@
}

/// The `@@` line of the context `start..end` (1-based first line and count,
/// the same on both sides).
pub open spec fn range_header(start: int, end: int) -> Seq<char> {
    let first = decimal((start + 1) as nat);
    let count = decimal((end - start) as nat);
    "@@ -"@ + first + ","@ + count + " +"@ + first + ","@ + count + " @@\n"@
}

/// The export block of comment `c`, whose file currently has `lines`.
pub open spec fn export_block(c: Comment, lines: Seq<Seq<char>>) -> Seq<char> {
    let start = window_start(lines.len() as int, c.line_no as int);
    let end = window_end(lines.len() as int, c.line_no as int);
    block_header(c, start, end) + context_entries(lines, start, end, c.line_no as int)
        + "# Comment: "@ + c.text@ + "\n\n"@
}

/// The export of the first `n` comments, block after block.
pub open spec fn export_text(comments: Seq<Comment>, lines: Seq<Seq<Seq<char>>>, n: int) -> Seq<char>
    decreases n,
{
    if n <= 0 {
        seq![]
    } else {
        export_text(comments, lines, n - 1) + export_block(comments[n - 1], lines[n - 1])
    }
}

/// The views of a vector of files' lines.
pub open spec fn lines_views(v: Seq<Vec<String>>) -> Seq<Seq<Seq<char>>> {
    v.map_values(|l: Vec<String>| string_views(l@))
}

fn push_block_title(out: &mut String, c: &Comment)
    ensures
        final(out)@ == old(out)@ + block_title(*c),
{
    let ghost base = out@;
    out.append("=== ");
    out.append(c.file.as_str());
    out.append(" : line ");
    push_decimal(out, c.line_no);
    out.append(" ===\n");
    if c.stale {
        out.append("[STALE]\n");
    }
    assert(out@ =~= base + block_title(*c));
}

fn push_file_header(out: &mut String, file: &String)
    ensures
        final(out)@ == old(out)@ + file_header(file@),
{
    let ghost base = out@;
    out.append("--- a/");
    out.append(file.as_str());
    out.append("\n");
    out.append("+++ b/");
    out.append(file.as_str());
    out.append("\n");
    assert(out@ =~= base + file_header(file@));
}

fn push_range_header(out: &mut String, start: usize, end: usize)
    requires
        start < usize::MAX,
        start <= end,
    ensures
        final(out)@ == old(out)@ + range_header(start as int, end as int),
{
    let ghost base = out@;
    out.append("@@ -");
    push_decimal(out, start + 1);
    out.append(",");
    push_decimal(out, end - start);
    out.append(" +");
    push_decimal(out, start + 1);
    out.append(",");
    push_decimal(out, end - start);
    out.append(" @@\n");
    assert(out@ =~= base + range_header(start as int, end as int));
}

/// Appends the header of the export block of `c` for the context `start..end`.
fn push_block_header(out: &mut String, c: &Comment, start: usize, end: usize)
    requires
        start < usize::MAX,
        start <= end,
    ensures
        final(out)@ == old(out)@ + block_header(*c, start as int, end as int),
{
    let ghost base = out@;
    push_block_title(out, c);
    push_file_header(out, &c.file);
    push_range_header(out, start, end);
    assert(out@ =~= base + block_header(*c, start as int, end as int));
}

/// Appends the context entries for the lines `start..end`.
fn push_context(out: &mut String, lines: &Vec<String>, start: usize, end: usize, line_no: usize)
    requires
        start <= end <= lines@.len(),
    ensures
        final(out)@ == old(out)@ + context_entries(string_views(lines@), start as int, end as int, line_no as int),
{
    let ghost l = string_views(lines@);
    let ghost head = out@;
    let mut k = start;
    assert("\n"@ =~= seq!['\n']) by {
        reveal_strlit("\n");
    }
    while k < end
        invariant
            start <= k <= end <= lines@.len(),
            l == string_views(lines@),
            "\n"@ == seq!['\n'],
            out@ == head + context_entries(l, start as int, k as int, line_no as int),
        decreases end - k,
    {
        let ghost before = out@;
        if k + 1 == line_no {
            out.append(">");
        } else {
            out.append(" ");
        }
        out.append(" ");
        out.append(lines[k].as_str());
        push_char(out, '\n');
        assert(out@ =~= before + context_entry(l, k as int, line_no as int));
        k = k + 1;
    }
}

/// Appends the export block of `c` to `out`.
fn push_block(out: &mut String, c: &Comment, lines: &Vec<String>)
    ensures
        final(out)@ == old(out)@ + export_block(*c, string_views(lines@)),
{
    let (start, end) = window_bounds(lines.len(), c.line_no);
    let ghost base = out@;
    push_block_header(out, c, start, end);
    push_context(out, lines, start, end, c.line_no);
    out.append("# Comment: ");
    out.append(c.text.as_str());
    out.append("\n\n");
    assert(out@ =~= base + export_block(*c, string_views(lines@)));
}

/// The export of `comments`, where `lines[i]` are the current lines of the
/// file of `comments[i]` (none for a file that is gone).
pub fn format_comments(comments: &Vec<Comment>, lines: &Vec<Vec<String>>) -> (r: String)
    requires
        lines@.len() == comments@.len(),
    ensures
        r@ == export_text(comments@, lines_views(lines@), comments@.len() as int),
{
    let mut out = String::new();
    let n = comments.len();
    for i in 0..n
        invariant
            n == comments@.len(),
            lines@.len() == comments@.len(),
            out@ == export_text(comments@, lines_views(lines@), i as int),
    {
        assert(lines_views(lines@)[i as int] == string_views(lines@[i as int]@));
        push_block(&mut out, &comments[i], &lines[i]);
    }
    out
}

} // verus!
