//! Syntax highlighting of file contents with syntect's default syntaxes and
//! themes, as styled spans per line; plain text where highlighting fails.
use syntect::highlighting::Theme as SyntectTheme;
use vstd::prelude::*;

use crate::text::{lines, push_char, split_lines, string_views, strip_trailing_newlines, trim_trailing_newlines};
use crate::theme::Rgb;

verus! {

#[verifier::external_type_specification]
#[verifier::external_body]
pub struct ExSyntaxSet(syntect::parsing::SyntaxSet);

#[verifier::external_type_specification]
#[verifier::external_body]
pub struct ExThemeSet(syntect::highlighting::ThemeSet);

#[verifier::external_type_specification]
#[verifier::external_body]
pub struct ExSyntectTheme(SyntectTheme);

#[verifier::external_type_specification]
#[verifier::external_body]
pub struct ExSyntaxReference(syntect::parsing::SyntaxReference);

#[verifier::external_type_specification]
#[verifier::external_body]
pub struct ExHighlightLines<'a>(syntect::easy::HighlightLines<'a>);

#[verifier::external_type_specification]
#[verifier::external_body]
pub struct ExSyntectError(syntect::Error);

/// The names of the themes that a theme set holds.
pub uninterp spec fn theme_names(ts: syntect::highlighting::ThemeSet) -> Set<Seq<char>>;

/// A piece of a highlighted line as syntect reports it: the foreground
/// colour, the font style bits (bold 1, underline 2, italic 4) and the text.
pub struct Token {
    pub fg: Rgb,
    pub font_bits: u8,
    pub text: String,
}

/// The text of a sequence of tokens, one after the other.
pub open spec fn tokens_text(ts: Seq<Token>) -> Seq<char>
    decreases ts.len(),
{
    if ts.len() == 0 {
        seq![]
    } else {
        tokens_text(ts.drop_last()) + ts.last().text@
    }
}

/// Whether the syntax set has a syntax named `Plain Text`.
pub uninterp spec fn has_plain_text(ss: syntect::parsing::SyntaxSet) -> bool;

/// Whether `s` is one of the syntaxes of the set `ss`.
pub uninterp spec fn syntax_of_set(s: syntect::parsing::SyntaxReference, ss: syntect::parsing::SyntaxSet) -> bool;

/// Whether the line highlighter `h` parses with a syntax of the set `ss`
/// (its parse state refers to the contexts of that set by index).
pub uninterp spec fn parses_within(h: syntect::easy::HighlightLines, ss: syntect::parsing::SyntaxSet) -> bool;

/// The syntax that `SyntaxSet::find_syntax_by_extension` finds in `ss` for
/// the extension `ext`, if any.
pub uninterp spec fn syntax_by_extension(ss: syntect::parsing::SyntaxSet, ext: Seq<char>) -> Option<syntect::parsing::SyntaxReference>;

/// The syntax that `SyntaxSet::find_syntax_plain_text` finds in `ss`.
pub uninterp spec fn plain_syntax(ss: syntect::parsing::SyntaxSet) -> syntect::parsing::SyntaxReference;

/// The theme called `name` in the theme set `ts`.
pub uninterp spec fn theme_value(ts: syntect::highlighting::ThemeSet, name: Seq<char>) -> SyntectTheme;

/// The line highlighter that `HighlightLines::new` makes for `syntax` in `theme`.
pub uninterp spec fn fresh_highlighter(syntax: syntect::parsing::SyntaxReference, theme: &SyntectTheme) -> syntect::easy::HighlightLines<'_>;

/// What `HighlightLines::highlight_line` does with the next `line`: the
/// tokens of the line (none when it fails) and the highlighter after it.
pub uninterp spec fn highlight_step(h: syntect::easy::HighlightLines<'_>, line: Seq<char>, ss: syntect::parsing::SyntaxSet) -> (Option<Seq<Token>>, syntect::easy::HighlightLines<'_>);

/// `syntect::parsing::SyntaxSet::load_defaults_newlines`: the default
/// syntaxes, which include the `Plain Text` syntax (the first one of the
/// embedded dump).
#[verifier::external_body]
fn load_syntaxes() -> (ss: syntect::parsing::SyntaxSet)
    ensures
        has_plain_text(ss),
{
    syntect::parsing::SyntaxSet::load_defaults_newlines()
}

/// `syntect::highlighting::ThemeSet::load_defaults`: the default themes,
/// among them (as its documentation lists) `base16-ocean.dark` and
/// `InspiredGitHub`.
#[verifier::external_body]
fn load_themes() -> (ts: syntect::highlighting::ThemeSet)
    ensures
        theme_names(ts).contains("base16-ocean.dark"@),
        theme_names(ts).contains("InspiredGitHub"@),
{
    syntect::highlighting::ThemeSet::load_defaults()
}

/// The theme called `name` in the theme set (a lookup in its `themes` map).
#[verifier::external_body]
fn theme_named<'a>(ts: &'a syntect::highlighting::ThemeSet, name: &str) -> (r: Option<&'a SyntectTheme>)
    ensures
        r is Some <==> theme_names(*ts).contains(name@),
        r matches Some(t) ==> *t == theme_value(*ts, name@),
{
    ts.themes.get(name)
}

/// `SyntaxSet::find_syntax_by_extension`: one of the set's syntaxes for
/// files with this extension, if the set has one. Which syntax it is, is not
/// stated.
#[verifier::external_body]
fn syntax_for_extension<'a>(ss: &'a syntect::parsing::SyntaxSet, ext: &str) -> (r: Option<&'a syntect::parsing::SyntaxReference>)
    ensures
        r is Some <==> syntax_by_extension(*ss, ext@) is Some,
        r matches Some(s) ==> syntax_by_extension(*ss, ext@) == Some(*s) && syntax_of_set(*s, *ss),
{
    ss.find_syntax_by_extension(ext)
}

/// `SyntaxSet::find_syntax_plain_text`: the set's `Plain Text` syntax. It
/// panics on a set without one, which `requires` leaves out.
#[verifier::external_body]
fn plain_text_syntax<'a>(ss: &'a syntect::parsing::SyntaxSet) -> (r: &'a syntect::parsing::SyntaxReference)
    requires
        has_plain_text(*ss),
    ensures
        *r == plain_syntax(*ss),
        syntax_of_set(*r, *ss),
{
    ss.find_syntax_plain_text()
}

/// `syntect::easy::HighlightLines::new`: a highlighter for `syntax` in
/// `theme`, which parses with the set that `syntax` belongs to.
#[verifier::external_body]
fn line_highlighter<'a>(
    syntax: &syntect::parsing::SyntaxReference,
    theme: &'a SyntectTheme,
) -> (h: syntect::easy::HighlightLines<'a>)
    ensures
        h == fresh_highlighter(*syntax, theme),
        forall|ss: syntect::parsing::SyntaxSet| syntax_of_set(*syntax, ss) ==> parses_within(h, ss),
{
    syntect::easy::HighlightLines::new(syntax, theme)
}

/// `HighlightLines::highlight_line`: the styled pieces of the next line, in
/// order. Syntect documents that the pieces together make the line, and that
/// the set must be the one the highlighter's syntax came from (else it may
/// panic), which `requires` asks; the highlighter keeps parsing with that
/// set. The styles depend on the lines highlighted before and are not stated.
#[verifier::external_body]
fn highlight_tokens(
    h: &mut syntect::easy::HighlightLines,
    line: &str,
    ss: &syntect::parsing::SyntaxSet,
) -> (r: Result<Vec<Token>, syntect::Error>)
    requires
        parses_within(*old(h), *ss),
    ensures
        parses_within(*final(h), *ss),
        r matches Ok(ts) ==> tokens_text(ts@) == line@,
        r is Ok <==> highlight_step(*old(h), line@, *ss).0 is Some,
        r matches Ok(ts) ==> highlight_step(*old(h), line@, *ss).0 == Some(ts@),
        *final(h) == highlight_step(*old(h), line@, *ss).1,
{
    let ranges = h.highlight_line(line, ss)?;
    Ok(ranges.iter().map(|(style, text)| Token {
        fg: Rgb { r: style.foreground.r, g: style.foreground.g, b: style.foreground.b },
        font_bits: style.font_style.bits(),
        text: text.to_string(),
    }).collect())
}

/// A run of text in one style; no colour means the default one.
pub struct StyledSpan {
    pub text: String,
    pub fg: Option<Rgb>,
    pub bold: bool,
    pub italic: bool,
}

/// The text of a sequence of spans, one after the other.
pub open spec fn spans_text(ss: Seq<StyledSpan>) -> Seq<char>
    decreases ss.len(),
{
    if ss.len() == 0 {
        seq![]
    } else {
        spans_text(ss.drop_last()) + ss.last().text@
    }
}

/// The span shown for a token: its colour and the bold and italic bits of
/// its font style, its text without trailing newlines.
pub open spec fn span_of(t: Token, s: StyledSpan) -> bool {
    &&& s.text@ == trim_trailing_newlines(t.text@)
    &&& s.fg == Some(t.fg)
    &&& s.bold == (t.font_bits & 1 != 0)
    &&& s.italic == (t.font_bits & 4 != 0)
}

/// Scans `s` from the left: the pieces already ended by a `'\n'` (which they
/// keep), and the text after the last `'\n'`.
pub open spec fn scan_inclusive(s: Seq<char>) -> (Seq<Seq<char>>, Seq<char>)
    decreases s.len(),
{
    if s.len() == 0 {
        (seq![], seq![])
    } else {
        let (done, cur) = scan_inclusive(s.drop_last());
        if s.last() == '\n' {
            (done.push(cur.push('\n')), seq![])
        } else {
            (done, cur.push(s.last()))
        }
    }
}

/// The lines of `s` with their `'\n'` terminators (syntect's `LinesWithEndings`).
pub open spec fn lines_with_endings(s: Seq<char>) -> Seq<Seq<char>> {
    let (done, cur) = scan_inclusive(s);
    if cur.len() == 0 {
        done
    } else {
        done.push(cur)
    }
}

/// Splits `s` into its lines, keeping their `'\n'` terminators.
pub fn split_lines_with_endings(s: &str) -> (r: Vec<String>)
    ensures
        string_views(r@) == lines_with_endings(s@),
{
    let mut done: Vec<String> = Vec::new();
    let mut cur = String::new();
    let ghost mut seen: Seq<char> = seq![];
    for c in it: s.chars()
        invariant
            it.seq() == s@,
            seen == s@.take(it.index@),
            (string_views(done@), cur@) == scan_inclusive(seen),
    {
        proof {
            assert(s@.take(it.index@ + 1).drop_last() =~= seen);
            seen = s@.take(it.index@ + 1);
        }
        push_char(&mut cur, c);
        if c == '\n' {
            done.push(cur);
            cur = String::new();
            assert(string_views(done@) =~= scan_inclusive(seen).0);
        }
    }
    assert(s@.take(s@.len() as int) =~= s@);
    if cur.as_str().unicode_len() > 0 {
        done.push(cur);
        assert(string_views(done@) =~= lines_with_endings(s@));
    }
    done
}

/// The views of highlighted lines.
pub open spec fn styled_lines_view(v: Seq<Vec<StyledSpan>>) -> Seq<Seq<StyledSpan>> {
    v.map_values(|l: Vec<StyledSpan>| l@)
}

/// `r` shows the lines of `source` unstyled, one span per line.
pub open spec fn plain_as(r: Seq<Seq<StyledSpan>>, source: Seq<char>) -> bool {
    &&& r.len() == lines(source).len()
    &&& forall|i: int|
        0 <= i < r.len() ==> {
            &&& (#[trigger] r[i]).len() == 1
            &&& r[i][0].text@ == lines(source)[i]
            &&& r[i][0].fg is None
            &&& !r[i][0].bold
            &&& !r[i][0].italic
        }
}

/// `r` shows the lines of `source` highlighted: one entry per line (with
/// its terminator), whose spans spell the line without its `'\n'`.
pub open spec fn highlighted_as(r: Seq<Seq<StyledSpan>>, source: Seq<char>) -> bool {
    &&& r.len() == lines_with_endings(source).len()
    &&& forall|i: int|
        0 <= i < r.len() ==> spans_text(#[trigger] r[i]) == trim_trailing_newlines(lines_with_endings(source)[i])
}

/// The tokens of `lines`, highlighted one after the other, starting with
/// the highlighter `h`; none when a line fails.
pub open spec fn highlight_run(
    h: syntect::easy::HighlightLines<'_>,
    ss: syntect::parsing::SyntaxSet,
    lines: Seq<Seq<char>>,
) -> Option<Seq<Seq<Token>>>
    decreases lines.len(),
{
    if lines.len() == 0 {
        Some(seq![])
    } else {
        match highlight_step(h, lines[0], ss).0 {
            None => None,
            Some(ts) => match highlight_run(highlight_step(h, lines[0], ss).1, ss, lines.drop_first()) {
                None => None,
                Some(rest) => Some(seq![ts] + rest),
            },
        }
    }
}

/// `done` followed by what `rest` holds, if it holds anything.
pub open spec fn prefixed(done: Seq<Seq<Token>>, rest: Option<Seq<Seq<Token>>>) -> Option<Seq<Seq<Token>>> {
    match rest {
        None => None,
        Some(more) => Some(done + more),
    }
}

/// `r` shows `toks` line by line, each span as `span_of` its token.
pub open spec fn spans_for(toks: Seq<Seq<Token>>, r: Seq<Seq<StyledSpan>>) -> bool {
    &&& r.len() == toks.len()
    &&& forall|i: int| 0 <= i < r.len() ==> (#[trigger] r[i]).len() == toks[i].len()
    &&& forall|i: int, j: int|
        0 <= i < r.len() && 0 <= j < r[i].len() ==> span_of(toks[i][j], #[trigger] r[i][j])
}

/// The syntax a file at `path` is highlighted with: the one its extension
/// selects in `ss`, else plain text.
pub open spec fn syntax_for_path(ss: syntect::parsing::SyntaxSet, path: Seq<char>) -> syntect::parsing::SyntaxReference {
    match syntax_by_extension(ss, extension(path)) {
        Some(s) => s,
        None => plain_syntax(ss),
    }
}

/// `r` is what highlighting `source`, a file at `path`, shows with the
/// syntaxes `ss` and the theme called `theme` in `ts`: the spans of the
/// tokens syntect gives for its lines (with their terminators), one line
/// after the other, or every line unstyled when syntect fails on one.
pub open spec fn highlighting_of(
    ss: syntect::parsing::SyntaxSet,
    ts: syntect::highlighting::ThemeSet,
    theme: Seq<char>,
    path: Seq<char>,
    source: Seq<char>,
    r: Seq<Seq<StyledSpan>>,
) -> bool {
    match highlight_run(
        fresh_highlighter(syntax_for_path(ss, path), &theme_value(ts, theme)),
        ss,
        lines_with_endings(source),
    ) {
        Some(toks) => spans_for(toks, r),
        None => plain_as(r, source),
    }
}

/// One more line in front of the rest: `done` then `ts` then the rest.
proof fn lemma_prefixed_step(done: Seq<Seq<Token>>, ts: Seq<Token>, rest: Option<Seq<Seq<Token>>>)
    ensures
        prefixed(
            done,
            match rest {
                None => None,
                Some(more) => Some(seq![ts] + more),
            },
        ) == prefixed(done.push(ts), rest),
{
    match rest {
        None => {},
        Some(more) => {
            assert(done + (seq![ts] + more) =~= done.push(ts) + more);
        },
    }
}

/// Every line of `source`, unstyled.
pub fn plain_lines(source: &str) -> (r: Vec<Vec<StyledSpan>>)
    ensures
        plain_as(styled_lines_view(r@), source@),
{
    let ls = split_lines(source);
    let mut r: Vec<Vec<StyledSpan>> = Vec::new();
    let n = ls.len();
    for i in 0..n
        invariant
            n == ls@.len(),
            string_views(ls@) == lines(source@),
            r@.len() == i,
            forall|j: int|
                0 <= j < i ==> {
                    &&& (#[trigger] r@[j])@.len() == 1
                    &&& r@[j]@[0].text@ == lines(source@)[j]
                    &&& r@[j]@[0].fg is None
                    &&& !r@[j]@[0].bold
                    &&& !r@[j]@[0].italic
                },
    {
        let mut line: Vec<StyledSpan> = Vec::new();
        line.push(StyledSpan { text: ls[i].clone(), fg: None, bold: false, italic: false });
        assert(string_views(ls@)[i as int] == ls@[i as int]@);
        r.push(line);
    }
    r
}

/// The file name of a path: what follows its last `'/'`.
pub open spec fn file_name(path: Seq<char>) -> Seq<char>
    decreases path.len(),
{
    if path.len() == 0 || path.last() == '/' {
        seq![]
    } else {
        file_name(path.drop_last()).push(path.last())
    }
}

/// The index of the last `'.'` of `s`, or -1.
pub open spec fn last_dot(s: Seq<char>) -> int
    decreases s.len(),
{
    if s.len() == 0 {
        -1
    } else if s.last() == '.' {
        s.len() - 1
    } else {
        last_dot(s.drop_last())
    }
}

/// The extension of a path that ends in a file name: what follows the last
/// `'.'` of that name, if that dot is not the name's first character, and
/// the name is not `..`.
pub open spec fn name_extension(path: Seq<char>) -> Seq<char> {
    let name = file_name(path);
    let d = last_dot(name);
    if d <= 0 || name == seq!['.', '.'] {
        seq![]
    } else {
        name.subrange(d + 1, name.len() as int)
    }
}

/// `path` without its trailing `'/'`s.
pub open spec fn without_trailing_slashes(path: Seq<char>) -> Seq<char>
    decreases path.len(),
{
    if path.len() > 0 && path.last() == '/' {
        without_trailing_slashes(path.drop_last())
    } else {
        path
    }
}

/// The extension of a path: that of its last component (trailing `'/'`s do
/// not end a component).
pub open spec fn extension(path: Seq<char>) -> Seq<char> {
    name_extension(without_trailing_slashes(path))
}

/// The extension of a file path (empty where there is none).
pub fn file_extension(path: &str) -> (r: &str)
    ensures
        r@ == extension(path@),
{
    let mut n = path.unicode_len();
    assert(path@.subrange(0, n as int) =~= path@);
    while n > 0 && path.get_char(n - 1) == '/'
        invariant
            n <= path@.len(),
            without_trailing_slashes(path@) == without_trailing_slashes(path@.subrange(0, n as int)),
        decreases n,
    {
        assert(path@.subrange(0, n as int).drop_last() =~= path@.subrange(0, n - 1));
        n = n - 1;
    }
    let trimmed = path.substring_char(0, n);
    assert(trimmed@ == without_trailing_slashes(path@));
    name_extension_of(trimmed)
}

/// The extension of the last name of a path ending in that name.
fn name_extension_of(path: &str) -> (r: &str)
    ensures
        r@ == name_extension(path@),
{
    let n = path.unicode_len();
    // start of the file name
    let mut start = n;
    assert(path@.subrange(0, n as int) =~= path@);
    assert(path@.subrange(n as int, n as int) =~= Seq::<char>::empty());
    assert(file_name(path@) + Seq::<char>::empty() =~= file_name(path@));
    while start > 0 && path.get_char(start - 1) != '/'
        invariant
            start <= n,
            n == path@.len(),
            file_name(path@) == file_name(path@.subrange(0, start as int)) + path@.subrange(start as int, n as int),
        decreases start,
    {
        proof {
            let p = path@.subrange(0, start as int);
            assert(p.drop_last() =~= path@.subrange(0, start - 1));
            assert(path@.subrange(start - 1, n as int) =~= seq![p.last()] + path@.subrange(start as int, n as int));
            assert(file_name(p) == file_name(p.drop_last()).push(p.last()));
            assert(file_name(p.drop_last()).push(p.last()) + path@.subrange(start as int, n as int)
                =~= file_name(p.drop_last()) + path@.subrange(start - 1, n as int));
        }
        start = start - 1;
    }
    proof {
        assert(file_name(path@.subrange(0, start as int)) =~= seq![]);
        assert(file_name(path@) =~= path@.subrange(start as int, n as int));
    }
    let ghost name = path@.subrange(start as int, n as int);
    // last dot of the file name
    let mut d = n;
    assert(name.subrange(0, (n - start) as int) =~= name);
    while d > start && path.get_char(d - 1) != '.'
        invariant
            start <= d <= n,
            n == path@.len(),
            name == path@.subrange(start as int, n as int),
            last_dot(name) == last_dot(name.subrange(0, d - start)),
        decreases d,
    {
        assert(name.subrange(0, d - start).drop_last() =~= name.subrange(0, d - start - 1));
        d = d - 1;
    }
    proof {
        assert(name.subrange(0, (n - start) as int) =~= name);
        if d > start {
            assert(name.subrange(0, d - start).last() == '.');
            assert(last_dot(name) == d - start - 1);
        } else {
            assert(last_dot(name) == -1);
        }
    }
    let dotdot = n - start == 2 && path.get_char(start) == '.' && path.get_char(start + 1) == '.';
    proof {
        if n - start == 2 {
            if name =~= seq!['.', '.'] {
                assert(dotdot);
            }
            if dotdot {
                assert(name =~= seq!['.', '.']);
            }
        } else {
            assert(name.len() != 2);
        }
    }
    if d - start <= 1 || dotdot {
        let r = path.substring_char(n, n);
        assert(r@ =~= name_extension(path@));
        r
    } else {
        let r = path.substring_char(d, n);
        assert(r@ =~= name_extension(path@));
        r
    }
}

/// No `'\n'` before the last character of `s`.
pub open spec fn newline_at_end_only(s: Seq<char>) -> bool {
    forall|k: int| 0 <= k < s.len() - 1 ==> s[k] != '\n'
}

proof fn lemma_scan_inclusive(s: Seq<char>)
    ensures
        forall|i: int|
            0 <= i < scan_inclusive(s).0.len() ==> newline_at_end_only(#[trigger] scan_inclusive(s).0[i]),
        forall|k: int| 0 <= k < scan_inclusive(s).1.len() ==> scan_inclusive(s).1[k] != '\n',
    decreases s.len(),
{
    if s.len() > 0 {
        let rest = s.drop_last();
        lemma_scan_inclusive(rest);
        let (done, cur) = scan_inclusive(rest);
        if s.last() == '\n' {
            let piece = cur.push('\n');
            assert forall|k: int| 0 <= k < piece.len() - 1 implies piece[k] != '\n' by {
                assert(piece[k] == cur[k]);
            }
            assert forall|i: int| 0 <= i < done.push(piece).len() implies newline_at_end_only(#[trigger] done.push(piece)[i]) by {
                if i < done.len() {
                    assert(done.push(piece)[i] == done[i]);
                }
            }
        } else {
            assert forall|k: int| 0 <= k < cur.push(s.last()).len() implies cur.push(s.last())[k] != '\n' by {
                if k < cur.len() {
                    assert(cur.push(s.last())[k] == cur[k]);
                }
            }
        }
    }
}

/// Each line with its ending holds `'\n'` at most as its last character.
proof fn lemma_lines_with_endings_newlines(s: Seq<char>, i: int)
    requires
        0 <= i < lines_with_endings(s).len(),
    ensures
        newline_at_end_only(lines_with_endings(s)[i]),
{
    lemma_scan_inclusive(s);
    let (done, cur) = scan_inclusive(s);
    if cur.len() > 0 && i == done.len() {
        assert(lines_with_endings(s)[i] == cur);
    } else {
        assert(lines_with_endings(s)[i] == done[i]);
    }
}

proof fn lemma_trim_after(s1: Seq<char>, s2: Seq<char>)
    requires
        s1.len() == 0 || s1.last() != '\n',
    ensures
        trim_trailing_newlines(s1 + s2) == s1 + trim_trailing_newlines(s2),
    decreases s2.len(),
{
    if s2.len() == 0 {
        assert(s1 + s2 =~= s1);
        assert(s1 + trim_trailing_newlines(s2) =~= s1);
    } else if s2.last() == '\n' {
        assert((s1 + s2).drop_last() =~= s1 + s2.drop_last());
        lemma_trim_after(s1, s2.drop_last());
    } else {
        assert((s1 + s2).last() == s2.last());
    }
}

/// Spans made from tokens spell the tokens' text without its trailing
/// newline, when that text has no other newline.
proof fn lemma_spans_spell_line(ts: Seq<Token>, ss: Seq<StyledSpan>)
    requires
        ts.len() == ss.len(),
        forall|i: int| 0 <= i < ts.len() ==> span_of(#[trigger] ts[i], ss[i]),
        newline_at_end_only(tokens_text(ts)),
    ensures
        spans_text(ss) == trim_trailing_newlines(tokens_text(ts)),
    decreases ts.len(),
{
    if ts.len() > 0 {
        let ts1 = ts.drop_last();
        let ss1 = ss.drop_last();
        let p = tokens_text(ts1);
        let t = ts.last();
        assert(tokens_text(ts) == p + t.text@);
        assert(span_of(ts[ts.len() - 1], ss[ss.len() - 1]));
        assert forall|i: int| 0 <= i < ts1.len() implies span_of(#[trigger] ts1[i], ss1[i]) by {
            assert(ts1[i] == ts[i] && ss1[i] == ss[i]);
        }
        if t.text@.len() == 0 {
            assert(p + t.text@ =~= p);
            lemma_spans_spell_line(ts1, ss1);
            assert(trim_trailing_newlines(t.text@) =~= Seq::<char>::empty());
            assert(spans_text(ss) =~= spans_text(ss1));
        } else {
            assert forall|k: int| 0 <= k < p.len() implies p[k] != '\n' by {
                assert((p + t.text@)[k] == p[k]);
            }
            lemma_spans_spell_line(ts1, ss1);
            assert(trim_trailing_newlines(p) == p);
            lemma_trim_after(p, t.text@);
        }
    }
}

/// The spans shown for `tokens`.
fn spans_of(tokens: &Vec<Token>) -> (r: Vec<StyledSpan>)
    ensures
        r@.len() == tokens@.len(),
        forall|i: int| 0 <= i < r@.len() ==> span_of(#[trigger] tokens@[i], r@[i]),
{
    let mut r: Vec<StyledSpan> = Vec::new();
    let n = tokens.len();
    for i in 0..n
        invariant
            n == tokens@.len(),
            r@.len() == i,
            forall|j: int| 0 <= j < i ==> span_of(#[trigger] tokens@[j], r@[j]),
    {
        let t = &tokens[i];
        let bits = t.font_bits;
        r.push(StyledSpan {
            text: strip_trailing_newlines(t.text.as_str()),
            fg: Some(t.fg),
            bold: bits & 1 != 0,
            italic: bits & 4 != 0,
        });
    }
    r
}

/// Highlights source code with syntect's default syntaxes and themes.
pub struct SyntectHighlighter {
    ss: syntect::parsing::SyntaxSet,
    ts: syntect::highlighting::ThemeSet,
    dark_theme: String,
    light_theme: String,
}

impl SyntectHighlighter {
    #[verifier::type_invariant]
    spec fn themes_present(self) -> bool {
        &&& has_plain_text(self.ss)
        &&& self.dark_theme@ == "base16-ocean.dark"@
        &&& self.light_theme@ == "InspiredGitHub"@
        &&& theme_names(self.ts).contains(self.dark_theme@)
        &&& theme_names(self.ts).contains(self.light_theme@)
    }

    /// The name of the theme used on dark (`true`) or light backgrounds.
    pub closed spec fn theme_for(self, dark: bool) -> Seq<char> {
        if dark {
            self.dark_theme@
        } else {
            self.light_theme@
        }
    }

    /// A highlighter with the default syntaxes and themes; dark backgrounds
    /// use `base16-ocean.dark`, light ones `InspiredGitHub`.
    pub fn new() -> (h: SyntectHighlighter)
        ensures
            h.theme_for(true) == "base16-ocean.dark"@,
            h.theme_for(false) == "InspiredGitHub"@,
    {
        SyntectHighlighter {
            ss: load_syntaxes(),
            ts: load_themes(),
            dark_theme: "base16-ocean.dark".to_owned(),
            light_theme: "InspiredGitHub".to_owned(),
        }
    }

    /// The syntaxes the highlighter uses.
    pub closed spec fn syntax_set(self) -> syntect::parsing::SyntaxSet {
        self.ss
    }

    /// The themes the highlighter chooses from.
    pub closed spec fn theme_set(self) -> syntect::highlighting::ThemeSet {
        self.ts
    }

    /// The lines of `source`, a file at `path`, highlighted by the syntax
    /// that the file's extension selects (plain text if none) in the dark or
    /// light theme; unstyled lines when highlighting a line fails.
    pub fn highlight_with_theme(&self, path: &String, source: &str, dark: bool) -> (r: Vec<Vec<StyledSpan>>)
        ensures
            highlighting_of(
                self.syntax_set(),
                self.theme_set(),
                self.theme_for(dark),
                path@,
                source@,
                styled_lines_view(r@),
            ),
            plain_as(styled_lines_view(r@), source@) || highlighted_as(styled_lines_view(r@), source@),
    {
        proof {
            use_type_invariant(self);
        }
        let theme_name = if dark {
            self.dark_theme.as_str()
        } else {
            self.light_theme.as_str()
        };
        let theme = match theme_named(&self.ts, theme_name) {
            Some(t) => t,
            None => return plain_lines(source),
        };
        let ext = file_extension(path.as_str());
        let syntax = match syntax_for_extension(&self.ss, ext) {
            Some(s) => s,
            None => plain_text_syntax(&self.ss),
        };
        assert(*syntax == syntax_for_path(self.ss, path@));
        let mut h = line_highlighter(syntax, theme);
        let ghost h0 = h;
        assert(theme_name@ == self.theme_for(dark));
        assert(h0 == fresh_highlighter(
            syntax_for_path(self.syntax_set(), path@),
            &theme_value(self.theme_set(), self.theme_for(dark)),
        ));
        let lines = split_lines_with_endings(source);
        let ghost ls = lines_with_endings(source@);
        let ghost mut done: Seq<Seq<Token>> = seq![];
        proof {
            assert(ls.skip(0) =~= ls);
            match highlight_run(h, self.ss, ls) {
                None => {},
                Some(more) => {
                    assert(done + more =~= more);
                },
            }
        }
        let mut result: Vec<Vec<StyledSpan>> = Vec::new();
        let n = lines.len();
        for i in 0..n
            invariant
                n == lines@.len(),
                string_views(lines@) == lines_with_endings(source@),
                ls == lines_with_endings(source@),
                h0 == fresh_highlighter(
                    syntax_for_path(self.syntax_set(), path@),
                    &theme_value(self.theme_set(), self.theme_for(dark)),
                ),
                parses_within(h, self.ss),
                result@.len() == i,
                done.len() == i,
                highlight_run(h0, self.ss, ls) == prefixed(done, highlight_run(h, self.ss, ls.skip(i as int))),
                spans_for(done, styled_lines_view(result@)),
                forall|j: int|
                    0 <= j < i ==> spans_text(#[trigger] result@[j]@) == trim_trailing_newlines(
                        lines_with_endings(source@)[j],
                    ),
        {
            let ghost hi = h;
            proof {
                assert(string_views(lines@)[i as int] == lines@[i as int]@);
                assert(ls.skip(i as int)[0] == ls[i as int]);
                assert(ls.skip(i as int).drop_first() =~= ls.skip(i + 1));
            }
            let tokens = match highlight_tokens(&mut h, lines[i].as_str(), &self.ss) {
                Ok(t) => t,
                Err(_) => {
                    assert(highlight_run(hi, self.ss, ls.skip(i as int)) is None);
                    assert(highlight_run(h0, self.ss, ls) is None);
                    return plain_lines(source);
                },
            };
            let spans = spans_of(&tokens);
            proof {
                lemma_prefixed_step(done, tokens@, highlight_run(h, self.ss, ls.skip(i + 1)));
                lemma_lines_with_endings_newlines(source@, i as int);
                lemma_spans_spell_line(tokens@, spans@);
            }
            let ghost before = styled_lines_view(result@);
            result.push(spans);
            proof {
                done = done.push(tokens@);
                assert(styled_lines_view(result@) =~= before.push(spans@));
                assert forall|k: int, j: int|
                    0 <= k < styled_lines_view(result@).len() && 0 <= j < styled_lines_view(result@)[k].len()
                    implies span_of(done[k][j], #[trigger] styled_lines_view(result@)[k][j]) by {
                    if k < i {
                        assert(styled_lines_view(result@)[k] == before[k]);
                    }
                }
            }
        }
        proof {
            assert(ls.skip(n as int) =~= Seq::<Seq<char>>::empty());
            assert(done + seq![] =~= done);
            assert forall|j: int| 0 <= j < result@.len() implies spans_text(
                #[trigger] styled_lines_view(result@)[j],
            ) == trim_trailing_newlines(lines_with_endings(source@)[j]) by {
                assert(styled_lines_view(result@)[j] == result@[j]@);
            }
        }
        result
    }
}

impl crate::ports::Highlighter for SyntectHighlighter {
    /// The dark-theme highlighting (see `highlight_with_theme`).
    fn highlight(&self, path: &String, source: &str) -> (r: Vec<Vec<StyledSpan>>)
        ensures
            highlighting_of(
                self.syntax_set(),
                self.theme_set(),
                self.theme_for(true),
                path@,
                source@,
                styled_lines_view(r@),
            ),
            plain_as(styled_lines_view(r@), source@) || highlighted_as(styled_lines_view(r@), source@),
    {
        self.highlight_with_theme(path, source, true)
    }
}

} // verus!
