//! Text helpers: decimal and hex rendering, line splitting and joining,
//! trimming, all stated over `Seq<char>`.
use vstd::prelude::*;

verus! {

// ---------------------------------------------------------------------------
// std methods of `String` and `str` that vstd leaves unspecified
// ---------------------------------------------------------------------------

/// `String::push`: appends one character.
#[verifier::external_body]
pub(crate) fn push_char(s: &mut String, c: char)
    ensures
        final(s)@ == old(s)@.push(c),
{
    s.push(c)
}

/// `String::pop`: removes and returns the last character, if any.
#[verifier::external_body]
pub(crate) fn pop_char(s: &mut String) -> (r: Option<char>)
    ensures
        old(s)@.len() == 0 ==> r is None && final(s)@ == old(s)@,
        old(s)@.len() > 0 ==> r == Some(old(s)@.last()) && final(s)@ == old(s)@.drop_last(),
{
    s.pop()
}

// ---------------------------------------------------------------------------
// White space and trimming
// ---------------------------------------------------------------------------

/// The characters with the Unicode `White_Space` property.
pub open spec fn is_whitespace(c: char) -> bool {
    ||| ('\u{9}' <= c && c <= '\u{d}')
    ||| c == ' '
    ||| c == '\u{85}'
    ||| c == '\u{a0}'
    ||| c == '\u{1680}'
    ||| ('\u{2000}' <= c && c <= '\u{200a}')
    ||| c == '\u{2028}'
    ||| c == '\u{2029}'
    ||| c == '\u{202f}'
    ||| c == '\u{205f}'
    ||| c == '\u{3000}'
}

/// `s` without its leading white space.
pub open spec fn trim_start(s: Seq<char>) -> Seq<char>
    decreases s.len(),
{
    if s.len() > 0 && is_whitespace(s[0]) {
        trim_start(s.drop_first())
    } else {
        s
    }
}

/// `s` without its trailing white space.
pub open spec fn trim_end(s: Seq<char>) -> Seq<char>
    decreases s.len(),
{
    if s.len() > 0 && is_whitespace(s.last()) {
        trim_end(s.drop_last())
    } else {
        s
    }
}

/// `s` without leading and trailing white space.
pub open spec fn trim(s: Seq<char>) -> Seq<char> {
    trim_end(trim_start(s))
}

/// Whether `c` is white space (see `is_whitespace`).
pub fn is_whitespace_char(c: char) -> (r: bool)
    ensures
        r == is_whitespace(c),
{
    ('\u{9}' <= c && c <= '\u{d}') || c == ' ' || c == '\u{85}' || c == '\u{a0}' || c == '\u{1680}'
        || ('\u{2000}' <= c && c <= '\u{200a}') || c == '\u{2028}' || c == '\u{2029}' || c == '\u{202f}'
        || c == '\u{205f}' || c == '\u{3000}'
}

/// `s` without leading and trailing white space, as `str::trim` gives it.
pub fn trim_str(s: &str) -> (r: &str)
    ensures
        r@ == trim(s@),
{
    let n = s.unicode_len();
    let mut i: usize = 0;
    assert(s@.subrange(0, n as int) =~= s@);
    while i < n && is_whitespace_char(s.get_char(i))
        invariant
            i <= n,
            n == s@.len(),
            trim_start(s@) == trim_start(s@.subrange(i as int, n as int)),
        decreases n - i,
    {
        assert(s@.subrange(i as int, n as int).drop_first() =~= s@.subrange(i + 1, n as int));
        i = i + 1;
    }
    let ghost t = s@.subrange(i as int, n as int);
    assert(trim_start(s@) == t);
    let mut j: usize = n;
    assert(t.subrange(0, (n - i) as int) =~= t);
    while j > i && is_whitespace_char(s.get_char(j - 1))
        invariant
            i <= j <= n,
            n == s@.len(),
            t == s@.subrange(i as int, n as int),
            trim_end(t) == trim_end(s@.subrange(i as int, j as int)),
        decreases j,
    {
        assert(s@.subrange(i as int, j as int).drop_last() =~= s@.subrange(i as int, j - 1));
        j = j - 1;
    }
    let r = s.substring_char(i, j);
    assert(r@ =~= trim(s@));
    r
}

/// `s` without its trailing newline characters (`trim_end_matches('\n')`).
pub open spec fn trim_trailing_newlines(s: Seq<char>) -> Seq<char>
    decreases s.len(),
{
    if s.len() > 0 && s.last() == '\n' {
        trim_trailing_newlines(s.drop_last())
    } else {
        s
    }
}

/// Removes every trailing `'\n'` of `s`.
pub fn strip_trailing_newlines(s: &str) -> (r: String)
    ensures
        r@ == trim_trailing_newlines(s@),
{
    let n = s.unicode_len();
    let mut k: usize = n;
    assert(s@.subrange(0, n as int) =~= s@);
    while k > 0 && s.get_char(k - 1) == '\n'
        invariant
            k <= n,
            n == s@.len(),
            trim_trailing_newlines(s@) == trim_trailing_newlines(s@.subrange(0, k as int)),
        decreases k,
    {
        assert(s@.subrange(0, k as int).drop_last() =~= s@.subrange(0, k - 1));
        k = k - 1;
    }
    let r = s.substring_char(0, k).to_owned();
    r
}

// ---------------------------------------------------------------------------
// Numbers
// ---------------------------------------------------------------------------

/// The decimal digit character for `d < 10`.
pub open spec fn digit_char(d: nat) -> char {
    ((48 + d) as u8) as char
}

/// Decimal rendering of `n`, without leading zeros.
pub open spec fn decimal(n: nat) -> Seq<char>
    decreases n,
{
    if n < 10 {
        seq![digit_char(n)]
    } else {
        decimal(n / 10).push(digit_char(n % 10))
    }
}

/// Appends the decimal rendering of `n` to `s`.
pub fn push_decimal(s: &mut String, n: usize)
    ensures
        final(s)@ == old(s)@ + decimal(n as nat),
    decreases n,
{
    if n >= 10 {
        push_decimal(s, n / 10);
    }
    let d: u8 = (n % 10) as u8;
    push_char(s, (48u8 + d) as char);
    assert(final(s)@ =~= old(s)@ + decimal(n as nat));
}

/// The decimal rendering of `n` as a new string.
pub fn decimal_string(n: usize) -> (r: String)
    ensures
        r@ == decimal(n as nat),
{
    let mut s = String::new();
    push_decimal(&mut s, n);
    assert(s@ =~= decimal(n as nat));
    s
}

/// The lower-case hexadecimal digit for `d < 16`.
pub open spec fn hex_digit(d: nat) -> char {
    if d < 10 {
        ((48 + d) as u8) as char
    } else {
        ((87 + d) as u8) as char
    }
}

/// Two lower-case hexadecimal digits per byte, most significant first.
pub open spec fn hex_lower(bytes: Seq<u8>) -> Seq<char>
    decreases bytes.len(),
{
    if bytes.len() == 0 {
        seq![]
    } else {
        hex_lower(bytes.drop_last()) + seq![
            hex_digit((bytes.last() / 16) as nat),
            hex_digit((bytes.last() % 16) as nat),
        ]
    }
}

fn hex_digit_exec(d: u8) -> (c: char)
    requires
        d < 16,
    ensures
        c == hex_digit(d as nat),
{
    if d < 10 {
        (48u8 + d) as char
    } else {
        (87u8 + d) as char
    }
}

/// Lower-case hexadecimal rendering of `bytes`.
pub fn to_hex_lower(bytes: &Vec<u8>) -> (r: String)
    ensures
        r@ == hex_lower(bytes@),
{
    let mut r = String::new();
    let n = bytes.len();
    for i in 0..n
        invariant
            n == bytes@.len(),
            r@ == hex_lower(bytes@.subrange(0, i as int)),
    {
        let b = bytes[i];
        push_char(&mut r, hex_digit_exec(b / 16));
        push_char(&mut r, hex_digit_exec(b % 16));
        assert(bytes@.subrange(0, i + 1).drop_last() =~= bytes@.subrange(0, i as int));
        assert(r@ =~= hex_lower(bytes@.subrange(0, i + 1)));
    }
    assert(bytes@.subrange(0, n as int) =~= bytes@);
    r
}

// ---------------------------------------------------------------------------
// Lines
// ---------------------------------------------------------------------------

/// A line without the `'\r'` that precedes its `'\n'` terminator.
pub open spec fn strip_cr(line: Seq<char>) -> Seq<char> {
    if line.len() > 0 && line.last() == '\r' {
        line.drop_last()
    } else {
        line
    }
}

/// Scans `s` from the left: the lines already closed by a `'\n'` (without
/// their `"\n"` or `"\r\n"` terminator), and the text after the last `'\n'`.
pub open spec fn scan_lines(s: Seq<char>) -> (Seq<Seq<char>>, Seq<char>)
    decreases s.len(),
{
    if s.len() == 0 {
        (seq![], seq![])
    } else {
        let (done, cur) = scan_lines(s.drop_last());
        if s.last() == '\n' {
            (done.push(strip_cr(cur)), seq![])
        } else {
            (done, cur.push(s.last()))
        }
    }
}

/// The lines of `s` as `str::lines` yields them: split at `"\n"` or `"\r\n"`,
/// terminators removed, and no empty line after a final terminator.
pub open spec fn lines(s: Seq<char>) -> Seq<Seq<char>> {
    let (done, cur) = scan_lines(s);
    if cur.len() == 0 {
        done
    } else {
        done.push(cur)
    }
}

/// The views of a vector of strings.
pub open spec fn string_views(v: Seq<String>) -> Seq<Seq<char>> {
    v.map_values(|x: String| x@)
}

/// Splits `s` into its lines, as `s.lines().map(str::to_string).collect()`.
pub fn split_lines(s: &str) -> (r: Vec<String>)
    ensures
        string_views(r@) == lines(s@),
{
    let mut done: Vec<String> = Vec::new();
    let mut cur = String::new();
    let mut ends_cr = false;
    let ghost mut seen: Seq<char> = seq![];
    for c in it: s.chars()
        invariant
            it.seq() == s@,
            seen == s@.take(it.index@),
            (string_views(done@), cur@) == scan_lines(seen),
            ends_cr == (cur@.len() > 0 && cur@.last() == '\r'),
    {
        proof {
            assert(s@.take(it.index@ + 1).drop_last() =~= seen);
            seen = s@.take(it.index@ + 1);
        }
        if c == '\n' {
            let mut line = cur;
            if ends_cr {
                pop_char(&mut line);
            }
            done.push(line);
            cur = String::new();
            ends_cr = false;
            assert(string_views(done@) =~= scan_lines(seen).0);
        } else {
            push_char(&mut cur, c);
            ends_cr = c == '\r';
        }
    }
    assert(s@.take(s@.len() as int) =~= s@);
    if cur.as_str().unicode_len() > 0 {
        done.push(cur);
        assert(string_views(done@) =~= lines(s@));
    }
    done
}

proof fn lemma_scan_lines_len(s: Seq<char>)
    ensures
        scan_lines(s).0.len() + scan_lines(s).1.len() <= s.len(),
    decreases s.len(),
{
    if s.len() > 0 {
        lemma_scan_lines_len(s.drop_last());
    }
}

/// The number of lines of `s`, as `s.lines().count()`.
pub fn line_count(s: &str) -> (n: usize)
    ensures
        n == lines(s@).len(),
{
    let total = s.unicode_len();
    let mut closed: usize = 0;
    let mut pending = false;
    let ghost mut seen: Seq<char> = seq![];
    for c in it: s.chars()
        invariant
            it.seq() == s@,
            seen == s@.take(it.index@),
            closed == scan_lines(seen).0.len(),
            pending == (scan_lines(seen).1.len() > 0),
            total == s@.len(),
    {
        proof {
            assert(s@.take(it.index@ + 1).drop_last() =~= seen);
            seen = s@.take(it.index@ + 1);
            lemma_scan_lines_len(seen);
        }
        if c == '\n' {
            closed = closed + 1;
            pending = false;
        } else {
            pending = true;
        }
    }
    assert(s@.take(s@.len() as int) =~= s@);
    proof {
        lemma_scan_lines_len(s@);
    }
    if pending {
        closed + 1
    } else {
        closed
    }
}

/// The strings of `parts` with `sep` between neighbours (`[T]::join`).
pub open spec fn join(parts: Seq<Seq<char>>, sep: Seq<char>) -> Seq<char>
    decreases parts.len(),
{
    if parts.len() == 0 {
        seq![]
    } else if parts.len() == 1 {
        parts[0]
    } else {
        join(parts.drop_last(), sep) + sep + parts.last()
    }
}

/// Joins `parts[start..end]` with `"\n"` between neighbours.
pub fn join_lines(parts: &Vec<String>, start: usize, end: usize) -> (r: String)
    requires
        start <= end <= parts@.len(),
    ensures
        r@ == join(string_views(parts@.subrange(start as int, end as int)), seq!['\n']),
{
    let mut r = String::new();
    let mut i = start;
    while i < end
        invariant
            start <= i <= end <= parts@.len(),
            r@ == join(string_views(parts@.subrange(start as int, i as int)), seq!['\n']),
        decreases end - i,
    {
        let ghost before = string_views(parts@.subrange(start as int, i as int));
        if i > start {
            push_char(&mut r, '\n');
        }
        r.append(parts[i].as_str());
        proof {
            let after = string_views(parts@.subrange(start as int, i + 1));
            assert(after.drop_last() =~= before);
            assert(after.last() == parts@[i as int]@);
            if i == start {
                assert(after.len() == 1);
            }
        }
        i = i + 1;
    }
    r
}

// ---------------------------------------------------------------------------
// Paths
// ---------------------------------------------------------------------------

/// `comps` with the name `cur` added, unless it is empty or `.`.
pub open spec fn with_name(comps: Seq<Seq<char>>, cur: Seq<char>) -> Seq<Seq<char>> {
    if cur.len() == 0 || cur == seq!['.'] {
        comps
    } else {
        comps.push(cur)
    }
}

/// Scans a path from the left: the names already ended by a `'/'`, and the
/// text after the last `'/'`.
pub open spec fn scan_names(p: Seq<char>) -> (Seq<Seq<char>>, Seq<char>)
    decreases p.len(),
{
    if p.len() == 0 {
        (seq![], seq![])
    } else {
        let (done, cur) = scan_names(p.drop_last());
        if p.last() == '/' {
            (with_name(done, cur), seq![])
        } else {
            (done, cur.push(p.last()))
        }
    }
}

/// The components of a path, as `std::path::Path` reads them: the root
/// (`/`) or a leading current directory (`.`), then the names between the
/// `'/'`s, where empty names and other `.` names are left out.
pub open spec fn path_components(p: Seq<char>) -> Seq<Seq<char>> {
    let (done, cur) = scan_names(p);
    let lead: Seq<Seq<char>> = if p.len() > 0 && p[0] == '/' {
        seq![seq!['/']]
    } else if p.len() > 0 && p[0] == '.' && (p.len() == 1 || p[1] == '/') {
        seq![seq!['.']]
    } else {
        seq![]
    };
    lead + with_name(done, cur)
}

/// Whether two paths name the same file, as `Path`'s `==` decides: by their
/// components.
pub open spec fn same_path(a: Seq<char>, b: Seq<char>) -> bool {
    path_components(a) == path_components(b)
}

fn push_name(comps: &mut Vec<String>, cur: String)
    ensures
        string_views(final(comps)@) == with_name(string_views(old(comps)@), cur@),
{
    let n = cur.as_str().unicode_len();
    let dot = n == 1 && cur.as_str().get_char(0) == '.';
    proof {
        if cur@ =~= seq!['.'] {
            assert(dot);
        }
        if dot {
            assert(cur@ =~= seq!['.']);
        }
    }
    if n != 0 && !dot {
        let ghost before = comps@;
        comps.push(cur);
        assert(string_views(comps@) =~= string_views(before).push(cur@));
    }
}

/// The components of `p` (see `path_components`).
pub fn components_of(p: &str) -> (r: Vec<String>)
    ensures
        string_views(r@) == path_components(p@),
{
    let mut lead: Vec<String> = Vec::new();
    let len = p.unicode_len();
    if len > 0 && p.get_char(0) == '/' {
        let name = "/".to_owned();
        proof {
            reveal_strlit("/");
        }
        assert(name@ =~= seq!['/']);
        lead.push(name);
        assert(string_views(lead@)[0] == lead@[0]@);
        assert(string_views(lead@) =~= seq![seq!['/']]);
    } else if len > 0 && p.get_char(0) == '.' && (len == 1 || p.get_char(1) == '/') {
        let name = ".".to_owned();
        proof {
            reveal_strlit(".");
        }
        assert(name@ =~= seq!['.']);
        lead.push(name);
        assert(string_views(lead@)[0] == lead@[0]@);
        assert(string_views(lead@) =~= seq![seq!['.']]);
    } else {
        assert(string_views(lead@) =~= Seq::<Seq<char>>::empty());
    }
    let mut done = lead;
    let ghost lead_view = string_views(done@);
    let mut cur = String::new();
    let ghost mut seen: Seq<char> = seq![];
    for c in it: p.chars()
        invariant
            it.seq() == p@,
            seen == p@.take(it.index@),
            string_views(done@) == lead_view + scan_names(seen).0,
            cur@ == scan_names(seen).1,
    {
        proof {
            assert(p@.take(it.index@ + 1).drop_last() =~= seen);
            seen = p@.take(it.index@ + 1);
        }
        if c == '/' {
            let mut taken = String::new();
            std::mem::swap(&mut taken, &mut cur);
            push_name(&mut done, taken);
            proof {
                let (sd, sc) = scan_names(seen.drop_last());
                if sc.len() == 0 || sc == seq!['.'] {
                } else {
                    assert(lead_view + sd.push(sc) =~= (lead_view + sd).push(sc));
                }
            }
        } else {
            push_char(&mut cur, c);
        }
    }
    assert(p@.take(p@.len() as int) =~= p@);
    push_name(&mut done, cur);
    proof {
        let (sd, sc) = scan_names(p@);
        if sc.len() == 0 || sc == seq!['.'] {
        } else {
            assert(lead_view + sd.push(sc) =~= (lead_view + sd).push(sc));
        }
    }
    done
}

/// Whether the paths `a` and `b` name the same file (see `same_path`).
pub fn paths_equal(a: &String, b: &String) -> (r: bool)
    ensures
        r == same_path(a@, b@),
{
    let ca = components_of(a.as_str());
    let cb = components_of(b.as_str());
    assert(string_views(ca@).len() == ca@.len() && string_views(cb@).len() == cb@.len());
    if ca.len() != cb.len() {
        return false;
    }
    let n = ca.len();
    for i in 0..n
        invariant
            n == ca@.len(),
            n == cb@.len(),
            string_views(ca@) == path_components(a@),
            string_views(cb@) == path_components(b@),
            forall|j: int| 0 <= j < i ==> ca@[j]@ == cb@[j]@,
    {
        assert(string_views(ca@)[i as int] == ca@[i as int]@);
        assert(string_views(cb@)[i as int] == cb@[i as int]@);
        if ca[i] != cb[i] {
            return false;
        }
    }
    assert(string_views(ca@) =~= string_views(cb@)) by {
        assert forall|j: int| 0 <= j < n implies string_views(ca@)[j] == string_views(cb@)[j] by {
            assert(string_views(ca@)[j] == ca@[j]@);
            assert(string_views(cb@)[j] == cb@[j]@);
        }
    }
    true
}

} // verus!
