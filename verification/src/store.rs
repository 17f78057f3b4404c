//! Where comments are kept, and the anchor that tells whether the code
//! around a commented line has changed since the comment was saved.
use sha2::Digest;
use vstd::prelude::*;

use crate::text::{hex_lower, join, join_lines, string_views, to_hex_lower};

verus! {

/// The SHA-256 digest of `data`.
pub uninterp spec fn sha256(data: Seq<u8>) -> Seq<u8>;

/// `sha2::Sha256::digest`: the 32-byte SHA-256 digest of `data`.
#[verifier::external_body]
fn sha256_digest(data: &[u8]) -> (r: Vec<u8>)
    ensures
        r@ == sha256(data@),
        r@.len() == 32,
{
    sha2::Sha256::digest(data).to_vec()
}

/// End (exclusive) of the context window around the 1-based line
/// `line_no` in a file of `len` lines: ten lines after the line, or the end
/// of the file.
pub open spec fn window_end(len: int, line_no: int) -> int {
    if line_no + 10 <= len {
        line_no + 10
    } else {
        len
    }
}

/// First index of the context window: ten lines before the line
/// (`line_no - 10` counted from one), or the start of the file; never past
/// the window's end, so that a line beyond the end of a shrunk (or missing)
/// file has an empty context.
pub open spec fn window_start(len: int, line_no: int) -> int {
    let s = if line_no >= 11 {
        line_no - 11
    } else {
        0
    };
    if s <= window_end(len, line_no) {
        s
    } else {
        window_end(len, line_no)
    }
}

/// The bounds of the context window around `line_no` in a file of `len`
/// lines.
pub fn window_bounds(len: usize, line_no: usize) -> (r: (usize, usize))
    ensures
        r.0 == window_start(len as int, line_no as int),
        r.1 == window_end(len as int, line_no as int),
{
    let end = if len >= 10 && line_no <= len - 10 {
        line_no + 10
    } else {
        len
    };
    let s = line_no.saturating_sub(11);
    let start = if s <= end {
        s
    } else {
        end
    };
    (start, end)
}

/// The context lines around `line_no`.
pub open spec fn window(lines: Seq<Seq<char>>, line_no: int) -> Seq<Seq<char>> {
    lines.subrange(window_start(lines.len() as int, line_no), window_end(lines.len() as int, line_no))
}

/// The anchor of a comment on `line_no`: the lower-case hex SHA-256 of the
/// UTF-8 bytes of its context lines joined by `'\n'`.
pub open spec fn anchor_of(lines: Seq<Seq<char>>, line_no: int) -> Seq<char> {
    hex_lower(sha256(vstd::utf8::encode_utf8(join(window(lines, line_no), seq!['\n']))))
}

/// The file in which comments are stored, as JSON.
pub struct JsonCommentStore {
    path: String,
}

impl JsonCommentStore {
    /// A store that keeps its comments at `path`.
    pub fn at(path: String) -> (s: JsonCommentStore)
        ensures
            s.path_view() == path@,
    {
        JsonCommentStore { path }
    }

    /// The path of the comments file.
    pub closed spec fn path_view(&self) -> Seq<char> {
        self.path@
    }

    /// The path of the comments file.
    pub fn path(&self) -> (r: &String)
        ensures
            r@ == self.path_view(),
    {
        &self.path
    }

    /// SHA-256 (lower-case hex) of ±10 lines of context around the 1-based
    /// line `line_no` (of no lines where the file ends before them).
    pub fn anchor_hash(lines: &Vec<String>, line_no: usize) -> (r: String)
        ensures
            r@ == anchor_of(string_views(lines@), line_no as int),
    {
        let (start, end) = window_bounds(lines.len(), line_no);
        let context = join_lines(lines, start, end);
        let digest = sha256_digest(context.as_str().as_bytes());
        proof {
            assert(string_views(lines@.subrange(start as int, end as int))
                =~= window(string_views(lines@), line_no as int));
        }
        to_hex_lower(&digest)
    }
}

} // verus!
