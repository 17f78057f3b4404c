//! The data the viewer works on: changed files, hunks, diff lines,
//! baselines to compare against, and comments on the code.
use vstd::prelude::*;
use vstd::utf8::*;

verus! {

/// How a file changed relative to the baseline.
#[derive(Debug, Clone, Copy, PartialEq, Eq, Structural)]
pub enum FileStatus {
    Modified,
    Added,
    Deleted,
    Renamed,
}

impl FileStatus {
    /// The short marker shown before a file name in the file list.
    pub fn badge(&self) -> (r: &'static str)
        ensures
            r@ == (match *self {
                FileStatus::Modified => "M"@,
                FileStatus::Added => "A"@,
                FileStatus::Deleted => "D"@,
                FileStatus::Renamed => "MV"@,
            }),
    {
        match self {
            FileStatus::Modified => "M",
            FileStatus::Added => "A",
            FileStatus::Deleted => "D",
            FileStatus::Renamed => "MV",
        }
    }
}

/// The kind of change that a delta of a repository diff records
/// (one variant per kind that git reports).
#[derive(Debug, Clone, Copy, PartialEq, Eq, Structural)]
pub enum Delta {
    Unmodified,
    Added,
    Deleted,
    Modified,
    Renamed,
    Copied,
    Ignored,
    Untracked,
    Typechange,
    Unreadable,
    Conflicted,
}

/// The file status shown for a delta.
pub open spec fn status_of_delta(delta: Delta) -> FileStatus {
    match delta {
        Delta::Added | Delta::Untracked => FileStatus::Added,
        Delta::Deleted => FileStatus::Deleted,
        Delta::Renamed | Delta::Copied => FileStatus::Renamed,
        _ => FileStatus::Modified,
    }
}

/// Maps a delta to the file status shown for it.
pub fn delta_to_status(delta: Delta) -> (r: FileStatus)
    ensures
        r == status_of_delta(delta),
{
    match delta {
        Delta::Added | Delta::Untracked => FileStatus::Added,
        Delta::Deleted => FileStatus::Deleted,
        Delta::Renamed | Delta::Copied => FileStatus::Renamed,
        _ => FileStatus::Modified,
    }
}

/// Whether a delta of this kind keeps the path the file had before.
pub fn keeps_old_path(delta: Delta) -> (r: bool)
    ensures
        r == (delta == Delta::Renamed || delta == Delta::Copied),
{
    match delta {
        Delta::Renamed | Delta::Copied => true,
        _ => false,
    }
}

/// Whether a line was added, removed, or is unchanged context.
#[derive(Debug, Clone, Copy, PartialEq, Eq, Structural)]
pub enum DiffLineKind {
    Added,
    Removed,
    Context,
}

impl DiffLineKind {
    /// The one-character marker printed before the line.
    pub fn prefix(&self) -> (r: &'static str)
        ensures
            r@ == (match *self {
                DiffLineKind::Added => "+"@,
                DiffLineKind::Removed => "-"@,
                DiffLineKind::Context => " "@,
            }),
    {
        match self {
            DiffLineKind::Added => "+",
            DiffLineKind::Removed => "-",
            DiffLineKind::Context => " ",
        }
    }

    /// Whether the line belongs to the old side of a split view.
    pub fn on_old_side(&self) -> (r: bool)
        ensures
            r == (*self != DiffLineKind::Added),
    {
        !matches!(self, DiffLineKind::Added)
    }

    /// Whether the line belongs to the new side of a split view.
    pub fn on_new_side(&self) -> (r: bool)
        ensures
            r == (*self != DiffLineKind::Removed),
    {
        !matches!(self, DiffLineKind::Removed)
    }
}

/// One line of a hunk.
#[derive(Debug, Clone)]
pub struct DiffLine {
    pub kind: DiffLineKind,
    pub old_lineno: Option<u32>,
    pub new_lineno: Option<u32>,
    pub content: String,
}

/// A diff line as plain values.
pub struct DiffLineView {
    pub kind: DiffLineKind,
    pub old_lineno: Option<u32>,
    pub new_lineno: Option<u32>,
    pub content: Seq<char>,
}

impl View for DiffLine {
    type V = DiffLineView;

    open spec fn view(&self) -> DiffLineView {
        DiffLineView {
            kind: self.kind,
            old_lineno: self.old_lineno,
            new_lineno: self.new_lineno,
            content: self.content@,
        }
    }
}

/// A hunk: its header and its lines.
#[derive(Debug, Clone)]
pub struct Hunk {
    pub header: String,
    pub lines: Vec<DiffLine>,
}

/// A hunk as plain values.
pub struct HunkView {
    pub header: Seq<char>,
    pub lines: Seq<DiffLineView>,
}

impl View for Hunk {
    type V = HunkView;

    open spec fn view(&self) -> HunkView {
        HunkView { header: self.header@, lines: self.lines@.map_values(|l: DiffLine| l@) }
    }
}

/// A changed file with its hunks. Paths are relative to the repository root.
#[derive(Debug, Clone)]
pub struct DiffFile {
    pub path: String,
    pub old_path: Option<String>,
    pub status: FileStatus,
    pub hunks: Vec<Hunk>,
}

/// A changed file as plain values.
pub struct DiffFileView {
    pub path: Seq<char>,
    pub old_path: Option<Seq<char>>,
    pub status: FileStatus,
    pub hunks: Seq<HunkView>,
}

/// The view of an optional string.
pub open spec fn opt_view(s: Option<String>) -> Option<Seq<char>> {
    match s {
        Some(s) => Some(s@),
        None => None,
    }
}

impl View for DiffFile {
    type V = DiffFileView;

    open spec fn view(&self) -> DiffFileView {
        DiffFileView {
            path: self.path@,
            old_path: opt_view(self.old_path),
            status: self.status,
            hunks: self.hunks@.map_values(|h: Hunk| h@),
        }
    }
}

/// The views of a sequence of files.
pub open spec fn files_view(files: Seq<DiffFile>) -> Seq<DiffFileView> {
    files.map_values(|f: DiffFile| f@)
}

/// All lines of a file, hunk after hunk.
pub open spec fn flat_lines(hunks: Seq<HunkView>) -> Seq<DiffLineView>
    decreases hunks.len(),
{
    if hunks.len() == 0 {
        seq![]
    } else {
        flat_lines(hunks.drop_last()) + hunks.last().lines
    }
}

/// What the changes are shown against.
#[derive(Debug, Clone, PartialEq, Eq)]
pub enum Baseline {
    WorkingTree,
    Commit { oid: String, summary: String },
}

/// The characters that the first seven bytes of the UTF-8 encoding of `s` encode.
pub open spec fn short_oid(s: Seq<char>) -> Seq<char> {
    decode_utf8(encode_utf8(s).subrange(0, 7))
}

/// Whether seven bytes into the UTF-8 encoding of `s` is a character boundary
/// (so that the first seven bytes can be sliced off).
pub open spec fn has_short_oid(s: Seq<char>) -> bool {
    is_char_boundary(encode_utf8(s), 7)
}

/// The label of a baseline in the baseline picker.
pub open spec fn baseline_label(b: Baseline) -> Seq<char> {
    match b {
        Baseline::WorkingTree => "Working Tree (staged + unstaged)"@,
        Baseline::Commit { oid, summary } => short_oid(oid@) + " "@ + summary@,
    }
}

impl Baseline {
    /// The label shown in the baseline picker: the working tree, or the
    /// first seven bytes of the commit id, a space and the summary.
    pub fn label(&self) -> (r: String)
        requires
            self matches Baseline::Commit { oid, .. } ==> has_short_oid(oid@),
        ensures
            r@ == baseline_label(*self),
    {
        match self {
            Baseline::WorkingTree => "Working Tree (staged + unstaged)".to_owned(),
            Baseline::Commit { oid, summary } => {
                let (head, _) = oid.as_str().split_at(7);
                proof {
                    broadcast use encode_utf8_decode_utf8;
                    assert(decode_utf8(encode_utf8(head@)) == head@);
                }
                let mut r = head.to_owned();
                r.append(" ");
                r.append(summary.as_str());
                r
            },
        }
    }
}

/// A point in time: whole seconds since the Unix epoch and the nanoseconds
/// after them (above 999_999_999 only during a leap second).
#[derive(Debug, Clone, Copy, PartialEq, Eq, Structural)]
pub struct Timestamp {
    pub secs: i64,
    pub nanos: u32,
}

/// `uuid::Uuid::new_v4`, taken as its 128-bit value: random, with the
/// version bits set to 4 and the variant bits to RFC 4122.
#[verifier::external_body]
fn fresh_comment_id() -> (r: u128)
    ensures
        r & 0x0000_0000_0000_F000_C000_0000_0000_0000u128 == 0x0000_0000_0000_4000_8000_0000_0000_0000u128,
{
    uuid::Uuid::new_v4().as_u128()
}

/// `chrono::Utc::now`, taken as seconds and sub-second nanoseconds.
/// Nothing is claimed of the instant itself; the nanoseconds stay below
/// two seconds' worth, as chrono documents for leap seconds.
#[verifier::external_body]
pub(crate) fn utc_now() -> (r: Timestamp)
    ensures
        r.nanos < 2_000_000_000,
{
    let now = chrono::Utc::now();
    Timestamp { secs: now.timestamp(), nanos: now.timestamp_subsec_nanos() }
}

/// A comment on one line of a file.
#[derive(Debug)]
pub struct Comment {
    /// The comment's identity: a random (version 4) UUID as a 128-bit value.
    pub id: u128,
    pub file: String,
    /// 1-based line number in the new file at time of creation
    pub line_no: usize,
    /// SHA-256 hex of ±10 lines of context at save time
    pub anchor_hash: String,
    pub text: String,
    pub created_at: Timestamp,
    pub updated_at: Timestamp,
    pub stale: bool,
}

impl Clone for Comment {
    fn clone(&self) -> (r: Comment)
        ensures
            r == *self,
    {
        Comment {
            id: self.id,
            file: self.file.clone(),
            line_no: self.line_no,
            anchor_hash: self.anchor_hash.clone(),
            text: self.text.clone(),
            created_at: self.created_at,
            updated_at: self.updated_at,
            stale: self.stale,
        }
    }
}

impl Comment {
    /// A fresh, not stale comment with a new random id, created and updated now.
    pub fn new(file: String, line_no: usize, anchor_hash: String, text: String) -> (c: Comment)
        ensures
            c.file == file,
            c.line_no == line_no,
            c.anchor_hash == anchor_hash,
            c.text == text,
            c.created_at == c.updated_at,
            c.created_at.nanos < 2_000_000_000,
            !c.stale,
            c.id & 0x0000_0000_0000_F000_C000_0000_0000_0000u128 == 0x0000_0000_0000_4000_8000_0000_0000_0000u128,
    {
        let now = utc_now();
        Comment {
            id: fresh_comment_id(),
            file,
            line_no,
            anchor_hash,
            text,
            created_at: now,
            updated_at: now,
            stale: false,
        }
    }
}

} // verus!
