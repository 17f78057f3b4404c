//! Assembling a repository diff into files, hunks and lines, merging the
//! staged and unstaged diffs of the working tree, and the baseline list.
use vstd::prelude::*;

use crate::domain::{
    Baseline,
    files_view, keeps_old_path, delta_to_status, opt_view, status_of_delta, Delta, DiffFile,
    DiffFileView, DiffLine, DiffLineKind, DiffLineView, Hunk, HunkView,
};
use crate::text::{strip_trailing_newlines, trim_trailing_newlines};

verus! {

/// Whether `i` is the first index of `files` whose path is `path`.
pub open spec fn is_first_with_path(files: Seq<DiffFileView>, path: Seq<char>, i: int) -> bool {
    &&& 0 <= i < files.len()
    &&& files[i].path == path
    &&& forall|j: int| 0 <= j < i ==> files[j].path != path
}

/// Whether some file of `files` has the path `path`.
pub open spec fn has_path(files: Seq<DiffFileView>, path: Seq<char>) -> bool {
    exists|i: int| 0 <= i < files.len() && files[i].path == path
}

/// The index of the first file of `files` with the path `path`.
pub open spec fn first_with_path(files: Seq<DiffFileView>, path: Seq<char>) -> Option<int> {
    if has_path(files, path) {
        Some(choose|i: int| is_first_with_path(files, path, i))
    } else {
        None
    }
}

proof fn lemma_first_with_path(files: Seq<DiffFileView>, path: Seq<char>, i: int)
    requires
        is_first_with_path(files, path, i),
    ensures
        first_with_path(files, path) == Some(i),
{
    let k = choose|k: int| is_first_with_path(files, path, k);
    assert(is_first_with_path(files, path, k));
    if k < i {
        assert(files[k].path != path);
    }
    if i < k {
        assert(files[i].path != path);
    }
}

/// Finds the first file with the given path.
fn find_file(files: &Vec<DiffFile>, path: &String) -> (r: Option<usize>)
    ensures
        r matches Some(i) ==> is_first_with_path(files_view(files@), path@, i as int),
        r matches Some(i) ==> first_with_path(files_view(files@), path@) == Some(i as int),
        r is None ==> first_with_path(files_view(files@), path@) is None,
{
    let n = files.len();
    for i in 0..n
        invariant
            n == files@.len(),
            forall|j: int| 0 <= j < i ==> files_view(files@)[j].path != path@,
    {
        if files[i].path == *path {
            proof {
                lemma_first_with_path(files_view(files@), path@, i as int);
            }
            return Some(i);
        }
    }
    None
}

/// The kind of a diff line from its origin marker.
pub open spec fn kind_of_origin(origin: char) -> DiffLineKind {
    if origin == '+' {
        DiffLineKind::Added
    } else if origin == '-' {
        DiffLineKind::Removed
    } else {
        DiffLineKind::Context
    }
}

/// A file as it is first reported: no hunks yet; the old path only kept for
/// renames and copies.
pub open spec fn new_file_view(path: Seq<char>, old_path: Option<Seq<char>>, delta: Delta) -> DiffFileView {
    DiffFileView {
        path,
        old_path: if delta == Delta::Renamed || delta == Delta::Copied {
            old_path
        } else {
            None
        },
        status: status_of_delta(delta),
        hunks: seq![],
    }
}

/// `file` with an empty hunk headed `header` appended.
pub open spec fn with_new_hunk(file: DiffFileView, header: Seq<char>) -> DiffFileView {
    DiffFileView { hunks: file.hunks.push(HunkView { header, lines: seq![] }), ..file }
}

/// `file` with `line` appended to its last hunk; a file without hunks first
/// gets one with an empty header.
pub open spec fn with_new_line(file: DiffFileView, line: DiffLineView) -> DiffFileView {
    let hunks = if file.hunks.len() == 0 {
        seq![HunkView { header: seq![], lines: seq![] }]
    } else {
        file.hunks
    };
    let last = hunks.last();
    DiffFileView {
        hunks: hunks.update(hunks.len() - 1, HunkView { lines: last.lines.push(line), ..last }),
        ..file
    }
}

/// Builds the changed files of a diff from the file, hunk and line events
/// that a diff walk reports, in order.
pub struct DiffBuilder {
    files: Vec<DiffFile>,
}

impl View for DiffBuilder {
    type V = Seq<DiffFileView>;

    closed spec fn view(&self) -> Seq<DiffFileView> {
        files_view(self.files@)
    }
}

impl DiffBuilder {
    /// A builder with no files yet.
    pub fn new() -> (b: DiffBuilder)
        ensures
            b@ == Seq::<DiffFileView>::empty(),
    {
        let b = DiffBuilder { files: Vec::new() };
        assert(b@ =~= Seq::<DiffFileView>::empty());
        b
    }

    /// A file is reported: it is appended with no hunks.
    pub fn on_file(&mut self, path: String, old_path: Option<String>, delta: Delta)
        ensures
            final(self)@ == old(self)@.push(new_file_view(path@, opt_view(old_path), delta)),
    {
        let old_path = if keeps_old_path(delta) {
            old_path
        } else {
            None
        };
        let file = DiffFile {
            path,
            old_path,
            status: delta_to_status(delta),
            hunks: Vec::new(),
        };
        proof {
            assert(file@.hunks =~= Seq::<HunkView>::empty());
        }
        self.files.push(file);
        proof {
            assert(files_view(self.files@) =~= files_view(old(self).files@).push(file@));
        }
    }

    /// A hunk is reported for the file at `path`: the first file with that
    /// path gets a new empty hunk; without such a file nothing changes.
    pub fn on_hunk(&mut self, path: &String, header: String)
        ensures
            match first_with_path(old(self)@, path@) {
                Some(i) => final(self)@ == old(self)@.update(i, with_new_hunk(old(self)@[i], header@)),
                None => final(self)@ == old(self)@,
            },
    {
        match find_file(&self.files, path) {
            Some(i) => {
                let mut file = self.files.remove(i);
                let ghost before = file@;
                let hunk = Hunk { header, lines: Vec::new() };
                proof {
                    assert(hunk@.lines =~= Seq::<DiffLineView>::empty());
                }
                file.hunks.push(hunk);
                proof {
                    assert(file@.hunks =~= before.hunks.push(hunk@));
                }
                self.files.insert(i, file);
                proof {
                    assert(files_view(self.files@) =~= files_view(old(self).files@).update(
                        i as int,
                        with_new_hunk(before, header@),
                    ));
                }
            },
            None => {},
        }
    }

    /// A line is reported for the file at `path`: its kind comes from
    /// `origin`, its content is `content` without trailing newlines, and it is
    /// appended to the last hunk of the first file with that path.
    pub fn on_line(
        &mut self,
        path: &String,
        origin: char,
        old_lineno: Option<u32>,
        new_lineno: Option<u32>,
        content: &str,
    )
        ensures
            ({
                let line = DiffLineView {
                    kind: kind_of_origin(origin),
                    old_lineno,
                    new_lineno,
                    content: trim_trailing_newlines(content@),
                };
                match first_with_path(old(self)@, path@) {
                    Some(i) => final(self)@ == old(self)@.update(i, with_new_line(old(self)@[i], line)),
                    None => final(self)@ == old(self)@,
                }
            }),
    {
        let kind = if origin == '+' {
            DiffLineKind::Added
        } else if origin == '-' {
            DiffLineKind::Removed
        } else {
            DiffLineKind::Context
        };
        let line = DiffLine { kind, old_lineno, new_lineno, content: strip_trailing_newlines(content) };
        match find_file(&self.files, path) {
            Some(i) => {
                let mut file = self.files.remove(i);
                let ghost before = file@;
                if file.hunks.len() == 0 {
                    let empty = Hunk { header: String::new(), lines: Vec::new() };
                    proof {
                        assert(empty@.lines =~= Seq::<DiffLineView>::empty());
                        assert(empty@.header =~= Seq::<char>::empty());
                    }
                    file.hunks.push(empty);
                }
                let ghost padded = file@.hunks;
                proof {
                    assert(padded =~= if before.hunks.len() == 0 {
                        seq![HunkView { header: seq![], lines: seq![] }]
                    } else {
                        before.hunks
                    });
                }
                let mut last = file.hunks.pop().unwrap();
                let ghost last_before = last@;
                last.lines.push(line);
                proof {
                    assert(last@.lines =~= last_before.lines.push(line@));
                }
                file.hunks.push(last);
                proof {
                    assert(file@.hunks =~= padded.update(
                        padded.len() - 1,
                        HunkView { lines: last_before.lines.push(line@), ..last_before },
                    ));
                    assert(file@ == with_new_line(before, line@));
                }
                self.files.insert(i, file);
                proof {
                    assert(files_view(self.files@) =~= files_view(old(self).files@).update(
                        i as int,
                        with_new_line(before, line@),
                    ));
                }
            },
            None => {},
        }
    }

    /// The files built so far.
    pub fn finish(self) -> (r: Vec<DiffFile>)
        ensures
            files_view(r@) == self@,
    {
        self.files
    }
}

/// The working-tree files: the staged files, then each unstaged file whose
/// path is not listed yet.
pub open spec fn merge_files(files: Seq<DiffFileView>, extra: Seq<DiffFileView>) -> Seq<DiffFileView>
    decreases extra.len(),
{
    if extra.len() == 0 {
        files
    } else {
        let acc = merge_files(files, extra.drop_last());
        if has_path(acc, extra.last().path) {
            acc
        } else {
            acc.push(extra.last())
        }
    }
}

/// Merges the staged and the unstaged diff of the working tree: a file
/// changed in both is shown once, as staged.
pub fn merge_diff_files(staged: Vec<DiffFile>, unstaged: Vec<DiffFile>) -> (r: Vec<DiffFile>)
    ensures
        files_view(r@) == merge_files(files_view(staged@), files_view(unstaged@)),
{
    let ghost extra = files_view(unstaged@);
    let mut files = staged;
    let ghost first = files_view(files@);
    for uf in it: unstaged
        invariant
            it.seq() == unstaged@,
            extra == files_view(unstaged@),
            files_view(files@) == merge_files(first, extra.take(it.index@)),
    {
        let ghost before = files_view(files@);
        proof {
            assert(extra.take(it.index@ + 1).drop_last() =~= extra.take(it.index@));
            assert(extra.take(it.index@ + 1).last() == uf@);
        }
        if find_file(&files, &uf.path).is_none() {
            files.push(uf);
            proof {
                assert(files_view(files@) =~= before.push(uf@));
            }
        } else {
            proof {
                let i = choose|i: int| is_first_with_path(before, uf@.path, i);
                assert(before[i].path == uf@.path);
            }
        }
    }
    proof {
        assert(extra.take(extra.len() as int) =~= extra);
    }
    files
}

/// How many commits the baseline picker lists at most.
pub const LOG_LIMIT: usize = 200;

/// The baselines offered: the working tree first, then the commits (id and
/// summary, newest first) up to `LOG_LIMIT` of them.
pub fn baselines_from_log(commits: Vec<(String, String)>) -> (r: Vec<Baseline>)
    ensures
        r@.len() == 1 + if commits@.len() < LOG_LIMIT { commits@.len() as int } else { LOG_LIMIT as int },
        r@[0] == Baseline::WorkingTree,
        forall|i: int|
            0 <= i < r@.len() - 1 ==> #[trigger] r@[i + 1] == (Baseline::Commit {
                oid: commits@[i].0,
                summary: commits@[i].1,
            }),
{
    let mut r: Vec<Baseline> = Vec::new();
    r.push(Baseline::WorkingTree);
    for c in it: commits
        invariant
            it.seq() == commits@,
            r@.len() == 1 + if it.index@ < LOG_LIMIT { it.index@ } else { LOG_LIMIT as int },
            r@[0] == Baseline::WorkingTree,
            forall|i: int|
                0 <= i < r@.len() - 1 ==> #[trigger] r@[i + 1] == (Baseline::Commit {
                    oid: commits@[i].0,
                    summary: commits@[i].1,
                }),
    {
        if r.len() <= LOG_LIMIT {
            let (oid, summary) = c;
            r.push(Baseline::Commit { oid, summary });
        }
    }
    r
}

} // verus!
