//! The services the viewer relies on: a git repository and a comment store.
//! Their implementations live outside the library. What they answer is up
//! to them: each service names, by an abstract relation of its own, which
//! answers it may give to which request, and each request's answer is one
//! of those. An implementation that defines no relation admits any answer.
use vstd::prelude::*;

use crate::domain::{Baseline, Comment, DiffFile};
use crate::highlight::StyledSpan;

verus! {

/// Read access to a git repository.
pub trait GitRepository {
    /// Whether `r` is an answer the repository may give when asked for its
    /// baselines.
    closed spec fn logs(&self, r: Result<Vec<Baseline>, String>) -> bool {
        true
    }

    /// Whether `r` is an answer the repository may give when asked for the
    /// diff against `baseline`.
    closed spec fn diffs(&self, baseline: Baseline, r: Result<Vec<DiffFile>, String>) -> bool {
        true
    }

    /// Whether `r` is an answer the repository may give when asked for the
    /// lines of the working-tree file at `path`.
    closed spec fn reads(&self, path: Seq<char>, r: Result<Vec<String>, String>) -> bool {
        true
    }

    /// The baselines to choose from: the working tree, then recent commits.
    fn log(&self) -> (r: Result<Vec<Baseline>, String>)
        ensures
            self.logs(r);

    /// The files changed relative to `baseline`.
    fn diff(&self, baseline: &Baseline) -> (r: Result<Vec<DiffFile>, String>)
        ensures
            self.diffs(*baseline, r);

    /// Read raw lines of a file from the working tree
    fn read_lines(&self, path: &String) -> (r: Result<Vec<String>, String>)
        ensures
            self.reads(path@, r);
}

/// Syntax highlighting.
pub trait Highlighter {
    /// Returns syntax-highlighted spans per line. Falls back to plain if extension unknown.
    fn highlight(&self, path: &String, source: &str) -> Vec<Vec<StyledSpan>>;
}

/// Durable storage of the comments on the code.
pub trait CommentStore {
    /// Whether `r` is an answer the store may give when asked for the saved
    /// comments.
    closed spec fn loads(&self, r: Result<Vec<Comment>, String>) -> bool {
        true
    }

    /// Whether `r` is an answer the store may give when asked to save
    /// `comments`.
    closed spec fn saves(&self, comments: Seq<Comment>, r: Result<(), String>) -> bool {
        true
    }

    /// Whether `r` is an answer the store may give when asked to keep
    /// `text` as the export of the comments.
    closed spec fn exports(&self, text: Seq<char>, r: Result<(), String>) -> bool {
        true
    }

    /// The comments saved last.
    fn load(&self) -> (r: Result<Vec<Comment>, String>)
        ensures
            self.loads(r);

    /// Replaces the saved comments by `comments`.
    fn save(&self, comments: &Vec<Comment>) -> (r: Result<(), String>)
        ensures
            self.saves(comments@, r);

    /// Keeps `text`, the export of all comments, where other tools find it
    /// (next to the saved comments).
    fn write_export(&self, text: &String) -> (r: Result<(), String>)
        ensures
            self.exports(text@, r);
}

} // verus!
