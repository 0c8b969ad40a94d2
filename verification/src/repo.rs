//! The git effect of the first, two-step pipeline (see `flow`).

use vstd::prelude::*;

verus! {

/// Clones the repository at `from` into the directory `to`.
pub trait Git {
    type GitError;

    /// Whether this runtime's clone of `from` into `to` may give back `r`.
    /// A runtime that does not say allows any result.
    open spec fn clone_repo_gives(from: Seq<char>, to: Seq<char>, r: Result<(), Self::GitError>) -> bool {
        true
    }

    fn clone_repo(&mut self, from: &str, to: &str) -> (r: Result<(), Self::GitError>)
        ensures
            Self::clone_repo_gives(from@, to@, r),
    ;
}

} // verus!
