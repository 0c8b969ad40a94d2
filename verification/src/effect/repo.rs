//! Cloning a git repository and checking out a target.

use vstd::prelude::*;

verus! {

/// Names the error type of the git effect.
pub trait GitTypes {
    type Error;
}

/// The git operations of a runtime: cloning, finding commits and references,
/// and checking a commit out. `clone_repo` decides which commit a target
/// names from them.
pub trait Git: GitTypes {
    /// A cloned repository.
    type Repo;
    /// A commit found in a repository.
    type Commit;

    /// Whether this runtime's clone of `from` into `to` may give back `r`. A
    /// runtime that does not say allows any result.
    open spec fn clone_into_gives(from: Seq<char>, to: Seq<char>, r: Result<Self::Repo, <Self as GitTypes>::Error>) -> bool {
        true
    }

    /// Whether looking the commit `id` up in `repo` may give back `r`.
    open spec fn find_commit_gives(repo: Self::Repo, id: Seq<char>, r: Result<Self::Commit, <Self as GitTypes>::Error>) -> bool {
        true
    }

    /// Whether looking the reference `name` up in `repo` may give back `r`.
    open spec fn find_reference_gives(
        repo: Self::Repo,
        name: Seq<char>,
        r: Option<Result<Self::Commit, <Self as GitTypes>::Error>>,
    ) -> bool {
        true
    }

    /// Whether `e` may be the error for the target `target` that names nothing.
    open spec fn unresolved_gives(target: Seq<char>, e: <Self as GitTypes>::Error) -> bool {
        true
    }

    /// Whether checking `commit` of `repo` out into `dir` may give back `r`.
    open spec fn check_out_gives(repo: Self::Repo, dir: Seq<char>, commit: Self::Commit, r: Result<(), <Self as GitTypes>::Error>) -> bool {
        true
    }

    /// Clones the repository at `from` into the directory `to`, without
    /// checking anything out.
    fn clone_into(&mut self, from: &str, to: &str) -> (r: Result<Self::Repo, <Self as GitTypes>::Error>)
        ensures
            Self::clone_into_gives(from@, to@, r),
    ;

    /// Looks the commit whose (possibly abbreviated) id is `id` up in `repo`.
    fn find_commit(&mut self, repo: &Self::Repo, id: &str) -> (r: Result<Self::Commit, <Self as GitTypes>::Error>)
        ensures
            Self::find_commit_gives(*repo, id@, r),
    ;

    /// Looks the reference `name` up in `repo` and peels it to its commit;
    /// `None` when `repo` has no such reference.
    fn find_reference(&mut self, repo: &Self::Repo, name: &str) -> (r: Option<Result<Self::Commit, <Self as GitTypes>::Error>>)
        ensures
            Self::find_reference_gives(*repo, name@, r),
    ;

    /// The error for the target `target` when it names nothing.
    fn unresolved_target(&mut self, target: &str) -> (e: <Self as GitTypes>::Error)
        ensures
            Self::unresolved_gives(target@, e),
    ;

    /// Checks `commit` of `repo` out into `dir` and records its id there.
    fn check_out(&mut self, repo: &Self::Repo, dir: &str, commit: &Self::Commit) -> (r: Result<(), <Self as GitTypes>::Error>)
        ensures
            Self::check_out_gives(*repo, dir@, *commit, r),
    ;
}

/// Marks a runtime whose git effect talks to real remotes.
pub trait InIO {}

/// Whether `c` is a hexadecimal digit, in either case.
pub open spec fn is_hex_digit(c: char) -> bool {
    ('0' <= c && c <= '9') || ('a' <= c && c <= 'f') || ('A' <= c && c <= 'F')
}

/// Whether `s` reads as a (possibly abbreviated) git object id: one to
/// forty hex digits.
pub open spec fn is_object_id(s: Seq<char>) -> bool {
    &&& 1 <= s.len() <= 40
    &&& forall|i: int| 0 <= i < s.len() ==> #[trigger] is_hex_digit(s[i])
}

/// `git2::Oid::from_str`. Its documentation says that it fails exactly when
/// the string is empty, longer than forty hex characters, or holds a non-hex
/// character (libgit2's `git_oid_fromstrn` reads the bytes, so any non-ASCII
/// character is a non-hex byte). The contract claims that the result says
/// whether `s` is one to forty hex digits.
#[verifier::external_body]
fn oid_parses(s: &str) -> (r: bool)
    ensures
        r == is_object_id(s@),
{
    git2::Oid::from_str(s).is_ok()
}

/// One way of finding the commit that a target names.
#[derive(Debug, PartialEq, Eq)]
pub enum TargetLookup {
    /// Look the commit up by its id; the outcome is final.
    Commit(String),
    /// Look up a reference and peel it to a commit; when the reference does
    /// not exist, go on with the next lookup.
    Reference(String),
}

pub enum TargetLookupView {
    Commit(Seq<char>),
    Reference(Seq<char>),
}

impl View for TargetLookup {
    type V = TargetLookupView;

    open spec fn view(&self) -> TargetLookupView {
        match self {
            TargetLookup::Commit(id) => TargetLookupView::Commit(id@),
            TargetLookup::Reference(name) => TargetLookupView::Reference(name@),
        }
    }
}

/// The lookups for `target`, in the order they are tried: a target that
/// reads as an object id names a commit; any other names a remote branch of
/// `origin`, or else a tag.
pub open spec fn lookups_for(target: Seq<char>) -> Seq<TargetLookupView> {
    if is_object_id(target) {
        seq![TargetLookupView::Commit(target)]
    } else {
        seq![
            TargetLookupView::Reference("refs/remotes/origin/"@ + target),
            TargetLookupView::Reference("refs/tags/"@ + target),
        ]
    }
}

/// The lookups to try, in order, to find the commit that `target` names.
pub fn target_lookups(target: &str) -> (r: Vec<TargetLookup>)
    ensures
        r@.map_values(|l: TargetLookup| l@) =~= lookups_for(target@),
{
    let mut r: Vec<TargetLookup> = Vec::new();
    if oid_parses(target) {
        r.push(TargetLookup::Commit(target.to_owned()));
    } else {
        r.push(TargetLookup::Reference(String::from_str("refs/remotes/origin/").concat(target)));
        r.push(TargetLookup::Reference(String::from_str("refs/tags/").concat(target)));
    }
    r
}

/// What to do after trying one lookup of a target.
#[derive(Clone, Copy, Debug, PartialEq, Eq, Structural)]
pub enum LookupStep {
    /// The outcome of this lookup is the commit (or the error) to check out.
    Use,
    /// Try the next lookup.
    TryNext,
    /// No lookup is left: the target names nothing.
    NotFound,
}

/// The step after `lookup` was tried and its commit or reference was, or
/// was not, `found`, with `more` lookups left: a commit lookup is final;
/// a reference that exists is used; a missing one goes on to the next
/// lookup, and when none is left the target names nothing.
pub open spec fn step_after(lookup: TargetLookupView, found: bool, more: bool) -> LookupStep {
    match lookup {
        TargetLookupView::Commit(_) => LookupStep::Use,
        TargetLookupView::Reference(_) => if found {
            LookupStep::Use
        } else if more {
            LookupStep::TryNext
        } else {
            LookupStep::NotFound
        },
    }
}

/// What to do after trying the lookup `lookups[i]`, which did or did not
/// find what it looked for.
pub fn lookup_step(lookups: &Vec<TargetLookup>, i: usize, found: bool) -> (step: LookupStep)
    requires
        i < lookups@.len(),
    ensures
        step == step_after(lookups@[i as int]@, found, i + 1 < lookups@.len()),
{
    match &lookups[i] {
        TargetLookup::Commit(_) => LookupStep::Use,
        TargetLookup::Reference(_) => {
            if found {
                LookupStep::Use
            } else if i < lookups.len() - 1 {
                LookupStep::TryNext
            } else {
                LookupStep::NotFound
            }
        },
    }
}

/// How a target resolves, looking its lookups up in order: a target that
/// reads as an object id is looked up as that commit and nothing else; any
/// other target names the remote branch if it exists, else the tag if that
/// exists, else nothing.
pub proof fn law_target_resolution(target: Seq<char>, branch_found: bool, tag_found: bool, commit_found: bool)
    ensures
        is_object_id(target) ==> lookups_for(target) == seq![TargetLookupView::Commit(target)],
        !is_object_id(target) ==> lookups_for(target) == seq![
            TargetLookupView::Reference("refs/remotes/origin/"@ + target),
            TargetLookupView::Reference("refs/tags/"@ + target),
        ],
        is_object_id(target) ==> lookups_for(target).len() == 1
            && step_after(lookups_for(target)[0], commit_found, false) == LookupStep::Use,
        !is_object_id(target) ==> {
            &&& lookups_for(target).len() == 2
            &&& step_after(lookups_for(target)[0], branch_found, true) == (if branch_found {
                LookupStep::Use
            } else {
                LookupStep::TryNext
            })
            &&& step_after(lookups_for(target)[1], tag_found, false) == (if tag_found {
                LookupStep::Use
            } else {
                LookupStep::NotFound
            })
        },
{
}

/// Whether a lookup that found `found` may end the clone into `dir` with
/// `r`: a commit found is checked out, an error is the result.
pub open spec fn checked_out<T: Git>(
    repo: <T as Git>::Repo,
    dir: Seq<char>,
    found: Result<<T as Git>::Commit, <T as GitTypes>::Error>,
    r: Result<(), <T as GitTypes>::Error>,
) -> bool {
    match found {
        Ok(c) => T::check_out_gives(repo, dir, c, r),
        Err(e) => r == Err::<(), <T as GitTypes>::Error>(e),
    }
}

/// Whether checking `target` out of the clone `repo` into `dir` may end with
/// `r`, following `lookups_for(target)` and `step_after`: a target that
/// reads as an object id is looked up as a commit, and that lookup is final;
/// any other target names the remote branch `refs/remotes/origin/<target>`
/// if it exists, else the tag `refs/tags/<target>` if it exists, else
/// nothing, and then `r` is the runtime's error for an unresolved target.
pub open spec fn resolves<T: Git>(repo: <T as Git>::Repo, target: Seq<char>, dir: Seq<char>, r: Result<(), <T as GitTypes>::Error>) -> bool {
    if is_object_id(target) {
        exists|f: Result<<T as Git>::Commit, <T as GitTypes>::Error>|
            #![trigger T::find_commit_gives(repo, target, f)]
            T::find_commit_gives(repo, target, f) && checked_out::<T>(repo, dir, f, r)
    } else {
        let branch = "refs/remotes/origin/"@ + target;
        let tag = "refs/tags/"@ + target;
        ||| exists|f: Result<<T as Git>::Commit, <T as GitTypes>::Error>|
            #![trigger T::find_reference_gives(repo, branch, Some(f))]
            T::find_reference_gives(repo, branch, Some(f)) && checked_out::<T>(repo, dir, f, r)
        ||| T::find_reference_gives(repo, branch, None) && exists|f: Result<<T as Git>::Commit, <T as GitTypes>::Error>|
            #![trigger T::find_reference_gives(repo, tag, Some(f))]
            T::find_reference_gives(repo, tag, Some(f)) && checked_out::<T>(repo, dir, f, r)
        ||| {
            &&& T::find_reference_gives(repo, branch, None)
            &&& T::find_reference_gives(repo, tag, None)
            &&& r matches Err(x) && T::unresolved_gives(target, x)
        }
    }
}

/// Whether cloning `from` into `to` and checking `target` out may end with
/// `r`: the clone fails with `r`'s error, or it gives a repository in which
/// `target` resolves as `resolves` says.
pub open spec fn clone_gives<T: Git>(from: Seq<char>, to: Seq<char>, target: Seq<char>, r: Result<(), <T as GitTypes>::Error>) -> bool {
    ||| exists|repo: <T as Git>::Repo|
        #![trigger T::clone_into_gives(from, to, Ok(repo))]
        T::clone_into_gives(from, to, Ok(repo)) && resolves::<T>(repo, target, to, r)
    ||| exists|e: <T as GitTypes>::Error|
        #![trigger T::clone_into_gives(from, to, Err(e))]
        T::clone_into_gives(from, to, Err(e)) && r == Err::<(), <T as GitTypes>::Error>(e)
}

/// Checks the commit a lookup found out, or passes its error on.
fn check_out_found<T: Git>(
    runtime: &mut T,
    repo: &<T as Git>::Repo,
    dir: &str,
    found: Result<<T as Git>::Commit, <T as GitTypes>::Error>,
) -> (r: Result<(), <T as GitTypes>::Error>)
    ensures
        checked_out::<T>(*repo, dir@, found, r),
{
    match found {
        Ok(c) => runtime.check_out(repo, dir, &c),
        Err(e) => Err(e),
    }
}

/// Clones the repository at `from` into the directory `to` and checks out
/// the commit that `target` names, trying `target_lookups(target)` in order
/// and stepping after each as `lookup_step` decides.
pub fn clone_repo<T: Git>(runtime: &mut T, from: &str, to: &str, target: &str) -> (r: Result<(), <T as GitTypes>::Error>)
    ensures
        clone_gives::<T>(from@, to@, target@, r),
{
    let repo = match runtime.clone_into(from, to) {
        Ok(repo) => repo,
        Err(e) => {
            assert(T::clone_into_gives(from@, to@, Err(e)));
            return Err(e);
        },
    };
    assert(T::clone_into_gives(from@, to@, Ok(repo)));
    let lookups = target_lookups(target);
    assert(lookups@.map_values(|l: TargetLookup| l@)[0] == lookups@[0]@);
    match &lookups[0] {
        TargetLookup::Commit(id) => {
            let found = runtime.find_commit(&repo, id.as_str());
            assert(is_object_id(target@));
            let r = check_out_found(runtime, &repo, to, found);
            assert(T::find_commit_gives(repo, target@, found));
            r
        },
        TargetLookup::Reference(branch) => {
            assert(!is_object_id(target@));
            assert(lookups@.map_values(|l: TargetLookup| l@)[1] == lookups@[1]@);
            let first = runtime.find_reference(&repo, branch.as_str());
            match lookup_step(&lookups, 0, first.is_some()) {
                LookupStep::Use => {
                    let found = first.unwrap();
                    let r = check_out_found(runtime, &repo, to, found);
                    assert(T::find_reference_gives(repo, "refs/remotes/origin/"@ + target@, Some(found)));
                    r
                },
                LookupStep::TryNext => {
                    let second = match &lookups[1] {
                        TargetLookup::Reference(tag) => runtime.find_reference(&repo, tag.as_str()),
                        TargetLookup::Commit(_) => {
                            // a target that is not an object id has only reference lookups
                            assert(false);
                            None
                        },
                    };
                    match lookup_step(&lookups, 1, second.is_some()) {
                        LookupStep::Use => {
                            let found = second.unwrap();
                            let r = check_out_found(runtime, &repo, to, found);
                            assert(T::find_reference_gives(repo, "refs/tags/"@ + target@, Some(found)));
                            r
                        },
                        _ => {
                            let x = runtime.unresolved_target(target);
                            Err(x)
                        },
                    }
                },
                LookupStep::NotFound => {
                    let x = runtime.unresolved_target(target);
                    Err(x)
                },
            }
        },
    }
}

/// A clone of a target that reads as an object id checks out the commit of
/// that id, and looks nothing else up: with a clone that gives `repo` and a
/// commit lookup of `target` that gives `found`, the result is the checkout
/// of `found`, or its error.
pub proof fn law_clone_object_id<T: Git>(
    from: Seq<char>,
    to: Seq<char>,
    target: Seq<char>,
    repo: <T as Git>::Repo,
    found: Result<<T as Git>::Commit, <T as GitTypes>::Error>,
    r: Result<(), <T as GitTypes>::Error>,
)
    requires
        is_object_id(target),
        forall|x: Result<<T as Git>::Repo, <T as GitTypes>::Error>| #[trigger] T::clone_into_gives(from, to, x) ==> x == Ok::<<T as Git>::Repo, <T as GitTypes>::Error>(repo),
        forall|x: Result<<T as Git>::Commit, <T as GitTypes>::Error>| #[trigger] T::find_commit_gives(repo, target, x) ==> x == found,
        clone_gives::<T>(from, to, target, r),
    ensures
        match found {
            Ok(c) => T::check_out_gives(repo, to, c, r),
            Err(e) => r == Err::<(), <T as GitTypes>::Error>(e),
        },
{
}

/// A clone of any other target checks out the remote branch
/// `refs/remotes/origin/<target>` when the clone has it: with a clone that
/// gives `repo` and that branch lookup giving `found`, the result is the
/// checkout of `found`, or its error.
pub proof fn law_clone_origin_branch<T: Git>(
    from: Seq<char>,
    to: Seq<char>,
    target: Seq<char>,
    repo: <T as Git>::Repo,
    found: Result<<T as Git>::Commit, <T as GitTypes>::Error>,
    r: Result<(), <T as GitTypes>::Error>,
)
    requires
        !is_object_id(target),
        forall|x: Result<<T as Git>::Repo, <T as GitTypes>::Error>| #[trigger] T::clone_into_gives(from, to, x) ==> x == Ok::<<T as Git>::Repo, <T as GitTypes>::Error>(repo),
        forall|x: Option<Result<<T as Git>::Commit, <T as GitTypes>::Error>>|
            #[trigger] T::find_reference_gives(repo, "refs/remotes/origin/"@ + target, x) ==> x == Some(found),
        clone_gives::<T>(from, to, target, r),
    ensures
        match found {
            Ok(c) => T::check_out_gives(repo, to, c, r),
            Err(e) => r == Err::<(), <T as GitTypes>::Error>(e),
        },
{
}

/// When the clone has no remote branch `refs/remotes/origin/<target>` (for a
/// target that is not an object id), the tag `refs/tags/<target>` is checked
/// out: with that tag lookup giving `found`, the result is the checkout of
/// `found`, or its error.
pub proof fn law_clone_tag<T: Git>(
    from: Seq<char>,
    to: Seq<char>,
    target: Seq<char>,
    repo: <T as Git>::Repo,
    found: Result<<T as Git>::Commit, <T as GitTypes>::Error>,
    r: Result<(), <T as GitTypes>::Error>,
)
    requires
        !is_object_id(target),
        forall|x: Result<<T as Git>::Repo, <T as GitTypes>::Error>| #[trigger] T::clone_into_gives(from, to, x) ==> x == Ok::<<T as Git>::Repo, <T as GitTypes>::Error>(repo),
        forall|x: Option<Result<<T as Git>::Commit, <T as GitTypes>::Error>>|
            #[trigger] T::find_reference_gives(repo, "refs/remotes/origin/"@ + target, x) ==> x is None,
        forall|x: Option<Result<<T as Git>::Commit, <T as GitTypes>::Error>>|
            #[trigger] T::find_reference_gives(repo, "refs/tags/"@ + target, x) ==> x == Some(found),
        clone_gives::<T>(from, to, target, r),
    ensures
        match found {
            Ok(c) => T::check_out_gives(repo, to, c, r),
            Err(e) => r == Err::<(), <T as GitTypes>::Error>(e),
        },
{
}

/// A target that is not an object id, when the clone has neither the remote
/// branch `refs/remotes/origin/<target>` nor the tag `refs/tags/<target>`,
/// fails with the runtime's error for an unresolved target.
pub proof fn law_clone_unresolved<T: Git>(
    from: Seq<char>,
    to: Seq<char>,
    target: Seq<char>,
    repo: <T as Git>::Repo,
    r: Result<(), <T as GitTypes>::Error>,
)
    requires
        !is_object_id(target),
        forall|x: Result<<T as Git>::Repo, <T as GitTypes>::Error>| #[trigger] T::clone_into_gives(from, to, x) ==> x == Ok::<<T as Git>::Repo, <T as GitTypes>::Error>(repo),
        forall|x: Option<Result<<T as Git>::Commit, <T as GitTypes>::Error>>|
            #[trigger] T::find_reference_gives(repo, "refs/remotes/origin/"@ + target, x) ==> x is None,
        forall|x: Option<Result<<T as Git>::Commit, <T as GitTypes>::Error>>|
            #[trigger] T::find_reference_gives(repo, "refs/tags/"@ + target, x) ==> x is None,
        clone_gives::<T>(from, to, target, r),
    ensures
        r matches Err(x) && T::unresolved_gives(target, x),
{
}

} // verus!
