//! The webhook side: what a GitLab push event asks to be pushed, and the
//! work of pushing it.

use vstd::prelude::*;
use crate::submit::{Submit, SubmitTypes};

verus! {

/// The repository that a push event is about.
#[derive(Debug)]
pub struct Repository {
    pub git_http_url: String,
    pub git_ssh_url: String,
}

/// A GitLab push event: the pushed reference and its repository.
#[derive(Debug)]
pub struct HookEvent {
    pub repo_ref: String,
    pub repository: Repository,
}

/// One unit of work: push `source_target` of `source_url` to the object
/// `dest_key` of `dest_bucket`.
#[derive(Debug)]
pub struct PushConfig {
    pub source_url: String,
    pub source_target: String,
    pub dest_bucket: String,
    pub dest_key: String,
}

/// Whether `s` starts with `p`.
pub open spec fn starts_with(s: Seq<char>, p: Seq<char>) -> bool {
    p.len() <= s.len() && s.subrange(0, p.len() as int) == p
}

/// `s` without every leading repetition of `p` (all of `s` when `p` is
/// empty), as `str::trim_start_matches` computes it.
pub open spec fn trim_start_all(s: Seq<char>, p: Seq<char>) -> Seq<char>
    decreases s.len(),
{
    if p.len() > 0 && starts_with(s, p) {
        trim_start_all(s.subrange(p.len() as int, s.len() as int), p)
    } else {
        s
    }
}

/// The prefix of the references that name branches.
pub open spec fn branch_prefix() -> Seq<char> {
    "refs/heads/"@
}

/// The branch that a pushed reference names: a reference under
/// `refs/heads/` names the branch after it; any other reference (a tag, say)
/// stands for `master`.
pub open spec fn branch_of_ref(repo_ref: Seq<char>) -> Seq<char> {
    if starts_with(repo_ref, branch_prefix()) {
        trim_start_all(repo_ref, branch_prefix())
    } else {
        "master"@
    }
}

/// Whether `p` occurs in `s` at position `at`.
fn occurs_at(s: &str, p: &str, at: usize) -> (r: bool)
    requires
        at <= s@.len(),
    ensures
        r == (at + p@.len() <= s@.len() && s@.subrange(at as int, at + p@.len()) == p@),
{
    let n = s.unicode_len();
    let m = p.unicode_len();
    if m > n - at {
        return false;
    }
    let mut i: usize = 0;
    while i < m
        invariant
            n == s@.len(),
            m == p@.len(),
            at + m <= n,
            i <= m,
            forall|j: int| 0 <= j < i ==> s@[at + j] == p@[j],
        decreases m - i,
    {
        if s.get_char(at + i) != p.get_char(i) {
            assert(s@.subrange(at as int, at + m)[i as int] != p@[i as int]);
            return false;
        }
        i = i + 1;
    }
    assert(s@.subrange(at as int, at + m) =~= p@);
    true
}

/// `s` without every leading repetition of `p`.
pub fn trim_start_matches(s: &str, p: &str) -> (r: String)
    ensures
        r@ == trim_start_all(s@, p@),
{
    let n = s.unicode_len();
    let m = p.unicode_len();
    if m == 0 {
        return s.to_owned();
    }
    let mut at: usize = 0;
    assert(s@.subrange(0, n as int) =~= s@);
    while occurs_at(s, p, at)
        invariant
            n == s@.len(),
            m == p@.len(),
            m > 0,
            at <= n,
            trim_start_all(s@, p@) == trim_start_all(s@.subrange(at as int, n as int), p@),
        decreases n - at,
    {
        let ghost rest = s@.subrange(at as int, n as int);
        assert(rest.subrange(0, m as int) =~= s@.subrange(at as int, at + m));
        assert(rest.subrange(m as int, rest.len() as int) =~= s@.subrange(at + m, n as int));
        at = at + m;
    }
    let ghost rest = s@.subrange(at as int, n as int);
    assert(!starts_with(rest, p@)) by {
        if starts_with(rest, p@) {
            assert(rest.subrange(0, m as int) =~= s@.subrange(at as int, at + m));
        }
    }
    s.substring_char(at, n).to_owned()
}

/// The branch that the pushed reference `repo_ref` names.
pub fn branch_of(repo_ref: &str) -> (branch: String)
    ensures
        branch@ == branch_of_ref(repo_ref@),
{
    if occurs_at(repo_ref, "refs/heads/", 0) {
        assert(repo_ref@.subrange(0, branch_prefix().len() as int) == branch_prefix());
        trim_start_matches(repo_ref, "refs/heads/")
    } else {
        String::from_str("master")
    }
}

/// The work that a push event asks for: the pushed branch (see
/// `branch_of_ref`) of the repository, fetched over SSH, goes to
/// `dest_bucket` under the branch's name followed by `.zip`.
pub fn accept_event(event: &HookEvent, dest_bucket: &str) -> (config: PushConfig)
    ensures
        config.source_url@ == event.repository.git_ssh_url@,
        config.source_target@ == branch_of_ref(event.repo_ref@),
        config.dest_bucket@ == dest_bucket@,
        config.dest_key@ == branch_of_ref(event.repo_ref@) + ".zip"@,
{
    let branch = branch_of(event.repo_ref.as_str());
    let key = branch.clone().concat(".zip");
    PushConfig {
        source_url: event.repository.git_ssh_url.clone(),
        source_target: branch,
        dest_bucket: dest_bucket.to_owned(),
        dest_key: key,
    }
}

/// Whether a runtime of type `T` may end the submission that `work` asks
/// for with `r`.
pub open spec fn work_gives<T: Submit>(work: PushConfig, r: Result<(), <T as SubmitTypes>::Error>) -> bool {
    T::submit_gives(work.source_url@, work.source_target@, work.dest_bucket@, work.dest_key@, r)
}

/// Whether performing `work` may end with `r` after the first `k` units
/// were submitted and succeeded: `r` is `Ok` when every unit succeeded, and
/// otherwise the error of unit `k`, the first that failed.
pub open spec fn work_ended<T: Submit>(work: Seq<PushConfig>, k: int, r: Result<(), <T as SubmitTypes>::Error>) -> bool {
    &&& 0 <= k <= work.len()
    &&& forall|i: int| 0 <= i < k ==> work_gives::<T>(#[trigger] work[i], Ok(()))
    &&& (r is Ok ==> k == work.len())
    &&& (r matches Err(x) ==> k < work.len() && work_gives::<T>(work[k], Err(x)))
}

/// Performs each unit of work in turn with `runtime`, once, in order,
/// stopping at the first one that fails and returning its error; no unit
/// after it is submitted.
pub fn perform_work<T: Submit>(runtime: &mut T, work: &Vec<PushConfig>) -> (r: Result<(), <T as SubmitTypes>::Error>)
    ensures
        work@.len() == 0 ==> r is Ok,
        exists|k: int| #![trigger work_ended::<T>(work@, k, r)] work_ended::<T>(work@, k, r),
{
    let n = work.len();
    for i in 0..n
        invariant
            n == work@.len(),
            forall|j: int| 0 <= j < i ==> work_gives::<T>(#[trigger] work@[j], Ok(())),
    {
        let w = &work[i];
        let res = runtime.submit_target_to_pipeline(
            w.source_url.as_str(),
            w.source_target.as_str(),
            w.dest_bucket.as_str(),
            w.dest_key.as_str(),
        );
        match res {
            Ok(u) => {
                assert(work_gives::<T>(work@[i as int], Ok(u)));
            },
            Err(e) => {
                assert(work_ended::<T>(work@, i as int, Err(e)));
                return Err(e);
            },
        }
    }
    assert(work_ended::<T>(work@, n as int, Ok(())));
    Ok(())
}

/// What is left after trimming every leading `p` does not start with `p`.
pub proof fn lemma_trimmed_has_no_prefix(s: Seq<char>, p: Seq<char>)
    requires
        p.len() > 0,
    ensures
        !starts_with(trim_start_all(s, p), p),
    decreases s.len(),
{
    if starts_with(s, p) {
        lemma_trimmed_has_no_prefix(s.subrange(p.len() as int, s.len() as int), p);
    }
}

/// The branch a push names never starts with `refs/heads/`.
pub proof fn law_branch_is_bare(repo_ref: Seq<char>)
    ensures
        !starts_with(branch_of_ref(repo_ref), branch_prefix()),
{
    reveal_strlit("refs/heads/");
    reveal_strlit("master");
    if starts_with(repo_ref, branch_prefix()) {
        lemma_trimmed_has_no_prefix(repo_ref, branch_prefix());
    }
}

/// A push to `refs/heads/<b>`, for a `b` that does not itself start with
/// `refs/heads/`, names the branch `b`.
pub proof fn law_branch_of_head_ref(b: Seq<char>)
    requires
        !starts_with(b, branch_prefix()),
    ensures
        branch_of_ref(branch_prefix() + b) == b,
{
    reveal_strlit("refs/heads/");
    let r = branch_prefix() + b;
    assert(r.subrange(0, branch_prefix().len() as int) =~= branch_prefix());
    assert(r.subrange(branch_prefix().len() as int, r.len() as int) =~= b);
    assert(branch_prefix().len() > 0);
    assert(starts_with(r, branch_prefix()));
    assert(trim_start_all(b, branch_prefix()) == b);
    assert(trim_start_all(r, branch_prefix()) == trim_start_all(b, branch_prefix()));
}

/// A push to a reference outside `refs/heads/` names `master`.
pub proof fn law_other_refs_name_master(repo_ref: Seq<char>)
    requires
        !starts_with(repo_ref, branch_prefix()),
    ensures
        branch_of_ref(repo_ref) == "master"@,
{
}

} // verus!
