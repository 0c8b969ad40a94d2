//! The first, two-step pipeline: make a temporary directory and clone the
//! repository into it.

use vstd::prelude::*;
use vstd::std_specs::convert::FromSpec;
use crate::repo::Git;

verus! {

/// Makes a temporary directory and tells its path.
pub trait MkTemp {
    type MkTempError;

    /// Whether this runtime's `mk_temp_dir` may give back `r`. A runtime
    /// that does not say allows any result.
    open spec fn mk_temp_dir_gives(r: Result<String, Self::MkTempError>) -> bool {
        true
    }

    fn mk_temp_dir(&mut self) -> (r: Result<String, Self::MkTempError>)
        ensures
            Self::mk_temp_dir_gives(r),
    ;
}

/// Whether `converted` is what `From` makes of `error`, as far as the
/// conversion's specification tells.
pub open spec fn converted_from<A, B: From<A>>(error: A, converted: B) -> bool {
    <B as FromSpec<A>>::obeys_from_spec() ==> converted == <B as FromSpec<A>>::from_spec(error)
}

/// Whether the two-step pipeline for `repo_url` may end with `r`: making the
/// temporary directory fails and `r` is its error converted to `E`; or it
/// gives a path `p`, and `r` is `Ok` or the error, converted, of a clone of
/// `repo_url` into that same `p`.
pub open spec fn flow_gives<T, E>(repo_url: Seq<char>, r: Result<(), E>) -> bool where
    T: MkTemp + Git,
    E: From<<T as MkTemp>::MkTempError> + From<<T as Git>::GitError>,
{
    ||| exists|e: <T as MkTemp>::MkTempError|
        #![trigger T::mk_temp_dir_gives(Err(e))]
        T::mk_temp_dir_gives(Err(e)) && (r matches Err(x) && converted_from(e, x))
    ||| exists|p: String|
        #![trigger T::mk_temp_dir_gives(Ok(p))]
        {
            &&& T::mk_temp_dir_gives(Ok(p))
            &&& match r {
                Ok(()) => T::clone_repo_gives(repo_url, p@, Ok(())),
                Err(x) => exists|e: <T as Git>::GitError|
                    #![trigger T::clone_repo_gives(repo_url, p@, Err(e))]
                    T::clone_repo_gives(repo_url, p@, Err(e)) && converted_from(e, x),
            }
        }
}

/// Makes a temporary directory with `runtime` and clones `repo_url` into
/// it, with the path that `mk_temp_dir` gave; stops at the first error,
/// converted to `E`. The bucket and key are not used by this pipeline.
pub fn submit_to_pipeline<T, E>(runtime: &mut T, repo_url: &str, s3_bucket: &str, s3_key: &str) -> (r: Result<(), E>) where
    T: MkTemp + Git,
    E: From<<T as MkTemp>::MkTempError> + From<<T as Git>::GitError>,
    ensures
        flow_gives::<T, E>(repo_url@, r),
{
    let path = match runtime.mk_temp_dir() {
        Ok(p) => p,
        Err(e) => {
            let x = E::from(e);
            assert(T::mk_temp_dir_gives(Err(e)) && converted_from(e, x));
            return Err(x);
        },
    };
    assert(T::mk_temp_dir_gives(Ok(path)));
    match runtime.clone_repo(repo_url, path.as_str()) {
        Ok(u) => {
            assert(T::clone_repo_gives(repo_url@, path@, Ok(u)));
            Ok(())
        },
        Err(e) => {
            let x = E::from(e);
            assert(T::clone_repo_gives(repo_url@, path@, Err(e)) && converted_from(e, x));
            Err(x)
        },
    }
}

/// The two-step pipeline clones into the very directory that was made: when
/// making the temporary directory can only give a path `dir`, a success is
/// a successful clone of `repo_url` into `dir`, and a failure is either the
/// directory's error or a failed clone into `dir`, converted.
pub proof fn law_flow_clones_into_the_temp_dir<T, E>(repo_url: Seq<char>, dir: Seq<char>, r: Result<(), E>) where
    T: MkTemp + Git,
    E: From<<T as MkTemp>::MkTempError> + From<<T as Git>::GitError>,

    requires
        forall|x: Result<String, <T as MkTemp>::MkTempError>| #[trigger] T::mk_temp_dir_gives(x) ==> (x matches Ok(p) && p@ == dir),
        flow_gives::<T, E>(repo_url, r),
    ensures
        r is Ok ==> T::clone_repo_gives(repo_url, dir, Ok(())),
        r matches Err(x) ==> exists|e: <T as Git>::GitError|
            #[trigger] T::clone_repo_gives(repo_url, dir, Err(e)) && converted_from(e, x),
{
}

} // verus!
