//! Submitting a repository to the pipeline: what a submission of a runtime's
//! effects may end with, the driver that runs a `Submission` against those
//! effects, and `Submit`, which every runtime with the effects gets.

use vstd::prelude::*;
use crate::flow::converted_from;
use crate::effect::file::{FileSystem, FileSystemTypes, ToPath};
use crate::effect::repo::{clone_gives, Git, GitTypes};
use crate::effect::s3::{S3, S3Types};
use crate::effect::zip::{zip_gives, Zip, ZipTypes};
use crate::submission::{
    call_for, calls_of, effects_left, lemma_calls_push, lemma_run_push, start, Effect, EffectCall, Phase, Report,
    Submission, SubmissionView,
};

verus! {

/// Names the error type of a submission.
pub trait SubmitTypes {
    type Error;
}

/// Whether `runtime`'s effects may all succeed, one after the other, for a
/// submission of `repo_url` at `target` to `bucket`/`key` whose directory
/// has the path `dir`: a temporary directory `d` whose path is `dir`, a
/// temporary archive `a`, a clone of `repo_url` at `target` into `dir`, a
/// zip of `dir` into `a`, and an upload of `a` to `bucket`/`key`.
pub open spec fn pipeline_succeeds<T>(
    repo_url: Seq<char>,
    target: Seq<char>,
    bucket: Seq<char>,
    key: Seq<char>,
    dir: Seq<char>,
) -> bool where
    T: Git + FileSystem + SubmitTypes,
    T: Zip<File = <T as FileSystem>::TempFile>,
    T: S3<File = <T as FileSystem>::TempFile>,
    <T as SubmitTypes>::Error: From<<T as FileSystemTypes>::Error> + From<<T as GitTypes>::Error>
        + From<<T as S3Types>::Error> + From<<T as ZipTypes>::Error>
        + From<<<T as FileSystem>::TempDirectory as ToPath>::Error>,
{
    exists|d: <T as FileSystem>::TempDirectory, p: String, a: <T as FileSystem>::TempFile|
        #![trigger T::mk_temp_dir_n_gives(Ok(d)), d.to_path_gives(Ok(p)), T::mk_temp_file_n_gives(Ok(a))]
        {
            &&& p@ == dir
            &&& T::mk_temp_dir_n_gives(Ok(d))
            &&& d.to_path_gives(Ok(p))
            &&& T::mk_temp_file_n_gives(Ok(a))
            &&& clone_gives::<T>(repo_url, dir, target, Ok(()))
            &&& zip_gives::<T>(dir, a, Ok(()))
            &&& T::put_object_file_gives(a, bucket, key, Ok(()))
        }
}

/// Whether the effect `failed` of a submission of `repo_url` at `target` to
/// `bucket`/`key` (whose directory has the path `dir`, once it is known) may
/// fail with an error whose conversion is `x`, after the effects before it
/// succeeded with the arguments that `pipeline_succeeds` describes.
pub open spec fn pipeline_fails_at<T>(
    repo_url: Seq<char>,
    target: Seq<char>,
    bucket: Seq<char>,
    key: Seq<char>,
    dir: Seq<char>,
    failed: Effect,
    x: <T as SubmitTypes>::Error,
) -> bool where
    T: Git + FileSystem + SubmitTypes,
    T: Zip<File = <T as FileSystem>::TempFile>,
    T: S3<File = <T as FileSystem>::TempFile>,
    <T as SubmitTypes>::Error: From<<T as FileSystemTypes>::Error> + From<<T as GitTypes>::Error>
        + From<<T as S3Types>::Error> + From<<T as ZipTypes>::Error>
        + From<<<T as FileSystem>::TempDirectory as ToPath>::Error>,
{
    match failed {
        Effect::MakeTempDir => exists|e: <T as FileSystemTypes>::Error|
            #![trigger T::mk_temp_dir_n_gives(Err(e))]
            T::mk_temp_dir_n_gives(Err(e)) && converted_from(e, x),
        Effect::ResolveTempDir => exists|d: <T as FileSystem>::TempDirectory, e: <<T as FileSystem>::TempDirectory as ToPath>::Error|
            #![trigger T::mk_temp_dir_n_gives(Ok(d)), d.to_path_gives(Err(e))]
            T::mk_temp_dir_n_gives(Ok(d)) && d.to_path_gives(Err(e)) && converted_from(e, x),
        Effect::MakeArchive => exists|d: <T as FileSystem>::TempDirectory, p: String, e: <T as FileSystemTypes>::Error|
            #![trigger T::mk_temp_dir_n_gives(Ok(d)), d.to_path_gives(Ok(p)), T::mk_temp_file_n_gives(Err(e))]
            {
                &&& p@ == dir
                &&& T::mk_temp_dir_n_gives(Ok(d))
                &&& d.to_path_gives(Ok(p))
                &&& T::mk_temp_file_n_gives(Err(e))
                &&& converted_from(e, x)
            },
        Effect::CloneRepo => exists|d: <T as FileSystem>::TempDirectory, p: String, a: <T as FileSystem>::TempFile, e: <T as GitTypes>::Error|
            #![trigger T::mk_temp_dir_n_gives(Ok(d)), d.to_path_gives(Ok(p)), T::mk_temp_file_n_gives(Ok(a)), clone_gives::<T>(repo_url, dir, target, Err(e))]
            {
                &&& p@ == dir
                &&& T::mk_temp_dir_n_gives(Ok(d))
                &&& d.to_path_gives(Ok(p))
                &&& T::mk_temp_file_n_gives(Ok(a))
                &&& clone_gives::<T>(repo_url, dir, target, Err(e))
                &&& converted_from(e, x)
            },
        Effect::ZipDirectory => exists|d: <T as FileSystem>::TempDirectory, p: String, a: <T as FileSystem>::TempFile, e: <T as ZipTypes>::Error|
            #![trigger T::mk_temp_dir_n_gives(Ok(d)), d.to_path_gives(Ok(p)), T::mk_temp_file_n_gives(Ok(a)), zip_gives::<T>(dir, a, Err(e))]
            {
                &&& p@ == dir
                &&& T::mk_temp_dir_n_gives(Ok(d))
                &&& d.to_path_gives(Ok(p))
                &&& T::mk_temp_file_n_gives(Ok(a))
                &&& clone_gives::<T>(repo_url, dir, target, Ok(()))
                &&& zip_gives::<T>(dir, a, Err(e))
                &&& converted_from(e, x)
            },
        Effect::PutObject => exists|d: <T as FileSystem>::TempDirectory, p: String, a: <T as FileSystem>::TempFile, e: <T as S3Types>::Error|
            #![trigger T::mk_temp_dir_n_gives(Ok(d)), d.to_path_gives(Ok(p)), T::mk_temp_file_n_gives(Ok(a)), T::put_object_file_gives(a, bucket, key, Err(e))]
            {
                &&& p@ == dir
                &&& T::mk_temp_dir_n_gives(Ok(d))
                &&& d.to_path_gives(Ok(p))
                &&& T::mk_temp_file_n_gives(Ok(a))
                &&& clone_gives::<T>(repo_url, dir, target, Ok(()))
                &&& zip_gives::<T>(dir, a, Ok(()))
                &&& T::put_object_file_gives(a, bucket, key, Err(e))
                &&& converted_from(e, x)
            },
    }
}

/// Whether a submission that starts as `s` and is told `reports` may end
/// with `r` on a runtime of type `T`: it finishes; `r` is `Ok` exactly when
/// it succeeded, and then every effect may have succeeded with the arguments
/// the submission handed on; when it failed at an effect, `r` is that
/// effect's error, converted, after the effects before it succeeded.
pub open spec fn submission_outcome<T>(s: SubmissionView, reports: Seq<Report>, r: Result<(), <T as SubmitTypes>::Error>) -> bool where
    T: Git + FileSystem + SubmitTypes,
    T: Zip<File = <T as FileSystem>::TempFile>,
    T: S3<File = <T as FileSystem>::TempFile>,
    <T as SubmitTypes>::Error: From<<T as FileSystemTypes>::Error> + From<<T as GitTypes>::Error>
        + From<<T as S3Types>::Error> + From<<T as ZipTypes>::Error>
        + From<<<T as FileSystem>::TempDirectory as ToPath>::Error>,
{
    let fin = s.run(reports);
    &&& fin.is_finished()
    &&& (r is Ok <==> fin.phase == Phase::Succeeded)
    &&& (fin.phase == Phase::Succeeded ==> pipeline_succeeds::<T>(s.repo_url, s.target, s.bucket, s.key, fin.dir))
    &&& match fin.phase {
        Phase::Failed(e) => r matches Err(x) && pipeline_fails_at::<T>(s.repo_url, s.target, s.bucket, s.key, fin.dir, e, x),
        _ => true,
    }
}

impl Submission {
    /// Performs the submission against `runtime`'s effects, through the step
    /// methods: each effect once, in the order and with the arguments the
    /// submission asks for, until one fails or all succeed. The first
    /// failure is returned, converted to the submission's error, and nothing
    /// is performed after it.
    pub fn run<T>(&mut self, runtime: &mut T) -> (r: Result<(), <T as SubmitTypes>::Error>) where
        T: Git + FileSystem + SubmitTypes,
        T: Zip<File = <T as FileSystem>::TempFile>,
        T: S3<File = <T as FileSystem>::TempFile>,
        <T as SubmitTypes>::Error: From<<T as FileSystemTypes>::Error> + From<<T as GitTypes>::Error>
            + From<<T as S3Types>::Error> + From<<T as ZipTypes>::Error>
            + From<<<T as FileSystem>::TempDirectory as ToPath>::Error>,
        requires
            old(self)@.phase == Phase::Pending(Effect::MakeTempDir),
        ensures
            final(self)@.is_finished(),
            r is Ok <==> final(self)@.phase == Phase::Succeeded,
            exists|reports: Seq<Report>|
                #![trigger old(self)@.run(reports)]
                {
                    &&& final(self)@ == old(self)@.run(reports)
                    &&& final(self).performed() == old(self).performed() + calls_of(old(self)@, reports)
                    &&& submission_outcome::<T>(old(self)@, reports, r)
                },
    {
        let ghost s0 = self@;
        let ghost p0 = self.performed();
        let ghost mut reports: Seq<Report> = Seq::empty();
        let ghost mut gp: String = arbitrary();
        let mut dir: Option<<T as FileSystem>::TempDirectory> = None;
        let mut archive: Option<<T as FileSystem>::TempFile> = None;
        assert(p0 + calls_of(s0, reports) =~= p0);
        loop
            invariant
                s0 == old(self)@,
                p0 == old(self).performed(),
                self@ == s0.run(reports),
                self.performed() == p0 + calls_of(s0, reports),
                self@.repo_url == s0.repo_url,
                self@.target == s0.target,
                self@.bucket == s0.bucket,
                self@.key == s0.key,
                self@.phase is Pending || self@.phase == Phase::Succeeded,
                effects_left(self@.phase) <= 5 ==> dir is Some && T::mk_temp_dir_n_gives(Ok(dir->0)),
                effects_left(self@.phase) <= 4 ==> dir->0.to_path_gives(Ok(gp)) && gp@ == self@.dir,
                effects_left(self@.phase) <= 3 ==> archive is Some && T::mk_temp_file_n_gives(Ok(archive->0)),
                effects_left(self@.phase) <= 2 ==> clone_gives::<T>(s0.repo_url, self@.dir, s0.target, Ok(())),
                effects_left(self@.phase) <= 1 ==> zip_gives::<T>(self@.dir, archive->0, Ok(())),
                effects_left(self@.phase) == 0 ==> T::put_object_file_gives(archive->0, s0.bucket, s0.key, Ok(())),
            decreases effects_left(self@.phase),
        {
            match self.phase() {
                Phase::Pending(Effect::MakeTempDir) => match self.make_temp_dir(runtime) {
                    Ok(d) => {
                        dir = Some(d);
                        proof { reports = Self::recorded(s0, p0, reports, Report::Done(""@)); }
                    },
                    Err(e) => {
                        let x = <T as SubmitTypes>::Error::from(e);
                        proof {
                            reports = Self::recorded(s0, p0, reports, Report::Failed);
                            assert(T::mk_temp_dir_n_gives(Err(e)) && converted_from(e, x));
                        }
                        return Err(x);
                    },
                },
                Phase::Pending(Effect::ResolveTempDir) => {
                    let d = dir.as_ref().unwrap();
                    match self.resolve_temp_dir(d) {
                        Ok(p) => {
                            proof {
                                reports = Self::recorded(s0, p0, reports, Report::Done(p@));
                                gp = p;
                            }
                        },
                        Err(e) => {
                            let x = <T as SubmitTypes>::Error::from(e);
                            proof {
                                reports = Self::recorded(s0, p0, reports, Report::Failed);
                                let gd = dir->0;
                                assert(T::mk_temp_dir_n_gives(Ok(gd)) && gd.to_path_gives(Err(e)) && converted_from(e, x));
                            }
                            return Err(x);
                        },
                    }
                },
                Phase::Pending(Effect::MakeArchive) => match self.make_archive(runtime) {
                    Ok(a) => {
                        archive = Some(a);
                        proof { reports = Self::recorded(s0, p0, reports, Report::Done(""@)); }
                    },
                    Err(e) => {
                        let x = <T as SubmitTypes>::Error::from(e);
                        proof {
                            reports = Self::recorded(s0, p0, reports, Report::Failed);
                            let gd = dir->0;
                            assert(T::mk_temp_dir_n_gives(Ok(gd)) && gd.to_path_gives(Ok(gp))
                                && T::mk_temp_file_n_gives(Err(e)) && converted_from(e, x));
                        }
                        return Err(x);
                    },
                },
                Phase::Pending(Effect::CloneRepo) => match self.clone_repository(runtime) {
                    Ok(u) => {
                        proof {
                            assert(clone_gives::<T>(s0.repo_url, gp@, s0.target, Ok(u)));
                            reports = Self::recorded(s0, p0, reports, Report::Done(""@));
                        }
                    },
                    Err(e) => {
                        let x = <T as SubmitTypes>::Error::from(e);
                        proof {
                            reports = Self::recorded(s0, p0, reports, Report::Failed);
                            let gd = dir->0;
                            let ga = archive->0;
                            assert(T::mk_temp_dir_n_gives(Ok(gd)) && gd.to_path_gives(Ok(gp))
                                && T::mk_temp_file_n_gives(Ok(ga))
                                && clone_gives::<T>(s0.repo_url, gp@, s0.target, Err(e)) && converted_from(e, x));
                        }
                        return Err(x);
                    },
                },
                Phase::Pending(Effect::ZipDirectory) => {
                    let a = archive.as_ref().unwrap();
                    match self.zip_into(runtime, a) {
                        Ok(u) => {
                            proof {
                                assert(zip_gives::<T>(gp@, archive->0, Ok(u)));
                                reports = Self::recorded(s0, p0, reports, Report::Done(""@));
                            }
                        },
                        Err(e) => {
                            let x = <T as SubmitTypes>::Error::from(e);
                            proof {
                                reports = Self::recorded(s0, p0, reports, Report::Failed);
                                let gd = dir->0;
                                let ga = archive->0;
                                assert(T::mk_temp_dir_n_gives(Ok(gd)) && gd.to_path_gives(Ok(gp))
                                    && T::mk_temp_file_n_gives(Ok(ga))
                                    && clone_gives::<T>(s0.repo_url, gp@, s0.target, Ok(()))
                                    && zip_gives::<T>(gp@, ga, Err(e)) && converted_from(e, x));
                            }
                            return Err(x);
                        },
                    }
                },
                Phase::Pending(Effect::PutObject) => {
                    let a = archive.as_ref().unwrap();
                    match self.upload(runtime, a) {
                        Ok(u) => {
                            proof {
                                assert(T::put_object_file_gives(archive->0, s0.bucket, s0.key, Ok(u)));
                                reports = Self::recorded(s0, p0, reports, Report::Done(""@));
                            }
                        },
                        Err(e) => {
                            let x = <T as SubmitTypes>::Error::from(e);
                            proof {
                                reports = Self::recorded(s0, p0, reports, Report::Failed);
                                let gd = dir->0;
                                let ga = archive->0;
                                assert(T::mk_temp_dir_n_gives(Ok(gd)) && gd.to_path_gives(Ok(gp))
                                    && T::mk_temp_file_n_gives(Ok(ga))
                                    && clone_gives::<T>(s0.repo_url, gp@, s0.target, Ok(()))
                                    && zip_gives::<T>(gp@, ga, Ok(()))
                                    && T::put_object_file_gives(ga, s0.bucket, s0.key, Err(e)) && converted_from(e, x));
                            }
                            return Err(x);
                        },
                    }
                },
                _ => {
                    proof {
                        let gd = dir->0;
                        let ga = archive->0;
                        assert(T::mk_temp_dir_n_gives(Ok(gd)) && gd.to_path_gives(Ok(gp))
                            && T::mk_temp_file_n_gives(Ok(ga)));
                    }
                    return Ok(());
                },
            }
        }
    }

    /// The reports after one more, `report`, given that the submission's
    /// state and record followed the reports so far.
    proof fn recorded(s0: SubmissionView, p0: Seq<EffectCall>, reports: Seq<Report>, report: Report) -> (next: Seq<Report>)
        ensures
            next == reports.push(report),
            s0.run(next) == s0.run(reports).apply(report),
            p0 + calls_of(s0, next) == (p0 + calls_of(s0, reports)) + call_for(s0.run(reports)),
    {
        lemma_run_push(s0, reports, report);
        lemma_calls_push(s0, reports, report);
        assert(p0 + calls_of(s0, reports.push(report)) =~= (p0 + calls_of(s0, reports)) + call_for(s0.run(reports)));
        reports.push(report)
    }
}

/// Submits a repository to the pipeline.
pub trait Submit: SubmitTypes {
    /// Whether a submission of `repo_url` at `target` to `s3_bucket`/`s3_key`
    /// may end with `r`. A submitter that does not say allows any result.
    open spec fn submit_gives(
        repo_url: Seq<char>,
        target: Seq<char>,
        s3_bucket: Seq<char>,
        s3_key: Seq<char>,
        r: Result<(), <Self as SubmitTypes>::Error>,
    ) -> bool {
        true
    }

    /// Submits the `master` branch of `repo_url` to `s3_bucket`/`s3_key`.
    fn submit_to_pipeline(&mut self, repo_url: &str, s3_bucket: &str, s3_key: &str) -> (r: Result<(), <Self as SubmitTypes>::Error>)
        ensures
            Self::submit_gives(repo_url@, "master"@, s3_bucket@, s3_key@, r),
    ;

    /// Submits `target` (a commit id, a branch or a tag) of `repo_url` to
    /// `s3_bucket`/`s3_key`.
    fn submit_target_to_pipeline(
        &mut self,
        repo_url: &str,
        target: &str,
        s3_bucket: &str,
        s3_key: &str,
    ) -> (r: Result<(), <Self as SubmitTypes>::Error>)
        ensures
            Self::submit_gives(repo_url@, target@, s3_bucket@, s3_key@, r),
    ;
}

/// Every runtime with the effects submits by running a fresh `Submission`.
impl<T> Submit for T where
    T: Git + FileSystem + SubmitTypes,
    T: Zip<File = <T as FileSystem>::TempFile>,
    T: S3<File = <T as FileSystem>::TempFile>,
    <T as SubmitTypes>::Error: From<<T as FileSystemTypes>::Error> + From<<T as GitTypes>::Error>
        + From<<T as S3Types>::Error> + From<<T as ZipTypes>::Error>
        + From<<<T as FileSystem>::TempDirectory as ToPath>::Error>,
{
    open spec fn submit_gives(
        repo_url: Seq<char>,
        target: Seq<char>,
        s3_bucket: Seq<char>,
        s3_key: Seq<char>,
        r: Result<(), <T as SubmitTypes>::Error>,
    ) -> bool {
        exists|reports: Seq<Report>|
            #![trigger start(repo_url, target, s3_bucket, s3_key).run(reports)]
            submission_outcome::<T>(start(repo_url, target, s3_bucket, s3_key), reports, r)
    }

    fn submit_to_pipeline(&mut self, repo_url: &str, s3_bucket: &str, s3_key: &str) -> (r: Result<(), <T as SubmitTypes>::Error>) {
        self.submit_target_to_pipeline(repo_url, "master", s3_bucket, s3_key)
    }

    fn submit_target_to_pipeline(
        &mut self,
        repo_url: &str,
        target: &str,
        s3_bucket: &str,
        s3_key: &str,
    ) -> (r: Result<(), <T as SubmitTypes>::Error>) {
        let mut submission = Submission::new(repo_url, target, s3_bucket, s3_key);
        submission.run(self)
    }
}

/// A submission of `repo_url` at `target` to `bucket`/`key` that succeeds
/// made a temporary archive, cloned `repo_url` at `target` into a directory,
/// zipped that directory into the archive, and uploaded the archive to
/// exactly `bucket` under exactly `key`.
pub proof fn law_success_uploads_to_the_given_key<T>(
    repo_url: Seq<char>,
    target: Seq<char>,
    bucket: Seq<char>,
    key: Seq<char>,
) where
    T: Git + FileSystem + SubmitTypes,
    T: Zip<File = <T as FileSystem>::TempFile>,
    T: S3<File = <T as FileSystem>::TempFile>,
    <T as SubmitTypes>::Error: From<<T as FileSystemTypes>::Error> + From<<T as GitTypes>::Error>
        + From<<T as S3Types>::Error> + From<<T as ZipTypes>::Error>
        + From<<<T as FileSystem>::TempDirectory as ToPath>::Error>,

    requires
        <T as Submit>::submit_gives(repo_url, target, bucket, key, Ok(())),
    ensures
        exists|dir: Seq<char>, a: <T as FileSystem>::TempFile|
            #![trigger clone_gives::<T>(repo_url, dir, target, Ok(())), T::put_object_file_gives(a, bucket, key, Ok(()))]
            {
                &&& T::mk_temp_file_n_gives(Ok(a))
                &&& clone_gives::<T>(repo_url, dir, target, Ok(()))
                &&& zip_gives::<T>(dir, a, Ok(()))
                &&& T::put_object_file_gives(a, bucket, key, Ok(()))
            },
{
    let s = start(repo_url, target, bucket, key);
    let reports = choose|reports: Seq<Report>| submission_outcome::<T>(s, reports, Ok(()));
    let dir = s.run(reports).dir;
    assert(pipeline_succeeds::<T>(repo_url, target, bucket, key, dir));
    let (d, p, a) = choose|d: <T as FileSystem>::TempDirectory, p: String, a: <T as FileSystem>::TempFile|
        {
            &&& p@ == dir
            &&& T::mk_temp_dir_n_gives(Ok(d))
            &&& d.to_path_gives(Ok(p))
            &&& T::mk_temp_file_n_gives(Ok(a))
            &&& clone_gives::<T>(repo_url, dir, target, Ok(()))
            &&& zip_gives::<T>(dir, a, Ok(()))
            &&& T::put_object_file_gives(a, bucket, key, Ok(()))
        };
    assert(clone_gives::<T>(repo_url, dir, target, Ok(())) && T::put_object_file_gives(a, bucket, key, Ok(())));
}

} // verus!
