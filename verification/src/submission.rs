//! The submission state machine: make a temporary directory, find its path,
//! make a temporary archive file, clone the repository into the directory,
//! zip the directory into the archive, and upload the archive.
//!
//! `Submission` orders these effects and fixes the arguments of each one. Its
//! step methods perform the pending effect, each only in its turn, and record
//! it; `request`, `succeed` and `fail` let a caller drive it by hand.

use vstd::prelude::*;
use crate::effect::file::{FileSystem, FileSystemTypes, ToPath};
use crate::effect::repo::{clone_gives, clone_repo, Git, GitTypes};
use crate::effect::s3::{S3, S3Types};
use crate::effect::zip::{zip_directory, zip_gives, Zip, ZipTypes};

verus! {

/// One effect of the submission pipeline, in the order they are performed.
#[derive(Clone, Copy, Debug, PartialEq, Eq, Structural)]
pub enum Effect {
    MakeTempDir,
    ResolveTempDir,
    MakeArchive,
    CloneRepo,
    ZipDirectory,
    PutObject,
}

/// Where a submission stands: waiting for an effect, or finished.
#[derive(Clone, Copy, Debug, PartialEq, Eq, Structural)]
pub enum Phase {
    Pending(Effect),
    Succeeded,
    Failed(Effect),
}

/// What a submission asks its runtime to do next.
#[derive(Debug)]
pub enum Request {
    MakeTempDir,
    ResolveTempDir,
    MakeArchive,
    CloneRepo { url: String, dir: String, target: String },
    ZipDirectory { dir: String },
    PutObject { bucket: String, key: String },
    Finished(Result<(), Effect>),
}

/// The mathematical value of a `Request`.
pub enum RequestView {
    MakeTempDir,
    ResolveTempDir,
    MakeArchive,
    CloneRepo { url: Seq<char>, dir: Seq<char>, target: Seq<char> },
    ZipDirectory { dir: Seq<char> },
    PutObject { bucket: Seq<char>, key: Seq<char> },
    Finished(Result<(), Effect>),
}

impl View for Request {
    type V = RequestView;

    open spec fn view(&self) -> RequestView {
        match self {
            Request::MakeTempDir => RequestView::MakeTempDir,
            Request::ResolveTempDir => RequestView::ResolveTempDir,
            Request::MakeArchive => RequestView::MakeArchive,
            Request::CloneRepo { url, dir, target } => RequestView::CloneRepo {
                url: url@,
                dir: dir@,
                target: target@,
            },
            Request::ZipDirectory { dir } => RequestView::ZipDirectory { dir: dir@ },
            Request::PutObject { bucket, key } => RequestView::PutObject { bucket: bucket@, key: key@ },
            Request::Finished(r) => RequestView::Finished(*r),
        }
    }
}

/// What the runtime reports back about the effect it was asked for: it
/// succeeded (with its textual output, the directory's path for
/// `ResolveTempDir` and ignored otherwise), or it failed.
pub enum Report {
    Done(Seq<char>),
    Failed,
}

/// The mathematical value of a `Submission`.
pub struct SubmissionView {
    pub repo_url: Seq<char>,
    pub target: Seq<char>,
    pub bucket: Seq<char>,
    pub key: Seq<char>,
    pub dir: Seq<char>,
    pub phase: Phase,
}

/// A submission of `repo_url` at `target` to `bucket`/`key`.
pub struct Submission {
    repo_url: String,
    target: String,
    bucket: String,
    key: String,
    dir: String,
    phase: Phase,
    performed: Ghost<Seq<EffectCall>>,
}

impl View for Submission {
    type V = SubmissionView;

    closed spec fn view(&self) -> SubmissionView {
        SubmissionView {
            repo_url: self.repo_url@,
            target: self.target@,
            bucket: self.bucket@,
            key: self.key@,
            dir: self.dir@,
            phase: self.phase,
        }
    }
}

/// A fresh submission: nothing done yet, no directory known.
pub open spec fn start(repo_url: Seq<char>, target: Seq<char>, bucket: Seq<char>, key: Seq<char>) -> SubmissionView {
    SubmissionView { repo_url, target, bucket, key, dir: Seq::empty(), phase: Phase::Pending(Effect::MakeTempDir) }
}

/// The phase that follows a successful effect.
pub open spec fn after(e: Effect) -> Phase {
    match e {
        Effect::MakeTempDir => Phase::Pending(Effect::ResolveTempDir),
        Effect::ResolveTempDir => Phase::Pending(Effect::MakeArchive),
        Effect::MakeArchive => Phase::Pending(Effect::CloneRepo),
        Effect::CloneRepo => Phase::Pending(Effect::ZipDirectory),
        Effect::ZipDirectory => Phase::Pending(Effect::PutObject),
        Effect::PutObject => Phase::Succeeded,
    }
}

impl SubmissionView {
    pub open spec fn is_finished(self) -> bool {
        !(self.phase is Pending)
    }

    /// What the submission asks for in this state.
    pub open spec fn request(self) -> RequestView {
        match self.phase {
            Phase::Pending(Effect::MakeTempDir) => RequestView::MakeTempDir,
            Phase::Pending(Effect::ResolveTempDir) => RequestView::ResolveTempDir,
            Phase::Pending(Effect::MakeArchive) => RequestView::MakeArchive,
            Phase::Pending(Effect::CloneRepo) => RequestView::CloneRepo {
                url: self.repo_url,
                dir: self.dir,
                target: self.target,
            },
            Phase::Pending(Effect::ZipDirectory) => RequestView::ZipDirectory { dir: self.dir },
            Phase::Pending(Effect::PutObject) => RequestView::PutObject { bucket: self.bucket, key: self.key },
            Phase::Succeeded => RequestView::Finished(Ok(())),
            Phase::Failed(e) => RequestView::Finished(Err(e)),
        }
    }

    /// The state after the pending effect succeeded with `output`; a finished
    /// submission does not change.
    pub open spec fn succeed(self, output: Seq<char>) -> SubmissionView {
        match self.phase {
            Phase::Pending(e) => SubmissionView {
                dir: if e == Effect::ResolveTempDir { output } else { self.dir },
                phase: after(e),
                ..self
            },
            _ => self,
        }
    }

    /// The state after the pending effect failed; a finished submission does
    /// not change.
    pub open spec fn fail(self) -> SubmissionView {
        match self.phase {
            Phase::Pending(e) => SubmissionView { phase: Phase::Failed(e), ..self },
            _ => self,
        }
    }

    pub open spec fn apply(self, report: Report) -> SubmissionView {
        match report {
            Report::Done(output) => self.succeed(output),
            Report::Failed => self.fail(),
        }
    }

    /// The state after a sequence of reports, in order.
    pub open spec fn run(self, reports: Seq<Report>) -> SubmissionView
        decreases reports.len(),
    {
        if reports.len() == 0 {
            self
        } else {
            self.run(reports.drop_last()).apply(reports.last())
        }
    }
}

impl Submission {
    /// A submission that has done nothing yet.
    pub fn new(repo_url: &str, target: &str, bucket: &str, key: &str) -> (s: Submission)
        ensures
            s@ == start(repo_url@, target@, bucket@, key@),
            s.performed() == Seq::<EffectCall>::empty(),
    {
        Submission {
            repo_url: repo_url.to_owned(),
            target: target.to_owned(),
            bucket: bucket.to_owned(),
            key: key.to_owned(),
            dir: String::new(),
            phase: Phase::Pending(Effect::MakeTempDir),
            performed: Ghost(Seq::empty()),
        }
    }

    pub fn phase(&self) -> (p: Phase)
        ensures
            p == self@.phase,
    {
        self.phase
    }

    /// What the submission asks its runtime to do next.
    pub fn request(&self) -> (r: Request)
        ensures
            r@ == self@.request(),
    {
        match self.phase {
            Phase::Pending(Effect::MakeTempDir) => Request::MakeTempDir,
            Phase::Pending(Effect::ResolveTempDir) => Request::ResolveTempDir,
            Phase::Pending(Effect::MakeArchive) => Request::MakeArchive,
            Phase::Pending(Effect::CloneRepo) => Request::CloneRepo {
                url: self.repo_url.clone(),
                dir: self.dir.clone(),
                target: self.target.clone(),
            },
            Phase::Pending(Effect::ZipDirectory) => Request::ZipDirectory { dir: self.dir.clone() },
            Phase::Pending(Effect::PutObject) => Request::PutObject {
                bucket: self.bucket.clone(),
                key: self.key.clone(),
            },
            Phase::Succeeded => Request::Finished(Ok(())),
            Phase::Failed(e) => Request::Finished(Err(e)),
        }
    }

    /// Records that the pending effect succeeded with `output`.
    pub fn succeed(&mut self, output: &str)
        ensures
            final(self)@ == old(self)@.succeed(output@),
            final(self).performed() == old(self).performed(),
    {
        match self.phase {
            Phase::Pending(e) => {
                if e == Effect::ResolveTempDir {
                    self.dir = output.to_owned();
                }
                self.phase = match e {
                    Effect::MakeTempDir => Phase::Pending(Effect::ResolveTempDir),
                    Effect::ResolveTempDir => Phase::Pending(Effect::MakeArchive),
                    Effect::MakeArchive => Phase::Pending(Effect::CloneRepo),
                    Effect::CloneRepo => Phase::Pending(Effect::ZipDirectory),
                    Effect::ZipDirectory => Phase::Pending(Effect::PutObject),
                    Effect::PutObject => Phase::Succeeded,
                };
            },
            _ => {},
        }
    }

    /// Records that the pending effect failed.
    pub fn fail(&mut self)
        ensures
            final(self)@ == old(self)@.fail(),
            final(self).performed() == old(self).performed(),
    {
        match self.phase {
            Phase::Pending(e) => {
                self.phase = Phase::Failed(e);
            },
            _ => {},
        }
    }
}

/// How many effects a submission in phase `p` still has to perform.
pub open spec fn effects_left(p: Phase) -> nat {
    match p {
        Phase::Pending(Effect::MakeTempDir) => 6,
        Phase::Pending(Effect::ResolveTempDir) => 5,
        Phase::Pending(Effect::MakeArchive) => 4,
        Phase::Pending(Effect::CloneRepo) => 3,
        Phase::Pending(Effect::ZipDirectory) => 2,
        Phase::Pending(Effect::PutObject) => 1,
        _ => 0,
    }
}

/// Running `reports` and then one more report is applying that report to
/// the state after `reports`.
pub proof fn lemma_run_push(s: SubmissionView, reports: Seq<Report>, r: Report)
    ensures
        s.run(reports.push(r)) == s.run(reports).apply(r),
{
    assert(reports.push(r).drop_last() =~= reports);
}

/// The effect call that a submission in state `s` makes for its pending
/// effect; finding the directory's path asks the directory's handle, not
/// the runtime, and a finished submission makes no call.
pub open spec fn call_for(s: SubmissionView) -> Seq<EffectCall> {
    match s.phase {
        Phase::Pending(Effect::MakeTempDir) => seq![EffectCall::MakeTempDir],
        Phase::Pending(Effect::MakeArchive) => seq![EffectCall::MakeTempFile],
        Phase::Pending(Effect::CloneRepo) => seq![EffectCall::CloneRepo { from: s.repo_url, to: s.dir, target: s.target }],
        Phase::Pending(Effect::ZipDirectory) => seq![EffectCall::ZipDirectory { from: s.dir }],
        Phase::Pending(Effect::PutObject) => seq![EffectCall::PutObject { bucket: s.bucket, key: s.key }],
        _ => seq![],
    }
}

/// The runtime effect calls made by a submission that starts as `s` and is
/// told `reports`, in order: for each report, the call of the effect it
/// reports on.
pub open spec fn calls_of(s: SubmissionView, reports: Seq<Report>) -> Seq<EffectCall>
    decreases reports.len(),
{
    if reports.len() == 0 {
        seq![]
    } else {
        calls_of(s, reports.drop_last()) + call_for(s.run(reports.drop_last()))
    }
}

/// The calls made for some reports and then one more are those made for the
/// reports, then the call of the effect that the last one reports on.
pub proof fn lemma_calls_push(s: SubmissionView, reports: Seq<Report>, r: Report)
    ensures
        calls_of(s, reports.push(r)) == calls_of(s, reports) + call_for(s.run(reports)),
{
    assert(reports.push(r).drop_last() =~= reports);
}

/// The effect that is performed `i`-th (from zero) in a submission.
pub open spec fn effect_at(i: int) -> Effect {
    if i <= 0 {
        Effect::MakeTempDir
    } else if i == 1 {
        Effect::ResolveTempDir
    } else if i == 2 {
        Effect::MakeArchive
    } else if i == 3 {
        Effect::CloneRepo
    } else if i == 4 {
        Effect::ZipDirectory
    } else {
        Effect::PutObject
    }
}

/// The reports of effects that all succeeded with the given outputs.
pub open spec fn done_reports(outputs: Seq<Seq<char>>) -> Seq<Report> {
    outputs.map_values(|o: Seq<char>| Report::Done(o))
}

/// Running reports is applying the first one, then running the rest.
pub proof fn lemma_run_first(s: SubmissionView, reports: Seq<Report>)
    requires
        reports.len() > 0,
    ensures
        s.run(reports) == s.apply(reports[0]).run(reports.drop_first()),
    decreases reports.len(),
{
    let t = s.apply(reports[0]);
    if reports.len() == 1 {
        assert(reports.drop_last() =~= Seq::<Report>::empty());
        assert(reports.drop_first() =~= Seq::<Report>::empty());
        assert(s.run(reports) == s.run(reports.drop_last()).apply(reports.last()));
        assert(t.run(reports.drop_first()) == t);
    } else {
        lemma_run_first(s, reports.drop_last());
        assert(reports.drop_last().drop_first() =~= reports.drop_first().drop_last());
        assert(reports.drop_last()[0] == reports[0]);
        assert(reports.drop_first().last() == reports.last());
        assert(s.run(reports) == s.run(reports.drop_last()).apply(reports.last()));
        assert(t.run(reports.drop_first()) == t.run(reports.drop_first().drop_last()).apply(
            reports.drop_first().last(),
        ));
    }
}

/// A finished submission stays as it is, whatever is reported afterwards.
pub proof fn law_finished_is_final(s: SubmissionView, reports: Seq<Report>)
    requires
        s.is_finished(),
    ensures
        s.run(reports) == s,
    decreases reports.len(),
{
    if reports.len() > 0 {
        law_finished_is_final(s, reports.drop_last());
    }
}

/// When every effect succeeds, a submission asks, in this order, for a
/// temporary directory, its path, a temporary archive, a clone of the
/// repository at the target into that path, a zip of that same path, and an
/// upload to the bucket and key; then it is finished, successfully.
pub proof fn law_success_path(
    repo_url: Seq<char>,
    target: Seq<char>,
    bucket: Seq<char>,
    key: Seq<char>,
    outputs: Seq<Seq<char>>,
)
    requires
        outputs.len() == 6,
    ensures
        ({
            let s = start(repo_url, target, bucket, key);
            let reports = done_reports(outputs);
            let dir = outputs[1];
            &&& s.run(reports.take(0)).request() == RequestView::MakeTempDir
            &&& s.run(reports.take(1)).request() == RequestView::ResolveTempDir
            &&& s.run(reports.take(2)).request() == RequestView::MakeArchive
            &&& s.run(reports.take(3)).request() == (RequestView::CloneRepo { url: repo_url, dir, target })
            &&& s.run(reports.take(4)).request() == (RequestView::ZipDirectory { dir })
            &&& s.run(reports.take(5)).request() == (RequestView::PutObject { bucket, key })
            &&& s.run(reports).request() == RequestView::Finished(Ok(()))
            &&& calls_of(s, reports) == success_calls(repo_url, target, bucket, key, dir)
        }),
{
    let s = start(repo_url, target, bucket, key);
    let reports = done_reports(outputs);
    assert(reports.take(0) =~= Seq::<Report>::empty());
    assert forall|k: int| 0 <= k < 6 implies reports.take(k + 1).drop_last() =~= #[trigger] reports.take(k) by {}
    assert forall|k: int| 0 <= k < 6 implies #[trigger] reports.take(k + 1).last() == Report::Done(outputs[k]) by {}
    assert(reports.take(6) =~= reports);
    let s1 = s.run(reports.take(1));
    let s2 = s.run(reports.take(2));
    let s3 = s.run(reports.take(3));
    let s4 = s.run(reports.take(4));
    let s5 = s.run(reports.take(5));
    assert(s.run(reports.take(0)) == s);
    assert(s1 == s.apply(Report::Done(outputs[0])));
    assert(s2 == s1.apply(Report::Done(outputs[1])));
    assert(s3 == s2.apply(Report::Done(outputs[2])));
    assert(s4 == s3.apply(Report::Done(outputs[3])));
    assert(s5 == s4.apply(Report::Done(outputs[4])));
    assert(s.run(reports.take(6)) == s5.apply(Report::Done(outputs[5])));
    assert(calls_of(s, reports.take(0)) =~= Seq::<EffectCall>::empty());
    assert(calls_of(s, reports.take(1)) =~= seq![EffectCall::MakeTempDir]);
    assert(calls_of(s, reports.take(2)) =~= seq![EffectCall::MakeTempDir]);
    assert(calls_of(s, reports.take(3)) =~= seq![EffectCall::MakeTempDir, EffectCall::MakeTempFile]);
    assert(calls_of(s, reports.take(4)) == calls_of(s, reports.take(3)) + call_for(s3));
    assert(calls_of(s, reports.take(5)) == calls_of(s, reports.take(4)) + call_for(s4));
    assert(calls_of(s, reports.take(6)) == calls_of(s, reports.take(5)) + call_for(s5));
    assert(calls_of(s, reports) =~= success_calls(repo_url, target, bucket, key, outputs[1]));
}

/// The calls of a submission that succeeds: make a temporary directory, make
/// a temporary archive, clone into the directory `dir`, zip `dir`, upload.
pub open spec fn success_calls(
    repo_url: Seq<char>,
    target: Seq<char>,
    bucket: Seq<char>,
    key: Seq<char>,
    dir: Seq<char>,
) -> Seq<EffectCall> {
    seq![
        EffectCall::MakeTempDir,
        EffectCall::MakeTempFile,
        EffectCall::CloneRepo { from: repo_url, to: dir, target },
        EffectCall::ZipDirectory { from: dir },
        EffectCall::PutObject { bucket, key },
    ]
}

/// A finished submission makes no more calls, whatever is reported.
pub proof fn law_finished_makes_no_calls(s: SubmissionView, reports: Seq<Report>)
    requires
        s.is_finished(),
    ensures
        calls_of(s, reports) == Seq::<EffectCall>::empty(),
    decreases reports.len(),
{
    if reports.len() > 0 {
        law_finished_makes_no_calls(s, reports.drop_last());
        law_finished_is_final(s, reports.drop_last());
        assert(calls_of(s, reports) =~= Seq::<EffectCall>::empty());
    }
}

/// The calls made for a sequence of reports are those made for a prefix of
/// it, then those made for the rest from the state the prefix leads to.
pub proof fn lemma_calls_split(s: SubmissionView, reports: Seq<Report>, k: int)
    requires
        0 <= k <= reports.len(),
    ensures
        calls_of(s, reports) == calls_of(s, reports.take(k)) + calls_of(s.run(reports.take(k)), reports.skip(k)),
    decreases reports.len(),
{
    let t = s.run(reports.take(k));
    if reports.len() == k {
        assert(reports.take(k) =~= reports);
        assert(reports.skip(k) =~= Seq::<Report>::empty());
        assert(calls_of(s, reports) + calls_of(t, reports.skip(k)) =~= calls_of(s, reports));
    } else {
        let front = reports.drop_last();
        lemma_calls_split(s, front, k);
        assert(front.take(k) =~= reports.take(k));
        assert(front.skip(k) =~= reports.skip(k).drop_last());
        lemma_run_split(s, front, k);
        assert(reports.skip(k).last() == reports.last());
        assert(calls_of(t, reports.skip(k)) == calls_of(t, reports.skip(k).drop_last()) + call_for(
            t.run(reports.skip(k).drop_last()),
        ));
        assert(calls_of(s, reports) =~= calls_of(s, reports.take(k)) + calls_of(t, reports.skip(k)));
    }
}

/// A pending submission that ends up succeeding was told that each of its
/// remaining effects succeeded, one after the other.
pub proof fn lemma_success_needs_reports(s: SubmissionView, reports: Seq<Report>)
    requires
        s.phase is Pending,
        s.run(reports).phase == Phase::Succeeded,
    ensures
        reports.len() >= effects_left(s.phase),
        forall|j: int| 0 <= j < effects_left(s.phase) ==> #[trigger] reports[j] is Done,
    decreases reports.len(),
{
    if reports.len() == 0 {
        assert(s.run(reports) == s);
    } else {
        lemma_run_first(s, reports);
        let next = s.apply(reports[0]);
        if reports[0] is Failed {
            law_finished_is_final(next, reports.drop_first());
        } else if next.phase == Phase::Succeeded {
        } else {
            lemma_success_needs_reports(next, reports.drop_first());
            assert forall|j: int| 0 <= j < effects_left(s.phase) implies #[trigger] reports[j] is Done by {
                if j > 0 {
                    assert(reports[j] == reports.drop_first()[j - 1]);
                }
            }
        }
    }
}

/// A submission succeeds only if each of its six effects reported success,
/// in order, before anything else was reported.
pub proof fn law_success_needs_every_effect(
    repo_url: Seq<char>,
    target: Seq<char>,
    bucket: Seq<char>,
    key: Seq<char>,
    reports: Seq<Report>,
)
    requires
        start(repo_url, target, bucket, key).run(reports).phase == Phase::Succeeded,
    ensures
        reports.len() >= 6,
        forall|j: int| 0 <= j < 6 ==> #[trigger] reports[j] is Done,
{
    lemma_success_needs_reports(start(repo_url, target, bucket, key), reports);
}

/// The state of a fresh submission after `i` successes.
pub proof fn lemma_successes(s: SubmissionView, reports: Seq<Report>, i: int)
    requires
        s.phase == Phase::Pending(Effect::MakeTempDir),
        0 <= i < 6,
        i <= reports.len(),
        forall|j: int| 0 <= j < i ==> #[trigger] reports[j] is Done,
    ensures
        s.run(reports.take(i)).phase == Phase::Pending(effect_at(i)),
    decreases i,
{
    if i > 0 {
        lemma_successes(s, reports, i - 1);
        assert(reports.take(i).drop_last() =~= reports.take(i - 1));
        assert(reports.take(i).last() == reports[i - 1]);
    } else {
        assert(reports.take(0) =~= Seq::<Report>::empty());
    }
}

/// The first failure ends a submission: it fails at the effect that failed,
/// asks for nothing more, and whatever is reported later changes nothing.
pub proof fn law_first_failure_decides(
    repo_url: Seq<char>,
    target: Seq<char>,
    bucket: Seq<char>,
    key: Seq<char>,
    reports: Seq<Report>,
    i: int,
)
    requires
        0 <= i < 6,
        i < reports.len(),
        forall|j: int| 0 <= j < i ==> #[trigger] reports[j] is Done,
        reports[i] is Failed,
    ensures
        start(repo_url, target, bucket, key).run(reports).phase == Phase::Failed(effect_at(i)),
        start(repo_url, target, bucket, key).run(reports).request() == RequestView::Finished(Err(effect_at(i))),
        calls_of(start(repo_url, target, bucket, key), reports) == calls_of(start(repo_url, target, bucket, key), reports.take(i))
            + call_for(start(repo_url, target, bucket, key).run(reports.take(i))),
{
    let s = start(repo_url, target, bucket, key);
    lemma_successes(s, reports, i);
    let failed = s.run(reports.take(i + 1));
    assert(reports.take(i + 1).drop_last() =~= reports.take(i));
    assert(reports.take(i + 1).last() == reports[i]);
    assert(failed.phase == Phase::Failed(effect_at(i)));
    lemma_run_split(s, reports, i + 1);
    law_finished_is_final(failed, reports.skip(i + 1));
    lemma_calls_split(s, reports, i + 1);
    law_finished_makes_no_calls(failed, reports.skip(i + 1));
    assert(calls_of(s, reports) =~= calls_of(s, reports.take(i + 1)));
}

/// Running a sequence of reports is running a prefix of it, then the rest.
pub proof fn lemma_run_split(s: SubmissionView, reports: Seq<Report>, k: int)
    requires
        0 <= k <= reports.len(),
    ensures
        s.run(reports) == s.run(reports.take(k)).run(reports.skip(k)),
    decreases reports.len() - k,
{
    if k == reports.len() {
        assert(reports.take(k) =~= reports);
        assert(reports.skip(k) =~= Seq::<Report>::empty());
    } else {
        lemma_run_split(s, reports, k + 1);
        let t = s.run(reports.take(k));
        assert(reports.take(k + 1).drop_last() =~= reports.take(k));
        assert(reports.take(k + 1).last() == reports[k]);
        lemma_run_first(t, reports.skip(k));
        assert(reports.skip(k).drop_first() =~= reports.skip(k + 1));
        assert(reports.skip(k)[0] == reports[k]);
    }
}


/// One effect performed by a submission, with the arguments it was given.
pub enum EffectCall {
    /// A temporary directory was made.
    MakeTempDir,
    /// A temporary file was made.
    MakeTempFile,
    /// The repository `from` was cloned into `to`, and `target` checked out.
    CloneRepo { from: Seq<char>, to: Seq<char>, target: Seq<char> },
    /// The directory `from` was zipped into the archive.
    ZipDirectory { from: Seq<char> },
    /// The archive was uploaded to `bucket`/`key`.
    PutObject { bucket: Seq<char>, key: Seq<char> },
}

/// The state after the pending effect ended with a result that is `ok` or
/// not (the output of a success being `output`).
pub open spec fn after_result(s: SubmissionView, ok: bool, output: Seq<char>) -> SubmissionView {
    if ok {
        s.succeed(output)
    } else {
        s.fail()
    }
}

impl Submission {
    /// The effects this submission has performed, oldest first. Only the
    /// step methods below add to it, each after performing its own effect.
    pub closed spec fn performed(&self) -> Seq<EffectCall> {
        self.performed@
    }

    /// Performs the pending effect `MakeTempDir` with `runtime` and records
    /// how it ended.
    pub fn make_temp_dir<T: FileSystem>(&mut self, runtime: &mut T) -> (r: Result<
        <T as FileSystem>::TempDirectory,
        <T as FileSystemTypes>::Error,
    >)
        requires
            old(self)@.phase == Phase::Pending(Effect::MakeTempDir),
        ensures
            T::mk_temp_dir_n_gives(r),
            final(self)@ == after_result(old(self)@, r is Ok, ""@),
            final(self).performed() == old(self).performed() + call_for(old(self)@),
    {
        let r = runtime.mk_temp_dir_n();
        let ghost call = call_for(self@);
        match &r {
            Ok(_) => self.succeed(""),
            Err(_) => self.fail(),
        }
        self.performed = Ghost(self.performed@ + call);
        r
    }

    /// Asks the directory handle `dir` for its path, the pending effect
    /// `ResolveTempDir`, and records how it ended; a runtime effect is not
    /// performed.
    pub fn resolve_temp_dir<D: ToPath>(&mut self, dir: &D) -> (r: Result<String, <D as ToPath>::Error>)
        requires
            old(self)@.phase == Phase::Pending(Effect::ResolveTempDir),
        ensures
            dir.to_path_gives(r),
            final(self)@ == match r {
                Ok(p) => old(self)@.succeed(p@),
                Err(_) => old(self)@.fail(),
            },
            final(self).performed() == old(self).performed() + call_for(old(self)@),
    {
        let r = dir.to_path();
        let ghost call = call_for(self@);
        match &r {
            Ok(p) => self.succeed(p.as_str()),
            Err(_) => self.fail(),
        }
        self.performed = Ghost(self.performed@ + call);
        r
    }

    /// Performs the pending effect `MakeArchive` with `runtime` and records
    /// how it ended.
    pub fn make_archive<T: FileSystem>(&mut self, runtime: &mut T) -> (r: Result<
        <T as FileSystem>::TempFile,
        <T as FileSystemTypes>::Error,
    >)
        requires
            old(self)@.phase == Phase::Pending(Effect::MakeArchive),
        ensures
            T::mk_temp_file_n_gives(r),
            final(self)@ == after_result(old(self)@, r is Ok, ""@),
            final(self).performed() == old(self).performed() + call_for(old(self)@),
    {
        let r = runtime.mk_temp_file_n();
        let ghost call = call_for(self@);
        match &r {
            Ok(_) => self.succeed(""),
            Err(_) => self.fail(),
        }
        self.performed = Ghost(self.performed@ + call);
        r
    }

    /// Performs the pending effect `CloneRepo` with `runtime`: clones the
    /// repository into the directory and checks the target out, as
    /// `clone_repo` decides; records how it ended.
    pub fn clone_repository<T: Git>(&mut self, runtime: &mut T) -> (r: Result<(), <T as GitTypes>::Error>)
        requires
            old(self)@.phase == Phase::Pending(Effect::CloneRepo),
        ensures
            clone_gives::<T>(old(self)@.repo_url, old(self)@.dir, old(self)@.target, r),
            final(self)@ == after_result(old(self)@, r is Ok, ""@),
            final(self).performed() == old(self).performed() + call_for(old(self)@),
    {
        let r = clone_repo(runtime, self.repo_url.as_str(), self.dir.as_str(), self.target.as_str());
        let ghost call = call_for(self@);
        match &r {
            Ok(_) => self.succeed(""),
            Err(_) => self.fail(),
        }
        self.performed = Ghost(self.performed@ + call);
        r
    }

    /// Performs the pending effect `ZipDirectory` with `runtime`: zips the
    /// directory into `archive`, as `zip_directory` decides; records how it
    /// ended.
    pub fn zip_into<T: Zip>(&mut self, runtime: &mut T, archive: &<T as ZipTypes>::File) -> (r: Result<(), <T as ZipTypes>::Error>)
        requires
            old(self)@.phase == Phase::Pending(Effect::ZipDirectory),
        ensures
            zip_gives::<T>(old(self)@.dir, *archive, r),
            final(self)@ == after_result(old(self)@, r is Ok, ""@),
            final(self).performed() == old(self).performed() + call_for(old(self)@),
    {
        let r = zip_directory(runtime, self.dir.as_str(), archive);
        let ghost call = call_for(self@);
        match &r {
            Ok(_) => self.succeed(""),
            Err(_) => self.fail(),
        }
        self.performed = Ghost(self.performed@ + call);
        r
    }

    /// Performs the pending effect `PutObject` with `runtime`: uploads
    /// `archive` to the bucket and key; records how it ended.
    pub fn upload<T: S3>(&mut self, runtime: &mut T, archive: &<T as S3Types>::File) -> (r: Result<(), <T as S3Types>::Error>)
        requires
            old(self)@.phase == Phase::Pending(Effect::PutObject),
        ensures
            T::put_object_file_gives(*archive, old(self)@.bucket, old(self)@.key, r),
            final(self)@ == after_result(old(self)@, r is Ok, ""@),
            final(self).performed() == old(self).performed() + call_for(old(self)@),
    {
        let r = runtime.put_object_file(archive, self.bucket.as_str(), self.key.as_str());
        let ghost call = call_for(self@);
        match &r {
            Ok(_) => self.succeed(""),
            Err(_) => self.fail(),
        }
        self.performed = Ghost(self.performed@ + call);
        r
    }
}

} // verus!
