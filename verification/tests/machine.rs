use aws_push_code::submission::{Effect, Phase, Request, Submission};

fn is_finished(s: &Submission, expected: Result<(), Effect>) -> bool {
    matches!((s.request(), expected), (Request::Finished(Ok(())), Ok(()))) || match (s.request(), expected) {
        (Request::Finished(Err(a)), Err(b)) => a == b,
        _ => false,
    }
}

#[test]
fn success_path_requests() {
    let mut s = Submission::new("repo", "master", "bucket", "key");
    assert!(matches!(s.request(), Request::MakeTempDir));
    s.succeed("ignored");
    assert!(matches!(s.request(), Request::ResolveTempDir));
    s.succeed("/tmp/dir");
    assert!(matches!(s.request(), Request::MakeArchive));
    s.succeed("");
    match s.request() {
        Request::CloneRepo { url, dir, target } => {
            assert_eq!((url.as_str(), dir.as_str(), target.as_str()), ("repo", "/tmp/dir", "master"));
        }
        other => panic!("unexpected {:?}", other),
    }
    s.succeed("");
    match s.request() {
        Request::ZipDirectory { dir } => assert_eq!(dir, "/tmp/dir"),
        other => panic!("unexpected {:?}", other),
    }
    s.succeed("");
    match s.request() {
        Request::PutObject { bucket, key } => assert_eq!((bucket.as_str(), key.as_str()), ("bucket", "key")),
        other => panic!("unexpected {:?}", other),
    }
    s.succeed("");
    assert_eq!(s.phase(), Phase::Succeeded);
    assert!(is_finished(&s, Ok(())));
    s.fail();
    s.succeed("x");
    assert_eq!(s.phase(), Phase::Succeeded);
}

#[test]
fn first_failure_decides() {
    let mut s = Submission::new("repo", "master", "bucket", "key");
    s.succeed("");
    s.succeed("/tmp/dir");
    s.succeed("");
    s.fail();
    assert_eq!(s.phase(), Phase::Failed(Effect::CloneRepo));
    s.succeed("");
    s.succeed("");
    assert!(is_finished(&s, Err(Effect::CloneRepo)));

    let mut s = Submission::new("repo", "master", "bucket", "key");
    s.fail();
    assert!(is_finished(&s, Err(Effect::MakeTempDir)));
}
