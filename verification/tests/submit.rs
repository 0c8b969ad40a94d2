use aws_push_code::effect::file::{FileSystem, FileSystemTypes, ToPath};
use aws_push_code::effect::repo::{Git, GitTypes};
use aws_push_code::effect::s3::{S3Types, S3};
use aws_push_code::effect::zip::{ArchiveEntry, ArchiveOp, Zip, ZipTypes};
use aws_push_code::submit::{Submit, SubmitTypes};

#[derive(Debug, Clone, PartialEq)]
struct Handle(String);

impl ToPath for Handle {
    type Error = ();
    fn to_path(&self) -> Result<String, Self::Error> {
        Ok(self.0.clone())
    }
}

struct Fs(Option<String>, Option<String>);

impl Fs {
    fn mk_temp_dir_n(&self) -> Result<Handle, ()> {
        match &self.0 {
            Some(p) => Ok(Handle(p.clone())),
            None => Err(()),
        }
    }
    fn mk_temp_file_n(&self) -> Result<Handle, ()> {
        match &self.1 {
            Some(p) => Ok(Handle(p.clone())),
            None => Err(()),
        }
    }
}

struct GitMock(Option<(String, String, String)>);

impl GitMock {
    fn clone_into(&self, from: &str, to: &str) -> Result<(), ()> {
        match &self.0 {
            Some((f, t, _)) if f == from && t == to => Ok(()),
            _ => Err(()),
        }
    }
    fn find_reference(&self, name: &str) -> Option<Result<(), ()>> {
        match &self.0 {
            Some((_, _, targ)) if name == format!("refs/remotes/origin/{}", targ) => Some(Ok(())),
            _ => None,
        }
    }
}

struct ZipMock(Option<(String, String)>);

impl ZipMock {
    fn walk_directory(&self, dir: &str) -> Result<Vec<ArchiveEntry>, ()> {
        match &self.0 {
            Some((f, _)) if f == dir => Ok(vec![ArchiveEntry { name: String::new(), is_file: false }]),
            _ => Err(()),
        }
    }
    fn write_archive(&self, to: &Handle, ops: &Vec<ArchiveOp>) -> Result<(), ()> {
        match &self.0 {
            Some((_, t)) if *t == to.0 && ops.len() == 1 => Ok(()),
            _ => Err(()),
        }
    }
}

struct S3Mock(Option<(String, String, String)>);

impl S3Mock {
    fn put_object_file(&self, from: &Handle, bucket: &str, key: &str) -> Result<(), ()> {
        match &self.0 {
            Some((f, b, k)) => {
                if from.0 == *f && b == bucket && k == key {
                    Ok(())
                } else {
                    Err(())
                }
            }
            _ => Err(()),
        }
    }
}

struct R2 {
    tmpdir: Option<String>,
    tmpfile: Option<String>,
    git: GitMock,
    zip: ZipMock,
    s3: S3Mock,
    calls: Vec<String>,
}

impl R2 {
    fn test_case(repo: &str, bucket: &str, key: &str, target: &str) -> R2 {
        let tmpdir = "X29304";
        let tmpfile = "90a90AAC";

        R2 {
            tmpdir: Some(tmpdir.to_owned()),
            tmpfile: Some(tmpfile.to_owned()),
            git: GitMock(Some((repo.to_owned(), tmpdir.to_owned(), target.to_owned()))),
            zip: ZipMock(Some((tmpdir.to_owned(), tmpfile.to_owned()))),
            s3: S3Mock(Some((tmpfile.to_owned(), bucket.to_owned(), key.to_owned()))),
            calls: Vec::new(),
        }
    }
}

impl FileSystemTypes for R2 {
    type Error = ();
}

impl FileSystem for R2 {
    type TempFile = Handle;
    type TempDirectory = Handle;
    fn mk_temp_dir_n(&mut self) -> Result<Handle, ()> {
        self.calls.push("mk_temp_dir_n".to_owned());
        Fs(self.tmpdir.clone(), self.tmpfile.clone()).mk_temp_dir_n()
    }
    fn mk_temp_file_n(&mut self) -> Result<Handle, ()> {
        self.calls.push("mk_temp_file_n".to_owned());
        Fs(self.tmpdir.clone(), self.tmpfile.clone()).mk_temp_file_n()
    }
}

impl GitTypes for R2 {
    type Error = ();
}

impl Git for R2 {
    type Repo = ();
    type Commit = ();
    fn clone_into(&mut self, from: &str, to: &str) -> Result<(), ()> {
        self.calls.push(format!("clone_into {} {}", from, to));
        self.git.clone_into(from, to)
    }
    fn find_commit(&mut self, _repo: &(), id: &str) -> Result<(), ()> {
        self.calls.push(format!("find_commit {}", id));
        Err(())
    }
    fn find_reference(&mut self, _repo: &(), name: &str) -> Option<Result<(), ()>> {
        self.calls.push(format!("find_reference {}", name));
        self.git.find_reference(name)
    }
    fn unresolved_target(&mut self, target: &str) {
        self.calls.push(format!("unresolved_target {}", target));
    }
    fn check_out(&mut self, _repo: &(), dir: &str, _commit: &()) -> Result<(), ()> {
        self.calls.push(format!("check_out {}", dir));
        Ok(())
    }
}

impl ZipTypes for R2 {
    type Error = ();
    type File = Handle;
}

impl Zip for R2 {
    fn walk_directory(&mut self, dir: &str) -> Result<Vec<ArchiveEntry>, ()> {
        self.calls.push(format!("walk_directory {}", dir));
        self.zip.walk_directory(dir)
    }
    fn entry_name_fault(&mut self, _name: &str) {}
    fn write_archive(&mut self, dir: &str, to: &Handle, ops: &Vec<ArchiveOp>) -> Result<(), ()> {
        self.calls.push(format!("write_archive {} {}", dir, to.0));
        self.zip.write_archive(to, ops)
    }
}

impl S3Types for R2 {
    type Error = ();
    type File = Handle;
}

impl S3 for R2 {
    fn put_object_file(&mut self, file: &Handle, bucket: &str, key: &str) -> Result<(), ()> {
        self.calls.push(format!("put_object_file {} {} {}", file.0, bucket, key));
        self.s3.put_object_file(file, bucket, key)
    }
}

impl SubmitTypes for R2 {
    type Error = ();
}

#[test]
fn submit_happy() {
    let repo = "git@foo:thingbarnone";
    let bucket = "sourcebucket";
    let key = "sourceobjectname";

    let mut r = R2::test_case(repo, bucket, key, "master");

    let actual = r.submit_to_pipeline(repo, bucket, key);

    assert_eq!(actual, Ok(()));
}

#[test]
fn zip_error() {
    let repo = "git@foo:thingbarnone";
    let bucket = "sourcebucket";
    let key = "sourceobjectname";

    let mut r = R2 {
        zip: ZipMock(None),
        ..R2::test_case(repo, bucket, key, "master")
    };

    let actual = r.submit_to_pipeline(repo, bucket, key);

    assert_eq!(actual, Err(()));
}

#[test]
fn git_error() {
    let repo = "git@foo:thingbarnone";
    let bucket = "sourcebucket";
    let key = "sourceobjectname";

    let mut r = R2 {
        git: GitMock(None),
        ..R2::test_case(repo, bucket, key, "master")
    };

    let actual = r.submit_to_pipeline(repo, bucket, key);

    assert_eq!(actual, Err(()));
}

#[test]
fn tmpdir_error() {
    let repo = "git@foo:thingbarnone";
    let bucket = "sourcebucket";
    let key = "sourceobjectname";

    let mut r = R2 {
        tmpdir: None,
        ..R2::test_case(repo, bucket, key, "master")
    };

    let actual = r.submit_to_pipeline(repo, bucket, key);

    assert_eq!(actual, Err(()));
}

#[test]
fn tmpfile_error() {
    let repo = "git@foo:thingbarnone";
    let bucket = "sourcebucket";
    let key = "sourceobjectname";

    let mut r = R2 {
        tmpfile: None,
        ..R2::test_case(repo, bucket, key, "master")
    };

    let actual = r.submit_to_pipeline(repo, bucket, key);

    assert_eq!(actual, Err(()));
}

#[test]
fn put_error() {
    let repo = "git@foo:thingbarnone";
    let bucket = "sourcebucket";
    let key = "sourceobjectname";

    let mut r = R2 {
        s3: S3Mock(None),
        ..R2::test_case(repo, bucket, key, "master")
    };

    let actual = r.submit_to_pipeline(repo, bucket, key);

    assert_eq!(actual, Err(()));
}

#[test]
fn submit_clones_the_given_target() {
    let repo = "git@foo:thingbarnone";
    let bucket = "sourcebucket";
    let key = "sourceobjectname";

    let mut r = R2::test_case(repo, bucket, key, "feature");

    assert_eq!(r.submit_to_pipeline(repo, bucket, key), Err(()));
    assert_eq!(r.submit_target_to_pipeline(repo, "feature", bucket, key), Ok(()));
}

#[test]
fn submit_checks_bucket_and_key() {
    let repo = "git@foo:thingbarnone";
    let mut r = R2::test_case(repo, "sourcebucket", "sourceobjectname", "master");

    assert_eq!(r.submit_to_pipeline(repo, "otherbucket", "sourceobjectname"), Err(()));
    assert_eq!(r.submit_to_pipeline(repo, "sourcebucket", "otherkey"), Err(()));
    assert_eq!(r.submit_to_pipeline("git@foo:other", "sourcebucket", "sourceobjectname"), Err(()));
}

#[test]
fn submit_performs_effects_in_order() {
    let repo = "git@foo:thingbarnone";
    let mut r = R2::test_case(repo, "sourcebucket", "sourceobjectname", "master");
    assert_eq!(r.submit_to_pipeline(repo, "sourcebucket", "sourceobjectname"), Ok(()));
    assert_eq!(
        r.calls,
        vec![
            "mk_temp_dir_n".to_owned(),
            "mk_temp_file_n".to_owned(),
            "clone_into git@foo:thingbarnone X29304".to_owned(),
            "find_reference refs/remotes/origin/master".to_owned(),
            "check_out X29304".to_owned(),
            "walk_directory X29304".to_owned(),
            "write_archive X29304 90a90AAC".to_owned(),
            "put_object_file 90a90AAC sourcebucket sourceobjectname".to_owned(),
        ]
    );
}

#[test]
fn submit_stops_at_the_first_failure() {
    let repo = "git@foo:thingbarnone";
    let mut r = R2 {
        git: GitMock(None),
        ..R2::test_case(repo, "sourcebucket", "sourceobjectname", "master")
    };
    assert_eq!(r.submit_to_pipeline(repo, "sourcebucket", "sourceobjectname"), Err(()));
    assert_eq!(
        r.calls,
        vec![
            "mk_temp_dir_n".to_owned(),
            "mk_temp_file_n".to_owned(),
            "clone_into git@foo:thingbarnone X29304".to_owned(),
        ]
    );

    let mut r = R2 { tmpdir: None, ..R2::test_case(repo, "sourcebucket", "sourceobjectname", "master") };
    assert_eq!(r.submit_to_pipeline(repo, "sourcebucket", "sourceobjectname"), Err(()));
    assert_eq!(r.calls, vec!["mk_temp_dir_n".to_owned()]);
}
