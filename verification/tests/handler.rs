use aws_push_code::effect::file::{FileSystem, FileSystemTypes, ToPath};
use aws_push_code::effect::repo::{Git, GitTypes};
use aws_push_code::effect::s3::{S3Types, S3};
use aws_push_code::effect::zip::{ArchiveEntry, ArchiveOp, Zip, ZipTypes};
use aws_push_code::handler::{accept_event, branch_of, perform_work, trim_start_matches, HookEvent, PushConfig, Repository};
use aws_push_code::submit::SubmitTypes;

fn event(repo_ref: &str) -> HookEvent {
    HookEvent {
        repo_ref: repo_ref.to_owned(),
        repository: Repository {
            git_http_url: "https://gitlab.example.com/group/project.git".to_owned(),
            git_ssh_url: "git@gitlab.example.com:group/project.git".to_owned(),
        },
    }
}

#[test]
fn branch_of_head_refs() {
    assert_eq!(branch_of("refs/heads/feature"), "feature");
    assert_eq!(branch_of("refs/heads/release/2.0"), "release/2.0");
    assert_eq!(branch_of("refs/heads/refs/heads/twice"), "twice");
    assert_eq!(branch_of("refs/heads/"), "");
}

#[test]
fn branch_of_other_refs_is_master() {
    assert_eq!(branch_of("refs/tags/v1.0"), "master");
    assert_eq!(branch_of("feature"), "master");
    assert_eq!(branch_of(""), "master");
    assert_eq!(branch_of("refs/heads"), "master");
}

#[test]
fn trim_start_matches_as_std() {
    for (s, p) in [("abababc", "ab"), ("xab", "ab"), ("", "ab"), ("abc", ""), ("ééx", "é"), ("aaa", "aa")] {
        assert_eq!(trim_start_matches(s, p), s.trim_start_matches(p));
    }
}

#[test]
fn accept_event_builds_the_work() {
    let config = accept_event(&event("refs/heads/develop"), "sourcebucket");
    assert_eq!(config.source_url, "git@gitlab.example.com:group/project.git");
    assert_eq!(config.source_target, "develop");
    assert_eq!(config.dest_bucket, "sourcebucket");
    assert_eq!(config.dest_key, "develop.zip");

    let config = accept_event(&event("refs/tags/v2"), "b");
    assert_eq!(config.source_target, "master");
    assert_eq!(config.dest_key, "master.zip");
}

struct Dir(String);

impl ToPath for Dir {
    type Error = String;
    fn to_path(&self) -> Result<String, String> {
        Ok(self.0.clone())
    }
}

/// Records the clones it is asked for and fails the uploads to `badbucket`.
struct Recorder(Vec<String>);

impl FileSystemTypes for Recorder {
    type Error = String;
}
impl FileSystem for Recorder {
    type TempFile = String;
    type TempDirectory = Dir;
    fn mk_temp_dir_n(&mut self) -> Result<Dir, String> {
        Ok(Dir("tmp".to_owned()))
    }
    fn mk_temp_file_n(&mut self) -> Result<String, String> {
        Ok("archive".to_owned())
    }
}
impl GitTypes for Recorder {
    type Error = String;
}
impl Git for Recorder {
    type Repo = String;
    type Commit = String;
    fn clone_into(&mut self, from: &str, to: &str) -> Result<String, String> {
        Ok(format!("{} {}", from, to))
    }
    fn find_commit(&mut self, _repo: &String, id: &str) -> Result<String, String> {
        Err(format!("no commit {}", id))
    }
    fn find_reference(&mut self, _repo: &String, name: &str) -> Option<Result<String, String>> {
        name.strip_prefix("refs/remotes/origin/").map(|b| Ok(b.to_owned()))
    }
    fn unresolved_target(&mut self, target: &str) -> String {
        format!("no target {}", target)
    }
    fn check_out(&mut self, repo: &String, _dir: &str, commit: &String) -> Result<(), String> {
        self.0.push(format!("{} {}", repo, commit));
        Ok(())
    }
}
impl ZipTypes for Recorder {
    type Error = String;
    type File = String;
}
impl Zip for Recorder {
    fn walk_directory(&mut self, _dir: &str) -> Result<Vec<ArchiveEntry>, String> {
        Ok(Vec::new())
    }
    fn entry_name_fault(&mut self, name: &str) -> String {
        format!("bad name {}", name)
    }
    fn write_archive(&mut self, _dir: &str, _to: &String, _ops: &Vec<ArchiveOp>) -> Result<(), String> {
        Ok(())
    }
}
impl S3Types for Recorder {
    type Error = String;
    type File = String;
}
impl S3 for Recorder {
    fn put_object_file(&mut self, _file: &String, bucket: &str, key: &str) -> Result<(), String> {
        if bucket == "badbucket" {
            Err(format!("cannot put {}", key))
        } else {
            Ok(())
        }
    }
}
impl SubmitTypes for Recorder {
    type Error = String;
}

fn config(url: &str, target: &str, bucket: &str, key: &str) -> PushConfig {
    PushConfig {
        source_url: url.to_owned(),
        source_target: target.to_owned(),
        dest_bucket: bucket.to_owned(),
        dest_key: key.to_owned(),
    }
}

#[test]
fn perform_work_in_order_until_a_failure() {
    let mut r = Recorder(Vec::new());
    let work = vec![
        config("repo1", "develop", "bucket", "develop.zip"),
        config("repo2", "master", "badbucket", "master.zip"),
        config("repo3", "master", "bucket", "master.zip"),
    ];
    assert_eq!(perform_work(&mut r, &work), Err("cannot put master.zip".to_owned()));
    assert_eq!(r.0, vec!["repo1 tmp develop".to_owned(), "repo2 tmp master".to_owned()]);

    let mut r = Recorder(Vec::new());
    assert_eq!(perform_work(&mut r, &vec![config("repo1", "develop", "bucket", "develop.zip")]), Ok(()));
    assert_eq!(perform_work(&mut r, &Vec::new()), Ok(()));
    assert_eq!(r.0, vec!["repo1 tmp develop".to_owned()]);
}
