use aws_push_code::effect::repo::{clone_repo, Git, GitTypes};
use aws_push_code::effect::zip::{zip_directory, ArchiveEntry, ArchiveOp, Zip, ZipTypes};

/// A runtime whose clone holds the given commits, branches and tags, and
/// whose directory walk gives the given entries.
struct Fake {
    commits: Vec<&'static str>,
    branches: Vec<(&'static str, &'static str)>,
    tags: Vec<(&'static str, &'static str)>,
    entries: Option<Vec<(&'static str, bool)>>,
    written: Option<Vec<ArchiveOp>>,
    calls: Vec<String>,
}

fn fake() -> Fake {
    Fake {
        commits: vec!["cafe"],
        branches: vec![("main", "b1"), ("both", "b2")],
        tags: vec![("v1", "t1"), ("both", "t2")],
        entries: None,
        written: None,
        calls: Vec::new(),
    }
}

impl GitTypes for Fake {
    type Error = String;
}

impl Git for Fake {
    type Repo = ();
    type Commit = String;
    fn clone_into(&mut self, from: &str, to: &str) -> Result<(), String> {
        self.calls.push(format!("clone_into {} {}", from, to));
        if from == "unreachable" {
            Err("cannot clone".to_owned())
        } else {
            Ok(())
        }
    }
    fn find_commit(&mut self, _repo: &(), id: &str) -> Result<String, String> {
        self.calls.push(format!("find_commit {}", id));
        if self.commits.contains(&id) {
            Ok(id.to_owned())
        } else {
            Err(format!("no commit {}", id))
        }
    }
    fn find_reference(&mut self, _repo: &(), name: &str) -> Option<Result<String, String>> {
        self.calls.push(format!("find_reference {}", name));
        let (table, short) = if let Some(b) = name.strip_prefix("refs/remotes/origin/") {
            (&self.branches, b)
        } else if let Some(t) = name.strip_prefix("refs/tags/") {
            (&self.tags, t)
        } else {
            return None;
        };
        table.iter().find(|(n, _)| *n == short).map(|(_, c)| Ok((*c).to_owned()))
    }
    fn unresolved_target(&mut self, _target: &str) -> String {
        "this is not what we really want to do for error".to_owned()
    }
    fn check_out(&mut self, _repo: &(), dir: &str, commit: &String) -> Result<(), String> {
        self.calls.push(format!("check_out {} {}", dir, commit));
        Ok(())
    }
}

impl ZipTypes for Fake {
    type Error = String;
    type File = String;
}

impl Zip for Fake {
    fn walk_directory(&mut self, dir: &str) -> Result<Vec<ArchiveEntry>, String> {
        self.calls.push(format!("walk_directory {}", dir));
        match &self.entries {
            Some(es) => Ok(es.iter().map(|(n, f)| ArchiveEntry { name: (*n).to_owned(), is_file: *f }).collect()),
            None => Err("not a directory".to_owned()),
        }
    }
    fn entry_name_fault(&mut self, name: &str) -> String {
        format!("cannot cut {}", name)
    }
    fn write_archive(&mut self, dir: &str, to: &String, ops: &Vec<ArchiveOp>) -> Result<(), String> {
        self.calls.push(format!("write_archive {} {}", dir, to));
        self.written = Some(ops.iter().map(copy_op).collect());
        Ok(())
    }
}

fn copy_op(op: &ArchiveOp) -> ArchiveOp {
    match op {
        ArchiveOp::CopyFile(n) => ArchiveOp::CopyFile(n.clone()),
        ArchiveOp::AddDirectory(n) => ArchiveOp::AddDirectory(n.clone()),
        ArchiveOp::WriteFile(n, t) => ArchiveOp::WriteFile(n.clone(), t.clone()),
    }
}

#[test]
fn clone_object_id_is_looked_up_as_a_commit_only() {
    let mut r = fake();
    assert_eq!(clone_repo(&mut r, "repo", "/d", "cafe"), Ok(()));
    assert_eq!(r.calls, vec!["clone_into repo /d", "find_commit cafe", "check_out /d cafe"]);

    let mut r = fake();
    assert_eq!(clone_repo(&mut r, "repo", "/d", "beef"), Err("no commit beef".to_owned()));
    assert_eq!(r.calls, vec!["clone_into repo /d", "find_commit beef"]);
}

#[test]
fn clone_prefers_the_remote_branch_then_the_tag() {
    let mut r = fake();
    assert_eq!(clone_repo(&mut r, "repo", "/d", "both"), Ok(()));
    assert_eq!(r.calls, vec!["clone_into repo /d", "find_reference refs/remotes/origin/both", "check_out /d b2"]);

    let mut r = fake();
    assert_eq!(clone_repo(&mut r, "repo", "/d", "v1"), Ok(()));
    assert_eq!(
        r.calls,
        vec![
            "clone_into repo /d",
            "find_reference refs/remotes/origin/v1",
            "find_reference refs/tags/v1",
            "check_out /d t1",
        ]
    );
}

#[test]
fn clone_of_a_target_that_names_nothing_fails_without_checkout() {
    let mut r = fake();
    assert_eq!(
        clone_repo(&mut r, "repo", "/d", "nowhere"),
        Err("this is not what we really want to do for error".to_owned())
    );
    assert_eq!(
        r.calls,
        vec!["clone_into repo /d", "find_reference refs/remotes/origin/nowhere", "find_reference refs/tags/nowhere"]
    );
}

#[test]
fn clone_failure_stops_everything() {
    let mut r = fake();
    assert_eq!(clone_repo(&mut r, "unreachable", "/d", "main"), Err("cannot clone".to_owned()));
    assert_eq!(r.calls, vec!["clone_into unreachable /d"]);
}

#[test]
fn zip_writes_the_planned_archive() {
    let mut r = Fake {
        entries: Some(vec![
            ("", false),
            (".gitignore", true),
            (".git", false),
            (".git/HEAD", true),
            ("src", false),
            ("src/main.rs", true),
            (".gitattributes", true),
        ]),
        ..fake()
    };
    assert_eq!(zip_directory(&mut r, "/d", &"arch".to_owned()), Ok(()));
    assert_eq!(r.calls, vec!["walk_directory /d", "write_archive /d arch"]);
    assert_eq!(
        r.written,
        Some(vec![
            ArchiveOp::CopyFile(".gitignore".to_owned()),
            ArchiveOp::AddDirectory("src".to_owned()),
            ArchiveOp::CopyFile("src/main.rs".to_owned()),
            ArchiveOp::CopyFile(".gitattributes".to_owned()),
            ArchiveOp::WriteFile("cjbuildinfo.json".to_owned(), "{\"commit\":\"abc12349024\"}".to_owned()),
        ])
    );
}

#[test]
fn zip_stops_on_a_name_it_cannot_cut() {
    let mut r = Fake { entries: Some(vec![("", false), ("ok", true), ("abcdé", true), ("x", true)]), ..fake() };
    assert_eq!(zip_directory(&mut r, "/d", &"arch".to_owned()), Err("cannot cut abcdé".to_owned()));
    assert_eq!(r.calls, vec!["walk_directory /d"]);
    assert_eq!(r.written, None);
}

#[test]
fn zip_of_what_is_not_a_directory_fails() {
    let mut r = fake();
    assert_eq!(zip_directory(&mut r, "/nowhere", &"arch".to_owned()), Err("not a directory".to_owned()));
    assert_eq!(r.written, None);
}
