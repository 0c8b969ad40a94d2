use aws_push_code::effect::zip::{archive_plan, build_info, keeps_entry, ArchiveEntry, ArchiveOp};

fn entry(name: &str, is_file: bool) -> ArchiveEntry {
    ArchiveEntry { name: name.to_owned(), is_file }
}

#[test]
fn keeps_everything_but_git() {
    assert!(!keeps_entry(".git"));
    assert!(!keeps_entry(".git/config"));
    assert!(!keeps_entry(".git/objects/ab/cdef"));
    assert!(keeps_entry(""));
    assert!(keeps_entry(".gitignore"));
    assert!(keeps_entry(".git2"));
    assert!(keeps_entry("src/.git/x"));
    assert!(keeps_entry("README.md"));
    assert!(keeps_entry("abcdeé"));
    assert!(keeps_entry("abcd"));
}

#[test]
fn build_info_is_json() {
    assert_eq!(build_info("abc12349024"), "{\"commit\":\"abc12349024\"}");
    assert_eq!(build_info(""), "{\"commit\":\"\"}");
}

#[test]
fn plan_of_a_checkout() {
    let entries = vec![
        entry("", false),
        entry(".git", false),
        entry(".git/HEAD", true),
        entry(".gitignore", true),
        entry("src", false),
        entry("src/main.rs", true),
        entry("commit-id", true),
    ];
    let ops = archive_plan(&entries);
    assert_eq!(
        ops,
        vec![
            ArchiveOp::CopyFile(".gitignore".to_owned()),
            ArchiveOp::AddDirectory("src".to_owned()),
            ArchiveOp::CopyFile("src/main.rs".to_owned()),
            ArchiveOp::CopyFile("commit-id".to_owned()),
            ArchiveOp::WriteFile("cjbuildinfo.json".to_owned(), "{\"commit\":\"abc12349024\"}".to_owned()),
        ]
    );
}

#[test]
fn plan_of_nothing_is_the_build_info() {
    assert_eq!(
        archive_plan(&Vec::new()),
        vec![ArchiveOp::WriteFile("cjbuildinfo.json".to_owned(), "{\"commit\":\"abc12349024\"}".to_owned())]
    );
}
