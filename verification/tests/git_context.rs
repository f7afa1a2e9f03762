use rslprompt::background::BackgroundData;
use rslprompt::context::git::{
    all_operations, command_output_text, get_git_operations, get_num_stashes, lookup_packed_ref,
    resolve_common_dir, resolve_git_dir, GitContext, GitOperations, GitStatus,
};
use rslprompt::context::AsyncValue;
use rslprompt::path::FsPath;

#[test]
fn operation_letters_and_files() {
    let ops = all_operations();
    let letters: Vec<&str> = ops.iter().map(|o| o.symbolic_letter()).collect();
    assert_eq!(letters, vec!["P", "M", "B", "R", "r"]);
    let files: Vec<&str> = ops.iter().map(|o| o.filename()).collect();
    assert_eq!(
        files,
        vec!["CHERRY_PICK_HEAD", "MERGE_HEAD", "BISECT_LOG", "rebase-apply", "rebase-merge"]
    );
}

#[test]
fn status_from_has_changes() {
    assert_eq!(GitStatus::from_has_changes(true), GitStatus::Dirty);
    assert_eq!(GitStatus::from_has_changes(false), GitStatus::Clean);
}

#[test]
fn operations_in_progress_keep_their_order() {
    let ops = get_git_operations(&[false, true, false, false, true]);
    assert_eq!(ops, vec![GitOperations::Merge, GitOperations::RebaseMerge]);
    assert!(get_git_operations(&[false; 5]).is_empty());
    assert_eq!(get_git_operations(&[true]), vec![GitOperations::CherryPick]);
}

#[test]
fn git_dir_of_a_plain_repository() {
    let root = FsPath::parse("/repo");
    let d = resolve_git_dir(&root, true, None).unwrap();
    assert_eq!(d.display(), "/repo/.git");
}

#[test]
fn git_dir_of_a_worktree() {
    let root = FsPath::parse("/wt");
    let rel = resolve_git_dir(&root, false, Some("gitdir: ../main/.git/worktrees/wt\n".to_string()));
    assert_eq!(rel.unwrap().display(), "/wt/../main/.git/worktrees/wt");
    let abs = resolve_git_dir(&root, false, Some("  gitdir: /main/.git/worktrees/wt ".to_string()));
    assert_eq!(abs.unwrap().display(), "/main/.git/worktrees/wt");
    assert!(resolve_git_dir(&root, false, Some("nonsense".to_string())).is_none());
    assert!(resolve_git_dir(&root, false, None).is_none());
}

#[test]
fn common_dir() {
    let g = FsPath::parse("/main/.git/worktrees/wt");
    assert_eq!(resolve_common_dir(&g, Some("../..\n".to_string())).display(), "/main/.git/worktrees/wt/../..");
    assert_eq!(resolve_common_dir(&g, None).display(), "/main/.git/worktrees/wt");
}

#[test]
fn stash_count_is_line_count() {
    assert_eq!(get_num_stashes(None), 0);
    assert_eq!(get_num_stashes(Some(String::new())), 0);
    assert_eq!(get_num_stashes(Some("a\nb\nc\n".to_string())), 3);
}

#[test]
fn packed_refs_lookup() {
    let contents = "# pack-refs with: peeled fully-peeled sorted\n\
                    1111 refs/heads/main\n\
                    ^2222\n\
                    3333 refs/remotes/origin/main\n\
                    4444 refs/heads/main\n";
    assert_eq!(lookup_packed_ref(contents, "refs/heads/main"), Some("1111".to_string()));
    assert_eq!(lookup_packed_ref(contents, "refs/remotes/origin/main"), Some("3333".to_string()));
    assert_eq!(lookup_packed_ref(contents, "refs/heads/other"), None);
    assert_eq!(lookup_packed_ref("#x refs/heads/main\n", "refs/heads/main"), None);
    assert_eq!(lookup_packed_ref("", "refs/heads/main"), None);
}

#[test]
fn command_output() {
    assert_eq!(command_output_text(true, b"main\n".to_vec()), Some("main".to_string()));
    assert_eq!(command_output_text(false, b"main\n".to_vec()), None);
    assert_eq!(command_output_text(true, b"  \n".to_vec()), None);
    assert_eq!(command_output_text(true, vec![0xff, 0x61]), None);
    assert_eq!(command_output_text(true, "br\u{e9}\n".as_bytes().to_vec()), Some("br\u{e9}".to_string()));
}

#[test]
fn context_from_parts() {
    let g = GitContext::new(
        Some("main".to_string()),
        Some("abc".to_string()),
        None,
        2,
        vec![GitOperations::Bisect],
        Some(BackgroundData { has_changes: Some(true) }),
    );
    assert_eq!(g.head_ref(), Some("main"));
    assert_eq!(g.head_sha(), Some("abc"));
    assert_eq!(g.remote_head_sha(), None);
    assert_eq!(g.num_stashes(), 2);
    assert_eq!(g.operations(), &[GitOperations::Bisect]);
    assert!(matches!(g.status(), AsyncValue::Ready(Some(GitStatus::Dirty))));
    let pending = GitContext::new(None, None, None, 0, vec![], None);
    assert!(matches!(pending.status(), AsyncValue::Pending));
    let failed = GitContext::new(None, None, None, 0, vec![], Some(BackgroundData { has_changes: None }));
    assert!(matches!(failed.status(), AsyncValue::Ready(None)));
}

#[test]
fn async_value_from_option() {
    assert!(matches!(AsyncValue::from(Some(3u8)), AsyncValue::Ready(3)));
    assert!(matches!(AsyncValue::<u8>::from(None), AsyncValue::Pending));
}
