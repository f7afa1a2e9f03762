use std::collections::{HashMap, HashSet};

use rslprompt::background::BackgroundData;
use rslprompt::context::git::{GitContext, GitOperations, GitStatus};
use rslprompt::context::head::{HeadQuery, HeadRequest};
use rslprompt::context::query::{GitContextQuery, GitReply, GitRequest};
use rslprompt::context::AsyncValue;
use rslprompt::context::root::RootSearch;
use rslprompt::path::FsPath;

struct Repo {
    files: HashMap<String, String>,
    symbolic: Option<String>,
    revs: HashMap<String, String>,
}

fn run(repo: &Repo) -> (Option<String>, Option<String>, Option<String>, usize) {
    let mut q = HeadQuery::start(FsPath::parse("/r/.git"), FsPath::parse("/r/.git"));
    let mut steps = 0;
    loop {
        let reply = match q.request() {
            HeadRequest::ReadFile(p) => repo.files.get(&p.display()).cloned(),
            HeadRequest::SymbolicRef => repo.symbolic.clone(),
            HeadRequest::RevParse(r) => repo.revs.get(&r).cloned(),
            HeadRequest::Done => break,
        };
        q = q.answer(reply);
        steps += 1;
    }
    let (a, b, c) = q.result();
    (a, b, c, steps)
}

fn repo(files: &[(&str, &str)]) -> Repo {
    Repo {
        files: files.iter().map(|(k, v)| (k.to_string(), v.to_string())).collect(),
        symbolic: None,
        revs: HashMap::new(),
    }
}

#[test]
fn branch_with_loose_refs() {
    let r = repo(&[
        ("/r/.git/HEAD", "ref: refs/heads/feature/x\n"),
        ("/r/.git/refs/heads/feature/x", "aaa\n"),
        ("/r/.git/refs/remotes/origin/feature/x", "bbb\n"),
    ]);
    let (h, s, rs, steps) = run(&r);
    assert_eq!(h.as_deref(), Some("feature/x"));
    assert_eq!(s.as_deref(), Some("aaa"));
    assert_eq!(rs.as_deref(), Some("bbb"));
    assert!(steps <= 8);
}

#[test]
fn branch_with_packed_refs_and_missing_remote() {
    let mut r = repo(&[
        ("/r/.git/HEAD", "ref: refs/heads/main"),
        ("/r/.git/packed-refs", "# comment\nccc refs/heads/main\n"),
    ]);
    r.revs.insert("refs/remotes/origin/main".to_string(), "ddd".to_string());
    let (h, s, rs, _) = run(&r);
    assert_eq!(h.as_deref(), Some("main"));
    assert_eq!(s.as_deref(), Some("ccc"));
    assert_eq!(rs.as_deref(), Some("ddd"));
}

#[test]
fn detached_head() {
    let r = repo(&[("/r/.git/HEAD", "  0123456789abcdef\n")]);
    let (h, s, rs, steps) = run(&r);
    assert_eq!(h, None);
    assert_eq!(s.as_deref(), Some("0123456789abcdef"));
    assert_eq!(rs, None);
    assert_eq!(steps, 1);
}

#[test]
fn missing_head_file() {
    let r = repo(&[]);
    assert_eq!(run(&r), (None, None, None, 1));
}

#[test]
fn reftable_placeholder_asks_git() {
    let mut r = repo(&[("/r/.git/HEAD", "ref: refs/heads/.invalid\n")]);
    r.symbolic = Some("dev".to_string());
    r.revs.insert("refs/heads/dev".to_string(), "eee".to_string());
    let (h, s, rs, _) = run(&r);
    assert_eq!(h.as_deref(), Some("dev"));
    assert_eq!(s.as_deref(), Some("eee"));
    assert_eq!(rs, None);

    let mut r = repo(&[("/r/.git/HEAD", "ref: refs/heads/.invalid\n")]);
    r.revs.insert("HEAD".to_string(), "fff".to_string());
    let (h, s, rs, _) = run(&r);
    assert_eq!(h, None);
    assert_eq!(s.as_deref(), Some("fff"));
    assert_eq!(rs, None);
}

fn find_root(start: &str, markers: &[&str]) -> Option<String> {
    let markers: HashSet<String> = markers.iter().map(|m| m.to_string()).collect();
    let mut search = RootSearch::start(FsPath::parse(start));
    while let Some(p) = search.request() {
        let found = markers.contains(&p.display());
        search = search.answer(found);
    }
    search.result().map(|p| p.display())
}

#[test]
fn root_is_the_nearest_ancestor_with_git() {
    assert_eq!(find_root("/a/b/c", &["/a/.git", "/a/b/.git"]).as_deref(), Some("/a/b"));
    assert_eq!(find_root("/a/b/c", &["/.git"]).as_deref(), Some("/"));
    assert_eq!(find_root("/a/b/c", &["/a/b/c/.git"]).as_deref(), Some("/a/b/c"));
    assert_eq!(find_root("/a/b/c", &[]), None);
}

struct Tree {
    dirs: HashSet<String>,
    files: HashMap<String, String>,
    data: Option<Option<bool>>,
}

fn tree(dirs: &[&str], files: &[(&str, &str)], data: Option<Option<bool>>) -> Tree {
    Tree {
        dirs: dirs.iter().map(|d| d.to_string()).collect(),
        files: files.iter().map(|(k, v)| (k.to_string(), v.to_string())).collect(),
        data,
    }
}

/// Runs the search for the Git context against `t`; also gives the number of
/// requests and the keys the background job was asked with.
fn gather(
    t: &Tree,
    cwd: &str,
    pid: Option<i32>,
    exec_no: Option<u64>,
) -> (Option<GitContext>, usize, Vec<(i32, u64)>) {
    let mut q = GitContextQuery::start(FsPath::parse(cwd), pid, exec_no);
    let mut steps = 0;
    let mut keys = Vec::new();
    loop {
        let reply = match q.request() {
            GitRequest::HasGitEntry(p) | GitRequest::Exists(p) => {
                let p = p.display();
                GitReply::Flag(t.dirs.contains(&p) || t.files.contains_key(&p))
            }
            GitRequest::IsDir(p) => GitReply::Flag(t.dirs.contains(&p.display())),
            GitRequest::ReadFile(p) => GitReply::Text(t.files.get(&p.display()).cloned()),
            GitRequest::SymbolicRef => GitReply::Text(None),
            GitRequest::RevParse(_) => GitReply::Text(None),
            GitRequest::Background(k) => {
                keys.push((k.pid(), k.exec_no()));
                GitReply::Data(t.data.map(|d| BackgroundData { has_changes: d }))
            }
            GitRequest::Done => break,
        };
        q = q.answer(reply);
        steps += 1;
    }
    assert!(q.is_done());
    (q.result(), steps, keys)
}

#[test]
fn git_context_of_a_plain_repository() {
    let t = tree(
        &["/r/.git", "/r/.git/rebase-merge"],
        &[
            ("/r/.git/HEAD", "ref: refs/heads/main\n"),
            ("/r/.git/refs/heads/main", "aaa\n"),
            ("/r/.git/packed-refs", "bbb refs/remotes/origin/main\n"),
            ("/r/.git/logs/refs/stash", "one\ntwo\n"),
            ("/r/.git/MERGE_HEAD", "ccc\n"),
        ],
        None,
    );
    let (g, _, keys) = gather(&t, "/r/src/deep", None, None);
    let g = g.unwrap();
    assert_eq!(g.head_ref(), Some("main"));
    assert_eq!(g.head_sha(), Some("aaa"));
    assert_eq!(g.remote_head_sha(), Some("bbb"));
    assert_eq!(g.num_stashes(), 2);
    assert_eq!(g.operations(), &[GitOperations::Merge, GitOperations::RebaseMerge]);
    assert!(matches!(g.status(), AsyncValue::Pending));
    assert!(keys.is_empty());
}

#[test]
fn git_context_of_a_linked_worktree() {
    let t = tree(
        &["/r/.git", "/r/.git/worktrees/w"],
        &[
            ("/w/.git", "gitdir: /r/.git/worktrees/w\n"),
            ("/r/.git/worktrees/w/commondir", "/r/.git\n"),
            ("/r/.git/worktrees/w/HEAD", "ref: refs/heads/feat\n"),
            ("/r/.git/worktrees/w/CHERRY_PICK_HEAD", "x\n"),
            ("/r/.git/refs/heads/feat", "ddd\n"),
            ("/r/.git/logs/refs/stash", "s\n"),
            ("/r/.git/MERGE_HEAD", "y\n"),
        ],
        None,
    );
    let (g, _, _) = gather(&t, "/w/sub", None, None);
    let g = g.unwrap();
    assert_eq!(g.head_ref(), Some("feat"));
    assert_eq!(g.head_sha(), Some("ddd"));
    assert_eq!(g.remote_head_sha(), None);
    assert_eq!(g.num_stashes(), 1);
    assert_eq!(g.operations(), &[GitOperations::CherryPick]);
}

#[test]
fn git_context_relative_gitdir_and_detached_head() {
    let t = tree(
        &["/r/.git", "/r/.git/worktrees/w"],
        &[
            ("/r/w/.git", "gitdir: ../.git/worktrees/w"),
            ("/r/w/../.git/worktrees/w/HEAD", "0123456789\n"),
        ],
        None,
    );
    let (g, _, _) = gather(&t, "/r/w", None, None);
    let g = g.unwrap();
    assert_eq!(g.head_ref(), None);
    assert_eq!(g.head_sha(), Some("0123456789"));
    assert_eq!(g.num_stashes(), 0);
    assert!(g.operations().is_empty());
}

#[test]
fn no_git_context_without_root_or_git_dir() {
    let t = tree(&[], &[], None);
    let (g, steps, _) = gather(&t, "/x/y", Some(1), Some(2));
    assert!(g.is_none());
    assert_eq!(steps, 3);

    let t = tree(&[], &[("/w/.git", "not a link\n")], None);
    let (g, _, _) = gather(&t, "/w", None, None);
    assert!(g.is_none());
}

#[test]
fn git_context_status_comes_from_the_background_job() {
    let files = [("/r/.git/HEAD", "ref: refs/heads/main\n")];
    let t = tree(&["/r/.git"], &files, Some(Some(true)));
    let (g, _, keys) = gather(&t, "/r", Some(42), Some(7));
    assert!(matches!(g.unwrap().status(), AsyncValue::Ready(Some(GitStatus::Dirty))));
    assert_eq!(keys, vec![(42, 7)]);

    let (g, _, keys) = gather(&t, "/r", Some(42), None);
    assert!(matches!(g.unwrap().status(), AsyncValue::Pending));
    assert!(keys.is_empty());

    let t = tree(&["/r/.git"], &files, None);
    let (g, _, keys) = gather(&t, "/r", Some(42), Some(7));
    assert!(matches!(g.unwrap().status(), AsyncValue::Pending));
    assert_eq!(keys.len(), 1);
}
