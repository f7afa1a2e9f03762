//! Gathering the [`GitContext`] of the directory the prompt is drawn for.
//!
//! The search is a state machine, like its two parts
//! [`crate::context::root::RootSearch`] and
//! [`crate::context::head::HeadQuery`]: [`GitContextQuery::request`] says what
//! it needs to know next about the file system, `git`, or the background job,
//! and the caller hands the reply over with [`GitContextQuery::answer`] until
//! the request is [`GitRequest::Done`].
//!
//! In order, the search
//! - finds the repository root, the nearest ancestor with a `.git` entry;
//! - finds the git directory: `root/.git` when it is a directory, else the
//!   target of the `gitdir:` line of that file;
//! - finds the common directory from the `commondir` file of the git
//!   directory;
//! - finds the HEAD information (refs are read from the common directory);
//! - asks for the data of the background job, when the rendering has a key;
//! - counts the stashes in the stash reflog of the common directory;
//! - looks for the entries of operations in progress in the git directory.
//!
//! There is no context exactly when there is no root or the git directory
//! cannot be found.
use vstd::prelude::*;

use crate::background::{background_key, BackgroundData, CacheKey};
use crate::context::git::{
    all_operations, common_dir_spec, commondir_path, get_git_operations, get_num_stashes,
    git_marker, gitdir_target, operation_filename, operation_order, operation_path, opt_view,
    present_operations, resolve_common_dir, resolve_git_dir, stash_log_path, status_from_background,
    GitContext, GitView,
};
use crate::context::head::{
    git_head_info, head_measure, head_outcome, head_request, head_result, head_start, head_step,
    head_wf, lemma_head_step, HeadInfoView, HeadQuery, HeadQueryView, HeadRequest,
    HeadRequestView, HeadStage,
};
use crate::context::root::{
    marker, root_from, root_start, root_step, RootSearch, RootSearchView, RootState,
};
use crate::context::{exec_no_of, session_git, shell_pid_of};
use crate::path::{join_path, parse_path, FsPath, PathView};
use crate::text::lines;

verus! {

/// A step of the search for the Git context.
#[derive(Copy, Clone, PartialEq, Eq, Structural, Debug)]
pub enum GitStage {
    /// Looking for the repository root.
    Root,
    /// Waiting to learn whether `root/.git` is a directory.
    Marker,
    /// Waiting for the contents of the `root/.git` file.
    MarkerFile,
    /// Waiting for the `commondir` file of the git directory.
    CommonDir,
    /// Looking for the HEAD information.
    Head,
    /// Waiting for the data of the background job.
    Background,
    /// Waiting for the stash reflog.
    Stash,
    /// Looking for the entries of operations in progress.
    Operations,
    /// Done: the context is known.
    Finished,
    /// Done: there is no repository.
    NoRepository,
}

/// What the search needs next.
pub enum GitRequestView {
    HasGitEntry(PathView),
    IsDir(PathView),
    Exists(PathView),
    ReadFile(PathView),
    SymbolicRef,
    RevParse(Seq<char>),
    Background(int, nat),
    Done,
}

/// What the search needs next.
pub enum GitRequest {
    /// Whether this `.git` entry exists as a directory or a file
    /// ([`GitReply::Flag`]).
    HasGitEntry(FsPath),
    /// Whether this path is a directory ([`GitReply::Flag`]).
    IsDir(FsPath),
    /// Whether this path exists ([`GitReply::Flag`]).
    Exists(FsPath),
    /// The contents of this file, `None` if it cannot be read
    /// ([`GitReply::Text`]).
    ReadFile(FsPath),
    /// The output of `git symbolic-ref --short HEAD` in the repository root,
    /// through [`crate::context::git::command_output_text`]
    /// ([`GitReply::Text`]).
    SymbolicRef,
    /// The output of `git rev-parse <rev>` in the repository root, through
    /// [`crate::context::git::command_output_text`] ([`GitReply::Text`]).
    RevParse(String),
    /// The data of the background job of this rendering, `None` while there is
    /// none ([`GitReply::Data`]).
    Background(CacheKey),
    /// Nothing: the result is known.
    Done,
}

/// A reply to a request.
pub enum GitReply {
    Flag(bool),
    Text(Option<String>),
    Data(Option<BackgroundData>),
}

/// The model of a reply.
pub enum GitReplyView {
    Flag(bool),
    Text(Option<Seq<char>>),
    Data(Option<Option<bool>>),
}

/// The model of the data of a background job: whether the working tree has
/// changes, if that is known.
pub open spec fn data_view(d: Option<BackgroundData>) -> Option<Option<bool>> {
    match d {
        Some(x) => Some(x.has_changes),
        None => None,
    }
}

/// The model of a reply.
pub open spec fn reply_view(r: GitReply) -> GitReplyView {
    match r {
        GitReply::Flag(b) => GitReplyView::Flag(b),
        GitReply::Text(t) => GitReplyView::Text(opt_view(t)),
        GitReply::Data(d) => GitReplyView::Data(data_view(d)),
    }
}

/// The model of a cache key.
pub open spec fn key_view(k: Option<CacheKey>) -> Option<(int, nat)> {
    match k {
        Some(c) => Some((c.pid() as int, c.exec_no() as nat)),
        None => None,
    }
}

/// The model of a request.
pub open spec fn git_request_view(r: GitRequest) -> GitRequestView {
    match r {
        GitRequest::HasGitEntry(p) => GitRequestView::HasGitEntry(p@),
        GitRequest::IsDir(p) => GitRequestView::IsDir(p@),
        GitRequest::Exists(p) => GitRequestView::Exists(p@),
        GitRequest::ReadFile(p) => GitRequestView::ReadFile(p@),
        GitRequest::SymbolicRef => GitRequestView::SymbolicRef,
        GitRequest::RevParse(s) => GitRequestView::RevParse(s@),
        GitRequest::Background(k) => GitRequestView::Background(k.pid() as int, k.exec_no() as nat),
        GitRequest::Done => GitRequestView::Done,
    }
}

/// The flag of a reply (`false` for a reply of another kind).
pub open spec fn reply_flag(r: GitReplyView) -> bool {
    match r {
        GitReplyView::Flag(b) => b,
        _ => false,
    }
}

/// The text of a reply (`None` for a reply of another kind).
pub open spec fn reply_text(r: GitReplyView) -> Option<Seq<char>> {
    match r {
        GitReplyView::Text(t) => t,
        _ => None,
    }
}

/// The background data of a reply (`None` for a reply of another kind).
pub open spec fn reply_data(r: GitReplyView) -> Option<Option<bool>> {
    match r {
        GitReplyView::Data(d) => d,
        _ => None,
    }
}

/// Where the answers come from.
pub struct GitSources {
    /// Whether a `.git` entry exists as a directory or a file.
    pub has_git_entry: spec_fn(PathView) -> bool,
    /// Whether a path is a directory.
    pub is_dir: spec_fn(PathView) -> bool,
    /// Whether a path exists.
    pub exists: spec_fn(PathView) -> bool,
    /// The contents of a file, `None` if it cannot be read.
    pub read: spec_fn(PathView) -> Option<Seq<char>>,
    /// The text of `git symbolic-ref --short HEAD`.
    pub symbolic_ref: Option<Seq<char>>,
    /// The text of `git rev-parse <rev>`.
    pub rev_parse: spec_fn(Seq<char>) -> Option<Seq<char>>,
    /// The data of the background job of a rendering (shell pid, command
    /// count), `None` while there is none.
    pub background: spec_fn(int, nat) -> Option<Option<bool>>,
}

/// The reply that the sources give to a request.
pub open spec fn git_reply_from(req: GitRequestView, src: GitSources) -> GitReplyView {
    match req {
        GitRequestView::HasGitEntry(p) => GitReplyView::Flag((src.has_git_entry)(p)),
        GitRequestView::IsDir(p) => GitReplyView::Flag((src.is_dir)(p)),
        GitRequestView::Exists(p) => GitReplyView::Flag((src.exists)(p)),
        GitRequestView::ReadFile(p) => GitReplyView::Text((src.read)(p)),
        GitRequestView::SymbolicRef => GitReplyView::Text(src.symbolic_ref),
        GitRequestView::RevParse(r) => GitReplyView::Text((src.rev_parse)(r)),
        GitRequestView::Background(pid, n) => GitReplyView::Data((src.background)(pid, n)),
        GitRequestView::Done => GitReplyView::Flag(false),
    }
}

/// The entry of the operation at index `i` of [`operation_order`].
pub open spec fn operation_entry(git_dir: PathView, i: int) -> PathView {
    join_path(git_dir, parse_path(operation_filename(operation_order()[i])))
}

/// For each operation, whether its entry exists in the git directory.
pub open spec fn operation_flags(git_dir: PathView, src: GitSources) -> Seq<bool> {
    Seq::new(5, |i: int| (src.exists)(operation_entry(git_dir, i)))
}

/// The stash reflog of a common directory.
pub open spec fn stash_log(common_dir: PathView) -> PathView {
    join_path(common_dir, parse_path("logs/refs/stash"@))
}

/// The number of stashes: the lines of the stash reflog, none if unreadable.
pub open spec fn stash_count(common_dir: PathView, src: GitSources) -> nat {
    match (src.read)(stash_log(common_dir)) {
        Some(c) => lines(c).len(),
        None => 0,
    }
}

/// The data of the background job: none without a key.
pub open spec fn background_for(key: Option<(int, nat)>, src: GitSources) -> Option<Option<bool>> {
    match key {
        Some((pid, n)) => (src.background)(pid, n),
        None => None,
    }
}

/// The context made of its parts.
pub open spec fn context_of(
    info: HeadInfoView,
    background: Option<Option<bool>>,
    num_stashes: nat,
    flags: Seq<bool>,
) -> GitView {
    GitView {
        head_ref: info.0,
        head_sha: info.1,
        remote_head_sha: info.2,
        num_stashes,
        operations: present_operations(flags, 5),
        status: status_from_background(background),
    }
}

/// The context of a repository whose git directory is `git_dir`.
pub open spec fn context_from_git_dir(
    git_dir: PathView,
    key: Option<(int, nat)>,
    src: GitSources,
) -> GitView {
    let common_dir = common_dir_spec(git_dir, (src.read)(join_path(git_dir, parse_path("commondir"@))));
    context_of(
        git_head_info(git_dir, common_dir, src.read, src.symbolic_ref, src.rev_parse),
        background_for(key, src),
        stash_count(common_dir, src),
        operation_flags(git_dir, src),
    )
}

/// The context of the repository whose root is `root`: none when `root/.git`
/// is neither a directory nor a file that names the git directory.
pub open spec fn context_from_root(root: PathView, key: Option<(int, nat)>, src: GitSources) -> Option<
    GitView,
> {
    if (src.is_dir)(marker(root)) {
        Some(context_from_git_dir(marker(root), key, src))
    } else {
        match (src.read)(marker(root)) {
            Some(c) => match gitdir_target(root, c) {
                Some(g) => Some(context_from_git_dir(g, key, src)),
                None => None,
            },
            None => None,
        }
    }
}

/// The Git context of the directory `cwd`, for the rendering with `key`:
/// none when no ancestor has a `.git` entry or the git directory cannot be
/// found.
pub open spec fn git_context_spec(cwd: PathView, key: Option<(int, nat)>, src: GitSources) -> Option<
    GitView,
> {
    match root_from(cwd, src.has_git_entry) {
        Some(root) => context_from_root(root, key, src),
        None => None,
    }
}

/// The mathematical model of a [`GitContextQuery`].
pub struct GitQueryView {
    pub stage: GitStage,
    pub search: RootSearchView,
    pub key: Option<(int, nat)>,
    pub root: PathView,
    pub git_dir: PathView,
    pub common_dir: PathView,
    pub head: HeadQueryView,
    pub head_info: HeadInfoView,
    pub background: Option<Option<bool>>,
    pub num_stashes: nat,
    pub present: Seq<bool>,
}

/// The key of the background job of a rendering: the shell's process id and
/// its command count, when both are known.
pub open spec fn key_of(shell_pid: Option<i32>, exec_no: Option<u64>) -> Option<(int, nat)> {
    match (shell_pid, exec_no) {
        (Some(pid), Some(n)) => Some((pid as int, n as nat)),
        _ => None,
    }
}

/// The search before anything is known (the directories not found yet are
/// `cwd` until they are).
pub open spec fn git_query_start(cwd: PathView, key: Option<(int, nat)>) -> GitQueryView {
    GitQueryView {
        stage: GitStage::Root,
        search: root_start(cwd),
        key,
        root: cwd,
        git_dir: cwd,
        common_dir: cwd,
        head: head_start(cwd, cwd),
        head_info: (None, None, None),
        background: None,
        num_stashes: 0,
        present: Seq::empty(),
    }
}

/// What the search asks for next.
pub open spec fn git_query_request(v: GitQueryView) -> GitRequestView {
    match v.stage {
        GitStage::Root => GitRequestView::HasGitEntry(marker(v.search.current)),
        GitStage::Marker => GitRequestView::IsDir(marker(v.root)),
        GitStage::MarkerFile => GitRequestView::ReadFile(marker(v.root)),
        GitStage::CommonDir => GitRequestView::ReadFile(join_path(v.git_dir, parse_path("commondir"@))),
        GitStage::Head => match head_request(v.head) {
            HeadRequestView::ReadFile(p) => GitRequestView::ReadFile(p),
            HeadRequestView::SymbolicRef => GitRequestView::SymbolicRef,
            HeadRequestView::RevParse(r) => GitRequestView::RevParse(r),
            HeadRequestView::Done => GitRequestView::Done,
        },
        GitStage::Background => GitRequestView::Background(v.key.unwrap().0, v.key.unwrap().1),
        GitStage::Stash => GitRequestView::ReadFile(stash_log(v.common_dir)),
        GitStage::Operations => GitRequestView::Exists(operation_entry(v.git_dir, v.present.len() as int)),
        GitStage::Finished | GitStage::NoRepository => GitRequestView::Done,
    }
}

/// The search after the reply `r` to its request.
pub open spec fn git_query_step(v: GitQueryView, r: GitReplyView) -> GitQueryView {
    match v.stage {
        GitStage::Root => {
            let s = root_step(v.search, reply_flag(r));
            if s.state == RootState::Found {
                GitQueryView { stage: GitStage::Marker, search: s, root: s.current, ..v }
            } else if s.state == RootState::NotFound {
                GitQueryView { stage: GitStage::NoRepository, search: s, ..v }
            } else {
                GitQueryView { search: s, ..v }
            }
        },
        GitStage::Marker => if reply_flag(r) {
            GitQueryView { stage: GitStage::CommonDir, git_dir: marker(v.root), ..v }
        } else {
            GitQueryView { stage: GitStage::MarkerFile, ..v }
        },
        GitStage::MarkerFile => match reply_text(r) {
            Some(c) => match gitdir_target(v.root, c) {
                Some(g) => GitQueryView { stage: GitStage::CommonDir, git_dir: g, ..v },
                None => GitQueryView { stage: GitStage::NoRepository, ..v },
            },
            None => GitQueryView { stage: GitStage::NoRepository, ..v },
        },
        GitStage::CommonDir => {
            let c = common_dir_spec(v.git_dir, reply_text(r));
            GitQueryView {
                stage: GitStage::Head,
                common_dir: c,
                head: head_start(v.git_dir, c),
                ..v
            }
        },
        GitStage::Head => {
            let h = head_step(v.head, reply_text(r));
            if h.stage == HeadStage::Finished {
                GitQueryView {
                    stage: if v.key is Some {
                        GitStage::Background
                    } else {
                        GitStage::Stash
                    },
                    head: h,
                    head_info: head_result(h),
                    background: None,
                    ..v
                }
            } else {
                GitQueryView { head: h, ..v }
            }
        },
        GitStage::Background => GitQueryView {
            stage: GitStage::Stash,
            background: reply_data(r),
            ..v
        },
        GitStage::Stash => GitQueryView {
            stage: GitStage::Operations,
            num_stashes: match reply_text(r) {
                Some(c) => lines(c).len(),
                None => 0,
            },
            present: Seq::empty(),
            ..v
        },
        GitStage::Operations => {
            let p = v.present.push(reply_flag(r));
            GitQueryView {
                stage: if p.len() >= 5 {
                    GitStage::Finished
                } else {
                    GitStage::Operations
                },
                present: p,
                ..v
            }
        },
        GitStage::Finished | GitStage::NoRepository => v,
    }
}

/// The result of the search, once it is over.
pub open spec fn git_query_result(v: GitQueryView) -> Option<GitView> {
    if v.stage == GitStage::Finished {
        Some(context_of(v.head_info, v.background, v.num_stashes, v.present))
    } else {
        None
    }
}

/// Whether the search is over.
pub open spec fn git_query_done(v: GitQueryView) -> bool {
    v.stage == GitStage::Finished || v.stage == GitStage::NoRepository
}

/// The invariant of the search.
pub open spec fn git_query_wf(v: GitQueryView) -> bool {
    match v.stage {
        GitStage::Root => v.search.state == RootState::Searching,
        GitStage::Head => {
            &&& head_wf(v.head)
            &&& v.head.stage != HeadStage::Finished
            &&& v.head.git_dir == v.git_dir
            &&& v.head.common_dir == v.common_dir
        },
        GitStage::Background => v.key is Some,
        GitStage::Operations => v.present.len() < 5,
        _ => true,
    }
}

/// An upper bound on the number of requests that remain.
pub open spec fn git_query_measure(v: GitQueryView) -> nat {
    match v.stage {
        GitStage::Root => v.search.current.parts.len() + 20,
        GitStage::Marker => 19,
        GitStage::MarkerFile => 18,
        GitStage::CommonDir => 17,
        GitStage::Head => 8 + head_measure(v.head),
        GitStage::Background => 7,
        GitStage::Stash => 6,
        GitStage::Operations => (5 - v.present.len()) as nat,
        GitStage::Finished | GitStage::NoRepository => 0,
    }
}

/// What the search will end with when every request is answered from `src`.
pub open spec fn git_query_outcome(v: GitQueryView, src: GitSources) -> Option<GitView> {
    match v.stage {
        GitStage::Root => match root_from(v.search.current, src.has_git_entry) {
            Some(root) => context_from_root(root, v.key, src),
            None => None,
        },
        GitStage::Marker => context_from_root(v.root, v.key, src),
        GitStage::MarkerFile => match (src.read)(marker(v.root)) {
            Some(c) => match gitdir_target(v.root, c) {
                Some(g) => Some(context_from_git_dir(g, v.key, src)),
                None => None,
            },
            None => None,
        },
        GitStage::CommonDir => Some(context_from_git_dir(v.git_dir, v.key, src)),
        GitStage::Head => Some(
            context_of(
                head_outcome(v.head, src.read, src.symbolic_ref, src.rev_parse),
                background_for(v.key, src),
                stash_count(v.common_dir, src),
                operation_flags(v.git_dir, src),
            ),
        ),
        GitStage::Background => Some(
            context_of(
                v.head_info,
                background_for(v.key, src),
                stash_count(v.common_dir, src),
                operation_flags(v.git_dir, src),
            ),
        ),
        GitStage::Stash => Some(
            context_of(
                v.head_info,
                v.background,
                stash_count(v.common_dir, src),
                operation_flags(v.git_dir, src),
            ),
        ),
        GitStage::Operations => Some(
            context_of(
                v.head_info,
                v.background,
                v.num_stashes,
                v.present + operation_flags(v.git_dir, src).skip(v.present.len() as int),
            ),
        ),
        GitStage::Finished | GitStage::NoRepository => git_query_result(v),
    }
}

/// The search run for at most `fuel` requests, each answered from `src`.
pub open spec fn git_query_drive(v: GitQueryView, src: GitSources, fuel: nat) -> GitQueryView
    decreases fuel,
{
    if fuel == 0 || git_query_done(v) {
        v
    } else {
        git_query_drive(
            git_query_step(v, git_reply_from(git_query_request(v), src)),
            src,
            (fuel - 1) as nat,
        )
    }
}

/// One answered request keeps the invariant, makes progress, and does not
/// change what the search ends with.
pub proof fn lemma_git_query_step(v: GitQueryView, src: GitSources)
    requires
        git_query_wf(v),
        !git_query_done(v),
    ensures
        ({
            let w = git_query_step(v, git_reply_from(git_query_request(v), src));
            &&& git_query_wf(w)
            &&& git_query_measure(w) < git_query_measure(v)
            &&& git_query_outcome(w, src) == git_query_outcome(v, src)
        }),
{
    let r = git_reply_from(git_query_request(v), src);
    let w = git_query_step(v, r);
    match v.stage {
        GitStage::Head => {
            lemma_head_step(v.head, src.read, src.symbolic_ref, src.rev_parse);
            assert(reply_text(r) == crate::context::head::reply_from(
                head_request(v.head),
                src.read,
                src.symbolic_ref,
                src.rev_parse,
            ));
        },
        GitStage::Stash => {
            assert(Seq::<bool>::empty() + operation_flags(v.git_dir, src).skip(0) =~= operation_flags(
                v.git_dir,
                src,
            ));
        },
        GitStage::Operations => {
            let flags = operation_flags(v.git_dir, src);
            let k = v.present.len() as int;
            assert(reply_flag(r) == flags[k]);
            assert(w.present + flags.skip(k + 1) =~= v.present + flags.skip(k));
            if w.present.len() >= 5 {
                assert(w.present + flags.skip(k + 1) =~= w.present);
            }
        },
        _ => {},
    }
}

proof fn lemma_git_query_drive(v: GitQueryView, src: GitSources, fuel: nat)
    requires
        git_query_wf(v),
        fuel >= git_query_measure(v),
    ensures
        git_query_done(git_query_drive(v, src, fuel)),
        git_query_result(git_query_drive(v, src, fuel)) == git_query_outcome(v, src),
    decreases fuel,
{
    if !git_query_done(v) {
        lemma_git_query_step(v, src);
        let w = git_query_step(v, git_reply_from(git_query_request(v), src));
        lemma_git_query_drive(w, src, (fuel - 1) as nat);
    }
}

/// Answering every request of a new search from the same sources ends, after
/// at most 21 requests more than `cwd` has components, with
/// [`git_context_spec`] of those sources.
pub proof fn lemma_git_query_finds_context(cwd: PathView, key: Option<(int, nat)>, src: GitSources)
    ensures
        git_query_done(git_query_drive(git_query_start(cwd, key), src, cwd.parts.len() + 21)),
        git_query_result(git_query_drive(git_query_start(cwd, key), src, cwd.parts.len() + 21))
            == git_context_spec(cwd, key, src),
{
    lemma_git_query_drive(git_query_start(cwd, key), src, cwd.parts.len() + 21);
}

/// The Git context of a session whose current directory is `cwd` and whose
/// `SHELL_PID` and `PS1_EXEC_NO` hold `pid_var` and `exec_no_var`, with every
/// question answered from `src`: none without a current directory.
pub open spec fn session_git_spec(
    cwd: Option<PathView>,
    pid_var: Option<Seq<char>>,
    exec_no_var: Option<Seq<char>>,
    src: GitSources,
) -> Option<GitView> {
    match cwd {
        Some(d) => git_context_spec(d, key_of(shell_pid_of(pid_var), exec_no_of(exec_no_var)), src),
        None => None,
    }
}

/// The Git context a session keeps ([`session_git`], as [`crate::context::Context::new`]
/// states it) when it is handed what the search started at its current
/// directory, with the key that its environment gives, ends with: the
/// [`session_git_spec`] of that session.
pub proof fn lemma_session_git(
    cwd: Option<PathView>,
    pid_var: Option<Seq<char>>,
    exec_no_var: Option<Seq<char>>,
    src: GitSources,
)
    ensures
        session_git(
            cwd,
            match cwd {
                Some(d) => git_query_result(
                    git_query_drive(
                        git_query_start(d, key_of(shell_pid_of(pid_var), exec_no_of(exec_no_var))),
                        src,
                        d.parts.len() + 21,
                    ),
                ),
                None => None,
            },
        ) == session_git_spec(cwd, pid_var, exec_no_var, src),
{
    if let Some(d) = cwd {
        lemma_git_query_finds_context(d, key_of(shell_pid_of(pid_var), exec_no_of(exec_no_var)), src);
    }
}

fn flag_of(r: &GitReply) -> (b: bool)
    ensures
        b == reply_flag(reply_view(*r)),
{
    match r {
        GitReply::Flag(b) => *b,
        _ => false,
    }
}

fn text_of(r: GitReply) -> (t: Option<String>)
    ensures
        opt_view(t) == reply_text(reply_view(r)),
{
    match r {
        GitReply::Text(t) => t,
        _ => None,
    }
}

fn data_of(r: GitReply) -> (d: Option<BackgroundData>)
    ensures
        data_view(d) == reply_data(reply_view(r)),
{
    match r {
        GitReply::Data(d) => d,
        _ => None,
    }
}

/// The search for the Git context of a directory.
pub struct GitContextQuery {
    stage: GitStage,
    search: RootSearch,
    key: Option<CacheKey>,
    root: FsPath,
    git_dir: FsPath,
    common_dir: FsPath,
    head: HeadQuery,
    head_ref: Option<String>,
    head_sha: Option<String>,
    remote_head_sha: Option<String>,
    background: Option<BackgroundData>,
    num_stashes: usize,
    present: Vec<bool>,
}

impl View for GitContextQuery {
    type V = GitQueryView;

    closed spec fn view(&self) -> GitQueryView {
        GitQueryView {
            stage: self.stage,
            search: self.search@,
            key: key_view(self.key),
            root: self.root@,
            git_dir: self.git_dir@,
            common_dir: self.common_dir@,
            head: self.head@,
            head_info: (opt_view(self.head_ref), opt_view(self.head_sha), opt_view(self.remote_head_sha)),
            background: data_view(self.background),
            num_stashes: self.num_stashes as nat,
            present: self.present@,
        }
    }
}

impl GitContextQuery {
    #[verifier::type_invariant]
    closed spec fn inv(&self) -> bool {
        git_query_wf(self@)
    }

    /// A new search for the repository around `cwd`, for the rendering of the
    /// shell with process id `shell_pid` after `exec_no` commands: the status
    /// of the working tree is asked of the background job only when both are
    /// known.
    pub fn start(cwd: FsPath, shell_pid: Option<i32>, exec_no: Option<u64>) -> (q: GitContextQuery)
        ensures
            q@ == git_query_start(cwd@, key_of(shell_pid, exec_no)),
    {
        let key = background_key(shell_pid, exec_no);
        let root = cwd.duplicate();
        let git_dir = cwd.duplicate();
        let common_dir = cwd.duplicate();
        let head = HeadQuery::start(cwd.duplicate(), cwd.duplicate());
        GitContextQuery {
            stage: GitStage::Root,
            search: RootSearch::start(cwd),
            key,
            root,
            git_dir,
            common_dir,
            head,
            head_ref: None,
            head_sha: None,
            remote_head_sha: None,
            background: None,
            num_stashes: 0,
            present: Vec::new(),
        }
    }

    /// The step the search is at.
    pub fn stage(&self) -> (r: GitStage)
        ensures
            r == self@.stage,
    {
        self.stage
    }

    /// The repository root once it is found, where `git` is run; the
    /// directory the search started at before.
    pub fn root(&self) -> (r: &FsPath)
        ensures
            r@ == self@.root,
    {
        &self.root
    }

    /// Whether the search is over.
    pub fn is_done(&self) -> (r: bool)
        ensures
            r == git_query_done(self@),
    {
        self.stage == GitStage::Finished || self.stage == GitStage::NoRepository
    }

    /// What the search needs next.
    pub fn request(&self) -> (r: GitRequest)
        ensures
            git_request_view(r) == git_query_request(self@),
    {
        proof {
            use_type_invariant(self);
        }
        match self.stage {
            GitStage::Root => GitRequest::HasGitEntry(git_marker(self.search.current())),
            GitStage::Marker => GitRequest::IsDir(git_marker(&self.root)),
            GitStage::MarkerFile => GitRequest::ReadFile(git_marker(&self.root)),
            GitStage::CommonDir => GitRequest::ReadFile(commondir_path(&self.git_dir)),
            GitStage::Head => match self.head.request() {
                HeadRequest::ReadFile(p) => GitRequest::ReadFile(p),
                HeadRequest::SymbolicRef => GitRequest::SymbolicRef,
                HeadRequest::RevParse(rev) => GitRequest::RevParse(rev),
                HeadRequest::Done => GitRequest::Done,
            },
            GitStage::Background => match &self.key {
                Some(k) => GitRequest::Background(CacheKey::new(k.pid(), k.exec_no())),
                None => GitRequest::Done,
            },
            GitStage::Stash => GitRequest::ReadFile(stash_log_path(&self.common_dir)),
            GitStage::Operations => {
                let ops = all_operations();
                GitRequest::Exists(operation_path(&self.git_dir, ops[self.present.len()]))
            },
            GitStage::Finished | GitStage::NoRepository => GitRequest::Done,
        }
    }

    /// The search after `reply`, the answer to its request.
    pub fn answer(self, reply: GitReply) -> (r: GitContextQuery)
        ensures
            r@ == git_query_step(self@, reply_view(reply)),
    {
        proof {
            use_type_invariant(&self);
        }
        let GitContextQuery {
            mut stage,
            mut search,
            key,
            mut root,
            mut git_dir,
            mut common_dir,
            mut head,
            mut head_ref,
            mut head_sha,
            mut remote_head_sha,
            mut background,
            mut num_stashes,
            mut present,
        } = self;
        match stage {
            GitStage::Root => {
                let s = search.answer(flag_of(&reply));
                match s.state() {
                    RootState::Found => {
                        root = s.current().duplicate();
                        stage = GitStage::Marker;
                    },
                    RootState::NotFound => {
                        stage = GitStage::NoRepository;
                    },
                    RootState::Searching => {},
                }
                search = s;
            },
            GitStage::Marker => {
                if flag_of(&reply) {
                    git_dir = git_marker(&root);
                    stage = GitStage::CommonDir;
                } else {
                    stage = GitStage::MarkerFile;
                }
            },
            GitStage::MarkerFile => {
                let text = text_of(reply);
                if text.is_some() {
                    match resolve_git_dir(&root, false, text) {
                        Some(g) => {
                            git_dir = g;
                            stage = GitStage::CommonDir;
                        },
                        None => {
                            stage = GitStage::NoRepository;
                        },
                    }
                } else {
                    stage = GitStage::NoRepository;
                }
            },
            GitStage::CommonDir => {
                common_dir = resolve_common_dir(&git_dir, text_of(reply));
                head = HeadQuery::start(git_dir.duplicate(), common_dir.duplicate());
                stage = GitStage::Head;
            },
            GitStage::Head => {
                let h = head.answer(text_of(reply));
                if h.stage() == HeadStage::Finished {
                    let (a, b, c) = h.result();
                    head_ref = a;
                    head_sha = b;
                    remote_head_sha = c;
                    background = None;
                    stage = if key.is_some() {
                        GitStage::Background
                    } else {
                        GitStage::Stash
                    };
                }
                head = h;
            },
            GitStage::Background => {
                background = data_of(reply);
                stage = GitStage::Stash;
            },
            GitStage::Stash => {
                num_stashes = get_num_stashes(text_of(reply));
                present = Vec::new();
                stage = GitStage::Operations;
            },
            GitStage::Operations => {
                present.push(flag_of(&reply));
                if present.len() >= 5 {
                    stage = GitStage::Finished;
                }
            },
            GitStage::Finished | GitStage::NoRepository => {},
        }
        let r = GitContextQuery {
            stage,
            search,
            key,
            root,
            git_dir,
            common_dir,
            head,
            head_ref,
            head_sha,
            remote_head_sha,
            background,
            num_stashes,
            present,
        };
        r
    }

    /// The Git context found, once the search is over: `None` when there is no
    /// repository.
    pub fn result(self) -> (r: Option<GitContext>)
        ensures
            match r {
                Some(g) => git_query_result(self@) == Some(g@),
                None => git_query_result(self@) is None,
            },
    {
        if self.stage == GitStage::Finished {
            let operations = get_git_operations(self.present.as_slice());
            Some(
                GitContext::new(
                    self.head_ref,
                    self.head_sha,
                    self.remote_head_sha,
                    self.num_stashes,
                    operations,
                    self.background,
                ),
            )
        } else {
            None
        }
    }
}

} // verus!
