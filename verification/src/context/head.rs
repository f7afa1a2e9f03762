//! Finding the HEAD ref of a repository and the SHAs of the HEAD and of its
//! remote counterpart.
//!
//! The search reads files and, for repositories in the reftable format, asks
//! `git` itself. It is a state machine: [`HeadQuery::request`] says what the
//! next piece of information is, and the caller hands it over with
//! [`HeadQuery::answer`] until the request is [`HeadRequest::Done`].
use vstd::prelude::*;
use vstd::string::*;

use crate::context::git::{lookup_packed_ref, opt_view, packed_ref_sha};
use crate::path::{join_path, parse_path, FsPath, PathView};
use crate::text::{from_chars, strip_prefix, strip_prefix_chars, to_chars, trim, trim_str};

verus! {

/// A step of the search for the HEAD information.
#[derive(Copy, Clone, PartialEq, Eq, Structural, Debug)]
pub enum HeadStage {
    /// Waiting for the contents of the `HEAD` file.
    ReadHead,
    /// Waiting for `git symbolic-ref --short HEAD`.
    SymbolicRef,
    /// Waiting for `git rev-parse HEAD`.
    RevParseHead,
    /// Waiting for the loose file of the ref being looked up.
    LooseRef,
    /// Waiting for the `packed-refs` file.
    PackedRefs,
    /// Waiting for `git rev-parse` of the ref being looked up.
    RevParseRef,
    /// Done.
    Finished,
}

/// The HEAD ref, the SHA of the HEAD commit and the SHA of the remote HEAD.
pub type HeadInfoView = (Option<Seq<char>>, Option<Seq<char>>, Option<Seq<char>>);

/// The mathematical model of a [`HeadQuery`].
pub struct HeadQueryView {
    pub git_dir: PathView,
    pub common_dir: PathView,
    pub stage: HeadStage,
    /// Whether the ref being looked up is the remote one.
    pub remote: bool,
    pub head_ref: Option<Seq<char>>,
    pub head_sha: Option<Seq<char>>,
    pub remote_head_sha: Option<Seq<char>>,
}

/// What the search needs next.
pub enum HeadRequestView {
    ReadFile(PathView),
    SymbolicRef,
    RevParse(Seq<char>),
    Done,
}

/// What the search needs next.
pub enum HeadRequest {
    /// The contents of this file, or `None` if it cannot be read.
    ReadFile(FsPath),
    /// The output of `git symbolic-ref --short HEAD` in the repository root,
    /// through [`crate::context::git::command_output_text`].
    SymbolicRef,
    /// The output of `git rev-parse <rev>` in the repository root, through
    /// [`crate::context::git::command_output_text`].
    RevParse(String),
    /// Nothing: the result is known.
    Done,
}

/// The model of a request.
pub open spec fn request_view(r: HeadRequest) -> HeadRequestView {
    match r {
        HeadRequest::ReadFile(p) => HeadRequestView::ReadFile(p@),
        HeadRequest::SymbolicRef => HeadRequestView::SymbolicRef,
        HeadRequest::RevParse(s) => HeadRequestView::RevParse(s@),
        HeadRequest::Done => HeadRequestView::Done,
    }
}

/// The prefix of a `HEAD` file that points to a branch.
pub open spec fn branch_prefix() -> Seq<char> {
    "ref: refs/heads/"@
}

/// The ref of the branch `name`, or of its counterpart on `origin`.
pub open spec fn ref_path_for(name: Seq<char>, remote: bool) -> Seq<char> {
    if remote {
        "refs/remotes/origin/"@ + name
    } else {
        "refs/heads/"@ + name
    }
}

/// The `HEAD` file of a git directory.
pub open spec fn head_path(git_dir: PathView) -> PathView {
    join_path(git_dir, parse_path("HEAD"@))
}

/// The `packed-refs` file of a common directory.
pub open spec fn packed_refs_path(common_dir: PathView) -> PathView {
    join_path(common_dir, parse_path("packed-refs"@))
}

/// The loose file of a ref.
pub open spec fn ref_file_path(common_dir: PathView, ref_path: Seq<char>) -> PathView {
    join_path(common_dir, parse_path(ref_path))
}

/// The SHA of a ref from the `packed-refs` file, else from `git rev-parse`.
pub open spec fn packed_or_rev(
    common_dir: PathView,
    ref_path: Seq<char>,
    read: spec_fn(PathView) -> Option<Seq<char>>,
    rev: spec_fn(Seq<char>) -> Option<Seq<char>>,
) -> Option<Seq<char>> {
    match read(packed_refs_path(common_dir)) {
        Some(c) => match packed_ref_sha(c, ref_path) {
            Some(sha) => Some(sha),
            None => rev(ref_path),
        },
        None => rev(ref_path),
    }
}

/// The SHA of a ref: the trimmed loose ref file, else the `packed-refs` entry,
/// else what `git rev-parse` says (for reftable and other formats).
pub open spec fn ref_sha(
    common_dir: PathView,
    ref_path: Seq<char>,
    read: spec_fn(PathView) -> Option<Seq<char>>,
    rev: spec_fn(Seq<char>) -> Option<Seq<char>>,
) -> Option<Seq<char>> {
    match read(ref_file_path(common_dir, ref_path)) {
        Some(c) => Some(trim(c)),
        None => packed_or_rev(common_dir, ref_path, read, rev),
    }
}

/// The information for the branch `name`.
pub open spec fn branch_info(
    common_dir: PathView,
    name: Seq<char>,
    read: spec_fn(PathView) -> Option<Seq<char>>,
    rev: spec_fn(Seq<char>) -> Option<Seq<char>>,
) -> HeadInfoView {
    (
        Some(name),
        ref_sha(common_dir, ref_path_for(name, false), read, rev),
        ref_sha(common_dir, ref_path_for(name, true), read, rev),
    )
}

/// The HEAD information of a repository whose files read as `read`, where
/// `git symbolic-ref --short HEAD` gives `sym` and `git rev-parse` gives
/// `rev`:
/// - no readable `HEAD` file: nothing;
/// - `ref: refs/heads/<name>`: the branch `name` with the SHAs of the branch
///   and of `origin/<name>`, unless `name` starts with `.` (a reftable
///   placeholder), in which case the branch comes from `git symbolic-ref`, and
///   when that fails only the SHA of `git rev-parse HEAD` is known;
/// - anything else is a detached HEAD whose trimmed contents are the SHA.
pub open spec fn git_head_info(
    git_dir: PathView,
    common_dir: PathView,
    read: spec_fn(PathView) -> Option<Seq<char>>,
    sym: Option<Seq<char>>,
    rev: spec_fn(Seq<char>) -> Option<Seq<char>>,
) -> HeadInfoView {
    match read(head_path(git_dir)) {
        None => (None, None, None),
        Some(c) => {
            let t = trim(c);
            match strip_prefix(t, branch_prefix()) {
                Some(name) => if !(name.len() > 0 && name[0] == '.') {
                    branch_info(common_dir, name, read, rev)
                } else {
                    match sym {
                        Some(n) => branch_info(common_dir, n, read, rev),
                        None => (None, rev("HEAD"@), None),
                    }
                },
                None => (None, Some(t), None),
            }
        },
    }
}

/// What the `HEAD` file decides: a branch `ref: refs/heads/<name>` (not a
/// reftable placeholder starting with `.`) is reported in full with the SHAs
/// of `refs/heads/<name>` and `refs/remotes/origin/<name>`; a detached HEAD
/// reports its trimmed contents, in full, as the SHA, and no branch or remote
/// SHA; no readable `HEAD` file reports nothing.
pub proof fn lemma_git_head_info_cases(
    git_dir: PathView,
    common_dir: PathView,
    read: spec_fn(PathView) -> Option<Seq<char>>,
    sym: Option<Seq<char>>,
    rev: spec_fn(Seq<char>) -> Option<Seq<char>>,
    name: Seq<char>,
)
    ensures
        read(head_path(git_dir)) is None ==> git_head_info(git_dir, common_dir, read, sym, rev) == (
            None::<Seq<char>>,
            None::<Seq<char>>,
            None::<Seq<char>>,
        ),
        match read(head_path(git_dir)) {
            Some(c) => {
                &&& trim(c) == "ref: refs/heads/"@ + name && !(name.len() > 0 && name[0] == '.')
                    ==> git_head_info(git_dir, common_dir, read, sym, rev) == (
                    Some(name),
                    ref_sha(common_dir, "refs/heads/"@ + name, read, rev),
                    ref_sha(common_dir, "refs/remotes/origin/"@ + name, read, rev),
                )
                &&& strip_prefix(trim(c), "ref: refs/heads/"@) is None ==> git_head_info(
                    git_dir,
                    common_dir,
                    read,
                    sym,
                    rev,
                ) == (None::<Seq<char>>, Some(trim(c)), None::<Seq<char>>)
            },
            None => true,
        },
{
    let p = "ref: refs/heads/"@;
    assert((p + name).take(p.len() as int) =~= p);
    assert((p + name).skip(p.len() as int) =~= name);
}

/// The ref being looked up.
pub open spec fn current_ref_path(v: HeadQueryView) -> Seq<char> {
    ref_path_for(v.head_ref.unwrap(), v.remote)
}

/// The search before anything is known.
pub open spec fn head_start(git_dir: PathView, common_dir: PathView) -> HeadQueryView {
    HeadQueryView {
        git_dir,
        common_dir,
        stage: HeadStage::ReadHead,
        remote: false,
        head_ref: None,
        head_sha: None,
        remote_head_sha: None,
    }
}

/// What the search asks for next.
pub open spec fn head_request(v: HeadQueryView) -> HeadRequestView {
    match v.stage {
        HeadStage::ReadHead => HeadRequestView::ReadFile(head_path(v.git_dir)),
        HeadStage::SymbolicRef => HeadRequestView::SymbolicRef,
        HeadStage::RevParseHead => HeadRequestView::RevParse("HEAD"@),
        HeadStage::LooseRef => HeadRequestView::ReadFile(
            ref_file_path(v.common_dir, current_ref_path(v)),
        ),
        HeadStage::PackedRefs => HeadRequestView::ReadFile(packed_refs_path(v.common_dir)),
        HeadStage::RevParseRef => HeadRequestView::RevParse(current_ref_path(v)),
        HeadStage::Finished => HeadRequestView::Done,
    }
}

/// Records the SHA of the ref being looked up and moves to the next one.
pub open spec fn record_sha(v: HeadQueryView, sha: Option<Seq<char>>) -> HeadQueryView {
    if !v.remote {
        HeadQueryView { head_sha: sha, remote: true, stage: HeadStage::LooseRef, ..v }
    } else {
        HeadQueryView { remote_head_sha: sha, stage: HeadStage::Finished, ..v }
    }
}

/// The search after the reply `reply` to its request.
pub open spec fn head_step(v: HeadQueryView, reply: Option<Seq<char>>) -> HeadQueryView {
    match v.stage {
        HeadStage::ReadHead => match reply {
            None => HeadQueryView { stage: HeadStage::Finished, ..v },
            Some(c) => {
                let t = trim(c);
                match strip_prefix(t, branch_prefix()) {
                    Some(name) => if !(name.len() > 0 && name[0] == '.') {
                        HeadQueryView {
                            head_ref: Some(name),
                            stage: HeadStage::LooseRef,
                            remote: false,
                            ..v
                        }
                    } else {
                        HeadQueryView { stage: HeadStage::SymbolicRef, ..v }
                    },
                    None => HeadQueryView { head_sha: Some(t), stage: HeadStage::Finished, ..v },
                }
            },
        },
        HeadStage::SymbolicRef => match reply {
            Some(n) => HeadQueryView {
                head_ref: Some(n),
                stage: HeadStage::LooseRef,
                remote: false,
                ..v
            },
            None => HeadQueryView { stage: HeadStage::RevParseHead, ..v },
        },
        HeadStage::RevParseHead => HeadQueryView { head_sha: reply, stage: HeadStage::Finished, ..v },
        HeadStage::LooseRef => match reply {
            Some(c) => record_sha(v, Some(trim(c))),
            None => HeadQueryView { stage: HeadStage::PackedRefs, ..v },
        },
        HeadStage::PackedRefs => match reply {
            Some(c) => match packed_ref_sha(c, current_ref_path(v)) {
                Some(sha) => record_sha(v, Some(sha)),
                None => HeadQueryView { stage: HeadStage::RevParseRef, ..v },
            },
            None => HeadQueryView { stage: HeadStage::RevParseRef, ..v },
        },
        HeadStage::RevParseRef => record_sha(v, reply),
        HeadStage::Finished => v,
    }
}

/// The invariant of the search: nothing is known before the branch is, and the
/// branch is known while its refs are looked up.
pub open spec fn head_wf(v: HeadQueryView) -> bool {
    match v.stage {
        HeadStage::ReadHead | HeadStage::SymbolicRef | HeadStage::RevParseHead => {
            &&& v.head_ref is None
            &&& v.head_sha is None
            &&& v.remote_head_sha is None
        },
        HeadStage::LooseRef | HeadStage::PackedRefs | HeadStage::RevParseRef => v.head_ref is Some,
        HeadStage::Finished => true,
    }
}

/// An upper bound on the number of requests that remain.
pub open spec fn head_measure(v: HeadQueryView) -> nat {
    match v.stage {
        HeadStage::ReadHead => 8,
        HeadStage::SymbolicRef => 7,
        HeadStage::RevParseHead => 1,
        HeadStage::LooseRef => if v.remote {
            3
        } else {
            6
        },
        HeadStage::PackedRefs => if v.remote {
            2
        } else {
            5
        },
        HeadStage::RevParseRef => if v.remote {
            1
        } else {
            4
        },
        HeadStage::Finished => 0,
    }
}

/// The result of the search, once finished.
pub open spec fn head_result(v: HeadQueryView) -> HeadInfoView {
    (v.head_ref, v.head_sha, v.remote_head_sha)
}

/// What the search will end with when every request is answered from the
/// given sources.
pub open spec fn head_outcome(
    v: HeadQueryView,
    read: spec_fn(PathView) -> Option<Seq<char>>,
    sym: Option<Seq<char>>,
    rev: spec_fn(Seq<char>) -> Option<Seq<char>>,
) -> HeadInfoView {
    match v.stage {
        HeadStage::Finished => head_result(v),
        HeadStage::ReadHead => git_head_info(v.git_dir, v.common_dir, read, sym, rev),
        HeadStage::SymbolicRef => match sym {
            Some(n) => branch_info(v.common_dir, n, read, rev),
            None => (None, rev("HEAD"@), None),
        },
        HeadStage::RevParseHead => (None, rev("HEAD"@), None),
        _ => {
            let p = current_ref_path(v);
            let current = match v.stage {
                HeadStage::LooseRef => ref_sha(v.common_dir, p, read, rev),
                HeadStage::PackedRefs => packed_or_rev(v.common_dir, p, read, rev),
                _ => rev(p),
            };
            if !v.remote {
                (
                    v.head_ref,
                    current,
                    ref_sha(v.common_dir, ref_path_for(v.head_ref.unwrap(), true), read, rev),
                )
            } else {
                (v.head_ref, v.head_sha, current)
            }
        },
    }
}

/// The reply that the sources give to a request.
pub open spec fn reply_from(
    req: HeadRequestView,
    read: spec_fn(PathView) -> Option<Seq<char>>,
    sym: Option<Seq<char>>,
    rev: spec_fn(Seq<char>) -> Option<Seq<char>>,
) -> Option<Seq<char>> {
    match req {
        HeadRequestView::ReadFile(p) => read(p),
        HeadRequestView::SymbolicRef => sym,
        HeadRequestView::RevParse(r) => rev(r),
        HeadRequestView::Done => None,
    }
}

/// The search run for at most `fuel` requests, each answered from the given
/// sources.
pub open spec fn head_drive(
    v: HeadQueryView,
    read: spec_fn(PathView) -> Option<Seq<char>>,
    sym: Option<Seq<char>>,
    rev: spec_fn(Seq<char>) -> Option<Seq<char>>,
    fuel: nat,
) -> HeadQueryView
    decreases fuel,
{
    if fuel == 0 || v.stage == HeadStage::Finished {
        v
    } else {
        head_drive(
            head_step(v, reply_from(head_request(v), read, sym, rev)),
            read,
            sym,
            rev,
            (fuel - 1) as nat,
        )
    }
}

/// One answered request keeps the invariant, makes progress, and does not
/// change what the search ends with.
pub proof fn lemma_head_step(
    v: HeadQueryView,
    read: spec_fn(PathView) -> Option<Seq<char>>,
    sym: Option<Seq<char>>,
    rev: spec_fn(Seq<char>) -> Option<Seq<char>>,
)
    requires
        head_wf(v),
        v.stage != HeadStage::Finished,
    ensures
        ({
            let w = head_step(v, reply_from(head_request(v), read, sym, rev));
            &&& head_wf(w)
            &&& head_measure(w) < head_measure(v)
            &&& head_outcome(w, read, sym, rev) == head_outcome(v, read, sym, rev)
            &&& w.git_dir == v.git_dir
            &&& w.common_dir == v.common_dir
        }),
{
}

/// Running the search from any state that keeps the invariant, with enough
/// fuel, finishes with the outcome of that state.
pub proof fn lemma_head_drive(
    v: HeadQueryView,
    read: spec_fn(PathView) -> Option<Seq<char>>,
    sym: Option<Seq<char>>,
    rev: spec_fn(Seq<char>) -> Option<Seq<char>>,
    fuel: nat,
)
    requires
        head_wf(v),
        fuel >= head_measure(v),
    ensures
        head_drive(v, read, sym, rev, fuel).stage == HeadStage::Finished,
        head_result(head_drive(v, read, sym, rev, fuel)) == head_outcome(v, read, sym, rev),
    decreases fuel,
{
    if v.stage != HeadStage::Finished {
        lemma_head_step(v, read, sym, rev);
        let w = head_step(v, reply_from(head_request(v), read, sym, rev));
        lemma_head_drive(w, read, sym, rev, (fuel - 1) as nat);
    }
}

/// Answering every request of a new search from the same sources finishes
/// within eight requests with [`git_head_info`] of those sources.
pub proof fn lemma_head_query_finds_head_info(
    git_dir: PathView,
    common_dir: PathView,
    read: spec_fn(PathView) -> Option<Seq<char>>,
    sym: Option<Seq<char>>,
    rev: spec_fn(Seq<char>) -> Option<Seq<char>>,
)
    ensures
        head_drive(head_start(git_dir, common_dir), read, sym, rev, 8).stage == HeadStage::Finished,
        head_result(head_drive(head_start(git_dir, common_dir), read, sym, rev, 8)) == git_head_info(
            git_dir,
            common_dir,
            read,
            sym,
            rev,
        ),
{
    lemma_head_drive(head_start(git_dir, common_dir), read, sym, rev, 8);
}

/// The search for the HEAD ref and the SHAs of the HEAD and of the remote
/// HEAD.
pub struct HeadQuery {
    git_dir: FsPath,
    common_dir: FsPath,
    stage: HeadStage,
    remote: bool,
    head_ref: Option<String>,
    head_sha: Option<String>,
    remote_head_sha: Option<String>,
}

impl View for HeadQuery {
    type V = HeadQueryView;

    closed spec fn view(&self) -> HeadQueryView {
        HeadQueryView {
            git_dir: self.git_dir@,
            common_dir: self.common_dir@,
            stage: self.stage,
            remote: self.remote,
            head_ref: opt_view(self.head_ref),
            head_sha: opt_view(self.head_sha),
            remote_head_sha: opt_view(self.remote_head_sha),
        }
    }
}

fn ref_path_string(name: &str, remote: bool) -> (r: String)
    ensures
        r@ == ref_path_for(name@, remote),
{
    let mut s = if remote {
        String::from_str("refs/remotes/origin/")
    } else {
        String::from_str("refs/heads/")
    };
    s.append(name);
    s
}

/// A copy of an optional text.
pub fn clone_text(t: &Option<String>) -> (r: Option<String>)
    ensures
        opt_view(r) == opt_view(*t),
{
    match t {
        Some(s) => Some(s.clone()),
        None => None,
    }
}

impl HeadQuery {
    #[verifier::type_invariant]
    closed spec fn inv(&self) -> bool {
        head_wf(self@)
    }

    /// A new search in the given git directory and common directory.
    pub fn start(git_dir: FsPath, common_dir: FsPath) -> (q: HeadQuery)
        ensures
            q@ == head_start(git_dir@, common_dir@),
    {
        HeadQuery {
            git_dir,
            common_dir,
            stage: HeadStage::ReadHead,
            remote: false,
            head_ref: None,
            head_sha: None,
            remote_head_sha: None,
        }
    }

    /// The step the search is at.
    pub fn stage(&self) -> (r: HeadStage)
        ensures
            r == self@.stage,
    {
        self.stage
    }

    /// What the search needs next.
    pub fn request(&self) -> (r: HeadRequest)
        ensures
            request_view(r) == head_request(self@),
    {
        proof {
            use_type_invariant(self);
        }
        match self.stage {
            HeadStage::ReadHead => HeadRequest::ReadFile(self.git_dir.join_str("HEAD")),
            HeadStage::SymbolicRef => HeadRequest::SymbolicRef,
            HeadStage::RevParseHead => HeadRequest::RevParse(String::from_str("HEAD")),
            HeadStage::LooseRef => match &self.head_ref {
                Some(name) => {
                    let p = ref_path_string(name.as_str(), self.remote);
                    HeadRequest::ReadFile(self.common_dir.join_str(p.as_str()))
                },
                None => HeadRequest::Done,
            },
            HeadStage::PackedRefs => HeadRequest::ReadFile(self.common_dir.join_str("packed-refs")),
            HeadStage::RevParseRef => match &self.head_ref {
                Some(name) => HeadRequest::RevParse(ref_path_string(name.as_str(), self.remote)),
                None => HeadRequest::Done,
            },
            HeadStage::Finished => HeadRequest::Done,
        }
    }

    fn record(self, sha: Option<String>) -> (r: HeadQuery)
        requires
            self@.stage == HeadStage::LooseRef || self@.stage == HeadStage::PackedRefs
                || self@.stage == HeadStage::RevParseRef,
        ensures
            r@ == record_sha(self@, opt_view(sha)),
    {
        proof {
            use_type_invariant(&self);
        }
        if !self.remote {
            HeadQuery {
                git_dir: self.git_dir,
                common_dir: self.common_dir,
                stage: HeadStage::LooseRef,
                remote: true,
                head_ref: self.head_ref,
                head_sha: sha,
                remote_head_sha: self.remote_head_sha,
            }
        } else {
            HeadQuery {
                git_dir: self.git_dir,
                common_dir: self.common_dir,
                stage: HeadStage::Finished,
                remote: self.remote,
                head_ref: self.head_ref,
                head_sha: self.head_sha,
                remote_head_sha: sha,
            }
        }
    }

    fn with_stage(self, stage: HeadStage) -> (r: HeadQuery)
        requires
            head_wf((HeadQueryView { stage, ..self@ })),
        ensures
            r@ == (HeadQueryView { stage, ..self@ }),
    {
        HeadQuery {
            git_dir: self.git_dir,
            common_dir: self.common_dir,
            stage,
            remote: self.remote,
            head_ref: self.head_ref,
            head_sha: self.head_sha,
            remote_head_sha: self.remote_head_sha,
        }
    }

    /// The search after `reply`, the answer to its request: the contents of
    /// the file asked for (`None` if it cannot be read), or the text of the
    /// `git` command asked for (`None` if it failed).
    pub fn answer(self, reply: Option<String>) -> (r: HeadQuery)
        ensures
            r@ == head_step(self@, opt_view(reply)),
            head_wf(r@),
    {
        proof {
            use_type_invariant(&self);
        }
        match self.stage {
            HeadStage::ReadHead => match reply {
                None => self.with_stage(HeadStage::Finished),
                Some(c) => {
                    let t = trim_str(c.as_str());
                    let prefix = to_chars("ref: refs/heads/");
                    match strip_prefix_chars(t.as_slice(), prefix.as_slice()) {
                        Some(name) => {
                            if !(name.len() > 0 && name[0] == '.') {
                                HeadQuery {
                                    git_dir: self.git_dir,
                                    common_dir: self.common_dir,
                                    stage: HeadStage::LooseRef,
                                    remote: false,
                                    head_ref: Some(from_chars(name.as_slice())),
                                    head_sha: self.head_sha,
                                    remote_head_sha: self.remote_head_sha,
                                }
                            } else {
                                self.with_stage(HeadStage::SymbolicRef)
                            }
                        },
                        None => HeadQuery {
                            git_dir: self.git_dir,
                            common_dir: self.common_dir,
                            stage: HeadStage::Finished,
                            remote: self.remote,
                            head_ref: self.head_ref,
                            head_sha: Some(from_chars(t.as_slice())),
                            remote_head_sha: self.remote_head_sha,
                        },
                    }
                },
            },
            HeadStage::SymbolicRef => match reply {
                Some(n) => HeadQuery {
                    git_dir: self.git_dir,
                    common_dir: self.common_dir,
                    stage: HeadStage::LooseRef,
                    remote: false,
                    head_ref: Some(n),
                    head_sha: self.head_sha,
                    remote_head_sha: self.remote_head_sha,
                },
                None => self.with_stage(HeadStage::RevParseHead),
            },
            HeadStage::RevParseHead => HeadQuery {
                git_dir: self.git_dir,
                common_dir: self.common_dir,
                stage: HeadStage::Finished,
                remote: self.remote,
                head_ref: self.head_ref,
                head_sha: reply,
                remote_head_sha: self.remote_head_sha,
            },
            HeadStage::LooseRef => match reply {
                Some(c) => {
                    let t = trim_str(c.as_str());
                    let sha = from_chars(t.as_slice());
                    self.record(Some(sha))
                },
                None => self.with_stage(HeadStage::PackedRefs),
            },
            HeadStage::PackedRefs => match reply {
                Some(c) => {
                    let found = match &self.head_ref {
                        Some(name) => {
                            let p = ref_path_string(name.as_str(), self.remote);
                            lookup_packed_ref(c.as_str(), p.as_str())
                        },
                        None => None,
                    };
                    match found {
                        Some(sha) => self.record(Some(sha)),
                        None => self.with_stage(HeadStage::RevParseRef),
                    }
                },
                None => self.with_stage(HeadStage::RevParseRef),
            },
            HeadStage::RevParseRef => self.record(reply),
            HeadStage::Finished => self,
        }
    }

    /// The HEAD ref, the SHA of the HEAD commit and the SHA of the remote HEAD
    /// found so far (the result once the request is [`HeadRequest::Done`]).
    pub fn result(&self) -> (r: (Option<String>, Option<String>, Option<String>))
        ensures
            (opt_view(r.0), opt_view(r.1), opt_view(r.2)) == head_result(self@),
    {
        (clone_text(&self.head_ref), clone_text(&self.head_sha), clone_text(&self.remote_head_sha))
    }
}

} // verus!
