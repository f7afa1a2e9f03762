//! The Git repository around the current directory: where its metadata lives,
//! which operations are in progress, how many stashes it has, and its status.
use vstd::prelude::*;
use vstd::utf8::{decode_utf8, valid_utf8};

use crate::background::BackgroundData;
use crate::context::{async_from_option, AsyncValue};
use crate::path::{join_path, parse_path, FsPath, PathView};
use crate::text::{
    find_from, from_chars, lemma_lines_cons, lines, split_lines, split_once, split_once_chars, strip_prefix, strip_prefix_chars,
    strip_cr, to_chars, trim, trim_str, views,
};

verus! {

/// Ongoing Git operations that can be in progress.
#[derive(Copy, Clone, PartialEq, Eq, Structural, Debug)]
pub enum GitOperations {
    CherryPick,
    Merge,
    Bisect,
    RebaseApply,
    RebaseMerge,
}

/// The single letter that stands for an operation.
pub open spec fn operation_letter(op: GitOperations) -> Seq<char> {
    match op {
        GitOperations::CherryPick => "P"@,
        GitOperations::Merge => "M"@,
        GitOperations::Bisect => "B"@,
        GitOperations::RebaseApply => "R"@,
        GitOperations::RebaseMerge => "r"@,
    }
}

/// The entry of the Git directory whose presence shows an operation.
pub open spec fn operation_filename(op: GitOperations) -> Seq<char> {
    match op {
        GitOperations::CherryPick => "CHERRY_PICK_HEAD"@,
        GitOperations::Merge => "MERGE_HEAD"@,
        GitOperations::Bisect => "BISECT_LOG"@,
        GitOperations::RebaseApply => "rebase-apply"@,
        GitOperations::RebaseMerge => "rebase-merge"@,
    }
}

/// The operations in the order in which they are looked for.
pub open spec fn operation_order() -> Seq<GitOperations> {
    seq![
        GitOperations::CherryPick,
        GitOperations::Merge,
        GitOperations::Bisect,
        GitOperations::RebaseApply,
        GitOperations::RebaseMerge,
    ]
}

impl GitOperations {
    /// Get the single-letter symbolic representation of this operation.
    pub fn symbolic_letter(&self) -> (r: &'static str)
        ensures
            r@ == operation_letter(*self),
    {
        match self {
            GitOperations::CherryPick => "P",
            GitOperations::Merge => "M",
            GitOperations::Bisect => "B",
            GitOperations::RebaseApply => "R",
            GitOperations::RebaseMerge => "r",
        }
    }

    /// The entry of the Git directory whose presence shows this operation.
    pub fn filename(&self) -> (r: &'static str)
        ensures
            r@ == operation_filename(*self),
    {
        match self {
            GitOperations::CherryPick => "CHERRY_PICK_HEAD",
            GitOperations::Merge => "MERGE_HEAD",
            GitOperations::Bisect => "BISECT_LOG",
            GitOperations::RebaseApply => "rebase-apply",
            GitOperations::RebaseMerge => "rebase-merge",
        }
    }
}

/// All operations, in the order in which they are looked for.
pub fn all_operations() -> (r: Vec<GitOperations>)
    ensures
        r@ == operation_order(),
{
    let r = vec![
        GitOperations::CherryPick,
        GitOperations::Merge,
        GitOperations::Bisect,
        GitOperations::RebaseApply,
        GitOperations::RebaseMerge,
    ];
    assert(r@ =~= operation_order());
    r
}

/// The operations among the first `k` of [`operation_order`] whose flag in
/// `present` is set (a missing flag counts as unset).
pub open spec fn present_operations(present: Seq<bool>, k: int) -> Seq<GitOperations>
    decreases k,
{
    if k <= 0 {
        Seq::empty()
    } else {
        let earlier = present_operations(present, k - 1);
        if k - 1 < present.len() && present[k - 1] {
            earlier.push(operation_order()[k - 1])
        } else {
            earlier
        }
    }
}

/// The operations in progress, given for each operation of
/// [`all_operations`], in the same order, whether its entry exists in the Git
/// directory.
pub fn get_git_operations(present: &[bool]) -> (r: Vec<GitOperations>)
    ensures
        r@ == present_operations(present@, 5),
{
    let order = all_operations();
    let mut r: Vec<GitOperations> = Vec::new();
    let mut k: usize = 0;
    while k < 5
        invariant
            k <= 5,
            order@ == operation_order(),
            r@ == present_operations(present@, k as int),
        decreases 5 - k,
    {
        if k < present.len() && present[k] {
            r.push(order[k]);
        }
        k = k + 1;
    }
    r
}

/// The place of an operation in [`operation_order`].
pub open spec fn operation_index(op: GitOperations) -> int {
    match op {
        GitOperations::CherryPick => 0,
        GitOperations::Merge => 1,
        GitOperations::Bisect => 2,
        GitOperations::RebaseApply => 3,
        GitOperations::RebaseMerge => 4,
    }
}

proof fn lemma_operation_order_index()
    ensures
        operation_order().len() == 5,
        forall|i: int| 0 <= i < 5 ==> operation_index(#[trigger] operation_order()[i]) == i,
{
    let o = operation_order();
    assert(o[0] == GitOperations::CherryPick);
    assert(o[1] == GitOperations::Merge);
    assert(o[2] == GitOperations::Bisect);
    assert(o[3] == GitOperations::RebaseApply);
    assert(o[4] == GitOperations::RebaseMerge);
}

proof fn lemma_present_operations_upto(present: Seq<bool>, k: int)
    requires
        0 <= k <= 5,
    ensures
        forall|a: int|
            0 <= a < present_operations(present, k).len() ==> operation_index(
                #[trigger] present_operations(present, k)[a],
            ) < k,
        forall|i: int|
            0 <= i < 5 ==> (present_operations(present, k).contains(#[trigger] operation_order()[i])
                <==> (i < k && i < present.len() && present[i])),
        forall|a: int, b: int|
            0 <= a < b < present_operations(present, k).len() ==> operation_index(
                #[trigger] present_operations(present, k)[a],
            ) < operation_index(#[trigger] present_operations(present, k)[b]),
    decreases k,
{
    lemma_operation_order_index();
    if k > 0 {
        lemma_present_operations_upto(present, k - 1);
        let e = present_operations(present, k - 1);
        let r = present_operations(present, k);
        if k - 1 < present.len() && present[k - 1] {
            let x = operation_order()[k - 1];
            assert(r == e.push(x));
            assert forall|i: int| 0 <= i < 5 implies (r.contains(#[trigger] operation_order()[i])
                <==> (i < k && i < present.len() && present[i])) by {
                let y = operation_order()[i];
                if r.contains(y) {
                    let a = choose|a: int| 0 <= a < r.len() && r[a] == y;
                    if a < e.len() {
                        assert(e[a] == y);
                        assert(e.contains(y));
                    } else {
                        assert(operation_index(y) == k - 1);
                    }
                }
                if i < k && i < present.len() && present[i] {
                    if i < k - 1 {
                        assert(e.contains(y));
                        let a = choose|a: int| 0 <= a < e.len() && e[a] == y;
                        assert(r[a] == y);
                    } else {
                        assert(r[e.len() as int] == y);
                    }
                }
            }
        } else {
            assert(r == e);
            assert forall|i: int| 0 <= i < 5 implies (r.contains(#[trigger] operation_order()[i])
                <==> (i < k && i < present.len() && present[i])) by {
                let y = operation_order()[i];
                if r.contains(y) {
                    assert(i < k - 1);
                }
            }
        }
    }
}

/// The operations reported for one presence flag per operation are exactly
/// those whose own flag is set, each once, in the order of
/// [`operation_order`]: the `i`-th flag reports `operation_order()[i]` and
/// nothing else (for example, `Bisect` is reported exactly when `present[2]`
/// is set).
pub proof fn lemma_present_operations(present: Seq<bool>)
    ensures
        forall|i: int|
            0 <= i < 5 ==> (present_operations(present, 5).contains(#[trigger] operation_order()[i])
                <==> (i < present.len() && present[i])),
        forall|a: int, b: int|
            0 <= a < b < present_operations(present, 5).len() ==> operation_index(
                #[trigger] present_operations(present, 5)[a],
            ) < operation_index(#[trigger] present_operations(present, 5)[b]),
        present_operations(present, 5).contains(GitOperations::Bisect) <==> (2 < present.len()
            && present[2]),
{
    lemma_present_operations_upto(present, 5);
    lemma_operation_order_index();
    assert(operation_order()[2] == GitOperations::Bisect);
}

/// The Git status of the current repository.
#[derive(Copy, Clone, PartialEq, Eq, Structural, Debug)]
pub enum GitStatus {
    Clean,
    Dirty,
}

impl GitStatus {
    /// Create a GitStatus from a boolean indicating whether there are changes.
    pub fn from_has_changes(has_changes: bool) -> (r: Self)
        ensures
            r == (if has_changes {
                GitStatus::Dirty
            } else {
                GitStatus::Clean
            }),
    {
        if has_changes {
            GitStatus::Dirty
        } else {
            GitStatus::Clean
        }
    }
}

/// The status that the data of a background job gives: `Pending` while there
/// is no data, then the status it found (none when `git status` failed).
pub open spec fn status_from_background(data: Option<Option<bool>>) -> AsyncValue<Option<GitStatus>> {
    async_from_option(
        match data {
            Some(has_changes) => Some(
                match has_changes {
                    Some(c) => Some(
                        if c {
                            GitStatus::Dirty
                        } else {
                            GitStatus::Clean
                        },
                    ),
                    None => None,
                },
            ),
            None => None,
        },
    )
}

/// The view of an optional string.
pub open spec fn opt_view(o: Option<String>) -> Option<Seq<char>> {
    match o {
        Some(s) => Some(s@),
        None => None,
    }
}

/// An optional string as an optional `&str`.
pub fn opt_as_str(o: &Option<String>) -> (r: Option<&str>)
    ensures
        match r {
            Some(s) => o is Some && s@ == o->0@,
            None => o is None,
        },
{
    match o {
        Some(s) => Some(s.as_str()),
        None => None,
    }
}

/// The mathematical model of a [`GitContext`].
pub struct GitView {
    pub head_ref: Option<Seq<char>>,
    pub head_sha: Option<Seq<char>>,
    pub remote_head_sha: Option<Seq<char>>,
    pub num_stashes: nat,
    pub operations: Seq<GitOperations>,
    pub status: AsyncValue<Option<GitStatus>>,
}

/// Information about the current Git repository.
pub struct GitContext {
    head_ref: Option<String>,
    head_sha: Option<String>,
    remote_head_sha: Option<String>,
    num_stashes: usize,
    operations: Vec<GitOperations>,
    status: AsyncValue<Option<GitStatus>>,
}

impl View for GitContext {
    type V = GitView;

    closed spec fn view(&self) -> GitView {
        GitView {
            head_ref: opt_view(self.head_ref),
            head_sha: opt_view(self.head_sha),
            remote_head_sha: opt_view(self.remote_head_sha),
            num_stashes: self.num_stashes as nat,
            operations: self.operations@,
            status: self.status,
        }
    }
}

impl GitContext {
    /// The context of a repository: its HEAD ref and the SHAs of the HEAD and
    /// of the remote branch, its stash count, the operations in progress, and
    /// the data of the background job if it is there yet.
    pub fn new(
        head_ref: Option<String>,
        head_sha: Option<String>,
        remote_head_sha: Option<String>,
        num_stashes: usize,
        operations: Vec<GitOperations>,
        background_data: Option<BackgroundData>,
    ) -> (r: Self)
        ensures
            r@.head_ref == opt_view(head_ref),
            r@.head_sha == opt_view(head_sha),
            r@.remote_head_sha == opt_view(remote_head_sha),
            r@.num_stashes == num_stashes,
            r@.operations == operations@,
            r@.status == status_from_background(
                match background_data {
                    Some(d) => Some(d.has_changes),
                    None => None,
                },
            ),
    {
        let status: AsyncValue<Option<GitStatus>> = match background_data {
            Some(data) => AsyncValue::from(
                Some(
                    match data.has_changes {
                        Some(c) => Some(GitStatus::from_has_changes(c)),
                        None => None,
                    },
                ),
            ),
            None => AsyncValue::from(None),
        };
        GitContext { head_ref, head_sha, remote_head_sha, num_stashes, operations, status }
    }

    /// The HEAD ref of the current Git repository.
    pub fn head_ref(&self) -> (r: Option<&str>)
        ensures
            match r {
                Some(s) => self@.head_ref == Some(s@),
                None => self@.head_ref is None,
            },
    {
        opt_as_str(&self.head_ref)
    }

    /// The SHA of the current HEAD commit.
    pub fn head_sha(&self) -> (r: Option<&str>)
        ensures
            match r {
                Some(s) => self@.head_sha == Some(s@),
                None => self@.head_sha is None,
            },
    {
        opt_as_str(&self.head_sha)
    }

    /// The SHA of the remote HEAD commit.
    pub fn remote_head_sha(&self) -> (r: Option<&str>)
        ensures
            match r {
                Some(s) => self@.remote_head_sha == Some(s@),
                None => self@.remote_head_sha is None,
            },
    {
        opt_as_str(&self.remote_head_sha)
    }

    /// The number of stashes in the current Git repository.
    pub fn num_stashes(&self) -> (r: usize)
        ensures
            r == self@.num_stashes,
    {
        self.num_stashes
    }

    /// The current Git operations in progress (e.g. merge, rebase, etc).
    pub fn operations(&self) -> (r: &[GitOperations])
        ensures
            r@ == self@.operations,
    {
        self.operations.as_slice()
    }

    /// The current Git status.
    pub fn status(&self) -> (r: &AsyncValue<Option<GitStatus>>)
        ensures
            *r == self@.status,
    {
        &self.status
    }
}

// ---------------------------------------------------------------------------
// Where the metadata lives
// ---------------------------------------------------------------------------

/// The `.git` entry of a directory.
pub fn git_marker(dir: &FsPath) -> (r: FsPath)
    ensures
        r@ == join_path(dir@, parse_path(".git"@)),
{
    dir.join_str(".git")
}

/// The Git directory that a `.git` file names: its trimmed contents after
/// `gitdir: `, taken relative to the repository root unless absolute.
pub open spec fn gitdir_target(root: PathView, contents: Seq<char>) -> Option<PathView> {
    match strip_prefix(trim(contents), "gitdir: "@) {
        Some(target) => Some(join_path(root, parse_path(target))),
        None => None,
    }
}

/// Resolve the git directory from the repository root.
///
/// For a normal repo, `root/.git` is a directory and is the git directory. For
/// a worktree, `root/.git` is a file that contains `gitdir: <path>`, which
/// points to the actual git metadata directory. `marker_contents` is what
/// reading `root/.git` as a file gave.
pub fn resolve_git_dir(root: &FsPath, marker_is_dir: bool, marker_contents: Option<String>) -> (r:
    Option<FsPath>)
    ensures
        match r {
            Some(p) => Some(p@) == (if marker_is_dir {
                Some(join_path(root@, parse_path(".git"@)))
            } else {
                match marker_contents {
                    Some(c) => gitdir_target(root@, c@),
                    None => None,
                }
            }),
            None => !marker_is_dir && match marker_contents {
                Some(c) => gitdir_target(root@, c@) is None,
                None => true,
            },
        },
{
    if marker_is_dir {
        return Some(git_marker(root));
    }
    let contents = match marker_contents {
        Some(c) => c,
        None => return None,
    };
    let t = trim_str(contents.as_str());
    let prefix = to_chars("gitdir: ");
    match strip_prefix_chars(t.as_slice(), prefix.as_slice()) {
        Some(target) => {
            let target_str = from_chars(target.as_slice());
            Some(root.join_str(target_str.as_str()))
        },
        None => None,
    }
}

/// The directory shared by all worktrees: the trimmed contents of the
/// `commondir` file taken relative to the git directory, or the git directory
/// itself when that file could not be read.
pub open spec fn common_dir_spec(git_dir: PathView, commondir_contents: Option<Seq<char>>) -> PathView {
    match commondir_contents {
        Some(c) => join_path(git_dir, parse_path(trim(c))),
        None => git_dir,
    }
}

/// The `commondir` file of a git directory.
pub fn commondir_path(git_dir: &FsPath) -> (r: FsPath)
    ensures
        r@ == join_path(git_dir@, parse_path("commondir"@)),
{
    git_dir.join_str("commondir")
}

/// Resolve the common directory for shared git data.
///
/// In a worktree, the git dir contains a `commondir` file that points to the
/// shared git directory (where refs/heads, refs/remotes, objects, etc. live).
/// For a normal repo, the common dir is the git dir itself.
pub fn resolve_common_dir(git_dir: &FsPath, commondir_contents: Option<String>) -> (r: FsPath)
    ensures
        r@ == common_dir_spec(git_dir@, opt_view(commondir_contents)),
{
    match commondir_contents {
        Some(c) => {
            let t = trim_str(c.as_str());
            let rel = from_chars(t.as_slice());
            git_dir.join_str(rel.as_str())
        },
        None => git_dir.duplicate(),
    }
}

/// The reflog of the stash, whose lines are the stashes.
pub fn stash_log_path(common_dir: &FsPath) -> (r: FsPath)
    ensures
        r@ == join_path(common_dir@, parse_path("logs/refs/stash"@)),
{
    common_dir.join_str("logs/refs/stash")
}

/// The number of stashes: the number of lines of the stash reflog, or zero
/// when it could not be read.
pub fn get_num_stashes(stash_log: Option<String>) -> (r: usize)
    ensures
        r == match stash_log {
            Some(s) => lines(s@).len(),
            None => 0,
        },
{
    match stash_log {
        Some(s) => crate::text::count_lines(s.as_str()),
        None => 0,
    }
}

/// The entry of the git directory that shows an operation in progress.
pub fn operation_path(git_dir: &FsPath, op: GitOperations) -> (r: FsPath)
    ensures
        r@ == join_path(git_dir@, parse_path(operation_filename(op))),
{
    git_dir.join_str(op.filename())
}

// ---------------------------------------------------------------------------
// Refs
// ---------------------------------------------------------------------------

/// The SHA that one line of a `packed-refs` file gives for `ref_path`: lines
/// are `<sha> <ref>`; comment lines (`#`) and peeled entries (`^`) give none.
pub open spec fn packed_line_sha(line: Seq<char>, ref_path: Seq<char>) -> Option<Seq<char>> {
    if line.len() > 0 && (line[0] == '#' || line[0] == '^') {
        None
    } else {
        match split_once(line, ' ') {
            Some((sha, name)) => if name == ref_path {
                Some(sha)
            } else {
                None
            },
            None => None,
        }
    }
}

/// The SHA that the first matching line among `ls[from..]` gives.
pub open spec fn packed_lines_sha(ls: Seq<Seq<char>>, ref_path: Seq<char>, from: int) -> Option<
    Seq<char>,
>
    decreases ls.len() - from,
{
    if from < 0 || from >= ls.len() {
        None
    } else {
        match packed_line_sha(ls[from], ref_path) {
            Some(sha) => Some(sha),
            None => packed_lines_sha(ls, ref_path, from + 1),
        }
    }
}

/// The SHA of `ref_path` in the contents of a `packed-refs` file.
pub open spec fn packed_ref_sha(contents: Seq<char>, ref_path: Seq<char>) -> Option<Seq<char>> {
    packed_lines_sha(lines(contents), ref_path, 0)
}

/// Whether `line` is the `packed-refs` entry `<sha> <ref_path>`: it is not a
/// comment (`#`) or a peeled entry (`^`), and it is `sha`, a space and
/// `ref_path`, with no space in `sha`.
pub open spec fn is_ref_entry(line: Seq<char>, sha: Seq<char>, ref_path: Seq<char>) -> bool {
    &&& !(line.len() > 0 && (line[0] == '#' || line[0] == '^'))
    &&& line == sha + seq![' '] + ref_path
    &&& forall|j: int| 0 <= j < sha.len() ==> sha[j] != ' '
}

proof fn lemma_find_from_first(s: Seq<char>, c: char, from: int)
    requires
        0 <= from,
    ensures
        match find_from(s, c, from) {
            Some(k) => from <= k < s.len() && s[k] == c && forall|j: int| from <= j < k ==> s[j] != c,
            None => forall|j: int| from <= j < s.len() ==> s[j] != c,
        },
    decreases s.len() - from,
{
    if from < s.len() && s[from] != c {
        lemma_find_from_first(s, c, from + 1);
    }
}

/// One line of `packed-refs` gives a SHA for a ref exactly when it is the
/// entry of that ref, and the SHA is then the whole text before the space.
pub proof fn lemma_packed_line_sha(line: Seq<char>, ref_path: Seq<char>, sha: Seq<char>)
    ensures
        packed_line_sha(line, ref_path) == Some(sha) <==> is_ref_entry(line, sha, ref_path),
{
    lemma_find_from_first(line, ' ', 0);
    if is_ref_entry(line, sha, ref_path) {
        let k = sha.len() as int;
        assert(line[k] == ' ');
        assert forall|j: int| 0 <= j < k implies line[j] != ' ' by {
            assert(line[j] == sha[j]);
        }
        match find_from(line, ' ', 0) {
            Some(i) => {
                if i < k {
                    assert(line[i] == sha[i]);
                }
                assert(i == k);
                assert(line.take(k) =~= sha);
                assert(line.skip(k + 1) =~= ref_path);
            },
            None => {
                assert(line[k] != ' ');
            },
        }
    }
    if packed_line_sha(line, ref_path) == Some(sha) {
        let i = find_from(line, ' ', 0)->0;
        assert(sha =~= line.take(i));
        assert(line =~= line.take(i) + seq![' '] + line.skip(i + 1));
    }
}

proof fn lemma_packed_lines_sha(ls: Seq<Seq<char>>, ref_path: Seq<char>, from: int)
    requires
        0 <= from <= ls.len(),
    ensures
        match packed_lines_sha(ls, ref_path, from) {
            Some(x) => exists|i: int|
                from <= i < ls.len() && is_ref_entry(#[trigger] ls[i], x, ref_path) && forall|
                    j: int,
                    y: Seq<char>,
                | from <= j < i ==> !(#[trigger] is_ref_entry(ls[j], y, ref_path)),
            None => forall|j: int, y: Seq<char>|
                from <= j < ls.len() ==> !(#[trigger] is_ref_entry(ls[j], y, ref_path)),
        },
    decreases ls.len() - from,
{
    if from < ls.len() {
        lemma_packed_lines_sha(ls, ref_path, from + 1);
        match packed_line_sha(ls[from], ref_path) {
            Some(x) => {
                lemma_packed_line_sha(ls[from], ref_path, x);
            },
            None => {
                assert forall|y: Seq<char>| !(#[trigger] is_ref_entry(ls[from], y, ref_path)) by {
                    lemma_packed_line_sha(ls[from], ref_path, y);
                }
                match packed_lines_sha(ls, ref_path, from + 1) {
                    Some(x) => {
                        let i = choose|i: int|
                            from + 1 <= i < ls.len() && is_ref_entry(#[trigger] ls[i], x, ref_path)
                                && forall|j: int, y: Seq<char>|
                                from + 1 <= j < i ==> !(#[trigger] is_ref_entry(ls[j], y, ref_path));
                        assert forall|j: int, y: Seq<char>| from <= j < i implies !(#[trigger] is_ref_entry(ls[j], y, ref_path)) by {
                            if j == from {
                                assert(!is_ref_entry(ls[from], y, ref_path));
                            }
                        }
                    },
                    None => {
                        assert forall|j: int, y: Seq<char>| from <= j < ls.len() implies !(#[trigger] is_ref_entry(ls[j], y, ref_path)) by {
                            if j == from {
                                assert(!is_ref_entry(ls[from], y, ref_path));
                            }
                        }
                    },
                }
            },
        }
    }
}

/// The SHA found for a ref in the contents of `packed-refs` is, in full, the
/// text before the space of the first line that is the entry `<sha> <ref>` of
/// that ref (comments and peeled entries are never entries); there is none
/// exactly when no line is such an entry.
pub proof fn lemma_packed_ref_sha(contents: Seq<char>, ref_path: Seq<char>)
    ensures
        match packed_ref_sha(contents, ref_path) {
            Some(sha) => exists|i: int|
                0 <= i < lines(contents).len() && is_ref_entry(
                    #[trigger] lines(contents)[i],
                    sha,
                    ref_path,
                ) && forall|j: int, y: Seq<char>|
                    0 <= j < i ==> !(#[trigger] is_ref_entry(lines(contents)[j], y, ref_path)),
            None => forall|j: int, y: Seq<char>|
                0 <= j < lines(contents).len() ==> !(#[trigger] is_ref_entry(lines(contents)[j], y, ref_path)),
        },
{
    lemma_packed_lines_sha(lines(contents), ref_path, 0);
}

/// When line `i` of the contents is the entry `<sha> <ref>` and no earlier
/// line is an entry of that ref, the SHA found is `sha`, whatever its length.
pub proof fn lemma_packed_ref_sha_entry(contents: Seq<char>, ref_path: Seq<char>, i: int, sha: Seq<char>)
    requires
        0 <= i < lines(contents).len(),
        is_ref_entry(lines(contents)[i], sha, ref_path),
        forall|j: int, y: Seq<char>|
            0 <= j < i ==> !(#[trigger] is_ref_entry(lines(contents)[j], y, ref_path)),
    ensures
        packed_ref_sha(contents, ref_path) == Some(sha),
{
    lemma_packed_ref_sha(contents, ref_path);
    let ls = lines(contents);
    match packed_ref_sha(contents, ref_path) {
        Some(x) => {
            let k = choose|k: int|
                0 <= k < ls.len() && is_ref_entry(#[trigger] ls[k], x, ref_path) && forall|
                    j: int,
                    y: Seq<char>,
                | 0 <= j < k ==> !(#[trigger] is_ref_entry(ls[j], y, ref_path));
            if k < i {
                assert(!is_ref_entry(ls[k], x, ref_path));
            } else if k > i {
                assert(!is_ref_entry(ls[i], sha, ref_path));
            }
            assert(x.len() == sha.len()) by {
                if x.len() < sha.len() {
                    assert(ls[i][x.len() as int] == ' ');
                    assert(sha[x.len() as int] == ' ');
                } else if x.len() > sha.len() {
                    assert(ls[i][sha.len() as int] == ' ');
                    assert(x[sha.len() as int] == ' ');
                }
            }
            assert(x =~= sha) by {
                assert forall|j: int| 0 <= j < x.len() implies x[j] == sha[j] by {
                    assert(ls[i][j] == x[j]);
                    assert(ls[i][j] == sha[j]);
                }
            }
        },
        None => {
            assert(!is_ref_entry(ls[i], sha, ref_path));
        },
    }
}

proof fn lemma_packed_lines_shift(x: Seq<char>, ls: Seq<Seq<char>>, ref_path: Seq<char>, from: int)
    requires
        0 <= from,
    ensures
        packed_lines_sha(seq![x] + ls, ref_path, from + 1) == packed_lines_sha(ls, ref_path, from),
    decreases ls.len() - from,
{
    let xs = seq![x] + ls;
    if from < ls.len() {
        assert(xs[from + 1] == ls[from]);
        lemma_packed_lines_shift(x, ls, ref_path, from + 1);
    }
}

/// A comment line or a peeled entry before the rest of a `packed-refs` file
/// changes nothing: the SHA found is the one the rest gives.
pub proof fn lemma_packed_ref_sha_skips(line: Seq<char>, rest: Seq<char>, ref_path: Seq<char>)
    requires
        line.len() > 0,
        line[0] == '#' || line[0] == '^',
        forall|i: int| 0 <= i < line.len() ==> line[i] != '\n',
    ensures
        packed_ref_sha(line + seq!['\n'] + rest, ref_path) == packed_ref_sha(rest, ref_path),
{
    lemma_lines_cons(line, rest);
    let l = strip_cr(line);
    assert(l.len() > 0 && l[0] == line[0]);
    assert(packed_line_sha(l, ref_path) is None);
    lemma_packed_lines_shift(l, lines(rest), ref_path, 0);
}

/// A `packed-refs` file whose first line is `<sha> <ref>` gives, for that ref,
/// `sha` in full, whatever its length and whatever follows.
pub proof fn lemma_packed_ref_sha_first(sha: Seq<char>, ref_path: Seq<char>, rest: Seq<char>)
    requires
        !(sha.len() > 0 && (sha[0] == '#' || sha[0] == '^')),
        forall|i: int| 0 <= i < sha.len() ==> sha[i] != ' ' && sha[i] != '\n',
        forall|i: int| 0 <= i < ref_path.len() ==> ref_path[i] != '\n',
        !(ref_path.len() > 0 && ref_path.last() == '\r'),
    ensures
        packed_ref_sha(sha + seq![' '] + ref_path + seq!['\n'] + rest, ref_path) == Some(sha),
{
    let line = sha + seq![' '] + ref_path;
    assert forall|i: int| 0 <= i < line.len() implies line[i] != '\n' by {
        if i < sha.len() {
            assert(line[i] == sha[i]);
        } else if i > sha.len() {
            assert(line[i] == ref_path[i - sha.len() - 1]);
        }
    }
    lemma_lines_cons(line, rest);
    assert(strip_cr(line) == line) by {
        if ref_path.len() > 0 {
            assert(line.last() == ref_path.last());
        }
    }
    if sha.len() == 0 {
        assert(line[0] == ' ');
    } else {
        assert(line[0] == sha[0]);
    }
    assert(is_ref_entry(line, sha, ref_path));
    lemma_packed_line_sha(line, ref_path, sha);
}

/// Look up a ref in the contents of a `packed-refs` file.
///
/// The packed-refs format has lines like `<sha> <ref>`, with comment lines
/// starting with `#` and peeled entries starting with `^`.
pub fn lookup_packed_ref(contents: &str, ref_path: &str) -> (r: Option<String>)
    ensures
        opt_view(r) == packed_ref_sha(contents@, ref_path@),
{
    let c = to_chars(contents);
    let want = to_chars(ref_path);
    let ls = split_lines(c.as_slice());
    let mut i: usize = 0;
    while i < ls.len()
        invariant
            i <= ls@.len(),
            views(ls@) == lines(contents@),
            want@ == ref_path@,
            packed_lines_sha(lines(contents@), ref_path@, 0) == packed_lines_sha(
                lines(contents@),
                ref_path@,
                i as int,
            ),
        decreases ls@.len() - i,
    {
        let line = &ls[i];
        assert(views(ls@)[i as int] == line@);
        let skip = line.len() > 0 && (line[0] == '#' || line[0] == '^');
        if !skip {
            match split_once_chars(line.as_slice(), ' ') {
                Some((sha, name)) => {
                    if crate::text::chars_eq(name.as_slice(), want.as_slice()) {
                        return Some(from_chars(sha.as_slice()));
                    }
                },
                None => {},
            }
        }
        i = i + 1;
    }
    None
}

/// The text of a command's standard output, if the command succeeded and its
/// output is UTF-8 that is not blank once trimmed.
pub open spec fn command_text(success: bool, stdout: Seq<u8>) -> Option<Seq<char>> {
    if success && valid_utf8(stdout) && trim(decode_utf8(stdout)).len() > 0 {
        Some(trim(decode_utf8(stdout)))
    } else {
        None
    }
}

/// Decodes UTF-8 bytes (`String::from_utf8(bytes).ok()`): `None` exactly when
/// the bytes are not valid UTF-8, else the characters they encode.
#[verifier::external_body]
fn string_from_utf8(bytes: Vec<u8>) -> (r: Option<String>)
    ensures
        r is Some <==> valid_utf8(bytes@),
        match r {
            Some(s) => s@ == decode_utf8(bytes@),
            None => true,
        },
{
    String::from_utf8(bytes).ok()
}

/// The text that `git symbolic-ref` or `git rev-parse` printed, given whether
/// it exited successfully and its standard output.
pub fn command_output_text(success: bool, stdout: Vec<u8>) -> (r: Option<String>)
    ensures
        opt_view(r) == command_text(success, stdout@),
{
    if !success {
        return None;
    }
    let ghost bytes = stdout@;
    let text = match string_from_utf8(stdout) {
        Some(t) => t,
        None => return None,
    };
    let t = trim_str(text.as_str());
    if t.len() == 0 {
        None
    } else {
        Some(from_chars(t.as_slice()))
    }
}

} // verus!
