//! A summary of the Git repository around a directory, read from the files of
//! its `.git` directory: whether there is one, the HEAD, and the stash count.
use vstd::prelude::*;

use crate::context::git::{opt_as_str, opt_view};
use crate::path::{join_path, parse_path, FsPath};
use crate::text::{byte_prefix, byte_prefix_spec, from_chars, lemma_byte_prefix_ascii, lines, strip_prefix, strip_prefix_chars, to_chars, trim, trim_str};

verus! {

/// The HEAD that the trimmed contents of a `HEAD` file name: the branch of
/// `ref: refs/heads/<branch>`, else the first seven bytes of a detached SHA
/// (`None` when the contents are shorter than that, or byte seven falls
/// inside a character).
pub open spec fn head_from_file(contents: Seq<char>) -> Option<Seq<char>> {
    match strip_prefix(contents, "ref: refs/heads/"@) {
        Some(branch) => Some(branch),
        None => byte_prefix_spec(contents, 7),
    }
}

/// A `HEAD` file that names a branch gives that branch in full, whatever its
/// length.
pub proof fn lemma_head_from_file_branch(branch: Seq<char>)
    ensures
        head_from_file("ref: refs/heads/"@ + branch) == Some(branch),
{
    let p = "ref: refs/heads/"@;
    assert((p + branch).take(p.len() as int) =~= p);
    assert((p + branch).skip(p.len() as int) =~= branch);
}

/// A detached `HEAD` (contents that do not name a branch) whose first seven
/// characters are ASCII, as those of a SHA are, gives exactly those seven
/// characters.
pub proof fn lemma_head_from_file_detached(contents: Seq<char>)
    requires
        strip_prefix(contents, "ref: refs/heads/"@) is None,
        contents.len() >= 7,
        forall|i: int| 0 <= i < 7 ==> contents[i] <= '\u{7f}',
    ensures
        head_from_file(contents) == Some(contents.take(7)),
{
    lemma_byte_prefix_ascii(contents, 7);
}

/// Parses the trimmed contents of a `HEAD` file.
pub fn parse_git_head(head_content: String) -> (r: Option<String>)
    ensures
        opt_view(r) == head_from_file(head_content@),
{
    let c = to_chars(head_content.as_str());
    let prefix = to_chars("ref: refs/heads/");
    match strip_prefix_chars(c.as_slice(), prefix.as_slice()) {
        Some(branch) => Some(from_chars(branch.as_slice())),
        None => match byte_prefix(c.as_slice(), 7) {
            Some(sha) => Some(from_chars(sha.as_slice())),
            None => None,
        },
    }
}

/// The `HEAD` file of a repository root.
pub fn head_file(root: &FsPath) -> (r: FsPath)
    ensures
        r@ == join_path(root@, parse_path(".git/HEAD"@)),
{
    root.join_str(".git/HEAD")
}

/// The stash reflog of a repository root.
pub fn stash_file(root: &FsPath) -> (r: FsPath)
    ensures
        r@ == join_path(root@, parse_path(".git/logs/refs/stash"@)),
{
    root.join_str(".git/logs/refs/stash")
}

/// What is known of the repository: whether there is one, its HEAD, and its
/// number of stashes.
pub struct GitInfo {
    is_git_repo: bool,
    head: Option<String>,
    num_stashes: usize,
}

impl View for GitInfo {
    type V = (bool, Option<Seq<char>>, nat);

    closed spec fn view(&self) -> (bool, Option<Seq<char>>, nat) {
        (self.is_git_repo, opt_view(self.head), self.num_stashes as nat)
    }
}

impl GitInfo {
    /// The summary of a repository, given whether a repository root was found,
    /// the contents of its `HEAD` file and of its stash reflog (`None` when a
    /// file cannot be read). Without a root, it is [`GitInfo::empty`].
    pub fn new(found_root: bool, head_file: Option<String>, stash_log: Option<String>) -> (r: Self)
        ensures
            !found_root ==> r@ == (false, None::<Seq<char>>, 0nat),
            found_root ==> r@ == (
                true,
                match head_file {
                    Some(c) => head_from_file(trim(c@)),
                    None => None,
                },
                match stash_log {
                    Some(s) => lines(s@).len(),
                    None => 0,
                },
            ),
    {
        if !found_root {
            return Self::empty();
        }
        let head = match head_file {
            Some(c) => {
                let t = trim_str(c.as_str());
                parse_git_head(from_chars(t.as_slice()))
            },
            None => None,
        };
        let num_stashes = match stash_log {
            Some(s) => crate::text::count_lines(s.as_str()),
            None => 0,
        };
        GitInfo { is_git_repo: true, head, num_stashes }
    }

    /// The summary outside any repository.
    pub fn empty() -> (r: Self)
        ensures
            r@ == (false, None::<Seq<char>>, 0nat),
    {
        GitInfo { is_git_repo: false, head: None, num_stashes: 0 }
    }

    /// Whether the current directory is part of a Git repository
    pub fn is_git_repo(&self) -> (r: bool)
        ensures
            r == self@.0,
    {
        self.is_git_repo
    }

    /// The HEAD ref of the current Git repository
    pub fn head(&self) -> (r: Option<&str>)
        ensures
            match r {
                Some(s) => self@.1 == Some(s@),
                None => self@.1 is None,
            },
    {
        opt_as_str(&self.head)
    }

    /// The number of stashes in the current Git repository
    pub fn num_stashes(&self) -> (r: usize)
        ensures
            r == self@.2,
    {
        self.num_stashes
    }
}

} // verus!
