//! Data that a background job computes after the prompt has been drawn, and the
//! key under which it is cached between prompt renderings.
use vstd::prelude::*;
use vstd::string::*;

use crate::number::{
    decimal, i64_to_string, lemma_decimal_digits, lemma_decimal_injective,
    lemma_signed_decimal_injective, lemma_split_before_digits, signed_decimal, u64_to_string,
};

verus! {

/// Identifies one prompt rendering: the shell's process id and the number of
/// commands that shell has run so far.
pub struct CacheKey {
    pid: i32,
    exec_no: u64,
}

/// The name of the cache file of a rendering.
pub open spec fn cache_file_name_spec(pid: int, exec_no: nat) -> Seq<char> {
    "rslprompt-async-"@ + signed_decimal(pid) + "-"@ + decimal(exec_no) + ".json"@
}

/// Renderings with different keys never share a cache file.
pub proof fn lemma_cache_file_names_distinct(pid1: int, exec_no1: nat, pid2: int, exec_no2: nat)
    requires
        cache_file_name_spec(pid1, exec_no1) == cache_file_name_spec(pid2, exec_no2),
    ensures
        pid1 == pid2,
        exec_no1 == exec_no2,
{
    let pre = "rslprompt-async-"@;
    let post = ".json"@;
    let mid1 = signed_decimal(pid1) + "-"@ + decimal(exec_no1);
    let mid2 = signed_decimal(pid2) + "-"@ + decimal(exec_no2);
    let n1 = cache_file_name_spec(pid1, exec_no1);
    let n2 = cache_file_name_spec(pid2, exec_no2);
    assert(n1 =~= pre + mid1 + post);
    assert(n2 =~= pre + mid2 + post);
    assert(mid1 =~= n1.subrange(pre.len() as int, n1.len() - post.len()));
    assert(mid2 =~= n2.subrange(pre.len() as int, n2.len() - post.len()));
    reveal_strlit("-");
    assert("-"@ =~= seq!['-']);
    lemma_decimal_digits(exec_no1);
    lemma_decimal_digits(exec_no2);
    lemma_split_before_digits(signed_decimal(pid1), decimal(exec_no1), signed_decimal(pid2), decimal(exec_no2));
    lemma_signed_decimal_injective(pid1, pid2);
    lemma_decimal_injective(exec_no1, exec_no2);
}

impl CacheKey {
    pub fn new(pid: i32, exec_no: u64) -> (r: Self)
        ensures
            r.pid() == pid,
            r.exec_no() == exec_no,
    {
        CacheKey { pid, exec_no }
    }

    /// The shell's process id.
    #[verifier::when_used_as_spec(spec_pid)]
    pub fn pid(&self) -> (r: i32)
        ensures
            r == self.spec_pid(),
    {
        self.pid
    }

    pub closed spec fn spec_pid(&self) -> i32 {
        self.pid
    }

    /// The number of commands the shell had run.
    #[verifier::when_used_as_spec(spec_exec_no)]
    pub fn exec_no(&self) -> (r: u64)
        ensures
            r == self.spec_exec_no(),
    {
        self.exec_no
    }

    pub closed spec fn spec_exec_no(&self) -> u64 {
        self.exec_no
    }

    /// The file name, inside the temporary directory, of the cached data:
    /// `rslprompt-async-<pid>-<exec_no>.json`.
    pub fn cache_file_name(&self) -> (r: String)
        ensures
            r@ == cache_file_name_spec(self.pid() as int, self.exec_no() as nat),
    {
        let mut s = String::from_str("rslprompt-async-");
        let pid = i64_to_string(self.pid as i64);
        s.append(pid.as_str());
        s.append("-");
        let n = u64_to_string(self.exec_no);
        s.append(n.as_str());
        s.append(".json");
        s
    }
}

/// The key of the current rendering: there is one only when both the shell's
/// process id and its command count are known.
pub fn background_key(shell_pid: Option<i32>, exec_no: Option<u64>) -> (r: Option<CacheKey>)
    ensures
        match r {
            Some(k) => shell_pid == Some(k.pid()) && exec_no == Some(k.exec_no()),
            None => shell_pid is None || exec_no is None,
        },
{
    match (shell_pid, exec_no) {
        (Some(pid), Some(n)) => Some(CacheKey::new(pid, n)),
        _ => None,
    }
}

/// What the background job found out about the repository.
pub struct BackgroundData {
    /// Whether the working tree has changes; `None` when `git status` could
    /// not be run.
    pub has_changes: Option<bool>,
}

impl BackgroundData {
    /// The data for the output of `git status --porcelain`: the working tree
    /// has changes exactly when that output is not empty; `None` stands for a
    /// command that could not be run.
    pub fn fetch(porcelain_output: Option<Vec<u8>>) -> (r: Self)
        ensures
            r.has_changes == match porcelain_output {
                Some(out) => Some(out@.len() > 0),
                None => None::<bool>,
            },
    {
        match porcelain_output {
            Some(out) => BackgroundData { has_changes: Some(out.len() > 0) },
            None => BackgroundData { has_changes: None },
        }
    }
}

} // verus!
