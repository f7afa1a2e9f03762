use vstd::prelude::*;
use vstd::string::*;

use crate::context::{Context, ContextView};
use crate::formatting::Color;
use crate::text::{chars_eq, to_chars};
use crate::widgets::Widget;

verus! {

/// `⇵` when both the HEAD and the remote HEAD have a known SHA and the two
/// differ; nothing otherwise.
pub open spec fn git_sync_content(context: ContextView) -> Option<Seq<char>> {
    match context.git {
        Some(g) => match (g.head_sha, g.remote_head_sha) {
            (Some(local), Some(remote)) => if local == remote {
                None
            } else {
                Some("⇵"@)
            },
            _ => None,
        },
        None => None,
    }
}

/// When both SHAs are known, `⇵` is shown exactly when their texts differ
/// (whatever their lengths), and nothing when they are equal; when either is
/// unknown, or outside a repository, nothing is shown.
pub proof fn lemma_git_sync_marks_difference(context: ContextView)
    ensures
        match context.git {
            Some(g) => match (g.head_sha, g.remote_head_sha) {
                (Some(local), Some(remote)) => (git_sync_content(context) == Some("⇵"@) <==> local
                    != remote) && (git_sync_content(context) is None <==> local == remote),
                _ => git_sync_content(context) is None,
            },
            None => git_sync_content(context) is None,
        },
{
}

/// Indicate if the local Git branch is out of sync with the remote.
pub struct GitSync;

impl Widget for GitSync {
    open spec fn content_spec(&self, context: ContextView) -> Option<Seq<char>> {
        git_sync_content(context)
    }

    open spec fn color_spec(&self, context: ContextView) -> Color {
        Color::Cyan
    }

    open spec fn space_before_spec(&self) -> bool {
        true
    }

    open spec fn allow_space_after_spec(&self) -> bool {
        true
    }

    fn content(&self, context: &Context) -> (r: Option<String>) {
        let git = match context.git() {
            Some(g) => g,
            None => return None,
        };
        let local = match git.head_sha() {
            Some(s) => s,
            None => return None,
        };
        let remote = match git.remote_head_sha() {
            Some(s) => s,
            None => return None,
        };
        let a = to_chars(local);
        let b = to_chars(remote);
        if chars_eq(a.as_slice(), b.as_slice()) {
            return None;
        }
        Some(String::from_str("⇵"))
    }

    fn color(&self, _context: &Context) -> (r: Color) {
        Color::Cyan
    }

    fn space_before(&self) -> (r: bool) {
        true
    }

    fn allow_space_after(&self) -> (r: bool) {
        true
    }
}

} // verus!
