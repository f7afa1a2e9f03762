use vstd::prelude::*;
use vstd::string::*;

use crate::context::git::GitStatus;
use crate::context::{AsyncValue, Context, ContextView};
use crate::formatting::Color;
use crate::text::{from_chars, sub_chars, take_chars, to_chars};
use crate::widgets::Widget;

verus! {

/// The HEAD of the repository: its branch, else the first seven characters of
/// its SHA, else `???`; nothing outside a repository.
pub open spec fn git_ref_content(context: ContextView) -> Option<Seq<char>> {
    match context.git {
        Some(g) => match g.head_ref {
            Some(r) => Some(r),
            None => match g.head_sha {
                Some(sha) => Some(take_chars(sha, 7)),
                None => Some("???"@),
            },
        },
        None => None,
    }
}

/// Magenta for a dirty working tree, green for a clean one, the default color
/// while the status is unknown.
pub open spec fn git_ref_color(context: ContextView) -> Color {
    match context.git {
        Some(g) => match g.status {
            AsyncValue::Ready(Some(GitStatus::Dirty)) => Color::Magenta,
            AsyncValue::Ready(Some(GitStatus::Clean)) => Color::Green,
            _ => Color::Default,
        },
        None => Color::Default,
    }
}

/// On a branch, the branch is shown in full; on a detached HEAD, its first
/// seven characters (all of a shorter SHA); without either, `???`; nothing
/// outside a repository.
pub proof fn lemma_git_ref_shows(context: ContextView)
    ensures
        match context.git {
            Some(g) => match g.head_ref {
                Some(b) => git_ref_content(context) == Some(b),
                None => match g.head_sha {
                    Some(sha) => git_ref_content(context) == Some(
                        if sha.len() >= 7 {
                            sha.take(7)
                        } else {
                            sha
                        },
                    ),
                    None => git_ref_content(context) == Some("???"@),
                },
            },
            None => git_ref_content(context) is None,
        },
{
}

/// Display the current Git ref, colored by the status of the working tree.
pub struct GitRef;

impl Widget for GitRef {
    open spec fn content_spec(&self, context: ContextView) -> Option<Seq<char>> {
        git_ref_content(context)
    }

    open spec fn color_spec(&self, context: ContextView) -> Color {
        git_ref_color(context)
    }

    open spec fn space_before_spec(&self) -> bool {
        true
    }

    open spec fn allow_space_after_spec(&self) -> bool {
        true
    }

    fn content(&self, context: &Context) -> (r: Option<String>) {
        let git = match context.git() {
            Some(g) => g,
            None => return None,
        };
        if let Some(head_ref) = git.head_ref() {
            return Some(String::from_str(head_ref));
        }
        if let Some(head_sha) = git.head_sha() {
            let c = to_chars(head_sha);
            let n = if c.len() < 7 {
                c.len()
            } else {
                7
            };
            let t = sub_chars(c.as_slice(), 0, n);
            assert(t@ =~= take_chars(head_sha@, 7));
            return Some(from_chars(t.as_slice()));
        }
        Some(String::from_str("???"))
    }

    fn color(&self, context: &Context) -> (r: Color) {
        match context.git() {
            Some(git) => match git.status() {
                AsyncValue::Ready(Some(GitStatus::Dirty)) => Color::Magenta,
                AsyncValue::Ready(Some(GitStatus::Clean)) => Color::Green,
                _ => Color::Default,
            },
            None => Color::Default,
        }
    }

    fn space_before(&self) -> (r: bool) {
        true
    }

    fn allow_space_after(&self) -> (r: bool) {
        true
    }
}

} // verus!
