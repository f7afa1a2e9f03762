use vstd::prelude::*;
use vstd::string::*;

use crate::context::{Context, ContextView};
use crate::formatting::Color;
use crate::text::{byte_prefix, byte_prefix_spec, from_chars, lemma_byte_prefix_ascii, to_chars};
use crate::widgets::Widget;

verus! {

/// The branch of the repository's HEAD, when it is on one; else the first
/// seven bytes of the SHA of a detached HEAD, when it has that many and they
/// end on a character boundary.
pub open spec fn head_ref_content(context: ContextView) -> Option<Seq<char>> {
    match context.git {
        Some(g) => match g.head_ref {
            Some(r) => Some(r),
            None => match g.head_sha {
                Some(sha) => byte_prefix_spec(sha, 7),
                None => None,
            },
        },
        None => None,
    }
}

/// On a branch, the branch is shown in full, whatever its length; on a
/// detached HEAD whose SHA starts with seven ASCII characters, those seven
/// are shown.
pub proof fn lemma_head_ref_shows(context: ContextView)
    ensures
        match context.git {
            Some(g) => match g.head_ref {
                Some(b) => head_ref_content(context) == Some(b),
                None => match g.head_sha {
                    Some(sha) => (sha.len() >= 7 && forall|i: int| 0 <= i < 7 ==> sha[i] <= '\u{7f}')
                        ==> head_ref_content(context) == Some(sha.take(7)),
                    None => head_ref_content(context) is None,
                },
            },
            None => head_ref_content(context) is None,
        },
{
    if let Some(g) = context.git {
        if let Some(sha) = g.head_sha {
            if sha.len() >= 7 && forall|i: int| 0 <= i < 7 ==> sha[i] <= '\u{7f}' {
                lemma_byte_prefix_ascii(sha, 7);
            }
        }
    }
}

/// Display the branch that the repository's HEAD is on, or the short SHA of a
/// detached HEAD.
pub struct HeadRef;

impl Widget for HeadRef {
    open spec fn content_spec(&self, context: ContextView) -> Option<Seq<char>> {
        head_ref_content(context)
    }

    open spec fn color_spec(&self, context: ContextView) -> Color {
        Color::Default
    }

    open spec fn space_before_spec(&self) -> bool {
        true
    }

    open spec fn allow_space_after_spec(&self) -> bool {
        true
    }

    fn content(&self, context: &Context) -> (r: Option<String>) {
        let git = match context.git() {
            Some(g) => g,
            None => return None,
        };
        if let Some(h) = git.head_ref() {
            return Some(String::from_str(h));
        }
        match git.head_sha() {
            Some(sha) => {
                let c = to_chars(sha);
                match byte_prefix(c.as_slice(), 7) {
                    Some(p) => Some(from_chars(p.as_slice())),
                    None => None,
                }
            },
            None => None,
        }
    }

    fn color(&self, _context: &Context) -> (r: Color) {
        Color::Default
    }

    fn space_before(&self) -> (r: bool) {
        true
    }

    fn allow_space_after(&self) -> (r: bool) {
        true
    }
}

} // verus!
