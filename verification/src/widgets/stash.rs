use vstd::prelude::*;

use crate::context::{Context, ContextView};
use crate::formatting::{superscript, to_superscript, Color};
use crate::number::{decimal, u64_to_string};
use crate::widgets::Widget;

verus! {

/// The number of stashes in superscript, when the repository has any.
pub open spec fn stash_content(context: ContextView) -> Option<Seq<char>> {
    match context.git {
        Some(g) => if g.num_stashes != 0 {
            Some(superscript(decimal(g.num_stashes)))
        } else {
            None
        },
        None => None,
    }
}

/// A repository with `n >= 1` stashes shows `n` in superscript decimal
/// digits; nothing is shown exactly when there is no repository or it has no
/// stash.
pub proof fn lemma_stash_content_shows_count(context: ContextView)
    ensures
        match context.git {
            Some(g) => g.num_stashes >= 1 ==> stash_content(context) == Some(
                superscript(decimal(g.num_stashes)),
            ),
            None => true,
        },
        stash_content(context) is None <==> (context.git is None || context.git->0.num_stashes == 0),
{
}

/// Display the number of stashed changes in the current Git repository.
pub struct Stash;

impl Widget for Stash {
    open spec fn content_spec(&self, context: ContextView) -> Option<Seq<char>> {
        stash_content(context)
    }

    open spec fn color_spec(&self, context: ContextView) -> Color {
        Color::White
    }

    open spec fn space_before_spec(&self) -> bool {
        false
    }

    open spec fn allow_space_after_spec(&self) -> bool {
        true
    }

    fn content(&self, context: &Context) -> (r: Option<String>) {
        let git = match context.git() {
            Some(g) => g,
            None => return None,
        };
        let n = git.num_stashes();
        if n == 0 {
            None
        } else {
            let s = u64_to_string(n as u64);
            Some(to_superscript(s.as_str()))
        }
    }

    fn color(&self, _context: &Context) -> (r: Color) {
        Color::White
    }

    fn space_before(&self) -> (r: bool) {
        false
    }

    fn allow_space_after(&self) -> (r: bool) {
        true
    }
}

} // verus!
