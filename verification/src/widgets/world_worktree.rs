use vstd::prelude::*;
use vstd::string::*;

use crate::context::{Context, ContextView};
use crate::formatting::Color;
use crate::widgets::Widget;

verus! {

/// `+` followed by the World tree, inside one.
pub open spec fn world_worktree_content(context: ContextView) -> Option<Seq<char>> {
    match context.world {
        Some(w) => Some("+"@ + w.0),
        None => None,
    }
}

/// Display the current worktree in the world monorepo if applicable.
pub struct WorldWorktree;

impl Widget for WorldWorktree {
    open spec fn content_spec(&self, context: ContextView) -> Option<Seq<char>> {
        world_worktree_content(context)
    }

    open spec fn color_spec(&self, context: ContextView) -> Color {
        Color::Green
    }

    open spec fn space_before_spec(&self) -> bool {
        true
    }

    open spec fn allow_space_after_spec(&self) -> bool {
        false
    }

    fn content(&self, context: &Context) -> (r: Option<String>) {
        match context.world() {
            Some(w) => {
                let mut s = String::from_str("+");
                s.append(w.tree());
                Some(s)
            },
            None => None,
        }
    }

    fn color(&self, _context: &Context) -> (r: Color) {
        Color::Green
    }

    fn space_before(&self) -> (r: bool) {
        true
    }

    fn allow_space_after(&self) -> (r: bool) {
        false
    }
}

} // verus!
