use vstd::prelude::*;
use vstd::string::*;

use crate::context::{Context, ContextView};
use crate::formatting::Color;
use crate::widgets::Widget;

verus! {

/// Render a newline character.
pub struct Newline;

impl Widget for Newline {
    open spec fn content_spec(&self, context: ContextView) -> Option<Seq<char>> {
        Some("\n"@)
    }

    open spec fn color_spec(&self, context: ContextView) -> Color {
        Color::Default
    }

    open spec fn space_before_spec(&self) -> bool {
        false
    }

    open spec fn allow_space_after_spec(&self) -> bool {
        false
    }

    fn content(&self, _context: &Context) -> (r: Option<String>) {
        Some(String::from_str("\n"))
    }

    fn color(&self, _context: &Context) -> (r: Color) {
        Color::Default
    }

    fn space_before(&self) -> (r: bool) {
        false
    }

    fn allow_space_after(&self) -> (r: bool) {
        false
    }
}

} // verus!
