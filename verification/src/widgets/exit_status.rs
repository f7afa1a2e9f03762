use vstd::prelude::*;

use crate::context::{Context, ContextView};
use crate::formatting::Color;
use crate::number::{decimal, u64_to_string};
use crate::widgets::Widget;

verus! {

/// The exit code of the last command, in decimal, when it is known and not
/// zero.
pub open spec fn exit_status_content(context: ContextView) -> Option<Seq<char>> {
    match context.exit_status {
        Some(status) => if status != 0 {
            Some(decimal(status as nat))
        } else {
            None
        },
        None => None,
    }
}

/// Display the exit code of the last command if it was non-zero.
pub struct ExitStatus;

impl Widget for ExitStatus {
    open spec fn content_spec(&self, context: ContextView) -> Option<Seq<char>> {
        exit_status_content(context)
    }

    open spec fn color_spec(&self, context: ContextView) -> Color {
        Color::Red
    }

    open spec fn space_before_spec(&self) -> bool {
        true
    }

    open spec fn allow_space_after_spec(&self) -> bool {
        true
    }

    fn content(&self, context: &Context) -> (r: Option<String>) {
        match context.exit_status() {
            Some(status) => if status != 0 {
                Some(u64_to_string(status as u64))
            } else {
                None
            },
            None => None,
        }
    }

    fn color(&self, _context: &Context) -> (r: Color) {
        Color::Red
    }

    fn space_before(&self) -> (r: bool) {
        true
    }

    fn allow_space_after(&self) -> (r: bool) {
        true
    }
}

} // verus!
