use vstd::prelude::*;
use vstd::string::*;

use crate::context::{Context, ContextView};
use crate::formatting::Color;
use crate::text::{chars_eq, to_chars};
use crate::widgets::Widget;

verus! {

/// `❯` in vi insert mode (`VI_MODE` is `i`), `❮` otherwise.
pub open spec fn prompt_content(context: ContextView) -> Option<Seq<char>> {
    if context.vi_mode == Some("i"@) {
        Some("❯"@)
    } else {
        Some("❮"@)
    }
}

/// Green after a command that exited with status zero, red otherwise.
pub open spec fn prompt_color(context: ContextView) -> Color {
    if context.exit_status == Some(0u8) {
        Color::Green
    } else {
        Color::Red
    }
}

/// Display the prompt symbol in a color that reflects the exit status of the last command.
pub struct Prompt;

impl Widget for Prompt {
    open spec fn content_spec(&self, context: ContextView) -> Option<Seq<char>> {
        prompt_content(context)
    }

    open spec fn color_spec(&self, context: ContextView) -> Color {
        prompt_color(context)
    }

    open spec fn space_before_spec(&self) -> bool {
        true
    }

    open spec fn allow_space_after_spec(&self) -> bool {
        true
    }

    fn content(&self, context: &Context) -> (r: Option<String>) {
        let insert = match context.vi_mode() {
            Some(mode) => {
                let m = to_chars(mode);
                let i = to_chars("i");
                chars_eq(m.as_slice(), i.as_slice())
            },
            None => false,
        };
        if insert {
            Some(String::from_str("❯"))
        } else {
            Some(String::from_str("❮"))
        }
    }

    fn color(&self, context: &Context) -> (r: Color) {
        match context.exit_status() {
            Some(0) => Color::Green,
            _ => Color::Red,
        }
    }

    fn space_before(&self) -> (r: bool) {
        true
    }

    fn allow_space_after(&self) -> (r: bool) {
        true
    }
}

} // verus!
