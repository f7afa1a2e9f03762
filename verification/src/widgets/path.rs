use vstd::prelude::*;
use vstd::string::*;

use crate::context::{Context, ContextView};
use crate::formatting::Color;
use crate::path::{
    display_path, is_empty_path, join_path, lemma_strip_join, lemma_strip_self, starts_with_cur_dir,
    strip_path_prefix, PathView,
};
use crate::widgets::Widget;

verus! {

/// The current directory: the World path inside a World tree; else, when the
/// home directory begins it, `~` for an empty rest and `~/` followed by the
/// text of the rest otherwise; the full path elsewhere.
pub open spec fn path_content(context: ContextView) -> Option<Seq<char>> {
    match context.world {
        Some(w) => Some(w.1),
        None => match context.cwd {
            None => None,
            Some(cwd) => match context.home_dir {
                Some(home) => match strip_path_prefix(cwd, home) {
                    Some(rel) => if is_empty_path(rel) {
                        Some("~"@)
                    } else {
                        Some("~/"@ + display_path(rel))
                    },
                    None => Some(display_path(cwd)),
                },
                None => Some(display_path(cwd)),
            },
        },
    }
}

/// Green over SSH, blue otherwise.
pub open spec fn path_color(context: ContextView) -> Color {
    if context.ssh_connection {
        Color::Green
    } else {
        Color::Blue
    }
}

/// In the home directory (outside a World tree), the path shown is `~`.
pub proof fn lemma_home_shows_tilde(context: ContextView)
    requires
        context.world is None,
        context.cwd is Some,
        context.home_dir == context.cwd,
    ensures
        path_content(context) == Some("~"@),
{
    lemma_strip_self(context.cwd.unwrap());
}

/// Below the home directory (outside a World tree), the path shown is `~/`
/// followed by the path relative to the home directory.
pub proof fn lemma_below_home_shows_relative(context: ContextView, home: PathView, rel: PathView)
    requires
        context.world is None,
        context.home_dir == Some(home),
        !rel.absolute,
        rel.parts.len() > 0,
        !starts_with_cur_dir(rel) || is_empty_path(home),
        context.cwd == Some(join_path(home, rel)),
    ensures
        path_content(context) == Some("~/"@ + display_path(rel)),
{
    lemma_strip_join(home, rel);
}

/// Display the current working directory, using `~` for the home directory if applicable.
pub struct Path;

impl Widget for Path {
    open spec fn content_spec(&self, context: ContextView) -> Option<Seq<char>> {
        path_content(context)
    }

    open spec fn color_spec(&self, context: ContextView) -> Color {
        path_color(context)
    }

    open spec fn space_before_spec(&self) -> bool {
        true
    }

    open spec fn allow_space_after_spec(&self) -> bool {
        true
    }

    fn content(&self, context: &Context) -> (r: Option<String>) {
        // Worldpaths are already formatted correctly
        if let Some(world) = context.world() {
            return Some(String::from_str(world.path()));
        }
        let cwd = match context.cwd() {
            Some(c) => c,
            None => return None,
        };
        if let Some(home) = context.home_dir() {
            if let Some(relative) = cwd.strip_prefix(home) {
                if relative.is_empty() {
                    return Some(String::from_str("~"));
                }
                let mut s = String::from_str("~/");
                let d = relative.display();
                s.append(d.as_str());
                return Some(s);
            }
        }
        Some(cwd.display())
    }

    fn color(&self, context: &Context) -> (r: Color) {
        if context.ssh_connection() {
            Color::Green
        } else {
            Color::Blue
        }
    }

    fn space_before(&self) -> (r: bool) {
        true
    }

    fn allow_space_after(&self) -> (r: bool) {
        true
    }
}

} // verus!
