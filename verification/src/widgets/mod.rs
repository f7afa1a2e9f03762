//! The widgets that make up a prompt.
use vstd::prelude::*;

use crate::context::{Context, ContextView};
use crate::context::git::opt_view;
use crate::formatting::Color;

pub mod exit_status;
pub mod git_operations;
pub mod git_ref;
pub mod git_stash;
pub mod git_sync;
pub mod head_ref;
pub mod newline;
pub mod path;
pub mod prompt;
pub mod stash;
pub mod world_worktree;

verus! {

/// A widget is a component of the prompt that can display content and have a color.
/// Widgets are rendered in order to create the final prompt string.
///
/// Each method states its result through a spec function of the trait, so
/// that the renderer's contract can speak of any widget.
pub trait Widget {
    /// The content shown for a shell state.
    spec fn content_spec(&self, context: ContextView) -> Option<Seq<char>>;

    /// The color used for a shell state.
    spec fn color_spec(&self, context: ContextView) -> Color;

    /// Whether the widget asks for a space before it.
    spec fn space_before_spec(&self) -> bool;

    /// Whether the widget lets a space follow it.
    spec fn allow_space_after_spec(&self) -> bool;

    /// Returns the content to display for this widget.
    fn content(&self, context: &Context) -> (r: Option<String>)
        ensures
            opt_view(r) == self.content_spec(context@),
    ;

    /// Returns the color to use for this widget (most widgets use
    /// `Color::Default`).
    fn color(&self, context: &Context) -> (r: Color)
        ensures
            r == self.color_spec(context@),
    ;

    /// Whether to request a space before this widget when rendering (most
    /// widgets do).
    /// Note: a space will only be added if the previous widget sets `allow_space_after()`.
    fn space_before(&self) -> (r: bool)
        ensures
            r == self.space_before_spec(),
    ;

    /// Whether to allow a space to be placed after this widget when rendering
    /// (most widgets do).
    fn allow_space_after(&self) -> (r: bool)
        ensures
            r == self.allow_space_after_spec(),
    ;
}

/// The widgets of the default prompt, in order: a newline, the current
/// directory, the HEAD ref, the stash count, the exit status, a newline, and
/// the prompt symbol.
pub fn default_widgets() -> (r: Vec<&'static dyn Widget>)
    ensures
        r@.len() == 7,
        forall|c: ContextView|
            {
                &&& r@[0].content_spec(c) == Some("\n"@) && r@[0].color_spec(c) == Color::Default
                &&& r@[1].content_spec(c) == path::path_content(c) && r@[1].color_spec(c)
                    == path::path_color(c)
                &&& r@[2].content_spec(c) == head_ref::head_ref_content(c) && r@[2].color_spec(c)
                    == Color::Default
                &&& r@[3].content_spec(c) == stash::stash_content(c) && r@[3].color_spec(c)
                    == Color::White
                &&& r@[4].content_spec(c) == exit_status::exit_status_content(c) && r@[4].color_spec(c)
                    == Color::Red
                &&& r@[5].content_spec(c) == Some("\n"@) && r@[5].color_spec(c) == Color::Default
                &&& r@[6].content_spec(c) == prompt::prompt_content(c) && r@[6].color_spec(c)
                    == prompt::prompt_color(c)
            },
        !r@[0].space_before_spec() && !r@[0].allow_space_after_spec(),
        r@[1].space_before_spec() && r@[1].allow_space_after_spec(),
        r@[2].space_before_spec() && r@[2].allow_space_after_spec(),
        !r@[3].space_before_spec() && r@[3].allow_space_after_spec(),
        r@[4].space_before_spec() && r@[4].allow_space_after_spec(),
        !r@[5].space_before_spec() && !r@[5].allow_space_after_spec(),
        r@[6].space_before_spec() && r@[6].allow_space_after_spec(),
{
    let v: Vec<&'static dyn Widget> = vec![
        &newline::Newline,
        &path::Path,
        &head_ref::HeadRef,
        &stash::Stash,
        &exit_status::ExitStatus,
        &newline::Newline,
        &prompt::Prompt,
    ];
    v
}

} // verus!
