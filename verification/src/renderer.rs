//! Laying widgets out into the prompt string.
use vstd::prelude::*;
use vstd::string::*;

use crate::context::{Context, ContextView};
use crate::formatting::{activation, color_code, Color};
use crate::text::{extend_chars, from_chars, to_chars};
use crate::widgets::Widget;

verus! {

/// The text of the widget at `i`: the activation of its color, then its
/// content (nothing when it has none).
pub open spec fn rendered_at(ws: Seq<&dyn Widget>, i: int, context: ContextView) -> Seq<char> {
    activation(ws[i].color_spec(context)) + match ws[i].content_spec(context) {
        Some(c) => c,
        None => Seq::empty(),
    }
}

/// Whether a space goes before the widget at `i`: it is not the first, the
/// widget before it allows a space after it, and it asks for one before it.
pub open spec fn space_at(ws: Seq<&dyn Widget>, i: int) -> bool {
    i > 0 && ws[i - 1].allow_space_after_spec() && ws[i].space_before_spec()
}

/// The first `k` widgets rendered one after the other, each preceded by a
/// space where [`space_at`] says so.
pub open spec fn rendered_upto(ws: Seq<&dyn Widget>, k: int, context: ContextView) -> Seq<char>
    decreases k,
{
    if k <= 0 {
        Seq::empty()
    } else {
        rendered_upto(ws, k - 1, context) + (if space_at(ws, k - 1) {
            seq![' ']
        } else {
            Seq::empty()
        }) + rendered_at(ws, k - 1, context)
    }
}

/// The prompt: the rendered widgets, then the code that resets the color, then
/// a space.
pub open spec fn rendered_prompt(ws: Seq<&dyn Widget>, context: ContextView) -> Seq<char> {
    rendered_upto(ws, ws.len() as int, context) + color_code(Color::reset_spec()) + seq![' ']
}

/// Render a prompt string from a list of widgets and the current context.
pub fn render_prompt(widgets: &[&dyn Widget], context: &Context) -> (r: String)
    ensures
        r@ == rendered_prompt(widgets@, context@),
{
    let mut output: Vec<char> = Vec::new();
    let mut space_allowed = false;
    let mut i: usize = 0;
    while i < widgets.len()
        invariant
            i <= widgets@.len(),
            output@ == rendered_upto(widgets@, i as int, context@),
            i > 0 ==> space_allowed == widgets@[i - 1].allow_space_after_spec(),
            i == 0 ==> !space_allowed,
        decreases widgets@.len() - i,
    {
        let widget = widgets[i];
        let ghost before = output@;
        let rendered = render_widget(widget, context);
        let space = space_allowed && widget.space_before();
        if space {
            output.push(' ');
        }
        assert(output@ =~= before + (if space_at(widgets@, i as int) {
            seq![' ']
        } else {
            Seq::<char>::empty()
        }));
        let rc = to_chars(rendered.as_str());
        extend_chars(&mut output, rc.as_slice());
        assert(widget == widgets@[i as int]);
        assert(rendered@ == rendered_at(widgets@, i as int, context@));
        assert(rendered_upto(widgets@, i + 1, context@) == before + (if space_at(widgets@, i as int) {
            seq![' ']
        } else {
            Seq::<char>::empty()
        }) + rendered_at(widgets@, i as int, context@));
        space_allowed = widget.allow_space_after();
        i = i + 1;
    }
    let reset = Color::reset();
    extend_chars(&mut output, to_chars(reset.code()).as_slice());
    output.push(' ');
    from_chars(output.as_slice())
}

/// Render one widget: the activation of its color, then its content.
pub fn render_widget<W: Widget + ?Sized>(widget: &W, context: &Context) -> (r: String)
    ensures
        r@ == activation(widget.color_spec(context@)) + match widget.content_spec(context@) {
            Some(c) => c,
            None => Seq::<char>::empty(),
        },
{
    let content = match widget.content(context) {
        Some(c) => c,
        None => String::new(),
    };
    let color = widget.color(context);
    let mut s = color.activate();
    s.append(content.as_str());
    s
}

/// Rendering only appends: the rendering of the first `j` widgets begins the
/// rendering of the first `k`.
pub proof fn lemma_rendered_prefix(ws: Seq<&dyn Widget>, j: int, k: int, context: ContextView)
    requires
        0 <= j <= k,
    ensures
        rendered_upto(ws, j, context).len() <= rendered_upto(ws, k, context).len(),
        rendered_upto(ws, k, context).take(rendered_upto(ws, j, context).len() as int)
            == rendered_upto(ws, j, context),
    decreases k - j,
{
    let a = rendered_upto(ws, j, context);
    if j == k {
        assert(a.take(a.len() as int) =~= a);
    } else {
        lemma_rendered_prefix(ws, j, k - 1, context);
        let b = rendered_upto(ws, k - 1, context);
        let full = rendered_upto(ws, k, context);
        assert(full.take(b.len() as int) =~= b);
        assert(full.take(a.len() as int) =~= b.take(a.len() as int));
    }
}

/// Two widgets render as the first, a space exactly when the first allows one
/// after it and the second asks for one before it, then the second: the first
/// widget never gets a space before it.
pub proof fn lemma_rendered_pair(ws: Seq<&dyn Widget>, context: ContextView)
    requires
        ws.len() == 2,
    ensures
        rendered_upto(ws, 2, context) == rendered_at(ws, 0, context) + (if ws[0].allow_space_after_spec()
            && ws[1].space_before_spec() {
            seq![' ']
        } else {
            Seq::<char>::empty()
        }) + rendered_at(ws, 1, context),
{
    assert(rendered_upto(ws, 0, context) == Seq::<char>::empty());
    assert(!space_at(ws, 0));
    assert(rendered_upto(ws, 1, context) =~= rendered_at(ws, 0, context));
}

} // verus!
