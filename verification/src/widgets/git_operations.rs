use vstd::prelude::*;
use vstd::string::*;

use crate::context::git::operation_letter;
use crate::context::{Context, ContextView};
use crate::formatting::{superscript, superscript_char, to_superscript, Color};
use crate::text::{extend_chars, from_chars, to_chars};
use crate::widgets::Widget;

verus! {

/// The letters of the operations, each in superscript, in order.
pub open spec fn operations_text(ops: Seq<crate::context::git::GitOperations>) -> Seq<char>
    decreases ops.len(),
{
    if ops.len() == 0 {
        Seq::empty()
    } else {
        operations_text(ops.drop_last()) + superscript(operation_letter(ops.last()))
    }
}

/// The operations in progress in the repository, as superscript letters; none
/// outside a repository or when no operation is in progress.
pub open spec fn git_operations_content(context: ContextView) -> Option<Seq<char>> {
    match context.git {
        Some(g) => if g.operations.len() == 0 {
            None
        } else {
            Some(operations_text(g.operations))
        },
        None => None,
    }
}

proof fn lemma_operation_letter_single(op: crate::context::git::GitOperations)
    ensures
        operation_letter(op).len() == 1,
{
    reveal_strlit("P");
    reveal_strlit("M");
    reveal_strlit("B");
    reveal_strlit("R");
    reveal_strlit("r");
}

/// The text of the operations has one superscript letter per operation, in
/// the same order: its `i`-th character is the superscript of the letter of
/// the `i`-th operation.
pub proof fn lemma_operations_text(ops: Seq<crate::context::git::GitOperations>)
    ensures
        operations_text(ops).len() == ops.len(),
        forall|i: int|
            0 <= i < ops.len() ==> operations_text(ops)[i] == superscript_char(
                operation_letter(#[trigger] ops[i])[0],
            ),
    decreases ops.len(),
{
    if ops.len() > 0 {
        let d = ops.drop_last();
        lemma_operations_text(d);
        lemma_operation_letter_single(ops.last());
        assert forall|i: int| 0 <= i < ops.len() implies operations_text(ops)[i] == superscript_char(
            operation_letter(#[trigger] ops[i])[0],
        ) by {
            if i < d.len() {
                assert(ops[i] == d[i]);
            }
        }
    }
}

/// The widget shows something exactly when the repository has an operation
/// in progress, and then one superscript letter per operation, in order.
pub proof fn lemma_git_operations_content(context: ContextView)
    ensures
        git_operations_content(context) is None <==> (context.git is None
            || context.git->0.operations.len() == 0),
        match git_operations_content(context) {
            Some(t) => t.len() == context.git->0.operations.len() && forall|i: int|
                0 <= i < t.len() ==> t[i] == superscript_char(
                    operation_letter(#[trigger] context.git->0.operations[i])[0],
                ),
            None => true,
        },
{
    if let Some(g) = context.git {
        lemma_operations_text(g.operations);
    }
}

/// Indicate ongoing Git operations (e.g., merge, rebase) using symbolic letters.
pub struct GitOperations;

impl Widget for GitOperations {
    open spec fn content_spec(&self, context: ContextView) -> Option<Seq<char>> {
        git_operations_content(context)
    }

    open spec fn color_spec(&self, context: ContextView) -> Color {
        Color::Red
    }

    open spec fn space_before_spec(&self) -> bool {
        true
    }

    open spec fn allow_space_after_spec(&self) -> bool {
        false
    }

    fn content(&self, context: &Context) -> (r: Option<String>) {
        let git = match context.git() {
            Some(g) => g,
            None => return None,
        };
        let ops = git.operations();
        if ops.len() == 0 {
            return None;
        }
        let mut out: Vec<char> = Vec::new();
        let mut i: usize = 0;
        while i < ops.len()
            invariant
                i <= ops@.len(),
                out@ == operations_text(ops@.take(i as int)),
            decreases ops@.len() - i,
        {
            let s = to_superscript(ops[i].symbolic_letter());
            let sc = to_chars(s.as_str());
            extend_chars(&mut out, sc.as_slice());
            assert(ops@.take(i + 1).drop_last() =~= ops@.take(i as int));
            i = i + 1;
        }
        assert(ops@.take(i as int) =~= ops@);
        Some(from_chars(out.as_slice()))
    }

    fn color(&self, _context: &Context) -> (r: Color) {
        Color::Red
    }

    fn space_before(&self) -> (r: bool) {
        true
    }

    fn allow_space_after(&self) -> (r: bool) {
        false
    }
}

} // verus!
