//! The rules of the pass, stated one by one over the functions that the
//! contracts of the walker use.

use vstd::prelude::*;
use crate::ast::Pos;
use crate::classify::{any_readonly, classify, is_composite};
use crate::context::ContextView;
use crate::diagnostics::{
    mismatch_diagnostic, readonly_assignment_diagnostic, return_reason, subtype_diagnostic,
    ErrorKind,
};
use crate::lattice::{join, Rty};
use crate::view::{ExprKindView, ExprView, ListKindView};
use crate::walk::{
    assignment_target, assignment_value, assignment_walk, explicit, lemma_visit_expr, marked,
    needs_marker, return_walk, visit_explicit, visit_expr, visit_target, Walk,
};

verus! {

/// A reference to the local `name` at `pos`.
pub open spec fn local(pos: Pos, name: Seq<char>) -> ExprView {
    ExprView { pos, kind: ExprKindView::Lvar(name) }
}

/// First write wins. The first assignment to a local records the mutability
/// of its value and reports nothing. A second assignment reports exactly one
/// mismatch if its value has the other mutability, and nothing otherwise.
/// Either way the binding stays what the first write made it.
pub proof fn lemma_first_write_wins(
    name: Seq<char>,
    first: Pos,
    value1: ExprView,
    second: Pos,
    value2: ExprView,
    w: Walk,
)
    requires
        w.ctx.is_new_local(name),
    ensures
        ({
            let w1 = assignment_walk(first, local(first, name), value1, w);
            let w2 = assignment_walk(second, local(second, name), value2, w1);
            let readonly1 = classify(value1, w.ctx) == Rty::Readonly;
            let readonly2 = classify(value2, w1.ctx) == Rty::Readonly;
            &&& w1.errors == w.errors
            &&& !w1.ctx.is_new_local(name)
            &&& w1.ctx.is_readonly(name) == readonly1
            &&& w2.ctx == w1.ctx
            &&& readonly1 != readonly2 ==> w2.errors == w.errors.push(
                mismatch_diagnostic(second, name),
            )
            &&& readonly1 == readonly2 ==> w2.errors == w.errors
        }),
{
}

/// Join on any readonly. A composite list is readonly exactly when one of
/// its elements is.
pub proof fn lemma_composite_is_readonly_iff_an_element_is(
    pos: Pos,
    kind: ListKindView,
    es: Seq<ExprView>,
    ctx: ContextView,
)
    requires
        is_composite(kind),
    ensures
        classify(ExprView { pos, kind: ExprKindView::ExprList(kind, es) }, ctx) == Rty::Readonly
            <==> exists|i: int|
            0 <= i < es.len() && classify(#[trigger] es[i], ctx) == Rty::Readonly,
{
    assert(any_readonly(es, ctx) <==> exists|i: int|
        0 <= i < es.len() && classify(#[trigger] es[i], ctx) == Rty::Readonly);
}

/// The ternary is readonly as soon as one of its branches is. The condition
/// does not count.
pub proof fn lemma_ternary_joins_its_branches(
    pos: Pos,
    cond: ExprView,
    then: ExprView,
    otherwise: ExprView,
    ctx: ContextView,
)
    ensures
        classify(
            ExprView {
                pos,
                kind: ExprKindView::Eif(
                    Box::new(cond),
                    Some(Box::new(then)),
                    Box::new(otherwise),
                ),
            },
            ctx,
        ) == join(classify(then, ctx), classify(otherwise, ctx)),
{
}

/// Return asymmetry. Returning a readonly value from a scope that returns
/// mutable is reported once, at the position of the value. Returning a
/// mutable value is never reported, and neither is any return from a scope
/// that returns readonly.
pub proof fn lemma_return_is_asymmetric(e: ExprView, w: Walk)
    ensures
        return_walk(e, w).ctx == w.ctx,
        classify(e, w.ctx) == Rty::Readonly && w.ctx.readonly_return == Rty::Mutable
            ==> return_walk(e, w).errors == w.errors.push(
            subtype_diagnostic(e.pos, return_reason()),
        ),
        classify(e, w.ctx) == Rty::Mutable || w.ctx.readonly_return == Rty::Readonly
            ==> return_walk(e, w).errors == w.errors,
        subtype_diagnostic(e.pos, return_reason()).kind == ErrorKind::ReturnMutabilityViolation,
{
}

/// Property write. Writing to a property is reported once if the object
/// classifies readonly and not at all if it classifies mutable. No local is
/// bound, the target is left as it is, and the value is made explicit.
pub proof fn lemma_property_write(
    pos: Pos,
    target: Pos,
    obj: ExprView,
    member: ExprView,
    value: ExprView,
    w: Walk,
)
    ensures
        ({
            let lhs = ExprView {
                pos: target,
                kind: ExprKindView::ObjGet(Box::new(obj), Box::new(member)),
            };
            let after = assignment_walk(pos, lhs, value, w);
            &&& after.ctx == w.ctx
            &&& classify(obj, w.ctx) == Rty::Readonly ==> after.errors == w.errors.push(
                readonly_assignment_diagnostic(pos),
            )
            &&& classify(obj, w.ctx) == Rty::Mutable ==> after.errors == w.errors
            &&& assignment_target(lhs, w.ctx) == lhs
            &&& assignment_value(lhs, value, w.ctx) == explicit(value, w.ctx)
        }),
{
}

/// Index write. Writing to an index is never reported, whatever the base
/// is. The base and the value are each made explicit; the index is left as
/// it is, and no local is bound.
pub proof fn lemma_index_write(
    pos: Pos,
    target: Pos,
    base: ExprView,
    index: Option<Box<ExprView>>,
    value: ExprView,
    w: Walk,
)
    ensures
        ({
            let lhs = ExprView { pos: target, kind: ExprKindView::ArrayGet(Box::new(base), index) };
            let after = assignment_walk(pos, lhs, value, w);
            &&& after == w
            &&& assignment_target(lhs, w.ctx) == (ExprView {
                pos: target,
                kind: ExprKindView::ArrayGet(Box::new(explicit(base, w.ctx)), index),
            })
            &&& assignment_value(lhs, value, w.ctx) == explicit(value, w.ctx)
        }),
{
}

/// Making explicit puts a marker around exactly the expressions that
/// classify readonly and are no marker yet. The result classifies as the
/// expression did, and making it explicit again changes nothing.
pub proof fn lemma_explicit(e: ExprView, ctx: ContextView)
    ensures
        classify(e, ctx) == Rty::Mutable ==> explicit(e, ctx) == e,
        e.kind is ReadonlyExpr ==> explicit(e, ctx) == e,
        needs_marker(e, ctx) ==> explicit(e, ctx) == marked(e),
        classify(explicit(e, ctx), ctx) == classify(e, ctx),
        explicit(explicit(e, ctx), ctx) == explicit(e, ctx),
        explicit(e, ctx).pos == e.pos,
{
}

/// The walk is in pre-order: a child that its parent has made explicit is
/// visited as it then stands, marker included.
pub proof fn lemma_explicit_then_visited(e: ExprView, ctx: ContextView, w: Walk)
    ensures
        visit_expr(explicit(e, ctx), w) == visit_explicit(e, ctx, w),
{
    if needs_marker(e, ctx) {
        lemma_visit_expr(marked(e), w);
        lemma_visit_expr(e, w);
    }
}

/// The walk is in pre-order: the target of an assignment is visited as the
/// validation left it.
pub proof fn lemma_target_then_visited(lhs: ExprView, ctx: ContextView, w: Walk)
    ensures
        visit_expr(assignment_target(lhs, ctx), w) == visit_target(lhs, ctx, w),
{
    match lhs.kind {
        ExprKindView::ArrayGet(base, _) => {
            lemma_visit_expr(assignment_target(lhs, ctx), w);
            lemma_explicit_then_visited(*base, ctx, w);
        },
        _ => {},
    }
}

} // verus!
