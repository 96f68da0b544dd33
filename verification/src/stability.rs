//! How a visit of a sequence relates to the visits of its elements, and what
//! a visit keeps of an expression: its position, its outline and its
//! classification.

use vstd::prelude::*;
use crate::classify::{afield_value, any_readonly, any_readonly_entry, any_readonly_value, classify};
use crate::context::ContextView;
use crate::view::{
    AfieldView, CaseView, CatchView, DefView, ExprKindView, ExprView, FieldView, MethodView,
    StmtView,
};
use crate::walk::{
    lemma_visit_afields_upto, lemma_visit_args_upto, lemma_visit_block_upto,
    lemma_visit_cases_upto, lemma_visit_catches_upto, lemma_visit_defs_upto, lemma_visit_expr,
    lemma_visit_exprs_upto, lemma_visit_fields_upto, lemma_visit_methods_upto, visit_afield,
    visit_afields, visit_afields_upto, visit_args_upto, visit_block_upto, visit_case,
    visit_cases_upto, visit_catch, visit_catches_upto, visit_def, visit_defs_upto,
    visit_explicit, visit_expr, visit_exprs, visit_exprs_upto, visit_field, visit_fields,
    visit_fields_upto, visit_method, visit_methods_upto, visit_opt_expr, visit_stmt, Walk,
};

verus! {

// ---------------------------------------------------------------------------
// The elements of a visited sequence
// ---------------------------------------------------------------------------

/// The visit of a prefix yields one element for each element visited, and
/// each is the visit of the element it came from, in the state that the walk had
/// reached before it.
pub proof fn lemma_exprs_upto_elements(es: Seq<ExprView>, n: nat, w: Walk)
    requires
        n <= es.len(),
    ensures
        visit_exprs_upto(es, n, w).tree.len() == n,
        forall|i: int|
            0 <= i < n ==> (#[trigger] visit_exprs_upto(es, n, w).tree[i]) == visit_expr(
                es[i],
                visit_exprs_upto(es, i as nat, w).walk,
            ).tree,
    decreases n,
{
    lemma_visit_exprs_upto(es, n, w);
    if n > 0 {
        lemma_exprs_upto_elements(es, (n - 1) as nat, w);
    }
}

/// The visit of a prefix yields one element for each element visited, and
/// each is the visit of the element it came from, in the state that the walk had
/// reached before it.
pub proof fn lemma_fields_upto_elements(fs: Seq<FieldView>, n: nat, w: Walk)
    requires
        n <= fs.len(),
    ensures
        visit_fields_upto(fs, n, w).tree.len() == n,
        forall|i: int|
            0 <= i < n ==> (#[trigger] visit_fields_upto(fs, n, w).tree[i]) == visit_field(
                fs[i],
                visit_fields_upto(fs, i as nat, w).walk,
            ).tree,
    decreases n,
{
    lemma_visit_fields_upto(fs, n, w);
    if n > 0 {
        lemma_fields_upto_elements(fs, (n - 1) as nat, w);
    }
}

/// The visit of a prefix yields one element for each element visited, and
/// each is the visit of the element it came from, in the state that the walk had
/// reached before it.
pub proof fn lemma_afields_upto_elements(fs: Seq<AfieldView>, n: nat, w: Walk)
    requires
        n <= fs.len(),
    ensures
        visit_afields_upto(fs, n, w).tree.len() == n,
        forall|i: int|
            0 <= i < n ==> (#[trigger] visit_afields_upto(fs, n, w).tree[i]) == visit_afield(
                fs[i],
                visit_afields_upto(fs, i as nat, w).walk,
            ).tree,
    decreases n,
{
    lemma_visit_afields_upto(fs, n, w);
    if n > 0 {
        lemma_afields_upto_elements(fs, (n - 1) as nat, w);
    }
}

/// The visit of a prefix yields one element for each element visited, and
/// each is the visit of the element it came from, in the state that the walk had
/// reached before it.
pub proof fn lemma_block_upto_elements(ss: Seq<StmtView>, n: nat, w: Walk)
    requires
        n <= ss.len(),
    ensures
        visit_block_upto(ss, n, w).tree.len() == n,
        forall|i: int|
            0 <= i < n ==> (#[trigger] visit_block_upto(ss, n, w).tree[i]) == visit_stmt(
                ss[i],
                visit_block_upto(ss, i as nat, w).walk,
            ).tree,
    decreases n,
{
    lemma_visit_block_upto(ss, n, w);
    if n > 0 {
        lemma_block_upto_elements(ss, (n - 1) as nat, w);
    }
}

/// The visit of a prefix yields one element for each element visited, and
/// each is the visit of the element it came from, in the state that the walk had
/// reached before it.
pub proof fn lemma_cases_upto_elements(cs: Seq<CaseView>, n: nat, w: Walk)
    requires
        n <= cs.len(),
    ensures
        visit_cases_upto(cs, n, w).tree.len() == n,
        forall|i: int|
            0 <= i < n ==> (#[trigger] visit_cases_upto(cs, n, w).tree[i]) == visit_case(
                cs[i],
                visit_cases_upto(cs, i as nat, w).walk,
            ).tree,
    decreases n,
{
    lemma_visit_cases_upto(cs, n, w);
    if n > 0 {
        lemma_cases_upto_elements(cs, (n - 1) as nat, w);
    }
}

/// The visit of a prefix yields one element for each element visited, and
/// each is the visit of the element it came from, in the state that the walk had
/// reached before it.
pub proof fn lemma_catches_upto_elements(cs: Seq<CatchView>, n: nat, w: Walk)
    requires
        n <= cs.len(),
    ensures
        visit_catches_upto(cs, n, w).tree.len() == n,
        forall|i: int|
            0 <= i < n ==> (#[trigger] visit_catches_upto(cs, n, w).tree[i]) == visit_catch(
                cs[i],
                visit_catches_upto(cs, i as nat, w).walk,
            ).tree,
    decreases n,
{
    lemma_visit_catches_upto(cs, n, w);
    if n > 0 {
        lemma_catches_upto_elements(cs, (n - 1) as nat, w);
    }
}

/// The visit of a prefix yields one element for each element visited, and
/// each is the visit of the element it came from, in the state that the walk had
/// reached before it.
pub proof fn lemma_methods_upto_elements(ms: Seq<MethodView>, n: nat, w: Walk)
    requires
        n <= ms.len(),
    ensures
        visit_methods_upto(ms, n, w).tree.len() == n,
        forall|i: int|
            0 <= i < n ==> (#[trigger] visit_methods_upto(ms, n, w).tree[i]) == visit_method(
                ms[i],
                visit_methods_upto(ms, i as nat, w).walk,
            ).tree,
    decreases n,
{
    lemma_visit_methods_upto(ms, n, w);
    if n > 0 {
        lemma_methods_upto_elements(ms, (n - 1) as nat, w);
    }
}

/// The visit of a prefix yields one element for each element visited, and
/// each is the visit of the element it came from, in the state that the walk had
/// reached before it.
pub proof fn lemma_defs_upto_elements(ds: Seq<DefView>, n: nat, w: Walk)
    requires
        n <= ds.len(),
    ensures
        visit_defs_upto(ds, n, w).tree.len() == n,
        forall|i: int|
            0 <= i < n ==> (#[trigger] visit_defs_upto(ds, n, w).tree[i]) == visit_def(
                ds[i],
                visit_defs_upto(ds, i as nat, w).walk,
            ).tree,
    decreases n,
{
    lemma_visit_defs_upto(ds, n, w);
    if n > 0 {
        lemma_defs_upto_elements(ds, (n - 1) as nat, w);
    }
}

/// As [`lemma_exprs_upto_elements`], for the arguments of a call.
pub proof fn lemma_args_upto_elements(es: Seq<ExprView>, n: nat, ctx: ContextView, w: Walk)
    requires
        n <= es.len(),
    ensures
        visit_args_upto(es, n, ctx, w).tree.len() == n,
        forall|i: int|
            0 <= i < n ==> (#[trigger] visit_args_upto(es, n, ctx, w).tree[i]) == visit_explicit(
                es[i],
                ctx,
                visit_args_upto(es, i as nat, ctx, w).walk,
            ).tree,
    decreases n,
{
    lemma_visit_args_upto(es, n, ctx, w);
    if n > 0 {
        lemma_args_upto_elements(es, (n - 1) as nat, ctx, w);
    }
}

// ---------------------------------------------------------------------------
// What a visit keeps of an expression
// ---------------------------------------------------------------------------

/// Two expressions at the same position that an assignment would treat
/// alike: the same local, or both a property access, or both an index
/// access, or both a marker, or both none of these.
pub open spec fn same_outline(a: ExprView, b: ExprView) -> bool {
    &&& a.pos == b.pos
    &&& a.kind is Lvar ==> b == a
    &&& b.kind is Lvar ==> a.kind is Lvar
    &&& a.kind is ObjGet <==> b.kind is ObjGet
    &&& a.kind is ArrayGet <==> b.kind is ArrayGet
    &&& a.kind is ReadonlyExpr <==> b.kind is ReadonlyExpr
}

/// A visit keeps the outline of an expression and, in every context, its
/// classification: the markers that a visit adds sit below calls and
/// assignments, which classify mutable whatever they hold.
pub proof fn lemma_visit_keeps_class(e: ExprView, w: Walk, ctx: ContextView)
    ensures
        same_outline(e, visit_expr(e, w).tree),
        classify(visit_expr(e, w).tree, ctx) == classify(e, ctx),
    decreases e,
{
    lemma_visit_expr(e, w);
    match e.kind {
        ExprKindView::ObjGet(obj, _) => lemma_visit_keeps_class(*obj, w, ctx),
        ExprKindView::ArrayGet(base, _) => lemma_visit_keeps_class(*base, w, ctx),
        ExprKindView::Unary(_, inner) => lemma_visit_keeps_class(*inner, w, ctx),
        ExprKindView::ExprList(_, es) => {
            let after = visit_exprs(es, w).tree;
            lemma_exprs_upto_elements(es, es.len(), w);
            assert forall|i: int| 0 <= i < es.len() implies classify(#[trigger] after[i], ctx)
                == classify(es[i], ctx) by {
                lemma_visit_keeps_class(es[i], visit_exprs_upto(es, i as nat, w).walk, ctx);
            }
            assert(any_readonly(after, ctx) == any_readonly(es, ctx)) by {
                if any_readonly(es, ctx) {
                    let i = choose|i: int|
                        0 <= i < es.len() && classify(#[trigger] es[i], ctx)
                            == crate::lattice::Rty::Readonly;
                    assert(classify(after[i], ctx) == crate::lattice::Rty::Readonly);
                }
                if any_readonly(after, ctx) {
                    let i = choose|i: int|
                        0 <= i < after.len() && classify(#[trigger] after[i], ctx)
                            == crate::lattice::Rty::Readonly;
                    assert(classify(es[i], ctx) == crate::lattice::Rty::Readonly);
                }
            }
        },
        ExprKindView::FieldList(_, fs) => {
            let after = visit_fields(fs, w).tree;
            lemma_fields_upto_elements(fs, fs.len(), w);
            assert forall|i: int| 0 <= i < fs.len() implies classify(
                (#[trigger] after[i]).value,
                ctx,
            ) == classify(fs[i].value, ctx) by {
                let before = visit_fields_upto(fs, i as nat, w).walk;
                lemma_visit_keeps_class(fs[i].value, visit_expr(fs[i].key, before).walk, ctx);
            }
            assert(any_readonly_value(after, ctx) == any_readonly_value(fs, ctx)) by {
                if any_readonly_value(fs, ctx) {
                    let i = choose|i: int|
                        0 <= i < fs.len() && classify((#[trigger] fs[i]).value, ctx)
                            == crate::lattice::Rty::Readonly;
                    assert(classify(after[i].value, ctx) == crate::lattice::Rty::Readonly);
                }
                if any_readonly_value(after, ctx) {
                    let i = choose|i: int|
                        0 <= i < after.len() && classify((#[trigger] after[i]).value, ctx)
                            == crate::lattice::Rty::Readonly;
                    assert(classify(fs[i].value, ctx) == crate::lattice::Rty::Readonly);
                }
            }
        },
        ExprKindView::Collection(_, fs) => {
            let after = visit_afields(fs, w).tree;
            lemma_afields_upto_elements(fs, fs.len(), w);
            assert forall|i: int| 0 <= i < fs.len() implies classify(
                afield_value(#[trigger] after[i]),
                ctx,
            ) == classify(afield_value(fs[i]), ctx) by {
                let before = visit_afields_upto(fs, i as nat, w).walk;
                match fs[i] {
                    AfieldView::Value(v) => lemma_visit_keeps_class(v, before, ctx),
                    AfieldView::KeyValue(k, v) => lemma_visit_keeps_class(
                        v,
                        visit_expr(k, before).walk,
                        ctx,
                    ),
                }
            }
            assert(any_readonly_entry(after, ctx) == any_readonly_entry(fs, ctx)) by {
                if any_readonly_entry(fs, ctx) {
                    let i = choose|i: int|
                        0 <= i < fs.len() && classify(afield_value(#[trigger] fs[i]), ctx)
                            == crate::lattice::Rty::Readonly;
                    assert(classify(afield_value(after[i]), ctx)
                        == crate::lattice::Rty::Readonly);
                }
                if any_readonly_entry(after, ctx) {
                    let i = choose|i: int|
                        0 <= i < after.len() && classify(afield_value(#[trigger] after[i]), ctx)
                            == crate::lattice::Rty::Readonly;
                    assert(classify(afield_value(fs[i]), ctx) == crate::lattice::Rty::Readonly);
                }
            }
        },
        ExprKindView::Eif(cond, then, otherwise) => {
            let c = visit_expr(*cond, w);
            if let Some(t) = then {
                lemma_visit_keeps_class(*t, c.walk, ctx);
            }
            lemma_visit_keeps_class(*otherwise, visit_opt_expr(then, c.walk).walk, ctx);
        },
        ExprKindView::Pair(a, b) => {
            lemma_visit_keeps_class(*a, w, ctx);
            lemma_visit_keeps_class(*b, visit_expr(*a, w).walk, ctx);
        },
        _ => {},
    }
}

} // verus!
