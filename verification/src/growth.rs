//! The state of a walk only grows: diagnostics are appended and never taken
//! back, a local that is bound keeps its binding, and what the scope
//! declared stays fixed.

use vstd::prelude::*;
use crate::ast::Pos;
use crate::context::ContextView;
use crate::view::{
    AfieldView, CaseView, CatchView, DefView, ExprKindView, ExprView, FieldView, FunView,
    MethodView, StmtKindView, StmtView,
};
use crate::walk::{
    assignment_walk, is_assignment, lemma_visit_afields_upto,
    lemma_visit_args_upto, lemma_visit_block_upto, lemma_visit_cases_upto,
    lemma_visit_catches_upto, lemma_visit_defs_upto, lemma_visit_expr, lemma_visit_exprs_upto,
    lemma_visit_fields_upto, lemma_visit_methods_upto, lemma_visit_stmt, return_walk,
    visit_afield, visit_afields, visit_afields_upto, visit_args, visit_args_upto, visit_block,
    visit_block_upto, visit_case, visit_cases, visit_cases_upto, visit_catch, visit_catches,
    visit_catches_upto, visit_def, visit_defs, visit_defs_upto, visit_explicit, visit_expr,
    visit_exprs, visit_exprs_upto, visit_field, visit_fields, visit_fields_upto, visit_fun,
    visit_kind, visit_method, visit_methods, visit_methods_upto, visit_opt_expr,
    visit_stmt, visit_stmt_kind, visit_target, Walk,
};

verus! {

/// The later context is the earlier one with, at most, more locals bound:
/// the declarations of the scope are the same and every binding is kept.
pub open spec fn context_extends(before: ContextView, after: ContextView) -> bool {
    &&& after.readonly_return == before.readonly_return
    &&& after.this_ty == before.this_ty
    &&& before.locals.submap_of(after.locals)
}

/// The later state is the earlier one grown: the context extends it and the
/// diagnostics start with those that were there.
#[verifier::opaque]
pub open spec fn extends(before: Walk, after: Walk) -> bool {
    &&& context_extends(before.ctx, after.ctx)
    &&& before.errors.is_prefix_of(after.errors)
}

/// Growth is reflexive and transitive.
pub proof fn lemma_extends_is_a_preorder(a: Walk, b: Walk, c: Walk)
    ensures
        extends(a, a),
        extends(a, b) && extends(b, c) ==> extends(a, c),
{
    reveal(extends);
    if extends(a, b) && extends(b, c) {
        assert(a.errors =~= c.errors.subrange(0, a.errors.len() as int)) by {
            assert forall|i: int| 0 <= i < a.errors.len() implies a.errors[i] == c.errors[i] by {
                assert(a.errors[i] == b.errors.subrange(0, a.errors.len() as int)[i]);
                assert(b.errors[i] == c.errors.subrange(0, b.errors.len() as int)[i]);
            }
        }
        assert forall|k: Seq<char>| #[trigger]
            a.ctx.locals.dom().contains(k) implies c.ctx.locals.dom().contains(k)
            && a.ctx.locals[k] == c.ctx.locals[k] by {
            assert(b.ctx.locals.dom().contains(k));
        }
    }
}

/// Validating an assignment binds at most one new local and appends at
/// most one diagnostic.
pub proof fn lemma_grows_assignment(pos: Pos, lhs: ExprView, rhs: ExprView, w0: Walk, w: Walk)
    requires
        extends(w0, w),
    ensures
        extends(w0, assignment_walk(pos, lhs, rhs, w)),
{
    reveal(extends);
}

/// Checking a return appends at most one diagnostic.
pub proof fn lemma_grows_return(e: ExprView, w0: Walk, w: Walk)
    requires
        extends(w0, w),
    ensures
        extends(w0, return_walk(e, w)),
{
    reveal(extends);
}

// ---------------------------------------------------------------------------
// Expressions
// ---------------------------------------------------------------------------

proof fn lemma_grows_expr(e: ExprView, w0: Walk, w: Walk)
    requires
        extends(w0, w),
    ensures
        extends(w0, visit_expr(e, w).walk),
    decreases e, 1nat,
{
    lemma_visit_expr(e, w);
    lemma_grows_kind(e, w0, w);
}

proof fn lemma_grows_explicit(e: ExprView, ctx: ContextView, w0: Walk, w: Walk)
    requires
        extends(w0, w),
    ensures
        extends(w0, visit_explicit(e, ctx, w).walk),
    decreases e, 2nat,
{
    lemma_grows_expr(e, w0, w);
}

proof fn lemma_grows_target(lhs: ExprView, ctx: ContextView, w0: Walk, w: Walk)
    requires
        extends(w0, w),
    ensures
        extends(w0, visit_target(lhs, ctx, w).walk),
    decreases lhs, 3nat,
{
    match lhs.kind {
        ExprKindView::ArrayGet(base, index) => {
            lemma_grows_explicit(*base, ctx, w0, w);
            lemma_grows_opt_expr(index, w0, visit_explicit(*base, ctx, w).walk);
        },
        _ => lemma_grows_expr(lhs, w0, w),
    }
}

proof fn lemma_grows_opt_expr(o: Option<Box<ExprView>>, w0: Walk, w: Walk)
    requires
        extends(w0, w),
    ensures
        extends(w0, visit_opt_expr(o, w).walk),
    decreases o, 0nat,
{
    match o {
        Some(e) => lemma_grows_expr(*e, w0, w),
        None => {},
    }
}

proof fn lemma_grows_field(f: FieldView, w0: Walk, w: Walk)
    requires
        extends(w0, w),
    ensures
        extends(w0, visit_field(f, w).walk),
    decreases f, 0nat,
{
    lemma_grows_expr(f.key, w0, w);
    lemma_grows_expr(f.value, w0, visit_expr(f.key, w).walk);
}

proof fn lemma_grows_afield(f: AfieldView, w0: Walk, w: Walk)
    requires
        extends(w0, w),
    ensures
        extends(w0, visit_afield(f, w).walk),
    decreases f, 0nat,
{
    match f {
        AfieldView::Value(e) => lemma_grows_expr(e, w0, w),
        AfieldView::KeyValue(k, v) => {
            lemma_grows_expr(k, w0, w);
            lemma_grows_expr(v, w0, visit_expr(k, w).walk);
        },
    }
}

proof fn lemma_grows_exprs_upto(es: Seq<ExprView>, n: nat, w0: Walk, w: Walk)
    requires
        n <= es.len(),
        extends(w0, w),
    ensures
        extends(w0, visit_exprs_upto(es, n, w).walk),
    decreases es, n,
{
    lemma_visit_exprs_upto(es, n, w);
    if n > 0 {
        lemma_grows_exprs_upto(es, (n - 1) as nat, w0, w);
        lemma_grows_expr(es[n - 1], w0, visit_exprs_upto(es, (n - 1) as nat, w).walk);
    }
}

proof fn lemma_grows_exprs(es: Seq<ExprView>, w0: Walk, w: Walk)
    requires
        extends(w0, w),
    ensures
        extends(w0, visit_exprs(es, w).walk),
    decreases es, es.len() + 1,
{
    lemma_grows_exprs_upto(es, es.len(), w0, w);
}

proof fn lemma_grows_fields_upto(fs: Seq<FieldView>, n: nat, w0: Walk, w: Walk)
    requires
        n <= fs.len(),
        extends(w0, w),
    ensures
        extends(w0, visit_fields_upto(fs, n, w).walk),
    decreases fs, n,
{
    lemma_visit_fields_upto(fs, n, w);
    if n > 0 {
        lemma_grows_fields_upto(fs, (n - 1) as nat, w0, w);
        lemma_grows_field(fs[n - 1], w0, visit_fields_upto(fs, (n - 1) as nat, w).walk);
    }
}

proof fn lemma_grows_fields(fs: Seq<FieldView>, w0: Walk, w: Walk)
    requires
        extends(w0, w),
    ensures
        extends(w0, visit_fields(fs, w).walk),
    decreases fs, fs.len() + 1,
{
    lemma_grows_fields_upto(fs, fs.len(), w0, w);
}

proof fn lemma_grows_afields_upto(fs: Seq<AfieldView>, n: nat, w0: Walk, w: Walk)
    requires
        n <= fs.len(),
        extends(w0, w),
    ensures
        extends(w0, visit_afields_upto(fs, n, w).walk),
    decreases fs, n,
{
    lemma_visit_afields_upto(fs, n, w);
    if n > 0 {
        lemma_grows_afields_upto(fs, (n - 1) as nat, w0, w);
        lemma_grows_afield(fs[n - 1], w0, visit_afields_upto(fs, (n - 1) as nat, w).walk);
    }
}

proof fn lemma_grows_afields(fs: Seq<AfieldView>, w0: Walk, w: Walk)
    requires
        extends(w0, w),
    ensures
        extends(w0, visit_afields(fs, w).walk),
    decreases fs, fs.len() + 1,
{
    lemma_grows_afields_upto(fs, fs.len(), w0, w);
}

proof fn lemma_grows_args_upto(
    es: Seq<ExprView>,
    n: nat,
    ctx: ContextView,
    w0: Walk,
    w: Walk,
)
    requires
        n <= es.len(),
        extends(w0, w),
    ensures
        extends(w0, visit_args_upto(es, n, ctx, w).walk),
    decreases es, n,
{
    lemma_visit_args_upto(es, n, ctx, w);
    if n > 0 {
        lemma_grows_args_upto(es, (n - 1) as nat, ctx, w0, w);
        lemma_grows_explicit(es[n - 1], ctx, w0, visit_args_upto(es, (n - 1) as nat, ctx, w).walk);
    }
}

proof fn lemma_grows_args(es: Seq<ExprView>, ctx: ContextView, w0: Walk, w: Walk)
    requires
        extends(w0, w),
    ensures
        extends(w0, visit_args(es, ctx, w).walk),
    decreases es, es.len() + 1,
{
    lemma_grows_args_upto(es, es.len(), ctx, w0, w);
}

proof fn lemma_grows_kind(e: ExprView, w0: Walk, w: Walk)
    requires
        extends(w0, w),
    ensures
        extends(w0, visit_kind(e.kind, e.pos, w).walk),
    decreases e, 0nat,
{
    match e.kind {
        ExprKindView::Binop(op, lhs, rhs) => {
            if is_assignment(op) {
                lemma_grows_assignment(e.pos, *lhs, *rhs, w0, w);
                let w1 = assignment_walk(e.pos, *lhs, *rhs, w);
                lemma_grows_target(*lhs, w.ctx, w0, w1);
                let l = visit_target(*lhs, w.ctx, w1);
                lemma_grows_explicit(*rhs, w.ctx, w0, l.walk);
                lemma_grows_expr(*rhs, w0, l.walk);
            } else {
                lemma_grows_expr(*lhs, w0, w);
                lemma_grows_expr(*rhs, w0, visit_expr(*lhs, w).walk);
            }
        },
        ExprKindView::Call(callee, args, unpacked) => {
            lemma_grows_expr(*callee, w0, w);
            let c = visit_expr(*callee, w);
            lemma_grows_args(args, w.ctx, w0, c.walk);
            lemma_grows_opt_expr(unpacked, w0, visit_args(args, w.ctx, c.walk).walk);
        },
        ExprKindView::Efun(_) | ExprKindView::Lfun(_) => {},
        ExprKindView::Leaf(_) | ExprKindView::Lvar(_) | ExprKindView::This => {},
        ExprKindView::ReadonlyExpr(inner) => lemma_grows_expr(*inner, w0, w),
        ExprKindView::Unary(_, inner) => lemma_grows_expr(*inner, w0, w),
        ExprKindView::ObjGet(a, b) => {
            lemma_grows_expr(*a, w0, w);
            lemma_grows_expr(*b, w0, visit_expr(*a, w).walk);
        },
        ExprKindView::ArrayGet(a, i) => {
            lemma_grows_expr(*a, w0, w);
            lemma_grows_opt_expr(i, w0, visit_expr(*a, w).walk);
        },
        ExprKindView::Pipe(a, b) => {
            lemma_grows_expr(*a, w0, w);
            lemma_grows_expr(*b, w0, visit_expr(*a, w).walk);
        },
        ExprKindView::Pair(a, b) => {
            lemma_grows_expr(*a, w0, w);
            lemma_grows_expr(*b, w0, visit_expr(*a, w).walk);
        },
        ExprKindView::Eif(c, t, o) => {
            lemma_grows_expr(*c, w0, w);
            let vc = visit_expr(*c, w);
            lemma_grows_opt_expr(t, w0, vc.walk);
            lemma_grows_expr(*o, w0, visit_opt_expr(t, vc.walk).walk);
        },
        ExprKindView::ExprList(_, es) => lemma_grows_exprs(es, w0, w),
        ExprKindView::FieldList(_, fs) => lemma_grows_fields(fs, w0, w),
        ExprKindView::Collection(_, fs) => lemma_grows_afields(fs, w0, w),
        ExprKindView::Yield(f) => lemma_grows_afield(*f, w0, w),
        ExprKindView::New(_, args, unpacked) => {
            lemma_grows_exprs(args, w0, w);
            lemma_grows_opt_expr(unpacked, w0, visit_exprs(args, w).walk);
        },
    }
}

// ---------------------------------------------------------------------------
// Statements
// ---------------------------------------------------------------------------

proof fn lemma_grows_stmt(s: StmtView, w0: Walk, w: Walk)
    requires
        extends(w0, w),
    ensures
        extends(w0, visit_stmt(s, w).walk),
    decreases s, 1nat,
{
    lemma_visit_stmt(s, w);
    lemma_grows_stmt_kind(s, w0, w);
}

proof fn lemma_grows_block_upto(ss: Seq<StmtView>, n: nat, w0: Walk, w: Walk)
    requires
        n <= ss.len(),
        extends(w0, w),
    ensures
        extends(w0, visit_block_upto(ss, n, w).walk),
    decreases ss, n,
{
    lemma_visit_block_upto(ss, n, w);
    if n > 0 {
        lemma_grows_block_upto(ss, (n - 1) as nat, w0, w);
        lemma_grows_stmt(ss[n - 1], w0, visit_block_upto(ss, (n - 1) as nat, w).walk);
    }
}

proof fn lemma_grows_block(ss: Seq<StmtView>, w0: Walk, w: Walk)
    requires
        extends(w0, w),
    ensures
        extends(w0, visit_block(ss, w).walk),
    decreases ss, ss.len() + 1,
{
    lemma_grows_block_upto(ss, ss.len(), w0, w);
}

proof fn lemma_grows_case(c: CaseView, w0: Walk, w: Walk)
    requires
        extends(w0, w),
    ensures
        extends(w0, visit_case(c, w).walk),
    decreases c, 0nat,
{
    match c.label {
        Some(e) => {
            lemma_grows_expr(e, w0, w);
            lemma_grows_block(c.body, w0, visit_expr(e, w).walk);
        },
        None => lemma_grows_block(c.body, w0, w),
    }
}

proof fn lemma_grows_cases_upto(cs: Seq<CaseView>, n: nat, w0: Walk, w: Walk)
    requires
        n <= cs.len(),
        extends(w0, w),
    ensures
        extends(w0, visit_cases_upto(cs, n, w).walk),
    decreases cs, n,
{
    lemma_visit_cases_upto(cs, n, w);
    if n > 0 {
        lemma_grows_cases_upto(cs, (n - 1) as nat, w0, w);
        lemma_grows_case(cs[n - 1], w0, visit_cases_upto(cs, (n - 1) as nat, w).walk);
    }
}

proof fn lemma_grows_cases(cs: Seq<CaseView>, w0: Walk, w: Walk)
    requires
        extends(w0, w),
    ensures
        extends(w0, visit_cases(cs, w).walk),
    decreases cs, cs.len() + 1,
{
    lemma_grows_cases_upto(cs, cs.len(), w0, w);
}

proof fn lemma_grows_catch(c: CatchView, w0: Walk, w: Walk)
    requires
        extends(w0, w),
    ensures
        extends(w0, visit_catch(c, w).walk),
    decreases c, 0nat,
{
    lemma_grows_block(c.body, w0, w);
}

proof fn lemma_grows_catches_upto(cs: Seq<CatchView>, n: nat, w0: Walk, w: Walk)
    requires
        n <= cs.len(),
        extends(w0, w),
    ensures
        extends(w0, visit_catches_upto(cs, n, w).walk),
    decreases cs, n,
{
    lemma_visit_catches_upto(cs, n, w);
    if n > 0 {
        lemma_grows_catches_upto(cs, (n - 1) as nat, w0, w);
        lemma_grows_catch(cs[n - 1], w0, visit_catches_upto(cs, (n - 1) as nat, w).walk);
    }
}

proof fn lemma_grows_catches(cs: Seq<CatchView>, w0: Walk, w: Walk)
    requires
        extends(w0, w),
    ensures
        extends(w0, visit_catches(cs, w).walk),
    decreases cs, cs.len() + 1,
{
    lemma_grows_catches_upto(cs, cs.len(), w0, w);
}

proof fn lemma_grows_stmt_kind(s: StmtView, w0: Walk, w: Walk)
    requires
        extends(w0, w),
    ensures
        extends(w0, visit_stmt_kind(s.kind, w).walk),
    decreases s, 0nat,
{
    match s.kind {
        StmtKindView::Return(Some(e)) => {
            lemma_grows_return(*e, w0, w);
            lemma_grows_expr(*e, w0, return_walk(*e, w));
        },
        StmtKindView::Return(None)
        | StmtKindView::Fallthrough
        | StmtKindView::Break
        | StmtKindView::Continue
        | StmtKindView::YieldBreak
        | StmtKindView::Noop
        | StmtKindView::Markup(_) => {},
        StmtKindView::Expr(e) => lemma_grows_expr(*e, w0, w),
        StmtKindView::Throw(e) => lemma_grows_expr(*e, w0, w),
        StmtKindView::Awaitall(es, body) => {
            lemma_grows_exprs(es, w0, w);
            lemma_grows_block(body, w0, visit_exprs(es, w).walk);
        },
        StmtKindView::If(cond, then, otherwise) => {
            lemma_grows_expr(*cond, w0, w);
            let c = visit_expr(*cond, w);
            lemma_grows_block(then, w0, c.walk);
            lemma_grows_block(otherwise, w0, visit_block(then, c.walk).walk);
        },
        StmtKindView::Do(body, cond) => {
            lemma_grows_block(body, w0, w);
            lemma_grows_expr(*cond, w0, visit_block(body, w).walk);
        },
        StmtKindView::While(cond, body) => {
            lemma_grows_expr(*cond, w0, w);
            lemma_grows_block(body, w0, visit_expr(*cond, w).walk);
        },
        StmtKindView::Using(es, body) => {
            lemma_grows_exprs(es, w0, w);
            lemma_grows_block(body, w0, visit_exprs(es, w).walk);
        },
        StmtKindView::For(init, cond, step, body) => {
            lemma_grows_exprs(init, w0, w);
            let i = visit_exprs(init, w);
            lemma_grows_opt_expr(cond, w0, i.walk);
            let c = visit_opt_expr(cond, i.walk);
            lemma_grows_exprs(step, w0, c.walk);
            lemma_grows_block(body, w0, visit_exprs(step, c.walk).walk);
        },
        StmtKindView::Switch(e, cases) => {
            lemma_grows_expr(*e, w0, w);
            lemma_grows_cases(cases, w0, visit_expr(*e, w).walk);
        },
        StmtKindView::Foreach(e, binding, body) => {
            lemma_grows_expr(*e, w0, w);
            let v = visit_expr(*e, w);
            lemma_grows_afield(*binding, w0, v.walk);
            lemma_grows_block(body, w0, visit_afield(*binding, v.walk).walk);
        },
        StmtKindView::Try(body, catches, finally) => {
            lemma_grows_block(body, w0, w);
            let b = visit_block(body, w);
            lemma_grows_catches(catches, w0, b.walk);
            lemma_grows_block(finally, w0, visit_catches(catches, b.walk).walk);
        },
        StmtKindView::Block(body) => lemma_grows_block(body, w0, w),
    }
}

// ---------------------------------------------------------------------------
// Declarations
// ---------------------------------------------------------------------------

/// A function leaves the context of its caller as it was and only appends
/// to the diagnostics.
proof fn lemma_grows_fun(f: FunView, w0: Walk, w: Walk)
    requires
        extends(w0, w),
    ensures
        extends(w0, visit_fun(f, w).walk),
        visit_fun(f, w).walk.ctx == w.ctx,
{
    let inner = Walk {
        ctx: crate::context::scope_context(crate::walk::fun_scope(f), f.params),
        errors: w.errors,
    };
    lemma_extends_is_a_preorder(inner, inner, inner);
    lemma_grows_block(f.body, inner, inner);
    reveal(extends);
}

/// A method leaves the context of its caller as it was and only appends to
/// the diagnostics.
proof fn lemma_grows_method(m: MethodView, w0: Walk, w: Walk)
    requires
        extends(w0, w),
    ensures
        extends(w0, visit_method(m, w).walk),
        visit_method(m, w).walk.ctx == w.ctx,
{
    let inner = Walk {
        ctx: crate::context::scope_context(crate::walk::method_scope(m), m.params),
        errors: w.errors,
    };
    lemma_extends_is_a_preorder(inner, inner, inner);
    lemma_grows_block(m.body, inner, inner);
    reveal(extends);
}

proof fn lemma_grows_methods_upto(ms: Seq<MethodView>, n: nat, w0: Walk, w: Walk)
    requires
        n <= ms.len(),
        extends(w0, w),
    ensures
        extends(w0, visit_methods_upto(ms, n, w).walk),
    decreases n,
{
    lemma_visit_methods_upto(ms, n, w);
    if n > 0 {
        lemma_grows_methods_upto(ms, (n - 1) as nat, w0, w);
        lemma_grows_method(ms[n - 1], w0, visit_methods_upto(ms, (n - 1) as nat, w).walk);
    }
}

proof fn lemma_grows_methods(ms: Seq<MethodView>, w0: Walk, w: Walk)
    requires
        extends(w0, w),
    ensures
        extends(w0, visit_methods(ms, w).walk),
{
    lemma_grows_methods_upto(ms, ms.len(), w0, w);
}

proof fn lemma_grows_def(d: DefView, w0: Walk, w: Walk)
    requires
        extends(w0, w),
    ensures
        extends(w0, visit_def(d, w).walk),
    decreases d, 0nat,
{
    match d {
        DefView::Fun(f) => lemma_grows_fun(f, w0, w),
        DefView::Class(c) => lemma_grows_methods(c.methods, w0, w),
        DefView::Stmt(s) => lemma_grows_stmt(s, w0, w),
        DefView::Constant(_, e) => lemma_grows_expr(e, w0, w),
        DefView::Typedef(_) => {},
        DefView::Namespace(_, ds) => lemma_grows_defs(ds, w0, w),
    }
}

proof fn lemma_grows_defs_upto(ds: Seq<DefView>, n: nat, w0: Walk, w: Walk)
    requires
        n <= ds.len(),
        extends(w0, w),
    ensures
        extends(w0, visit_defs_upto(ds, n, w).walk),
    decreases ds, n,
{
    lemma_visit_defs_upto(ds, n, w);
    if n > 0 {
        lemma_grows_defs_upto(ds, (n - 1) as nat, w0, w);
        lemma_grows_def(ds[n - 1], w0, visit_defs_upto(ds, (n - 1) as nat, w).walk);
    }
}

proof fn lemma_grows_defs(ds: Seq<DefView>, w0: Walk, w: Walk)
    requires
        extends(w0, w),
    ensures
        extends(w0, visit_defs(ds, w).walk),
    decreases ds, ds.len() + 1,
{
    lemma_grows_defs_upto(ds, ds.len(), w0, w);
}

/// Visiting an expression keeps what the walk had: the diagnostics recorded
/// so far stay at the front, in their order, every local keeps the
/// mutability of its first write, and the return requirement and the
/// mutability of `this` are those fixed at scope entry.
pub proof fn lemma_visit_expr_only_adds(e: ExprView, w: Walk)
    ensures
        w.errors.is_prefix_of(visit_expr(e, w).walk.errors),
        context_extends(w.ctx, visit_expr(e, w).walk.ctx),
{
    lemma_extends_is_a_preorder(w, w, w);
    lemma_grows_expr(e, w, w);
    reveal(extends);
}

/// Visiting a statement keeps what the walk had, as
/// [`lemma_visit_expr_only_adds`] says of an expression.
pub proof fn lemma_visit_stmt_only_adds(s: StmtView, w: Walk)
    ensures
        w.errors.is_prefix_of(visit_stmt(s, w).walk.errors),
        context_extends(w.ctx, visit_stmt(s, w).walk.ctx),
{
    lemma_extends_is_a_preorder(w, w, w);
    lemma_grows_stmt(s, w, w);
    reveal(extends);
}

/// A local that is bound when a visit starts is bound to the same
/// mutability when it ends.
pub proof fn lemma_binding_is_never_changed(s: StmtView, w: Walk, name: Seq<char>)
    requires
        !w.ctx.is_new_local(name),
    ensures
        !visit_stmt(s, w).walk.ctx.is_new_local(name),
        visit_stmt(s, w).walk.ctx.is_readonly(name) == w.ctx.is_readonly(name),
{
    lemma_visit_stmt_only_adds(s, w);
    assert(w.ctx.locals.dom().contains(name));
}

/// The context with which a declaration is entered comes out of it
/// unchanged: no scope leaks into the next.
pub proof fn lemma_scopes_do_not_leak(f: FunView, m: MethodView, w: Walk)
    ensures
        visit_fun(f, w).walk.ctx == w.ctx,
        visit_method(m, w).walk.ctx == w.ctx,
        w.errors.is_prefix_of(visit_fun(f, w).walk.errors),
        w.errors.is_prefix_of(visit_method(m, w).walk.errors),
{
    lemma_extends_is_a_preorder(w, w, w);
    lemma_grows_fun(f, w, w);
    lemma_grows_method(m, w, w);
    reveal(extends);
}

} // verus!
