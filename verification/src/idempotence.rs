//! Running the pass again on its own output changes nothing: the tree stays
//! as it is and the same diagnostics come out.

use vstd::prelude::*;
use crate::ast::Pos;
use crate::context::ContextView;
use crate::stability::{
    lemma_afields_upto_elements, lemma_args_upto_elements, lemma_block_upto_elements,
    lemma_cases_upto_elements, lemma_catches_upto_elements, lemma_defs_upto_elements,
    lemma_exprs_upto_elements, lemma_fields_upto_elements, lemma_methods_upto_elements,
    lemma_visit_keeps_class,
};
use crate::view::{
    AfieldView, CaseView, CatchView, DefView, ExprKindView, ExprView, FieldView,
    FunView, MethodView, ProgramView, StmtKindView, StmtView,
};
use crate::walk::{
    assignment_walk, fun_scope, initial_walk, is_assignment, lemma_visit_afields_upto,
    lemma_visit_args_upto, lemma_visit_block_upto, lemma_visit_cases_upto,
    lemma_visit_catches_upto, lemma_visit_defs_upto, lemma_visit_expr, lemma_visit_exprs_upto,
    lemma_visit_fields_upto, lemma_visit_methods_upto, lemma_visit_stmt, marked, method_scope,
    needs_marker, return_walk, visit_afield, visit_afields, visit_afields_upto, visit_args,
    visit_args_upto, visit_block, visit_block_upto, visit_case, visit_cases, visit_cases_upto,
    visit_catch, visit_catches, visit_catches_upto, visit_def, visit_defs,
    visit_defs_upto, visit_explicit, visit_expr, visit_exprs, visit_exprs_upto, visit_field,
    visit_fields, visit_fields_upto, visit_fun, visit_kind, visit_method, visit_methods,
    visit_methods_upto, visit_opt_expr, visit_program, visit_stmt, visit_stmt_kind,
    visit_target, Visited, Walk,
};

verus! {

// ---------------------------------------------------------------------------
// Expressions
// ---------------------------------------------------------------------------

/// Visiting the result of a visit again, from the same state, gives that
/// result and the same state once more.
pub proof fn lemma_idem_expr(e: ExprView, w: Walk)
    ensures
        visit_expr(visit_expr(e, w).tree, w) == visit_expr(e, w),
    decreases e, 1nat,
{
    lemma_visit_expr(e, w);
    lemma_visit_expr(visit_expr(e, w).tree, w);
    lemma_idem_kind(e, w);
}

/// An expression that was made explicit and visited is made explicit and
/// visited again to the same effect: where a marker was put none is put
/// again, and where none was needed none is needed now.
pub proof fn lemma_idem_explicit(e: ExprView, ctx: ContextView, w: Walk)
    ensures
        visit_explicit(visit_explicit(e, ctx, w).tree, ctx, w) == visit_explicit(e, ctx, w),
    decreases e, 2nat,
{
    lemma_idem_expr(e, w);
    lemma_visit_keeps_class(e, w, ctx);
    if needs_marker(e, ctx) {
        lemma_visit_expr(marked(visit_expr(e, w).tree), w);
    }
}

proof fn lemma_idem_target(lhs: ExprView, ctx: ContextView, w: Walk)
    ensures
        visit_target(visit_target(lhs, ctx, w).tree, ctx, w) == visit_target(lhs, ctx, w),
    decreases lhs, 3nat,
{
    match lhs.kind {
        ExprKindView::ArrayGet(base, index) => {
            lemma_idem_explicit(*base, ctx, w);
            lemma_idem_opt_expr(index, visit_explicit(*base, ctx, w).walk);
        },
        _ => {
            lemma_idem_expr(lhs, w);
            lemma_visit_keeps_class(lhs, w, ctx);
        },
    }
}

proof fn lemma_idem_opt_expr(o: Option<Box<ExprView>>, w: Walk)
    ensures
        visit_opt_expr(visit_opt_expr(o, w).tree, w) == visit_opt_expr(o, w),
    decreases o, 0nat,
{
    match o {
        Some(e) => lemma_idem_expr(*e, w),
        None => {},
    }
}

proof fn lemma_idem_field(f: FieldView, w: Walk)
    ensures
        visit_field(visit_field(f, w).tree, w) == visit_field(f, w),
    decreases f, 0nat,
{
    lemma_idem_expr(f.key, w);
    lemma_idem_expr(f.value, visit_expr(f.key, w).walk);
}

proof fn lemma_idem_afield(f: AfieldView, w: Walk)
    ensures
        visit_afield(visit_afield(f, w).tree, w) == visit_afield(f, w),
    decreases f, 0nat,
{
    match f {
        AfieldView::Value(e) => lemma_idem_expr(e, w),
        AfieldView::KeyValue(k, v) => {
            lemma_idem_expr(k, w);
            lemma_idem_expr(v, visit_expr(k, w).walk);
        },
    }
}

proof fn lemma_idem_exprs_upto(es: Seq<ExprView>, n: nat, w: Walk)
    requires
        n <= es.len(),
    ensures
        visit_exprs_upto(visit_exprs(es, w).tree, n, w) == (Visited {
            tree: visit_exprs(es, w).tree.subrange(0, n as int),
            walk: visit_exprs_upto(es, n, w).walk,
        }),
    decreases es, n,
{
    let t = visit_exprs(es, w).tree;
    lemma_exprs_upto_elements(es, es.len(), w);
    lemma_visit_exprs_upto(t, n, w);
    lemma_visit_exprs_upto(es, n, w);
    if n > 0 {
        lemma_idem_exprs_upto(es, (n - 1) as nat, w);
        lemma_idem_expr(es[n - 1], visit_exprs_upto(es, (n - 1) as nat, w).walk);
        assert(t.subrange(0, n - 1).push(t[n - 1]) =~= t.subrange(0, n as int));
    } else {
        assert(t.subrange(0, 0) =~= Seq::<ExprView>::empty());
    }
}

proof fn lemma_idem_exprs(es: Seq<ExprView>, w: Walk)
    ensures
        visit_exprs(visit_exprs(es, w).tree, w) == visit_exprs(es, w),
    decreases es, es.len() + 1,
{
    let t = visit_exprs(es, w).tree;
    lemma_exprs_upto_elements(es, es.len(), w);
    lemma_idem_exprs_upto(es, es.len(), w);
    assert(t.subrange(0, es.len() as int) =~= t);
}

proof fn lemma_idem_fields_upto(fs: Seq<FieldView>, n: nat, w: Walk)
    requires
        n <= fs.len(),
    ensures
        visit_fields_upto(visit_fields(fs, w).tree, n, w) == (Visited {
            tree: visit_fields(fs, w).tree.subrange(0, n as int),
            walk: visit_fields_upto(fs, n, w).walk,
        }),
    decreases fs, n,
{
    let t = visit_fields(fs, w).tree;
    lemma_fields_upto_elements(fs, fs.len(), w);
    lemma_visit_fields_upto(t, n, w);
    lemma_visit_fields_upto(fs, n, w);
    if n > 0 {
        lemma_idem_fields_upto(fs, (n - 1) as nat, w);
        lemma_idem_field(fs[n - 1], visit_fields_upto(fs, (n - 1) as nat, w).walk);
        assert(t.subrange(0, n - 1).push(t[n - 1]) =~= t.subrange(0, n as int));
    } else {
        assert(t.subrange(0, 0) =~= Seq::<FieldView>::empty());
    }
}

proof fn lemma_idem_fields(fs: Seq<FieldView>, w: Walk)
    ensures
        visit_fields(visit_fields(fs, w).tree, w) == visit_fields(fs, w),
    decreases fs, fs.len() + 1,
{
    let t = visit_fields(fs, w).tree;
    lemma_fields_upto_elements(fs, fs.len(), w);
    lemma_idem_fields_upto(fs, fs.len(), w);
    assert(t.subrange(0, fs.len() as int) =~= t);
}

proof fn lemma_idem_afields_upto(fs: Seq<AfieldView>, n: nat, w: Walk)
    requires
        n <= fs.len(),
    ensures
        visit_afields_upto(visit_afields(fs, w).tree, n, w) == (Visited {
            tree: visit_afields(fs, w).tree.subrange(0, n as int),
            walk: visit_afields_upto(fs, n, w).walk,
        }),
    decreases fs, n,
{
    let t = visit_afields(fs, w).tree;
    lemma_afields_upto_elements(fs, fs.len(), w);
    lemma_visit_afields_upto(t, n, w);
    lemma_visit_afields_upto(fs, n, w);
    if n > 0 {
        lemma_idem_afields_upto(fs, (n - 1) as nat, w);
        lemma_idem_afield(fs[n - 1], visit_afields_upto(fs, (n - 1) as nat, w).walk);
        assert(t.subrange(0, n - 1).push(t[n - 1]) =~= t.subrange(0, n as int));
    } else {
        assert(t.subrange(0, 0) =~= Seq::<AfieldView>::empty());
    }
}

proof fn lemma_idem_afields(fs: Seq<AfieldView>, w: Walk)
    ensures
        visit_afields(visit_afields(fs, w).tree, w) == visit_afields(fs, w),
    decreases fs, fs.len() + 1,
{
    let t = visit_afields(fs, w).tree;
    lemma_afields_upto_elements(fs, fs.len(), w);
    lemma_idem_afields_upto(fs, fs.len(), w);
    assert(t.subrange(0, fs.len() as int) =~= t);
}

proof fn lemma_idem_args_upto(es: Seq<ExprView>, n: nat, ctx: ContextView, w: Walk)
    requires
        n <= es.len(),
    ensures
        visit_args_upto(visit_args(es, ctx, w).tree, n, ctx, w) == (Visited {
            tree: visit_args(es, ctx, w).tree.subrange(0, n as int),
            walk: visit_args_upto(es, n, ctx, w).walk,
        }),
    decreases es, n,
{
    let t = visit_args(es, ctx, w).tree;
    lemma_args_upto_elements(es, es.len(), ctx, w);
    lemma_visit_args_upto(t, n, ctx, w);
    lemma_visit_args_upto(es, n, ctx, w);
    if n > 0 {
        lemma_idem_args_upto(es, (n - 1) as nat, ctx, w);
        lemma_idem_explicit(es[n - 1], ctx, visit_args_upto(es, (n - 1) as nat, ctx, w).walk);
        assert(t.subrange(0, n - 1).push(t[n - 1]) =~= t.subrange(0, n as int));
    } else {
        assert(t.subrange(0, 0) =~= Seq::<ExprView>::empty());
    }
}

proof fn lemma_idem_args(es: Seq<ExprView>, ctx: ContextView, w: Walk)
    ensures
        visit_args(visit_args(es, ctx, w).tree, ctx, w) == visit_args(es, ctx, w),
    decreases es, es.len() + 1,
{
    let t = visit_args(es, ctx, w).tree;
    lemma_args_upto_elements(es, es.len(), ctx, w);
    lemma_idem_args_upto(es, es.len(), ctx, w);
    assert(t.subrange(0, es.len() as int) =~= t);
}

/// The target and the value that an assignment leaves behind are validated
/// exactly as the ones it was given were.
pub proof fn lemma_assignment_is_stable(pos: Pos, lhs: ExprView, rhs: ExprView, w: Walk)
    ensures
        ({
            let w1 = assignment_walk(pos, lhs, rhs, w);
            let l = visit_target(lhs, w.ctx, w1);
            let r = if lhs.kind is ObjGet || lhs.kind is ArrayGet {
                visit_explicit(rhs, w.ctx, l.walk)
            } else {
                visit_expr(rhs, l.walk)
            };
            &&& assignment_walk(pos, l.tree, r.tree, w) == w1
            &&& l.tree.kind is ObjGet <==> lhs.kind is ObjGet
            &&& l.tree.kind is ArrayGet <==> lhs.kind is ArrayGet
        }),
{
    let w1 = assignment_walk(pos, lhs, rhs, w);
    let l = visit_target(lhs, w.ctx, w1);
    match lhs.kind {
        ExprKindView::ArrayGet(_, _) => {},
        _ => {
            lemma_visit_keeps_class(lhs, w1, w.ctx);
            lemma_visit_keeps_class(rhs, l.walk, w.ctx);
        },
    }
}

proof fn lemma_idem_kind(e: ExprView, w: Walk)
    ensures
        visit_kind(visit_kind(e.kind, e.pos, w).tree, e.pos, w) == visit_kind(e.kind, e.pos, w),
    decreases e, 0nat,
{
    match e.kind {
        ExprKindView::Binop(op, lhs, rhs) => {
            if is_assignment(op) {
                lemma_assignment_is_stable(e.pos, *lhs, *rhs, w);
                let w1 = assignment_walk(e.pos, *lhs, *rhs, w);
                lemma_idem_target(*lhs, w.ctx, w1);
                let l = visit_target(*lhs, w.ctx, w1);
                if lhs.kind is ObjGet || lhs.kind is ArrayGet {
                    lemma_idem_explicit(*rhs, w.ctx, l.walk);
                } else {
                    lemma_idem_expr(*rhs, l.walk);
                }
            } else {
                lemma_idem_expr(*lhs, w);
                lemma_idem_expr(*rhs, visit_expr(*lhs, w).walk);
            }
        },
        ExprKindView::Call(callee, args, unpacked) => {
            lemma_idem_expr(*callee, w);
            let c = visit_expr(*callee, w);
            lemma_idem_args(args, w.ctx, c.walk);
            lemma_idem_opt_expr(unpacked, visit_args(args, w.ctx, c.walk).walk);
        },
        ExprKindView::Efun(_) | ExprKindView::Lfun(_) => {},
        ExprKindView::Leaf(_) | ExprKindView::Lvar(_) | ExprKindView::This => {},
        ExprKindView::ReadonlyExpr(inner) => lemma_idem_expr(*inner, w),
        ExprKindView::Unary(_, inner) => lemma_idem_expr(*inner, w),
        ExprKindView::ObjGet(a, b) => {
            lemma_idem_expr(*a, w);
            lemma_idem_expr(*b, visit_expr(*a, w).walk);
        },
        ExprKindView::ArrayGet(a, i) => {
            lemma_idem_expr(*a, w);
            lemma_idem_opt_expr(i, visit_expr(*a, w).walk);
        },
        ExprKindView::Pipe(a, b) => {
            lemma_idem_expr(*a, w);
            lemma_idem_expr(*b, visit_expr(*a, w).walk);
        },
        ExprKindView::Pair(a, b) => {
            lemma_idem_expr(*a, w);
            lemma_idem_expr(*b, visit_expr(*a, w).walk);
        },
        ExprKindView::Eif(c, t, o) => {
            lemma_idem_expr(*c, w);
            let vc = visit_expr(*c, w);
            lemma_idem_opt_expr(t, vc.walk);
            lemma_idem_expr(*o, visit_opt_expr(t, vc.walk).walk);
        },
        ExprKindView::ExprList(_, es) => lemma_idem_exprs(es, w),
        ExprKindView::FieldList(_, fs) => lemma_idem_fields(fs, w),
        ExprKindView::Collection(_, fs) => lemma_idem_afields(fs, w),
        ExprKindView::Yield(f) => lemma_idem_afield(*f, w),
        ExprKindView::New(_, args, unpacked) => {
            lemma_idem_exprs(args, w);
            lemma_idem_opt_expr(unpacked, visit_exprs(args, w).walk);
        },
    }
}

// ---------------------------------------------------------------------------
// Statements
// ---------------------------------------------------------------------------

/// As [`lemma_idem_expr`], for a statement.
pub proof fn lemma_idem_stmt(s: StmtView, w: Walk)
    ensures
        visit_stmt(visit_stmt(s, w).tree, w) == visit_stmt(s, w),
    decreases s, 1nat,
{
    lemma_visit_stmt(s, w);
    lemma_visit_stmt(visit_stmt(s, w).tree, w);
    lemma_idem_stmt_kind(s, w);
}

proof fn lemma_idem_block_upto(ss: Seq<StmtView>, n: nat, w: Walk)
    requires
        n <= ss.len(),
    ensures
        visit_block_upto(visit_block(ss, w).tree, n, w) == (Visited {
            tree: visit_block(ss, w).tree.subrange(0, n as int),
            walk: visit_block_upto(ss, n, w).walk,
        }),
    decreases ss, n,
{
    let t = visit_block(ss, w).tree;
    lemma_block_upto_elements(ss, ss.len(), w);
    lemma_visit_block_upto(t, n, w);
    lemma_visit_block_upto(ss, n, w);
    if n > 0 {
        lemma_idem_block_upto(ss, (n - 1) as nat, w);
        lemma_idem_stmt(ss[n - 1], visit_block_upto(ss, (n - 1) as nat, w).walk);
        assert(t.subrange(0, n - 1).push(t[n - 1]) =~= t.subrange(0, n as int));
    } else {
        assert(t.subrange(0, 0) =~= Seq::<StmtView>::empty());
    }
}

proof fn lemma_idem_block(ss: Seq<StmtView>, w: Walk)
    ensures
        visit_block(visit_block(ss, w).tree, w) == visit_block(ss, w),
    decreases ss, ss.len() + 1,
{
    let t = visit_block(ss, w).tree;
    lemma_block_upto_elements(ss, ss.len(), w);
    lemma_idem_block_upto(ss, ss.len(), w);
    assert(t.subrange(0, ss.len() as int) =~= t);
}

proof fn lemma_idem_case(c: CaseView, w: Walk)
    ensures
        visit_case(visit_case(c, w).tree, w) == visit_case(c, w),
    decreases c, 0nat,
{
    match c.label {
        Some(e) => {
            lemma_idem_expr(e, w);
            lemma_idem_block(c.body, visit_expr(e, w).walk);
        },
        None => lemma_idem_block(c.body, w),
    }
}

proof fn lemma_idem_cases_upto(cs: Seq<CaseView>, n: nat, w: Walk)
    requires
        n <= cs.len(),
    ensures
        visit_cases_upto(visit_cases(cs, w).tree, n, w) == (Visited {
            tree: visit_cases(cs, w).tree.subrange(0, n as int),
            walk: visit_cases_upto(cs, n, w).walk,
        }),
    decreases cs, n,
{
    let t = visit_cases(cs, w).tree;
    lemma_cases_upto_elements(cs, cs.len(), w);
    lemma_visit_cases_upto(t, n, w);
    lemma_visit_cases_upto(cs, n, w);
    if n > 0 {
        lemma_idem_cases_upto(cs, (n - 1) as nat, w);
        lemma_idem_case(cs[n - 1], visit_cases_upto(cs, (n - 1) as nat, w).walk);
        assert(t.subrange(0, n - 1).push(t[n - 1]) =~= t.subrange(0, n as int));
    } else {
        assert(t.subrange(0, 0) =~= Seq::<CaseView>::empty());
    }
}

proof fn lemma_idem_cases(cs: Seq<CaseView>, w: Walk)
    ensures
        visit_cases(visit_cases(cs, w).tree, w) == visit_cases(cs, w),
    decreases cs, cs.len() + 1,
{
    let t = visit_cases(cs, w).tree;
    lemma_cases_upto_elements(cs, cs.len(), w);
    lemma_idem_cases_upto(cs, cs.len(), w);
    assert(t.subrange(0, cs.len() as int) =~= t);
}

proof fn lemma_idem_catch(c: CatchView, w: Walk)
    ensures
        visit_catch(visit_catch(c, w).tree, w) == visit_catch(c, w),
    decreases c, 0nat,
{
    lemma_idem_block(c.body, w);
}

proof fn lemma_idem_catches_upto(cs: Seq<CatchView>, n: nat, w: Walk)
    requires
        n <= cs.len(),
    ensures
        visit_catches_upto(visit_catches(cs, w).tree, n, w) == (Visited {
            tree: visit_catches(cs, w).tree.subrange(0, n as int),
            walk: visit_catches_upto(cs, n, w).walk,
        }),
    decreases cs, n,
{
    let t = visit_catches(cs, w).tree;
    lemma_catches_upto_elements(cs, cs.len(), w);
    lemma_visit_catches_upto(t, n, w);
    lemma_visit_catches_upto(cs, n, w);
    if n > 0 {
        lemma_idem_catches_upto(cs, (n - 1) as nat, w);
        lemma_idem_catch(cs[n - 1], visit_catches_upto(cs, (n - 1) as nat, w).walk);
        assert(t.subrange(0, n - 1).push(t[n - 1]) =~= t.subrange(0, n as int));
    } else {
        assert(t.subrange(0, 0) =~= Seq::<CatchView>::empty());
    }
}

proof fn lemma_idem_catches(cs: Seq<CatchView>, w: Walk)
    ensures
        visit_catches(visit_catches(cs, w).tree, w) == visit_catches(cs, w),
    decreases cs, cs.len() + 1,
{
    let t = visit_catches(cs, w).tree;
    lemma_catches_upto_elements(cs, cs.len(), w);
    lemma_idem_catches_upto(cs, cs.len(), w);
    assert(t.subrange(0, cs.len() as int) =~= t);
}

proof fn lemma_idem_stmt_kind(s: StmtView, w: Walk)
    ensures
        visit_stmt_kind(visit_stmt_kind(s.kind, w).tree, w) == visit_stmt_kind(s.kind, w),
    decreases s, 0nat,
{
    match s.kind {
        StmtKindView::Return(Some(e)) => {
            lemma_visit_keeps_class(*e, return_walk(*e, w), w.ctx);
            lemma_idem_expr(*e, return_walk(*e, w));
        },
        StmtKindView::Return(None)
        | StmtKindView::Fallthrough
        | StmtKindView::Break
        | StmtKindView::Continue
        | StmtKindView::YieldBreak
        | StmtKindView::Noop
        | StmtKindView::Markup(_) => {},
        StmtKindView::Expr(e) => lemma_idem_expr(*e, w),
        StmtKindView::Throw(e) => lemma_idem_expr(*e, w),
        StmtKindView::Awaitall(es, body) => {
            lemma_idem_exprs(es, w);
            lemma_idem_block(body, visit_exprs(es, w).walk);
        },
        StmtKindView::If(cond, then, otherwise) => {
            lemma_idem_expr(*cond, w);
            let c = visit_expr(*cond, w);
            lemma_idem_block(then, c.walk);
            lemma_idem_block(otherwise, visit_block(then, c.walk).walk);
        },
        StmtKindView::Do(body, cond) => {
            lemma_idem_block(body, w);
            lemma_idem_expr(*cond, visit_block(body, w).walk);
        },
        StmtKindView::While(cond, body) => {
            lemma_idem_expr(*cond, w);
            lemma_idem_block(body, visit_expr(*cond, w).walk);
        },
        StmtKindView::Using(es, body) => {
            lemma_idem_exprs(es, w);
            lemma_idem_block(body, visit_exprs(es, w).walk);
        },
        StmtKindView::For(init, cond, step, body) => {
            lemma_idem_exprs(init, w);
            let i = visit_exprs(init, w);
            lemma_idem_opt_expr(cond, i.walk);
            let c = visit_opt_expr(cond, i.walk);
            lemma_idem_exprs(step, c.walk);
            lemma_idem_block(body, visit_exprs(step, c.walk).walk);
        },
        StmtKindView::Switch(e, cases) => {
            lemma_idem_expr(*e, w);
            lemma_idem_cases(cases, visit_expr(*e, w).walk);
        },
        StmtKindView::Foreach(e, binding, body) => {
            lemma_idem_expr(*e, w);
            let v = visit_expr(*e, w);
            lemma_idem_afield(*binding, v.walk);
            lemma_idem_block(body, visit_afield(*binding, v.walk).walk);
        },
        StmtKindView::Try(body, catches, finally) => {
            lemma_idem_block(body, w);
            let b = visit_block(body, w);
            lemma_idem_catches(catches, b.walk);
            lemma_idem_block(finally, visit_catches(catches, b.walk).walk);
        },
        StmtKindView::Block(body) => lemma_idem_block(body, w),
    }
}

// ---------------------------------------------------------------------------
// Declarations
// ---------------------------------------------------------------------------

proof fn lemma_idem_fun(f: FunView, w: Walk)
    ensures
        visit_fun(visit_fun(f, w).tree, w) == visit_fun(f, w),
{
    lemma_idem_block(
        f.body,
        Walk { ctx: crate::context::scope_context(fun_scope(f), f.params), errors: w.errors },
    );
}

proof fn lemma_idem_method(m: MethodView, w: Walk)
    ensures
        visit_method(visit_method(m, w).tree, w) == visit_method(m, w),
{
    lemma_idem_block(
        m.body,
        Walk { ctx: crate::context::scope_context(method_scope(m), m.params), errors: w.errors },
    );
}

proof fn lemma_idem_methods_upto(ms: Seq<MethodView>, n: nat, w: Walk)
    requires
        n <= ms.len(),
    ensures
        visit_methods_upto(visit_methods(ms, w).tree, n, w) == (Visited {
            tree: visit_methods(ms, w).tree.subrange(0, n as int),
            walk: visit_methods_upto(ms, n, w).walk,
        }),
    decreases n,
{
    let t = visit_methods(ms, w).tree;
    lemma_methods_upto_elements(ms, ms.len(), w);
    lemma_visit_methods_upto(t, n, w);
    lemma_visit_methods_upto(ms, n, w);
    if n > 0 {
        lemma_idem_methods_upto(ms, (n - 1) as nat, w);
        lemma_idem_method(ms[n - 1], visit_methods_upto(ms, (n - 1) as nat, w).walk);
        assert(t.subrange(0, n - 1).push(t[n - 1]) =~= t.subrange(0, n as int));
    } else {
        assert(t.subrange(0, 0) =~= Seq::<MethodView>::empty());
    }
}

proof fn lemma_idem_methods(ms: Seq<MethodView>, w: Walk)
    ensures
        visit_methods(visit_methods(ms, w).tree, w) == visit_methods(ms, w),
{
    let t = visit_methods(ms, w).tree;
    lemma_methods_upto_elements(ms, ms.len(), w);
    lemma_idem_methods_upto(ms, ms.len(), w);
    assert(t.subrange(0, ms.len() as int) =~= t);
}

proof fn lemma_idem_def(d: DefView, w: Walk)
    ensures
        visit_def(visit_def(d, w).tree, w) == visit_def(d, w),
    decreases d, 0nat,
{
    match d {
        DefView::Fun(f) => lemma_idem_fun(f, w),
        DefView::Class(c) => lemma_idem_methods(c.methods, w),
        DefView::Stmt(s) => lemma_idem_stmt(s, w),
        DefView::Constant(_, e) => lemma_idem_expr(e, w),
        DefView::Typedef(_) => {},
        DefView::Namespace(_, ds) => lemma_idem_defs(ds, w),
    }
}

proof fn lemma_idem_defs_upto(ds: Seq<DefView>, n: nat, w: Walk)
    requires
        n <= ds.len(),
    ensures
        visit_defs_upto(visit_defs(ds, w).tree, n, w) == (Visited {
            tree: visit_defs(ds, w).tree.subrange(0, n as int),
            walk: visit_defs_upto(ds, n, w).walk,
        }),
    decreases ds, n,
{
    let t = visit_defs(ds, w).tree;
    lemma_defs_upto_elements(ds, ds.len(), w);
    lemma_visit_defs_upto(t, n, w);
    lemma_visit_defs_upto(ds, n, w);
    if n > 0 {
        lemma_idem_defs_upto(ds, (n - 1) as nat, w);
        lemma_idem_def(ds[n - 1], visit_defs_upto(ds, (n - 1) as nat, w).walk);
        assert(t.subrange(0, n - 1).push(t[n - 1]) =~= t.subrange(0, n as int));
    } else {
        assert(t.subrange(0, 0) =~= Seq::<DefView>::empty());
    }
}

proof fn lemma_idem_defs(ds: Seq<DefView>, w: Walk)
    ensures
        visit_defs(visit_defs(ds, w).tree, w) == visit_defs(ds, w),
    decreases ds, ds.len() + 1,
{
    let t = visit_defs(ds, w).tree;
    lemma_defs_upto_elements(ds, ds.len(), w);
    lemma_idem_defs_upto(ds, ds.len(), w);
    assert(t.subrange(0, ds.len() as int) =~= t);
}

/// The pass is idempotent: run on its own output it wraps nothing more and
/// reports exactly what the first run reported.
pub proof fn lemma_second_run_changes_nothing(p: ProgramView)
    ensures
        visit_program(visit_program(p).tree).tree == visit_program(p).tree,
        visit_program(visit_program(p).tree).walk.errors == visit_program(p).walk.errors,
{
    lemma_idem_defs(p.defs, initial_walk());
}

} // verus!
