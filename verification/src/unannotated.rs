//! Programs without readonly annotations: the pass reports nothing and
//! changes nothing.

use vstd::prelude::*;
use crate::ast::Pos;
use crate::classify::{any_readonly, any_readonly_entry, any_readonly_value, afield_value, classify};
use crate::context::{scope_context, toplevel_context, ContextView, ScopeKind};
use crate::lattice::Rty;
use crate::view::{
    AfieldView, CaseView, CatchView, DefView, ExprKindView, ExprView, FieldView,
    FunParamView, FunView, MethodView, ProgramView, StmtKindView, StmtView,
};
use crate::walk::{
    assignment_walk, fun_scope, initial_walk, is_assignment, lemma_visit_afields_upto,
    lemma_visit_args_upto, lemma_visit_block_upto, lemma_visit_cases_upto,
    lemma_visit_catches_upto, lemma_visit_defs_upto, lemma_visit_expr, lemma_visit_exprs_upto,
    lemma_visit_fields_upto, lemma_visit_methods_upto, lemma_visit_stmt, method_scope,
    return_walk, visit_afield, visit_afields, visit_afields_upto, visit_args, visit_args_upto,
    visit_block, visit_block_upto, visit_case, visit_cases, visit_cases_upto, visit_catch,
    visit_catches, visit_catches_upto, visit_def, visit_defs, visit_defs_upto,
    visit_explicit, visit_expr, visit_exprs, visit_exprs_upto, visit_field, visit_fields,
    visit_fields_upto, visit_fun, visit_kind, visit_method, visit_methods, visit_methods_upto,
    visit_opt_expr, visit_program, visit_stmt, visit_stmt_kind, visit_target, Visited, Walk,
};

verus! {

// ---------------------------------------------------------------------------
// What it means to hold no annotation
// ---------------------------------------------------------------------------

/// No explicit marker occurs in the expression. What is inside a closure
/// does not count: the pass never looks there.
pub open spec fn plain_expr(e: ExprView) -> bool
    decreases e,
{
    match e.kind {
        ExprKindView::ReadonlyExpr(_) => false,
        ExprKindView::Leaf(_)
        | ExprKindView::Lvar(_)
        | ExprKindView::This
        | ExprKindView::Efun(_)
        | ExprKindView::Lfun(_) => true,
        ExprKindView::Unary(_, e) => plain_expr(*e),
        ExprKindView::ObjGet(a, b) => plain_expr(*a) && plain_expr(*b),
        ExprKindView::ArrayGet(a, i) => plain_expr(*a) && plain_opt_expr(i),
        ExprKindView::Binop(_, a, b) => plain_expr(*a) && plain_expr(*b),
        ExprKindView::Pipe(a, b) => plain_expr(*a) && plain_expr(*b),
        ExprKindView::Pair(a, b) => plain_expr(*a) && plain_expr(*b),
        ExprKindView::Eif(c, t, e) => plain_expr(*c) && plain_opt_expr(t) && plain_expr(*e),
        ExprKindView::ExprList(_, es) => plain_exprs(es),
        ExprKindView::FieldList(_, fs) => plain_fields(fs),
        ExprKindView::Collection(_, fs) => plain_afields(fs),
        ExprKindView::Yield(f) => plain_afield(*f),
        ExprKindView::Call(f, args, u) => plain_expr(*f) && plain_exprs(args) && plain_opt_expr(u),
        ExprKindView::New(_, args, u) => plain_exprs(args) && plain_opt_expr(u),
    }
}

/// As [`plain_expr`], for an expression that may be absent.
pub open spec fn plain_opt_expr(o: Option<Box<ExprView>>) -> bool
    decreases o,
{
    match o {
        Some(e) => plain_expr(*e),
        None => true,
    }
}

/// Every expression of the list is plain.
pub open spec fn plain_exprs(es: Seq<ExprView>) -> bool
    decreases es,
{
    forall|i: int| 0 <= i < es.len() ==> plain_expr(#[trigger] es[i])
}

/// Key and value are plain.
pub open spec fn plain_field(f: FieldView) -> bool
    decreases f,
{
    plain_expr(f.key) && plain_expr(f.value)
}

/// Every entry is plain.
pub open spec fn plain_fields(fs: Seq<FieldView>) -> bool
    decreases fs,
{
    forall|i: int| 0 <= i < fs.len() ==> plain_field(#[trigger] fs[i])
}

/// The entry is plain: its value, and its key if it has one.
pub open spec fn plain_afield(f: AfieldView) -> bool
    decreases f,
{
    match f {
        AfieldView::Value(v) => plain_expr(v),
        AfieldView::KeyValue(k, v) => plain_expr(k) && plain_expr(v),
    }
}

/// Every entry is plain.
pub open spec fn plain_afields(fs: Seq<AfieldView>) -> bool
    decreases fs,
{
    forall|i: int| 0 <= i < fs.len() ==> plain_afield(#[trigger] fs[i])
}

/// No explicit marker occurs in the statement.
pub open spec fn plain_stmt(s: StmtView) -> bool
    decreases s,
{
    match s.kind {
        StmtKindView::Fallthrough
        | StmtKindView::Break
        | StmtKindView::Continue
        | StmtKindView::YieldBreak
        | StmtKindView::Noop
        | StmtKindView::Markup(_) => true,
        StmtKindView::Expr(e) => plain_expr(*e),
        StmtKindView::Throw(e) => plain_expr(*e),
        StmtKindView::Return(e) => plain_opt_expr(e),
        StmtKindView::Awaitall(es, b) => plain_exprs(es) && plain_block(b),
        StmtKindView::If(c, t, e) => plain_expr(*c) && plain_block(t) && plain_block(e),
        StmtKindView::Do(b, c) => plain_block(b) && plain_expr(*c),
        StmtKindView::While(c, b) => plain_expr(*c) && plain_block(b),
        StmtKindView::Using(es, b) => plain_exprs(es) && plain_block(b),
        StmtKindView::For(i, c, s, b) => plain_exprs(i) && plain_opt_expr(c) && plain_exprs(s)
            && plain_block(b),
        StmtKindView::Switch(e, cs) => plain_expr(*e) && plain_cases(cs),
        StmtKindView::Foreach(e, a, b) => plain_expr(*e) && plain_afield(*a) && plain_block(b),
        StmtKindView::Try(b, cs, f) => plain_block(b) && plain_catches(cs) && plain_block(f),
        StmtKindView::Block(b) => plain_block(b),
    }
}

/// Every statement of the block is plain.
pub open spec fn plain_block(ss: Seq<StmtView>) -> bool
    decreases ss,
{
    forall|i: int| 0 <= i < ss.len() ==> plain_stmt(#[trigger] ss[i])
}

/// The label, if there is one, and the body are plain.
pub open spec fn plain_case(c: CaseView) -> bool
    decreases c,
{
    &&& c.label matches Some(e) ==> plain_expr(e)
    &&& plain_block(c.body)
}

/// Every arm is plain.
pub open spec fn plain_cases(cs: Seq<CaseView>) -> bool
    decreases cs,
{
    forall|i: int| 0 <= i < cs.len() ==> plain_case(#[trigger] cs[i])
}

/// The body of the handler is plain.
pub open spec fn plain_catch(c: CatchView) -> bool
    decreases c,
{
    plain_block(c.body)
}

/// Every handler is plain.
pub open spec fn plain_catches(cs: Seq<CatchView>) -> bool
    decreases cs,
{
    forall|i: int| 0 <= i < cs.len() ==> plain_catch(#[trigger] cs[i])
}

/// No parameter is declared readonly.
pub open spec fn plain_params(ps: Seq<FunParamView>) -> bool {
    forall|i: int| 0 <= i < ps.len() ==> (#[trigger] ps[i]).readonly is None
}

/// The function declares nothing readonly and holds no marker.
pub open spec fn plain_fun(f: FunView) -> bool {
    &&& f.readonly_this is None
    &&& f.readonly_ret is None
    &&& plain_params(f.params)
    &&& plain_block(f.body)
}

/// The method declares nothing readonly and holds no marker.
pub open spec fn plain_method(m: MethodView) -> bool {
    &&& !m.readonly_this
    &&& m.readonly_ret is None
    &&& plain_params(m.params)
    &&& plain_block(m.body)
}

/// Every method is plain.
pub open spec fn plain_methods(ms: Seq<MethodView>) -> bool {
    forall|i: int| 0 <= i < ms.len() ==> plain_method(#[trigger] ms[i])
}

/// The declaration holds no readonly annotation.
pub open spec fn plain_def(d: DefView) -> bool
    decreases d,
{
    match d {
        DefView::Fun(f) => plain_fun(f),
        DefView::Class(c) => plain_methods(c.methods),
        DefView::Stmt(s) => plain_stmt(s),
        DefView::Constant(_, e) => plain_expr(e),
        DefView::Typedef(_) => true,
        DefView::Namespace(_, ds) => plain_defs(ds),
    }
}

/// Every declaration is plain.
pub open spec fn plain_defs(ds: Seq<DefView>) -> bool
    decreases ds,
{
    forall|i: int| 0 <= i < ds.len() ==> plain_def(#[trigger] ds[i])
}

/// The program holds no readonly annotation: no marker, no readonly
/// parameter, no readonly return and no readonly `this`.
pub open spec fn plain_program(p: ProgramView) -> bool {
    plain_defs(p.defs)
}

/// Nothing in the context is readonly: neither `this` nor any local.
#[verifier::opaque]
pub open spec fn mutable_context(ctx: ContextView) -> bool {
    &&& ctx.this_ty == Rty::Mutable
    &&& forall|name: Seq<char>| !#[trigger] ctx.is_readonly(name)
}

/// The visit left the tree as it was, recorded nothing, and left a context
/// in which nothing is readonly.
pub open spec fn quiet<T>(v: Visited<T>, tree: T, w: Walk) -> bool {
    &&& v.tree == tree
    &&& v.walk.errors == w.errors
    &&& mutable_context(v.walk.ctx)
}

// ---------------------------------------------------------------------------
// Expressions
// ---------------------------------------------------------------------------

/// Without markers and without readonly locals everything is mutable.
pub proof fn lemma_plain_classify(e: ExprView, ctx: ContextView)
    requires
        plain_expr(e),
        mutable_context(ctx),
    ensures
        classify(e, ctx) == Rty::Mutable,
    decreases e,
{
    reveal(mutable_context);
    match e.kind {
        ExprKindView::ObjGet(obj, _) => lemma_plain_classify(*obj, ctx),
        ExprKindView::ArrayGet(base, _) => lemma_plain_classify(*base, ctx),
        ExprKindView::Unary(_, inner) => lemma_plain_classify(*inner, ctx),
        ExprKindView::ExprList(_, es) => {
            assert(plain_exprs(es));
            assert forall|i: int| 0 <= i < es.len() implies classify(#[trigger] es[i], ctx)
                == Rty::Mutable by {
                lemma_plain_classify(es[i], ctx);
            }
            assert(!any_readonly(es, ctx));
        },
        ExprKindView::FieldList(_, fs) => {
            assert(plain_fields(fs));
            assert forall|i: int| 0 <= i < fs.len() implies classify(
                (#[trigger] fs[i]).value,
                ctx,
            ) == Rty::Mutable by {
                assert(plain_field(fs[i]));
                lemma_plain_classify(fs[i].value, ctx);
            }
            assert(!any_readonly_value(fs, ctx));
        },
        ExprKindView::Collection(_, fs) => {
            assert(plain_afields(fs));
            assert forall|i: int| 0 <= i < fs.len() implies classify(
                afield_value(#[trigger] fs[i]),
                ctx,
            ) == Rty::Mutable by {
                assert(plain_afield(fs[i]));
                lemma_plain_classify(afield_value(fs[i]), ctx);
            }
            assert(!any_readonly_entry(fs, ctx));
        },
        ExprKindView::Eif(_, then, otherwise) => {
            assert(plain_opt_expr(then));
            if let Some(t) = then {
                lemma_plain_classify(*t, ctx);
            }
            lemma_plain_classify(*otherwise, ctx);
        },
        ExprKindView::Pair(a, b) => {
            lemma_plain_classify(*a, ctx);
            lemma_plain_classify(*b, ctx);
        },
        _ => {},
    }
}

/// Visiting an expression without markers where nothing is readonly changes
/// nothing and reports nothing.
pub proof fn lemma_plain_expr(e: ExprView, w: Walk)
    requires
        plain_expr(e),
        mutable_context(w.ctx),
    ensures
        quiet(visit_expr(e, w), e, w),
    decreases e, 1nat,
{
    lemma_visit_expr(e, w);
    lemma_plain_kind(e, w);
}

proof fn lemma_plain_explicit(e: ExprView, ctx: ContextView, w: Walk)
    requires
        plain_expr(e),
        mutable_context(ctx),
        mutable_context(w.ctx),
    ensures
        quiet(visit_explicit(e, ctx, w), e, w),
    decreases e, 2nat,
{
    lemma_plain_classify(e, ctx);
    lemma_plain_expr(e, w);
}

proof fn lemma_plain_target(lhs: ExprView, ctx: ContextView, w: Walk)
    requires
        plain_expr(lhs),
        mutable_context(ctx),
        mutable_context(w.ctx),
    ensures
        quiet(visit_target(lhs, ctx, w), lhs, w),
    decreases lhs, 3nat,
{
    match lhs.kind {
        ExprKindView::ArrayGet(base, index) => {
            lemma_plain_explicit(*base, ctx, w);
            lemma_plain_opt_expr(index, visit_explicit(*base, ctx, w).walk);
        },
        _ => lemma_plain_expr(lhs, w),
    }
}

proof fn lemma_plain_opt_expr(o: Option<Box<ExprView>>, w: Walk)
    requires
        plain_opt_expr(o),
        mutable_context(w.ctx),
    ensures
        quiet(visit_opt_expr(o, w), o, w),
    decreases o, 0nat,
{
    match o {
        Some(e) => lemma_plain_expr(*e, w),
        None => {},
    }
}

proof fn lemma_plain_exprs_upto(es: Seq<ExprView>, n: nat, w: Walk)
    requires
        plain_exprs(es),
        n <= es.len(),
        mutable_context(w.ctx),
    ensures
        quiet(visit_exprs_upto(es, n, w), es.subrange(0, n as int), w),
    decreases es, n,
{
    lemma_visit_exprs_upto(es, n, w);
    if n > 0 {
        lemma_plain_exprs_upto(es, (n - 1) as nat, w);
        lemma_plain_expr(es[n - 1], visit_exprs_upto(es, (n - 1) as nat, w).walk);
        assert(es.subrange(0, n - 1).push(es[n - 1]) =~= es.subrange(0, n as int));
    } else {
        assert(es.subrange(0, 0) =~= Seq::<ExprView>::empty());
    }
}

proof fn lemma_plain_exprs(es: Seq<ExprView>, w: Walk)
    requires
        plain_exprs(es),
        mutable_context(w.ctx),
    ensures
        quiet(visit_exprs(es, w), es, w),
    decreases es, es.len() + 1,
{
    lemma_plain_exprs_upto(es, es.len(), w);
    assert(es.subrange(0, es.len() as int) =~= es);
}

proof fn lemma_plain_args_upto(es: Seq<ExprView>, n: nat, ctx: ContextView, w: Walk)
    requires
        plain_exprs(es),
        n <= es.len(),
        mutable_context(ctx),
        mutable_context(w.ctx),
    ensures
        quiet(visit_args_upto(es, n, ctx, w), es.subrange(0, n as int), w),
    decreases es, n,
{
    lemma_visit_args_upto(es, n, ctx, w);
    if n > 0 {
        lemma_plain_args_upto(es, (n - 1) as nat, ctx, w);
        lemma_plain_explicit(es[n - 1], ctx, visit_args_upto(es, (n - 1) as nat, ctx, w).walk);
        assert(es.subrange(0, n - 1).push(es[n - 1]) =~= es.subrange(0, n as int));
    } else {
        assert(es.subrange(0, 0) =~= Seq::<ExprView>::empty());
    }
}

proof fn lemma_plain_args(es: Seq<ExprView>, ctx: ContextView, w: Walk)
    requires
        plain_exprs(es),
        mutable_context(ctx),
        mutable_context(w.ctx),
    ensures
        quiet(visit_args(es, ctx, w), es, w),
    decreases es, es.len() + 1,
{
    lemma_plain_args_upto(es, es.len(), ctx, w);
    assert(es.subrange(0, es.len() as int) =~= es);
}

proof fn lemma_plain_field(f: FieldView, w: Walk)
    requires
        plain_field(f),
        mutable_context(w.ctx),
    ensures
        quiet(visit_field(f, w), f, w),
    decreases f, 0nat,
{
    lemma_plain_expr(f.key, w);
    lemma_plain_expr(f.value, visit_expr(f.key, w).walk);
}

proof fn lemma_plain_fields_upto(fs: Seq<FieldView>, n: nat, w: Walk)
    requires
        plain_fields(fs),
        n <= fs.len(),
        mutable_context(w.ctx),
    ensures
        quiet(visit_fields_upto(fs, n, w), fs.subrange(0, n as int), w),
    decreases fs, n,
{
    lemma_visit_fields_upto(fs, n, w);
    if n > 0 {
        lemma_plain_fields_upto(fs, (n - 1) as nat, w);
        lemma_plain_field(fs[n - 1], visit_fields_upto(fs, (n - 1) as nat, w).walk);
        assert(fs.subrange(0, n - 1).push(fs[n - 1]) =~= fs.subrange(0, n as int));
    } else {
        assert(fs.subrange(0, 0) =~= Seq::<FieldView>::empty());
    }
}

proof fn lemma_plain_fields(fs: Seq<FieldView>, w: Walk)
    requires
        plain_fields(fs),
        mutable_context(w.ctx),
    ensures
        quiet(visit_fields(fs, w), fs, w),
    decreases fs, fs.len() + 1,
{
    lemma_plain_fields_upto(fs, fs.len(), w);
    assert(fs.subrange(0, fs.len() as int) =~= fs);
}

proof fn lemma_plain_afield(f: AfieldView, w: Walk)
    requires
        plain_afield(f),
        mutable_context(w.ctx),
    ensures
        quiet(visit_afield(f, w), f, w),
    decreases f, 0nat,
{
    match f {
        AfieldView::Value(e) => lemma_plain_expr(e, w),
        AfieldView::KeyValue(k, v) => {
            lemma_plain_expr(k, w);
            lemma_plain_expr(v, visit_expr(k, w).walk);
        },
    }
}

proof fn lemma_plain_afields_upto(fs: Seq<AfieldView>, n: nat, w: Walk)
    requires
        plain_afields(fs),
        n <= fs.len(),
        mutable_context(w.ctx),
    ensures
        quiet(visit_afields_upto(fs, n, w), fs.subrange(0, n as int), w),
    decreases fs, n,
{
    lemma_visit_afields_upto(fs, n, w);
    if n > 0 {
        lemma_plain_afields_upto(fs, (n - 1) as nat, w);
        lemma_plain_afield(fs[n - 1], visit_afields_upto(fs, (n - 1) as nat, w).walk);
        assert(fs.subrange(0, n - 1).push(fs[n - 1]) =~= fs.subrange(0, n as int));
    } else {
        assert(fs.subrange(0, 0) =~= Seq::<AfieldView>::empty());
    }
}

proof fn lemma_plain_afields(fs: Seq<AfieldView>, w: Walk)
    requires
        plain_afields(fs),
        mutable_context(w.ctx),
    ensures
        quiet(visit_afields(fs, w), fs, w),
    decreases fs, fs.len() + 1,
{
    lemma_plain_afields_upto(fs, fs.len(), w);
    assert(fs.subrange(0, fs.len() as int) =~= fs);
}

/// An assignment between plain expressions records nothing and binds
/// nothing readonly.
proof fn lemma_plain_assignment(pos: Pos, lhs: ExprView, rhs: ExprView, w: Walk)
    requires
        plain_expr(lhs),
        plain_expr(rhs),
        mutable_context(w.ctx),
    ensures
        assignment_walk(pos, lhs, rhs, w).errors == w.errors,
        mutable_context(assignment_walk(pos, lhs, rhs, w).ctx),
{
    reveal(mutable_context);
    lemma_plain_classify(lhs, w.ctx);
    lemma_plain_classify(rhs, w.ctx);
    let after = assignment_walk(pos, lhs, rhs, w).ctx;
    assert forall|name: Seq<char>| !#[trigger] after.is_readonly(name) by {
        assert(!w.ctx.is_readonly(name));
    }
}

proof fn lemma_plain_kind(e: ExprView, w: Walk)
    requires
        plain_expr(e),
        mutable_context(w.ctx),
    ensures
        quiet(visit_kind(e.kind, e.pos, w), e.kind, w),
    decreases e, 0nat,
{
    match e.kind {
        ExprKindView::Binop(op, lhs, rhs) => {
            if is_assignment(op) {
                lemma_plain_assignment(e.pos, *lhs, *rhs, w);
                let w1 = assignment_walk(e.pos, *lhs, *rhs, w);
                lemma_plain_target(*lhs, w.ctx, w1);
                let l = visit_target(*lhs, w.ctx, w1);
                lemma_plain_explicit(*rhs, w.ctx, l.walk);
                lemma_plain_expr(*rhs, l.walk);
            } else {
                lemma_plain_expr(*lhs, w);
                lemma_plain_expr(*rhs, visit_expr(*lhs, w).walk);
            }
        },
        ExprKindView::Call(callee, args, unpacked) => {
            lemma_plain_expr(*callee, w);
            let c = visit_expr(*callee, w);
            lemma_plain_args(args, w.ctx, c.walk);
            lemma_plain_opt_expr(unpacked, visit_args(args, w.ctx, c.walk).walk);
        },
        ExprKindView::Efun(_) | ExprKindView::Lfun(_) => {},
        ExprKindView::Leaf(_) | ExprKindView::Lvar(_) | ExprKindView::This => {},
        ExprKindView::ReadonlyExpr(_) => {},
        ExprKindView::Unary(_, inner) => lemma_plain_expr(*inner, w),
        ExprKindView::ObjGet(a, b) => {
            lemma_plain_expr(*a, w);
            lemma_plain_expr(*b, visit_expr(*a, w).walk);
        },
        ExprKindView::ArrayGet(a, i) => {
            lemma_plain_expr(*a, w);
            lemma_plain_opt_expr(i, visit_expr(*a, w).walk);
        },
        ExprKindView::Pipe(a, b) => {
            lemma_plain_expr(*a, w);
            lemma_plain_expr(*b, visit_expr(*a, w).walk);
        },
        ExprKindView::Pair(a, b) => {
            lemma_plain_expr(*a, w);
            lemma_plain_expr(*b, visit_expr(*a, w).walk);
        },
        ExprKindView::Eif(c, t, o) => {
            lemma_plain_expr(*c, w);
            let vc = visit_expr(*c, w);
            lemma_plain_opt_expr(t, vc.walk);
            lemma_plain_expr(*o, visit_opt_expr(t, vc.walk).walk);
        },
        ExprKindView::ExprList(_, es) => lemma_plain_exprs(es, w),
        ExprKindView::FieldList(_, fs) => lemma_plain_fields(fs, w),
        ExprKindView::Collection(_, fs) => lemma_plain_afields(fs, w),
        ExprKindView::Yield(f) => lemma_plain_afield(*f, w),
        ExprKindView::New(_, args, unpacked) => {
            lemma_plain_exprs(args, w);
            lemma_plain_opt_expr(unpacked, visit_exprs(args, w).walk);
        },
    }
}

// ---------------------------------------------------------------------------
// Statements
// ---------------------------------------------------------------------------

/// Visiting a statement without markers where nothing is readonly changes
/// nothing and reports nothing.
pub proof fn lemma_plain_stmt(s: StmtView, w: Walk)
    requires
        plain_stmt(s),
        mutable_context(w.ctx),
    ensures
        quiet(visit_stmt(s, w), s, w),
    decreases s, 1nat,
{
    lemma_visit_stmt(s, w);
    lemma_plain_stmt_kind(s, w);
}

proof fn lemma_plain_block_upto(ss: Seq<StmtView>, n: nat, w: Walk)
    requires
        plain_block(ss),
        n <= ss.len(),
        mutable_context(w.ctx),
    ensures
        quiet(visit_block_upto(ss, n, w), ss.subrange(0, n as int), w),
    decreases ss, n,
{
    lemma_visit_block_upto(ss, n, w);
    if n > 0 {
        lemma_plain_block_upto(ss, (n - 1) as nat, w);
        lemma_plain_stmt(ss[n - 1], visit_block_upto(ss, (n - 1) as nat, w).walk);
        assert(ss.subrange(0, n - 1).push(ss[n - 1]) =~= ss.subrange(0, n as int));
    } else {
        assert(ss.subrange(0, 0) =~= Seq::<StmtView>::empty());
    }
}

proof fn lemma_plain_block(ss: Seq<StmtView>, w: Walk)
    requires
        plain_block(ss),
        mutable_context(w.ctx),
    ensures
        quiet(visit_block(ss, w), ss, w),
    decreases ss, ss.len() + 1,
{
    lemma_plain_block_upto(ss, ss.len(), w);
    assert(ss.subrange(0, ss.len() as int) =~= ss);
}

proof fn lemma_plain_case(c: CaseView, w: Walk)
    requires
        plain_case(c),
        mutable_context(w.ctx),
    ensures
        quiet(visit_case(c, w), c, w),
    decreases c, 0nat,
{
    match c.label {
        Some(e) => {
            lemma_plain_expr(e, w);
            lemma_plain_block(c.body, visit_expr(e, w).walk);
        },
        None => lemma_plain_block(c.body, w),
    }
}

proof fn lemma_plain_cases_upto(cs: Seq<CaseView>, n: nat, w: Walk)
    requires
        plain_cases(cs),
        n <= cs.len(),
        mutable_context(w.ctx),
    ensures
        quiet(visit_cases_upto(cs, n, w), cs.subrange(0, n as int), w),
    decreases cs, n,
{
    lemma_visit_cases_upto(cs, n, w);
    if n > 0 {
        lemma_plain_cases_upto(cs, (n - 1) as nat, w);
        lemma_plain_case(cs[n - 1], visit_cases_upto(cs, (n - 1) as nat, w).walk);
        assert(cs.subrange(0, n - 1).push(cs[n - 1]) =~= cs.subrange(0, n as int));
    } else {
        assert(cs.subrange(0, 0) =~= Seq::<CaseView>::empty());
    }
}

proof fn lemma_plain_cases(cs: Seq<CaseView>, w: Walk)
    requires
        plain_cases(cs),
        mutable_context(w.ctx),
    ensures
        quiet(visit_cases(cs, w), cs, w),
    decreases cs, cs.len() + 1,
{
    lemma_plain_cases_upto(cs, cs.len(), w);
    assert(cs.subrange(0, cs.len() as int) =~= cs);
}

proof fn lemma_plain_catch(c: CatchView, w: Walk)
    requires
        plain_catch(c),
        mutable_context(w.ctx),
    ensures
        quiet(visit_catch(c, w), c, w),
    decreases c, 0nat,
{
    lemma_plain_block(c.body, w);
}

proof fn lemma_plain_catches_upto(cs: Seq<CatchView>, n: nat, w: Walk)
    requires
        plain_catches(cs),
        n <= cs.len(),
        mutable_context(w.ctx),
    ensures
        quiet(visit_catches_upto(cs, n, w), cs.subrange(0, n as int), w),
    decreases cs, n,
{
    lemma_visit_catches_upto(cs, n, w);
    if n > 0 {
        lemma_plain_catches_upto(cs, (n - 1) as nat, w);
        lemma_plain_catch(cs[n - 1], visit_catches_upto(cs, (n - 1) as nat, w).walk);
        assert(cs.subrange(0, n - 1).push(cs[n - 1]) =~= cs.subrange(0, n as int));
    } else {
        assert(cs.subrange(0, 0) =~= Seq::<CatchView>::empty());
    }
}

proof fn lemma_plain_catches(cs: Seq<CatchView>, w: Walk)
    requires
        plain_catches(cs),
        mutable_context(w.ctx),
    ensures
        quiet(visit_catches(cs, w), cs, w),
    decreases cs, cs.len() + 1,
{
    lemma_plain_catches_upto(cs, cs.len(), w);
    assert(cs.subrange(0, cs.len() as int) =~= cs);
}

proof fn lemma_plain_stmt_kind(s: StmtView, w: Walk)
    requires
        plain_stmt(s),
        mutable_context(w.ctx),
    ensures
        quiet(visit_stmt_kind(s.kind, w), s.kind, w),
    decreases s, 0nat,
{
    match s.kind {
        StmtKindView::Return(Some(e)) => {
            lemma_plain_classify(*e, w.ctx);
            lemma_plain_expr(*e, return_walk(*e, w));
        },
        StmtKindView::Return(None)
        | StmtKindView::Fallthrough
        | StmtKindView::Break
        | StmtKindView::Continue
        | StmtKindView::YieldBreak
        | StmtKindView::Noop
        | StmtKindView::Markup(_) => {},
        StmtKindView::Expr(e) => lemma_plain_expr(*e, w),
        StmtKindView::Throw(e) => lemma_plain_expr(*e, w),
        StmtKindView::Awaitall(es, body) => {
            lemma_plain_exprs(es, w);
            lemma_plain_block(body, visit_exprs(es, w).walk);
        },
        StmtKindView::If(cond, then, otherwise) => {
            lemma_plain_expr(*cond, w);
            let c = visit_expr(*cond, w);
            lemma_plain_block(then, c.walk);
            lemma_plain_block(otherwise, visit_block(then, c.walk).walk);
        },
        StmtKindView::Do(body, cond) => {
            lemma_plain_block(body, w);
            lemma_plain_expr(*cond, visit_block(body, w).walk);
        },
        StmtKindView::While(cond, body) => {
            lemma_plain_expr(*cond, w);
            lemma_plain_block(body, visit_expr(*cond, w).walk);
        },
        StmtKindView::Using(es, body) => {
            lemma_plain_exprs(es, w);
            lemma_plain_block(body, visit_exprs(es, w).walk);
        },
        StmtKindView::For(init, cond, step, body) => {
            lemma_plain_exprs(init, w);
            let i = visit_exprs(init, w);
            lemma_plain_opt_expr(cond, i.walk);
            let c = visit_opt_expr(cond, i.walk);
            lemma_plain_exprs(step, c.walk);
            lemma_plain_block(body, visit_exprs(step, c.walk).walk);
        },
        StmtKindView::Switch(e, cases) => {
            lemma_plain_expr(*e, w);
            lemma_plain_cases(cases, visit_expr(*e, w).walk);
        },
        StmtKindView::Foreach(e, binding, body) => {
            lemma_plain_expr(*e, w);
            let v = visit_expr(*e, w);
            lemma_plain_afield(*binding, v.walk);
            lemma_plain_block(body, visit_afield(*binding, v.walk).walk);
        },
        StmtKindView::Try(body, catches, finally) => {
            lemma_plain_block(body, w);
            let b = visit_block(body, w);
            lemma_plain_catches(catches, b.walk);
            lemma_plain_block(finally, visit_catches(catches, b.walk).walk);
        },
        StmtKindView::Block(body) => lemma_plain_block(body, w),
    }
}

// ---------------------------------------------------------------------------
// Declarations
// ---------------------------------------------------------------------------

/// Parameters without annotation seed a context in which nothing is
/// readonly.
proof fn lemma_plain_params(ctx: ContextView, params: Seq<FunParamView>, n: nat)
    requires
        mutable_context(ctx),
        plain_params(params),
        n <= params.len(),
    ensures
        mutable_context(ctx.seed_params(params, n)),
    decreases n,
{
    reveal(mutable_context);
    if n > 0 {
        lemma_plain_params(ctx, params, (n - 1) as nat);
        let before = ctx.seed_params(params, (n - 1) as nat);
        let after = ctx.seed_params(params, n);
        assert(params[n - 1].readonly is None);
        assert forall|name: Seq<char>| !#[trigger] after.is_readonly(name) by {
            assert(!before.is_readonly(name));
        }
    }
}

proof fn lemma_plain_scope(kind: ScopeKind, params: Seq<FunParamView>)
    requires
        kind.this_ty() == Rty::Mutable,
        plain_params(params),
    ensures
        mutable_context(scope_context(kind, params)),
{
    reveal(mutable_context);
    let start = ContextView::new(kind.readonly_return(), kind.this_ty());
    assert forall|name: Seq<char>| !#[trigger] start.is_readonly(name) by {}
    lemma_plain_params(start, params, params.len());
}

proof fn lemma_plain_fun(f: FunView, w: Walk)
    requires
        plain_fun(f),
        mutable_context(w.ctx),
    ensures
        quiet(visit_fun(f, w), f, w),
{
    lemma_plain_scope(fun_scope(f), f.params);
    lemma_plain_block(
        f.body,
        Walk { ctx: scope_context(fun_scope(f), f.params), errors: w.errors },
    );
}

proof fn lemma_plain_method(m: MethodView, w: Walk)
    requires
        plain_method(m),
        mutable_context(w.ctx),
    ensures
        quiet(visit_method(m, w), m, w),
{
    lemma_plain_scope(method_scope(m), m.params);
    lemma_plain_block(
        m.body,
        Walk { ctx: scope_context(method_scope(m), m.params), errors: w.errors },
    );
}

proof fn lemma_plain_methods_upto(ms: Seq<MethodView>, n: nat, w: Walk)
    requires
        plain_methods(ms),
        n <= ms.len(),
        mutable_context(w.ctx),
    ensures
        quiet(visit_methods_upto(ms, n, w), ms.subrange(0, n as int), w),
    decreases n,
{
    lemma_visit_methods_upto(ms, n, w);
    if n > 0 {
        lemma_plain_methods_upto(ms, (n - 1) as nat, w);
        lemma_plain_method(ms[n - 1], visit_methods_upto(ms, (n - 1) as nat, w).walk);
        assert(ms.subrange(0, n - 1).push(ms[n - 1]) =~= ms.subrange(0, n as int));
    } else {
        assert(ms.subrange(0, 0) =~= Seq::<MethodView>::empty());
    }
}

proof fn lemma_plain_methods(ms: Seq<MethodView>, w: Walk)
    requires
        plain_methods(ms),
        mutable_context(w.ctx),
    ensures
        quiet(visit_methods(ms, w), ms, w),
{
    lemma_plain_methods_upto(ms, ms.len(), w);
    assert(ms.subrange(0, ms.len() as int) =~= ms);
}

proof fn lemma_plain_def(d: DefView, w: Walk)
    requires
        plain_def(d),
        mutable_context(w.ctx),
    ensures
        quiet(visit_def(d, w), d, w),
    decreases d, 0nat,
{
    match d {
        DefView::Fun(f) => lemma_plain_fun(f, w),
        DefView::Class(c) => lemma_plain_methods(c.methods, w),
        DefView::Stmt(s) => lemma_plain_stmt(s, w),
        DefView::Constant(_, e) => lemma_plain_expr(e, w),
        DefView::Typedef(_) => {},
        DefView::Namespace(_, ds) => lemma_plain_defs(ds, w),
    }
}

proof fn lemma_plain_defs_upto(ds: Seq<DefView>, n: nat, w: Walk)
    requires
        plain_defs(ds),
        n <= ds.len(),
        mutable_context(w.ctx),
    ensures
        quiet(visit_defs_upto(ds, n, w), ds.subrange(0, n as int), w),
    decreases ds, n,
{
    lemma_visit_defs_upto(ds, n, w);
    if n > 0 {
        lemma_plain_defs_upto(ds, (n - 1) as nat, w);
        lemma_plain_def(ds[n - 1], visit_defs_upto(ds, (n - 1) as nat, w).walk);
        assert(ds.subrange(0, n - 1).push(ds[n - 1]) =~= ds.subrange(0, n as int));
    } else {
        assert(ds.subrange(0, 0) =~= Seq::<DefView>::empty());
    }
}

proof fn lemma_plain_defs(ds: Seq<DefView>, w: Walk)
    requires
        plain_defs(ds),
        mutable_context(w.ctx),
    ensures
        quiet(visit_defs(ds, w), ds, w),
    decreases ds, ds.len() + 1,
{
    lemma_plain_defs_upto(ds, ds.len(), w);
    assert(ds.subrange(0, ds.len() as int) =~= ds);
}

/// A program without readonly annotations gets no diagnostic, and the pass
/// leaves its tree exactly as it was.
pub proof fn lemma_unannotated_program_is_clean(p: ProgramView)
    requires
        plain_program(p),
    ensures
        visit_program(p).walk.errors == Seq::<crate::diagnostics::DiagnosticView>::empty(),
        visit_program(p).tree == p,
{
    reveal(mutable_context);
    let start = toplevel_context();
    assert forall|name: Seq<char>| !#[trigger] start.is_readonly(name) by {}
    lemma_plain_defs(p.defs, initial_walk());
}

} // verus!
