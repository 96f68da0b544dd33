//! What the pass computes, as functions over views.
//!
//! A walk threads two things through the tree in pre-order: the context of
//! the scope being walked and the diagnostics recorded so far. Visiting a
//! node yields the rewritten node and the state after it.

use vstd::prelude::*;
use crate::ast::{Bop, Pos};
use crate::classify::classify;
use crate::context::{scope_context, toplevel_context, ContextView, ScopeKind};
use crate::diagnostics::{
    mismatch_diagnostic, readonly_assignment_diagnostic, return_reason, subtype_errors,
    DiagnosticView,
};
use crate::lattice::Rty;
use crate::view::{
    AfieldView, CaseView, CatchView, ClassView, DefView, ExprKindView, ExprView, FieldView,
    FunView, MethodView, ProgramView, StmtKindView, StmtView,
};

verus! {

/// The state of a walk.
pub struct Walk {
    pub ctx: ContextView,
    pub errors: Seq<DiagnosticView>,
}

/// A rewritten piece of tree, and the state of the walk after it.
pub struct Visited<T> {
    pub tree: T,
    pub walk: Walk,
}

// ---------------------------------------------------------------------------
// Explicit markers
// ---------------------------------------------------------------------------

/// The expression classifies readonly and does not say so itself.
pub open spec fn needs_marker(e: ExprView, ctx: ContextView) -> bool {
    classify(e, ctx) == Rty::Readonly && !(e.kind is ReadonlyExpr)
}

/// The expression under an explicit marker, at the same position.
pub open spec fn marked(e: ExprView) -> ExprView {
    ExprView { pos: e.pos, kind: ExprKindView::ReadonlyExpr(Box::new(e)) }
}

/// The expression with its readonly status made explicit.
pub open spec fn explicit(e: ExprView, ctx: ContextView) -> ExprView {
    if needs_marker(e, ctx) {
        marked(e)
    } else {
        e
    }
}

/// Every element made explicit.
pub open spec fn explicit_all(es: Seq<ExprView>, ctx: ContextView) -> Seq<ExprView> {
    Seq::new(es.len(), |i: int| explicit(es[i], ctx))
}

// ---------------------------------------------------------------------------
// Assignments
// ---------------------------------------------------------------------------

/// Plain and compound assignments alike.
pub open spec fn is_assignment(op: Bop) -> bool {
    op is Eq
}

/// The context after the assignment `lhs = rhs`: a local that is written for
/// the first time is bound to the mutability of the value.
pub open spec fn assignment_context(lhs: ExprView, rhs: ExprView, ctx: ContextView) -> ContextView {
    match lhs.kind {
        ExprKindView::Lvar(name) => ctx.add_local(name, classify(rhs, ctx) == Rty::Readonly),
        _ => ctx,
    }
}

/// The diagnostics after the assignment `lhs = rhs` at `pos`.
///
/// A local that is already bound must be written with the mutability of its
/// binding. A property must not be written through a readonly object. An
/// index write is always allowed, and so is any other target.
pub open spec fn assignment_errors(
    errors: Seq<DiagnosticView>,
    pos: Pos,
    lhs: ExprView,
    rhs: ExprView,
    ctx: ContextView,
) -> Seq<DiagnosticView> {
    match lhs.kind {
        ExprKindView::Lvar(name) => if !ctx.is_new_local(name) && ctx.is_readonly(name) != (
        classify(rhs, ctx) == Rty::Readonly) {
            errors.push(mismatch_diagnostic(pos, name))
        } else {
            errors
        },
        ExprKindView::ObjGet(_, _) => if classify(lhs, ctx) == Rty::Readonly {
            errors.push(readonly_assignment_diagnostic(pos))
        } else {
            errors
        },
        _ => errors,
    }
}

/// The target after the assignment: the base of an index write is made
/// explicit.
pub open spec fn assignment_target(lhs: ExprView, ctx: ContextView) -> ExprView {
    match lhs.kind {
        ExprKindView::ArrayGet(base, index) => ExprView {
            pos: lhs.pos,
            kind: ExprKindView::ArrayGet(Box::new(explicit(*base, ctx)), index),
        },
        _ => lhs,
    }
}

/// The value after the assignment: made explicit when it is written to a
/// property or to an index.
pub open spec fn assignment_value(lhs: ExprView, rhs: ExprView, ctx: ContextView) -> ExprView {
    if lhs.kind is ObjGet || lhs.kind is ArrayGet {
        explicit(rhs, ctx)
    } else {
        rhs
    }
}

/// The state of the walk after validating the assignment `lhs = rhs`.
pub open spec fn assignment_walk(pos: Pos, lhs: ExprView, rhs: ExprView, w: Walk) -> Walk {
    Walk {
        ctx: assignment_context(lhs, rhs, w.ctx),
        errors: assignment_errors(w.errors, pos, lhs, rhs, w.ctx),
    }
}

/// The state of the walk after checking `return e`.
pub open spec fn return_walk(e: ExprView, w: Walk) -> Walk {
    Walk {
        ctx: w.ctx,
        errors: subtype_errors(
            w.errors,
            e.pos,
            classify(e, w.ctx),
            w.ctx.readonly_return,
            return_reason(),
        ),
    }
}

// ---------------------------------------------------------------------------
// Expressions
// ---------------------------------------------------------------------------

/// Visits an expression: the rule of the node itself first (an assignment is
/// validated, the arguments of a call are made explicit), then its children
/// from left to right.
#[verifier::opaque]
pub open spec fn visit_expr(e: ExprView, w: Walk) -> Visited<ExprView>
    decreases e, 1nat,
{
    let v = visit_kind(e.kind, e.pos, w);
    Visited { tree: ExprView { pos: e.pos, kind: v.tree }, walk: v.walk }
}

/// The visit of an expression, one level down.
pub proof fn lemma_visit_expr(e: ExprView, w: Walk)
    ensures
        visit_expr(e, w) == ({
            let v = visit_kind(e.kind, e.pos, w);
            Visited { tree: ExprView { pos: e.pos, kind: v.tree }, walk: v.walk }
        }),
{
    reveal(visit_expr);
}

/// Visits an expression that its parent has made explicit under `ctx`.
/// The marker has no rule of its own, so this is the visit of the expression
/// with the marker put around the result.
pub open spec fn visit_explicit(e: ExprView, ctx: ContextView, w: Walk) -> Visited<ExprView>
    decreases e, 2nat,
{
    let v = visit_expr(e, w);
    if needs_marker(e, ctx) {
        Visited { tree: marked(v.tree), walk: v.walk }
    } else {
        v
    }
}

/// Visits the target of an assignment that has been validated under `ctx`.
pub open spec fn visit_target(lhs: ExprView, ctx: ContextView, w: Walk) -> Visited<ExprView>
    decreases lhs, 3nat,
{
    match lhs.kind {
        ExprKindView::ArrayGet(base, index) => {
            let b = visit_explicit(*base, ctx, w);
            let i = visit_opt_expr(index, b.walk);
            Visited {
                tree: ExprView {
                    pos: lhs.pos,
                    kind: ExprKindView::ArrayGet(Box::new(b.tree), i.tree),
                },
                walk: i.walk,
            }
        },
        _ => visit_expr(lhs, w),
    }
}

/// Visits an expression that may be absent.
pub open spec fn visit_opt_expr(o: Option<Box<ExprView>>, w: Walk) -> Visited<
    Option<Box<ExprView>>,
>
    decreases o, 0nat,
{
    match o {
        Some(e) => {
            let v = visit_expr(*e, w);
            Visited { tree: Some(Box::new(v.tree)), walk: v.walk }
        },
        None => Visited { tree: None, walk: w },
    }
}

/// Visits the first `n` expressions of `es`, in order.
#[verifier::opaque]
pub open spec fn visit_exprs_upto(es: Seq<ExprView>, n: nat, w: Walk) -> Visited<Seq<ExprView>>
    decreases es, n,
{
    if n == 0 || n > es.len() {
        Visited { tree: Seq::empty(), walk: w }
    } else {
        let before = visit_exprs_upto(es, (n - 1) as nat, w);
        let v = visit_expr(es[n - 1], before.walk);
        Visited { tree: before.tree.push(v.tree), walk: v.walk }
    }
}

/// Visits the first `n` arguments of a call, each made explicit under `ctx`.
#[verifier::opaque]
pub open spec fn visit_args_upto(es: Seq<ExprView>, n: nat, ctx: ContextView, w: Walk) -> Visited<
    Seq<ExprView>,
>
    decreases es, n,
{
    if n == 0 || n > es.len() {
        Visited { tree: Seq::empty(), walk: w }
    } else {
        let before = visit_args_upto(es, (n - 1) as nat, ctx, w);
        let v = visit_explicit(es[n - 1], ctx, before.walk);
        Visited { tree: before.tree.push(v.tree), walk: v.walk }
    }
}

/// Visits a `key => value` entry, key first.
pub open spec fn visit_field(f: FieldView, w: Walk) -> Visited<FieldView>
    decreases f, 0nat,
{
    let k = visit_expr(f.key, w);
    let v = visit_expr(f.value, k.walk);
    Visited { tree: FieldView { key: k.tree, value: v.tree }, walk: v.walk }
}

/// Visits the first `n` entries of `fs`, in order, key before value.
#[verifier::opaque]
pub open spec fn visit_fields_upto(fs: Seq<FieldView>, n: nat, w: Walk) -> Visited<Seq<FieldView>>
    decreases fs, n,
{
    if n == 0 || n > fs.len() {
        Visited { tree: Seq::empty(), walk: w }
    } else {
        let before = visit_fields_upto(fs, (n - 1) as nat, w);
        let v = visit_field(fs[n - 1], before.walk);
        Visited { tree: before.tree.push(v.tree), walk: v.walk }
    }
}

/// Visits an entry of a collection literal: its key, if it has one, then its
/// value.
pub open spec fn visit_afield(f: AfieldView, w: Walk) -> Visited<AfieldView>
    decreases f, 0nat,
{
    match f {
        AfieldView::Value(e) => {
            let v = visit_expr(e, w);
            Visited { tree: AfieldView::Value(v.tree), walk: v.walk }
        },
        AfieldView::KeyValue(key, value) => {
            let k = visit_expr(key, w);
            let v = visit_expr(value, k.walk);
            Visited { tree: AfieldView::KeyValue(k.tree, v.tree), walk: v.walk }
        },
    }
}

/// Visits the first `n` entries of `fs`, in order.
#[verifier::opaque]
pub open spec fn visit_afields_upto(fs: Seq<AfieldView>, n: nat, w: Walk) -> Visited<
    Seq<AfieldView>,
>
    decreases fs, n,
{
    if n == 0 || n > fs.len() {
        Visited { tree: Seq::empty(), walk: w }
    } else {
        let before = visit_afields_upto(fs, (n - 1) as nat, w);
        let v = visit_afield(fs[n - 1], before.walk);
        Visited { tree: before.tree.push(v.tree), walk: v.walk }
    }
}

/// Visits a node of the given kind at `pos`.
pub open spec fn visit_kind(k: ExprKindView, pos: Pos, w: Walk) -> Visited<ExprKindView>
    decreases k, 0nat,
{
    match k {
        // An assignment is validated; its target and value are visited as
        // the validation left them.
        ExprKindView::Binop(op, lhs, rhs) => if is_assignment(op) {
            let l = visit_target(*lhs, w.ctx, assignment_walk(pos, *lhs, *rhs, w));
            let r = if lhs.kind is ObjGet || lhs.kind is ArrayGet {
                visit_explicit(*rhs, w.ctx, l.walk)
            } else {
                visit_expr(*rhs, l.walk)
            };
            Visited {
                tree: ExprKindView::Binop(op, Box::new(l.tree), Box::new(r.tree)),
                walk: r.walk,
            }
        } else {
            let l = visit_expr(*lhs, w);
            let r = visit_expr(*rhs, l.walk);
            Visited {
                tree: ExprKindView::Binop(op, Box::new(l.tree), Box::new(r.tree)),
                walk: r.walk,
            }
        },
        // The arguments of a call are made explicit.
        ExprKindView::Call(callee, args, unpacked) => {
            let c = visit_expr(*callee, w);
            let a = visit_args(args, w.ctx, c.walk);
            let u = visit_opt_expr(unpacked, a.walk);
            Visited { tree: ExprKindView::Call(Box::new(c.tree), a.tree, u.tree), walk: u.walk }
        },
        // Closures are opaque: their bodies are not walked.
        ExprKindView::Efun(_) | ExprKindView::Lfun(_) => Visited { tree: k, walk: w },
        ExprKindView::Leaf(_) | ExprKindView::Lvar(_) | ExprKindView::This => Visited {
            tree: k,
            walk: w,
        },
        // Every other node only passes the walk on to its children.
        ExprKindView::ReadonlyExpr(e) => {
            let v = visit_expr(*e, w);
            Visited { tree: ExprKindView::ReadonlyExpr(Box::new(v.tree)), walk: v.walk }
        },
        ExprKindView::Unary(kind, e) => {
            let v = visit_expr(*e, w);
            Visited { tree: ExprKindView::Unary(kind, Box::new(v.tree)), walk: v.walk }
        },
        ExprKindView::ObjGet(obj, member) => {
            let o = visit_expr(*obj, w);
            let m = visit_expr(*member, o.walk);
            Visited { tree: ExprKindView::ObjGet(Box::new(o.tree), Box::new(m.tree)), walk: m.walk }
        },
        ExprKindView::ArrayGet(base, index) => {
            let b = visit_expr(*base, w);
            let i = visit_opt_expr(index, b.walk);
            Visited { tree: ExprKindView::ArrayGet(Box::new(b.tree), i.tree), walk: i.walk }
        },
        ExprKindView::Pipe(lhs, rhs) => {
            let l = visit_expr(*lhs, w);
            let r = visit_expr(*rhs, l.walk);
            Visited { tree: ExprKindView::Pipe(Box::new(l.tree), Box::new(r.tree)), walk: r.walk }
        },
        ExprKindView::Pair(a, b) => {
            let l = visit_expr(*a, w);
            let r = visit_expr(*b, l.walk);
            Visited { tree: ExprKindView::Pair(Box::new(l.tree), Box::new(r.tree)), walk: r.walk }
        },
        ExprKindView::Eif(cond, then, otherwise) => {
            let c = visit_expr(*cond, w);
            let t = visit_opt_expr(then, c.walk);
            let o = visit_expr(*otherwise, t.walk);
            Visited {
                tree: ExprKindView::Eif(Box::new(c.tree), t.tree, Box::new(o.tree)),
                walk: o.walk,
            }
        },
        ExprKindView::ExprList(kind, es) => {
            let v = visit_exprs(es, w);
            Visited { tree: ExprKindView::ExprList(kind, v.tree), walk: v.walk }
        },
        ExprKindView::FieldList(kind, fs) => {
            let v = visit_fields(fs, w);
            Visited { tree: ExprKindView::FieldList(kind, v.tree), walk: v.walk }
        },
        ExprKindView::Collection(n, fs) => {
            let v = visit_afields(fs, w);
            Visited { tree: ExprKindView::Collection(n, v.tree), walk: v.walk }
        },
        ExprKindView::Yield(f) => {
            let v = visit_afield(*f, w);
            Visited { tree: ExprKindView::Yield(Box::new(v.tree)), walk: v.walk }
        },
        ExprKindView::New(c, args, unpacked) => {
            let a = visit_exprs(args, w);
            let u = visit_opt_expr(unpacked, a.walk);
            Visited { tree: ExprKindView::New(c, a.tree, u.tree), walk: u.walk }
        },
    }
}

// ---------------------------------------------------------------------------
// Statements
// ---------------------------------------------------------------------------

/// Visits a statement: a `return` with a value is checked against what the
/// scope declared, then the sub-expressions and sub-statements are visited
/// from left to right.
#[verifier::opaque]
pub open spec fn visit_stmt(s: StmtView, w: Walk) -> Visited<StmtView>
    decreases s, 0nat,
{
    let v = visit_stmt_kind(s.kind, w);
    Visited { tree: StmtView { pos: s.pos, kind: v.tree }, walk: v.walk }
}

/// The visit of a statement, one level down.
pub proof fn lemma_visit_stmt(s: StmtView, w: Walk)
    ensures
        visit_stmt(s, w) == ({
            let v = visit_stmt_kind(s.kind, w);
            Visited { tree: StmtView { pos: s.pos, kind: v.tree }, walk: v.walk }
        }),
{
    reveal(visit_stmt);
}

/// Visits the first `n` statements of `ss`, in order.
#[verifier::opaque]
pub open spec fn visit_block_upto(ss: Seq<StmtView>, n: nat, w: Walk) -> Visited<Seq<StmtView>>
    decreases ss, n,
{
    if n == 0 || n > ss.len() {
        Visited { tree: Seq::empty(), walk: w }
    } else {
        let before = visit_block_upto(ss, (n - 1) as nat, w);
        let v = visit_stmt(ss[n - 1], before.walk);
        Visited { tree: before.tree.push(v.tree), walk: v.walk }
    }
}

/// Visits one arm of a `switch`: its label, if it has one, then its body.
pub open spec fn visit_case(c: CaseView, w: Walk) -> Visited<CaseView>
    decreases c, 0nat,
{
    match c.label {
        Some(e) => {
            let l = visit_expr(e, w);
            let b = visit_block(c.body, l.walk);
            Visited { tree: CaseView { label: Some(l.tree), body: b.tree }, walk: b.walk }
        },
        None => {
            let b = visit_block(c.body, w);
            Visited { tree: CaseView { label: None, body: b.tree }, walk: b.walk }
        },
    }
}

/// Visits the first `n` arms of a `switch`, in order.
#[verifier::opaque]
pub open spec fn visit_cases_upto(cs: Seq<CaseView>, n: nat, w: Walk) -> Visited<Seq<CaseView>>
    decreases cs, n,
{
    if n == 0 || n > cs.len() {
        Visited { tree: Seq::empty(), walk: w }
    } else {
        let before = visit_cases_upto(cs, (n - 1) as nat, w);
        let v = visit_case(cs[n - 1], before.walk);
        Visited { tree: before.tree.push(v.tree), walk: v.walk }
    }
}

/// Visits one handler of a `try`.
pub open spec fn visit_catch(c: CatchView, w: Walk) -> Visited<CatchView>
    decreases c, 0nat,
{
    let b = visit_block(c.body, w);
    Visited { tree: CatchView { class_name: c.class_name, var: c.var, body: b.tree }, walk: b.walk }
}

/// Visits the first `n` handlers of a `try`, in order.
#[verifier::opaque]
pub open spec fn visit_catches_upto(cs: Seq<CatchView>, n: nat, w: Walk) -> Visited<Seq<CatchView>>
    decreases cs, n,
{
    if n == 0 || n > cs.len() {
        Visited { tree: Seq::empty(), walk: w }
    } else {
        let before = visit_catches_upto(cs, (n - 1) as nat, w);
        let v = visit_catch(cs[n - 1], before.walk);
        Visited { tree: before.tree.push(v.tree), walk: v.walk }
    }
}

/// Visits a statement of the given kind.
pub open spec fn visit_stmt_kind(k: StmtKindView, w: Walk) -> Visited<StmtKindView>
    decreases k, 0nat,
{
    match k {
        StmtKindView::Return(Some(e)) => {
            let v = visit_expr(*e, return_walk(*e, w));
            Visited { tree: StmtKindView::Return(Some(Box::new(v.tree))), walk: v.walk }
        },
        StmtKindView::Return(None)
        | StmtKindView::Fallthrough
        | StmtKindView::Break
        | StmtKindView::Continue
        | StmtKindView::YieldBreak
        | StmtKindView::Noop
        | StmtKindView::Markup(_) => Visited { tree: k, walk: w },
        StmtKindView::Expr(e) => {
            let v = visit_expr(*e, w);
            Visited { tree: StmtKindView::Expr(Box::new(v.tree)), walk: v.walk }
        },
        StmtKindView::Throw(e) => {
            let v = visit_expr(*e, w);
            Visited { tree: StmtKindView::Throw(Box::new(v.tree)), walk: v.walk }
        },
        StmtKindView::Awaitall(es, body) => {
            let e = visit_exprs(es, w);
            let b = visit_block(body, e.walk);
            Visited { tree: StmtKindView::Awaitall(e.tree, b.tree), walk: b.walk }
        },
        StmtKindView::If(cond, then, otherwise) => {
            let c = visit_expr(*cond, w);
            let t = visit_block(then, c.walk);
            let o = visit_block(otherwise, t.walk);
            Visited { tree: StmtKindView::If(Box::new(c.tree), t.tree, o.tree), walk: o.walk }
        },
        StmtKindView::Do(body, cond) => {
            let b = visit_block(body, w);
            let c = visit_expr(*cond, b.walk);
            Visited { tree: StmtKindView::Do(b.tree, Box::new(c.tree)), walk: c.walk }
        },
        StmtKindView::While(cond, body) => {
            let c = visit_expr(*cond, w);
            let b = visit_block(body, c.walk);
            Visited { tree: StmtKindView::While(Box::new(c.tree), b.tree), walk: b.walk }
        },
        StmtKindView::Using(es, body) => {
            let e = visit_exprs(es, w);
            let b = visit_block(body, e.walk);
            Visited { tree: StmtKindView::Using(e.tree, b.tree), walk: b.walk }
        },
        StmtKindView::For(init, cond, step, body) => {
            let i = visit_exprs(init, w);
            let c = visit_opt_expr(cond, i.walk);
            let s = visit_exprs(step, c.walk);
            let b = visit_block(body, s.walk);
            Visited { tree: StmtKindView::For(i.tree, c.tree, s.tree, b.tree), walk: b.walk }
        },
        StmtKindView::Switch(e, cases) => {
            let v = visit_expr(*e, w);
            let c = visit_cases(cases, v.walk);
            Visited { tree: StmtKindView::Switch(Box::new(v.tree), c.tree), walk: c.walk }
        },
        StmtKindView::Foreach(e, binding, body) => {
            let v = visit_expr(*e, w);
            let a = visit_afield(*binding, v.walk);
            let b = visit_block(body, a.walk);
            Visited {
                tree: StmtKindView::Foreach(Box::new(v.tree), Box::new(a.tree), b.tree),
                walk: b.walk,
            }
        },
        StmtKindView::Try(body, catches, finally) => {
            let b = visit_block(body, w);
            let c = visit_catches(catches, b.walk);
            let f = visit_block(finally, c.walk);
            Visited { tree: StmtKindView::Try(b.tree, c.tree, f.tree), walk: f.walk }
        },
        StmtKindView::Block(body) => {
            let b = visit_block(body, w);
            Visited { tree: StmtKindView::Block(b.tree), walk: b.walk }
        },
    }
}

// ---------------------------------------------------------------------------
// Declarations
// ---------------------------------------------------------------------------

/// The scope that a function declares.
pub open spec fn fun_scope(f: FunView) -> ScopeKind {
    ScopeKind::Function { readonly_this: f.readonly_this, readonly_ret: f.readonly_ret }
}

/// The scope that a method declares.
pub open spec fn method_scope(m: MethodView) -> ScopeKind {
    ScopeKind::Method { readonly_this: m.readonly_this, readonly_ret: m.readonly_ret }
}

/// Visits a function: its body is walked in a fresh context made from the
/// declaration, which is dropped at the end. Only the diagnostics go on.
pub open spec fn visit_fun(f: FunView, w: Walk) -> Visited<FunView> {
    let inner = Walk { ctx: scope_context(fun_scope(f), f.params), errors: w.errors };
    let b = visit_block(f.body, inner);
    Visited {
        tree: FunView { body: b.tree, ..f },
        walk: Walk { ctx: w.ctx, errors: b.walk.errors },
    }
}

/// Visits a method, as [`visit_fun`] does a function.
pub open spec fn visit_method(m: MethodView, w: Walk) -> Visited<MethodView> {
    let inner = Walk { ctx: scope_context(method_scope(m), m.params), errors: w.errors };
    let b = visit_block(m.body, inner);
    Visited {
        tree: MethodView { body: b.tree, ..m },
        walk: Walk { ctx: w.ctx, errors: b.walk.errors },
    }
}

/// Visits the first `n` methods of a class, in order.
#[verifier::opaque]
pub open spec fn visit_methods_upto(ms: Seq<MethodView>, n: nat, w: Walk) -> Visited<Seq<MethodView>>
    decreases n,
{
    if n == 0 || n > ms.len() {
        Visited { tree: Seq::empty(), walk: w }
    } else {
        let before = visit_methods_upto(ms, (n - 1) as nat, w);
        let v = visit_method(ms[n - 1], before.walk);
        Visited { tree: before.tree.push(v.tree), walk: v.walk }
    }
}

/// Visits a class: each of its methods, in order.
pub open spec fn visit_class(c: ClassView, w: Walk) -> Visited<ClassView> {
    let m = visit_methods(c.methods, w);
    Visited { tree: ClassView { name: c.name, methods: m.tree }, walk: m.walk }
}

/// Visits a top-level declaration. Functions and methods open a scope of
/// their own. Statements and constants outside any function are walked in the
/// context handed in.
pub open spec fn visit_def(d: DefView, w: Walk) -> Visited<DefView>
    decreases d, 0nat,
{
    match d {
        DefView::Fun(f) => {
            let v = visit_fun(f, w);
            Visited { tree: DefView::Fun(v.tree), walk: v.walk }
        },
        DefView::Class(c) => {
            let v = visit_class(c, w);
            Visited { tree: DefView::Class(v.tree), walk: v.walk }
        },
        DefView::Stmt(s) => {
            let v = visit_stmt(s, w);
            Visited { tree: DefView::Stmt(v.tree), walk: v.walk }
        },
        DefView::Constant(n, e) => {
            let v = visit_expr(e, w);
            Visited { tree: DefView::Constant(n, v.tree), walk: v.walk }
        },
        DefView::Typedef(_) => Visited { tree: d, walk: w },
        DefView::Namespace(n, ds) => {
            let v = visit_defs(ds, w);
            Visited { tree: DefView::Namespace(n, v.tree), walk: v.walk }
        },
    }
}

/// Visits the first `n` declarations of `ds`, in order.
#[verifier::opaque]
pub open spec fn visit_defs_upto(ds: Seq<DefView>, n: nat, w: Walk) -> Visited<Seq<DefView>>
    decreases ds, n,
{
    if n == 0 || n > ds.len() {
        Visited { tree: Seq::empty(), walk: w }
    } else {
        let before = visit_defs_upto(ds, (n - 1) as nat, w);
        let v = visit_def(ds[n - 1], before.walk);
        Visited { tree: before.tree.push(v.tree), walk: v.walk }
    }
}

/// The state in which the walk of a program starts.
pub open spec fn initial_walk() -> Walk {
    Walk { ctx: toplevel_context(), errors: Seq::empty() }
}

/// The whole pass: every top-level declaration, in order, from the initial
/// state.
pub open spec fn visit_program(p: ProgramView) -> Visited<ProgramView> {
    let v = visit_defs(p.defs, initial_walk());
    Visited { tree: ProgramView { defs: v.tree }, walk: v.walk }
}

// ---------------------------------------------------------------------------
// Whole sequences
// ---------------------------------------------------------------------------

/// Visits every expression of `es`, in order.
pub open spec fn visit_exprs(es: Seq<ExprView>, w: Walk) -> Visited<Seq<ExprView>>
    decreases es, es.len() + 1,
{
    visit_exprs_upto(es, es.len(), w)
}

/// Visits every entry of `fs`, in order, key before value.
pub open spec fn visit_fields(fs: Seq<FieldView>, w: Walk) -> Visited<Seq<FieldView>>
    decreases fs, fs.len() + 1,
{
    visit_fields_upto(fs, fs.len(), w)
}

/// Visits every entry of `fs`, in order.
pub open spec fn visit_afields(fs: Seq<AfieldView>, w: Walk) -> Visited<Seq<AfieldView>>
    decreases fs, fs.len() + 1,
{
    visit_afields_upto(fs, fs.len(), w)
}

/// Visits every statement of `ss`, in order.
pub open spec fn visit_block(ss: Seq<StmtView>, w: Walk) -> Visited<Seq<StmtView>>
    decreases ss, ss.len() + 1,
{
    visit_block_upto(ss, ss.len(), w)
}

/// Visits every arm of a `switch`, in order.
pub open spec fn visit_cases(cs: Seq<CaseView>, w: Walk) -> Visited<Seq<CaseView>>
    decreases cs, cs.len() + 1,
{
    visit_cases_upto(cs, cs.len(), w)
}

/// Visits every handler of a `try`, in order.
pub open spec fn visit_catches(cs: Seq<CatchView>, w: Walk) -> Visited<Seq<CatchView>>
    decreases cs, cs.len() + 1,
{
    visit_catches_upto(cs, cs.len(), w)
}

/// Visits every method of a class, in order.
pub open spec fn visit_methods(ms: Seq<MethodView>, w: Walk) -> Visited<Seq<MethodView>>
{
    visit_methods_upto(ms, ms.len(), w)
}

/// Visits every declaration of `ds`, in order.
pub open spec fn visit_defs(ds: Seq<DefView>, w: Walk) -> Visited<Seq<DefView>>
    decreases ds, ds.len() + 1,
{
    visit_defs_upto(ds, ds.len(), w)
}

/// Visits every argument of a call, each made explicit under `ctx`.
pub open spec fn visit_args(es: Seq<ExprView>, ctx: ContextView, w: Walk) -> Visited<Seq<ExprView>>
    decreases es, es.len() + 1,
{
    visit_args_upto(es, es.len(), ctx, w)
}

// ---------------------------------------------------------------------------
// How a visit of a sequence proceeds, one element at a time
// ---------------------------------------------------------------------------

/// The visit of the first `n` expressions, one step down: nothing for none, and
/// otherwise the visit of the first `n - 1` followed by that of the next.
pub proof fn lemma_visit_exprs_upto(es: Seq<ExprView>, n: nat, w: Walk)
    ensures
        n == 0 ==> visit_exprs_upto(es, n, w) == (Visited { tree: Seq::<ExprView>::empty(), walk: w }),
        0 < n <= es.len() ==> visit_exprs_upto(es, n, w) == ({
            let before = visit_exprs_upto(es, (n - 1) as nat, w);
            let v = visit_expr(es[n - 1], before.walk);
            Visited { tree: before.tree.push(v.tree), walk: v.walk }
        }),
{
    reveal(visit_exprs_upto);
    reveal(visit_expr);
}

/// The visit of the first `n` entries, one step down: nothing for none, and
/// otherwise the visit of the first `n - 1` followed by that of the next.
pub proof fn lemma_visit_fields_upto(fs: Seq<FieldView>, n: nat, w: Walk)
    ensures
        n == 0 ==> visit_fields_upto(fs, n, w) == (Visited { tree: Seq::<FieldView>::empty(), walk: w }),
        0 < n <= fs.len() ==> visit_fields_upto(fs, n, w) == ({
            let before = visit_fields_upto(fs, (n - 1) as nat, w);
            let v = visit_field(fs[n - 1], before.walk);
            Visited { tree: before.tree.push(v.tree), walk: v.walk }
        }),
{
    reveal(visit_fields_upto);
}

/// The visit of the first `n` entries, one step down: nothing for none, and
/// otherwise the visit of the first `n - 1` followed by that of the next.
pub proof fn lemma_visit_afields_upto(fs: Seq<AfieldView>, n: nat, w: Walk)
    ensures
        n == 0 ==> visit_afields_upto(fs, n, w) == (Visited { tree: Seq::<AfieldView>::empty(), walk: w }),
        0 < n <= fs.len() ==> visit_afields_upto(fs, n, w) == ({
            let before = visit_afields_upto(fs, (n - 1) as nat, w);
            let v = visit_afield(fs[n - 1], before.walk);
            Visited { tree: before.tree.push(v.tree), walk: v.walk }
        }),
{
    reveal(visit_afields_upto);
}

/// The visit of the first `n` statements, one step down: nothing for none, and
/// otherwise the visit of the first `n - 1` followed by that of the next.
pub proof fn lemma_visit_block_upto(ss: Seq<StmtView>, n: nat, w: Walk)
    ensures
        n == 0 ==> visit_block_upto(ss, n, w) == (Visited { tree: Seq::<StmtView>::empty(), walk: w }),
        0 < n <= ss.len() ==> visit_block_upto(ss, n, w) == ({
            let before = visit_block_upto(ss, (n - 1) as nat, w);
            let v = visit_stmt(ss[n - 1], before.walk);
            Visited { tree: before.tree.push(v.tree), walk: v.walk }
        }),
{
    reveal(visit_block_upto);
    reveal(visit_stmt);
}

/// The visit of the first `n` arms, one step down: nothing for none, and
/// otherwise the visit of the first `n - 1` followed by that of the next.
pub proof fn lemma_visit_cases_upto(cs: Seq<CaseView>, n: nat, w: Walk)
    ensures
        n == 0 ==> visit_cases_upto(cs, n, w) == (Visited { tree: Seq::<CaseView>::empty(), walk: w }),
        0 < n <= cs.len() ==> visit_cases_upto(cs, n, w) == ({
            let before = visit_cases_upto(cs, (n - 1) as nat, w);
            let v = visit_case(cs[n - 1], before.walk);
            Visited { tree: before.tree.push(v.tree), walk: v.walk }
        }),
{
    reveal(visit_cases_upto);
}

/// The visit of the first `n` handlers, one step down: nothing for none, and
/// otherwise the visit of the first `n - 1` followed by that of the next.
pub proof fn lemma_visit_catches_upto(cs: Seq<CatchView>, n: nat, w: Walk)
    ensures
        n == 0 ==> visit_catches_upto(cs, n, w) == (Visited { tree: Seq::<CatchView>::empty(), walk: w }),
        0 < n <= cs.len() ==> visit_catches_upto(cs, n, w) == ({
            let before = visit_catches_upto(cs, (n - 1) as nat, w);
            let v = visit_catch(cs[n - 1], before.walk);
            Visited { tree: before.tree.push(v.tree), walk: v.walk }
        }),
{
    reveal(visit_catches_upto);
}

/// The visit of the first `n` methods, one step down: nothing for none, and
/// otherwise the visit of the first `n - 1` followed by that of the next.
pub proof fn lemma_visit_methods_upto(ms: Seq<MethodView>, n: nat, w: Walk)
    ensures
        n == 0 ==> visit_methods_upto(ms, n, w) == (Visited { tree: Seq::<MethodView>::empty(), walk: w }),
        0 < n <= ms.len() ==> visit_methods_upto(ms, n, w) == ({
            let before = visit_methods_upto(ms, (n - 1) as nat, w);
            let v = visit_method(ms[n - 1], before.walk);
            Visited { tree: before.tree.push(v.tree), walk: v.walk }
        }),
{
    reveal(visit_methods_upto);
}

/// The visit of the first `n` declarations, one step down: nothing for none, and
/// otherwise the visit of the first `n - 1` followed by that of the next.
pub proof fn lemma_visit_defs_upto(ds: Seq<DefView>, n: nat, w: Walk)
    ensures
        n == 0 ==> visit_defs_upto(ds, n, w) == (Visited { tree: Seq::<DefView>::empty(), walk: w }),
        0 < n <= ds.len() ==> visit_defs_upto(ds, n, w) == ({
            let before = visit_defs_upto(ds, (n - 1) as nat, w);
            let v = visit_def(ds[n - 1], before.walk);
            Visited { tree: before.tree.push(v.tree), walk: v.walk }
        }),
{
    reveal(visit_defs_upto);
}

/// The visit of the first `n` arguments, one step down.
pub proof fn lemma_visit_args_upto(es: Seq<ExprView>, n: nat, ctx: ContextView, w: Walk)
    ensures
        n == 0 ==> visit_args_upto(es, n, ctx, w) == (Visited {
            tree: Seq::<ExprView>::empty(),
            walk: w,
        }),
        0 < n <= es.len() ==> visit_args_upto(es, n, ctx, w) == ({
            let before = visit_args_upto(es, (n - 1) as nat, ctx, w);
            let v = visit_explicit(es[n - 1], ctx, before.walk);
            Visited { tree: before.tree.push(v.tree), walk: v.walk }
        }),
{
    reveal(visit_args_upto);
}


} // verus!
