//! The expression classifier: the mutability of an expression in a scope.

use vstd::prelude::*;
use vstd::string::StringExecFns;
use crate::ast::{Afield, Expr, ExprKind, Field, ListKind, UnaryKind};
use crate::context::{Context, ContextView};
use crate::lattice::{flag_rty, join, rty_join, Rty};
use crate::view::{
    afields_view, exprs_view, fields_view, lemma_expr_view, opt_expr_view, AfieldView,
    ExprKindView, ExprView, FieldView, ListKindView, UnaryKindView,
};

verus! {

/// The name under which a method's receiver appears as a local.
pub open spec fn this_name() -> Seq<char> {
    "$this"@
}

/// The wrappers that are transparent to classification: a type assertion, an
/// await, a typing placeholder and an explicit parameter-passing marker have
/// the mutability of what they wrap.
pub open spec fn is_transparent(k: UnaryKindView) -> bool {
    k is As || k is Await || k is Hole || k is Callconv
}

/// The lists that are composite values: arrays, value collections and
/// tuples. An interpolated string, a destructuring target and an XHP element
/// are not.
pub open spec fn is_composite(k: ListKindView) -> bool {
    k is Varray || k is ValCollection || k is Tuple
}

/// Some element classifies readonly.
pub open spec fn any_readonly(es: Seq<ExprView>, ctx: ContextView) -> bool
    decreases es,
{
    exists|i: int| 0 <= i < es.len() && classify(#[trigger] es[i], ctx) == Rty::Readonly
}

/// Some entry's value classifies readonly. Keys do not count.
pub open spec fn any_readonly_value(fs: Seq<FieldView>, ctx: ContextView) -> bool
    decreases fs,
{
    exists|i: int| 0 <= i < fs.len() && classify((#[trigger] fs[i]).value, ctx) == Rty::Readonly
}

/// The value that a collection entry contributes.
pub open spec fn afield_value(f: AfieldView) -> ExprView {
    match f {
        AfieldView::Value(v) => v,
        AfieldView::KeyValue(_, v) => v,
    }
}

/// Some entry's value classifies readonly. Keys do not count.
pub open spec fn any_readonly_entry(fs: Seq<AfieldView>, ctx: ContextView) -> bool
    decreases fs,
{
    exists|i: int|
        0 <= i < fs.len() && classify(afield_value(#[trigger] fs[i]), ctx) == Rty::Readonly
}

/// The classification of an expression in a scope.
///
/// An explicit marker is readonly. A local has the mutability of its first
/// write (mutable if it has none), and `$this` that of the scope. Member and
/// index access take the classification of their base. Composite literals,
/// the ternary and pairs are readonly as soon as one constituent is.
/// Transparent wrappers take the classification of what they wrap.
/// Everything else is mutable: literals, operators, casts, tests, object
/// construction, calls, static accesses, function values and closures. A
/// call's result is never taken to be readonly without a marker at the site.
pub open spec fn classify(e: ExprView, ctx: ContextView) -> Rty
    decreases e,
{
    match e.kind {
        ExprKindView::ReadonlyExpr(_) => Rty::Readonly,
        ExprKindView::ObjGet(obj, _) => classify(*obj, ctx),
        ExprKindView::ArrayGet(base, _) => classify(*base, ctx),
        ExprKindView::Lvar(name) => if name == this_name() {
            ctx.this_ty
        } else {
            flag_rty(ctx.is_readonly(name))
        },
        ExprKindView::This => ctx.this_ty,
        ExprKindView::Unary(k, inner) => if is_transparent(k) {
            classify(*inner, ctx)
        } else {
            Rty::Mutable
        },
        ExprKindView::ExprList(k, es) => if is_composite(k) {
            flag_rty(any_readonly(es, ctx))
        } else {
            Rty::Mutable
        },
        ExprKindView::FieldList(_, fs) => flag_rty(any_readonly_value(fs, ctx)),
        ExprKindView::Collection(_, fs) => flag_rty(any_readonly_entry(fs, ctx)),
        ExprKindView::Eif(_, Some(then), otherwise) => join(
            classify(*then, ctx),
            classify(*otherwise, ctx),
        ),
        ExprKindView::Eif(_, None, otherwise) => classify(*otherwise, ctx),
        ExprKindView::Pair(a, b) => join(classify(*a, ctx), classify(*b, ctx)),
        ExprKindView::Leaf(_)
        | ExprKindView::Efun(_)
        | ExprKindView::Lfun(_)
        | ExprKindView::Binop(_, _, _)
        | ExprKindView::Pipe(_, _)
        | ExprKindView::Yield(_)
        | ExprKindView::Call(_, _, _)
        | ExprKindView::New(_, _, _) => Rty::Mutable,
    }
}

/// Join over the elements of a list.
pub fn ro_expr_list(context: &Context, exprs: &Vec<Expr>) -> (r: Rty)
    ensures
        r == flag_rty(any_readonly(exprs_view(exprs@), context@)),
    decreases exprs,
{
    let n = exprs.len();
    let mut i: usize = 0;
    while i < n
        invariant
            i <= n,
            n == exprs.len(),
            forall|j: int|
                0 <= j < i ==> classify(#[trigger] exprs_view(exprs@)[j], context@)
                    != Rty::Readonly,
        decreases n - i,
    {
        assert(exprs_view(exprs@)[i as int] == exprs[i as int]@);
        if rty_expr(context, &exprs[i]) == Rty::Readonly {
            return Rty::Readonly;
        }
        i += 1;
    }
    Rty::Mutable
}

/// Join over the values of a list of keyed entries.
pub fn ro_expr_list2(context: &Context, exprs: &Vec<Field>) -> (r: Rty)
    ensures
        r == flag_rty(any_readonly_value(fields_view(exprs@), context@)),
    decreases exprs,
{
    let n = exprs.len();
    let mut i: usize = 0;
    while i < n
        invariant
            i <= n,
            n == exprs.len(),
            forall|j: int|
                0 <= j < i ==> classify((#[trigger] fields_view(exprs@)[j]).value, context@)
                    != Rty::Readonly,
        decreases n - i,
    {
        assert(fields_view(exprs@)[i as int].value == exprs[i as int].value@);
        if rty_expr(context, &exprs[i].value) == Rty::Readonly {
            return Rty::Readonly;
        }
        i += 1;
    }
    Rty::Mutable
}

/// Join over the values of the entries of a collection literal.
pub fn ro_afield_list(context: &Context, fields: &Vec<Afield>) -> (r: Rty)
    ensures
        r == flag_rty(any_readonly_entry(afields_view(fields@), context@)),
    decreases fields,
{
    let n = fields.len();
    let mut i: usize = 0;
    while i < n
        invariant
            i <= n,
            n == fields.len(),
            forall|j: int|
                0 <= j < i ==> classify(
                    afield_value(#[trigger] afields_view(fields@)[j]),
                    context@,
                ) != Rty::Readonly,
        decreases n - i,
    {
        let r = match &fields[i] {
            Afield::Value(e) => rty_expr(context, e),
            Afield::KeyValue(_, e) => rty_expr(context, e),
        };
        assert(r == classify(afield_value(afields_view(fields@)[i as int]), context@));
        if r == Rty::Readonly {
            return Rty::Readonly;
        }
        i += 1;
    }
    Rty::Mutable
}

/// Whether a local's name is that of the receiver.
pub fn is_this(var_name: &str) -> (r: bool)
    ensures
        r == (var_name@ == this_name()),
{
    let this = String::from_str("$this");
    let name = String::from_str(var_name);
    name == this
}

/// Classifies an expression in the scope of `context`.
pub fn rty_expr(context: &Context, expr: &Expr) -> (r: Rty)
    ensures
        r == classify(expr@, context@),
    decreases expr,
{
    proof {
        lemma_expr_view(*expr);
    }
    match &expr.kind {
        ExprKind::ReadonlyExpr(_) => Rty::Readonly,
        ExprKind::ObjGet(obj, _) => rty_expr(context, obj),
        ExprKind::Lvar(var_name) => {
            if is_this(var_name.as_str()) {
                context.this_ty()
            } else {
                if context.is_readonly(var_name.as_str()) {
                    Rty::Readonly
                } else {
                    Rty::Mutable
                }
            }
        },
        ExprKind::FieldList(_, fields) => ro_expr_list2(context, fields),
        ExprKind::ExprList(kind, exprs) => match kind {
            ListKind::Varray | ListKind::ValCollection | ListKind::Tuple => ro_expr_list(
                context,
                exprs,
            ),
            // A destructuring target, an interpolated string and an XHP
            // element have no mutability of their own.
            ListKind::List | ListKind::String2 | ListKind::Xml(_) => Rty::Mutable,
        },
        ExprKind::Collection(_, fields) => ro_afield_list(context, fields),
        ExprKind::Efun(_) | ExprKind::Lfun(_) => Rty::Mutable,
        ExprKind::Unary(kind, inner) => match kind {
            // The mutability of the inner expression.
            UnaryKind::Callconv | UnaryKind::As(_) | UnaryKind::Hole | UnaryKind::Await => {
                rty_expr(context, inner)
            },
            // A boolean test is always mutable.
            UnaryKind::Is(_) => Rty::Mutable,
            // Casts are only valid on primitive types.
            UnaryKind::Cast(_) => Rty::Mutable,
            // Operators are all primitive in result.
            UnaryKind::Unop(_) => Rty::Mutable,
            UnaryKind::Clone => Rty::Mutable,
            UnaryKind::PrefixedString(_) => Rty::Mutable,
            UnaryKind::ExpressionTree(_) | UnaryKind::ETSplice => Rty::Mutable,
            UnaryKind::Import => Rty::Mutable,
            // A function value.
            UnaryKind::MethodId(_) => Rty::Mutable,
        },
        ExprKind::Eif(_, then, otherwise) => {
            // `c ? a : b` is readonly if either `a` or `b` is.
            assert(opt_expr_view(*then) == expr@.kind->Eif_1);
            match then {
                Some(then) => {
                    let a = rty_expr(context, then);
                    let b = rty_expr(context, otherwise);
                    rty_join(a, b)
                },
                None => rty_expr(context, otherwise),
            }
        },
        ExprKind::Pair(a, b) => {
            let ra = rty_expr(context, a);
            let rb = rty_expr(context, b);
            rty_join(ra, rb)
        },
        ExprKind::This => context.this_ty(),
        ExprKind::ArrayGet(base, _) => rty_expr(context, base),
        // Literals, names and function values.
        ExprKind::Leaf(_) => Rty::Mutable,
        // Mutable unless wrapped in a readonly expression.
        ExprKind::Call(_, _, _) | ExprKind::New(_, _, _) => Rty::Mutable,
        // Really a statement: it has no value.
        ExprKind::Yield(_) => Rty::Mutable,
        // Operators are all primitive in result.
        ExprKind::Binop(_, _, _) => Rty::Mutable,
        ExprKind::Pipe(_, _) => Rty::Mutable,
    }
}

} // verus!
