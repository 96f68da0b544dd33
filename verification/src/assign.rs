//! Making readonly status explicit, and validating assignments.

use vstd::prelude::*;
use crate::ast::{Expr, ExprKind, Pos};
use crate::classify::rty_expr;
use crate::context::Context;
use crate::diagnostics::{
    assignment_to_readonly, redefined_assignment_different_mutability, Checker, ErrorKind,
};
use crate::lattice::Rty;
use crate::view::{lemma_expr_view, opt_expr_view};
use crate::walk::{
    assignment_context, assignment_errors, assignment_target, assignment_value, explicit,
};

verus! {

/// Wraps the expression in an explicit marker if it classifies readonly and
/// is not a marker already.
pub fn explicit_readonly(context: &Context, expr: &mut Expr)
    ensures
        final(expr)@ == explicit(old(expr)@, context@),
{
    proof {
        lemma_expr_view(*expr);
    }
    let is_marker = match &expr.kind {
        ExprKind::ReadonlyExpr(_) => true,
        _ => false,
    };
    match (rty_expr(context, expr), is_marker) {
        (Rty::Readonly, true) => {},
        (Rty::Mutable, _) => {},
        (Rty::Readonly, false) => {
            let mut inner = Expr { pos: expr.pos, kind: ExprKind::This };
            std::mem::swap(expr, &mut inner);
            expr.kind = ExprKind::ReadonlyExpr(Box::new(inner));
            proof {
                lemma_expr_view(*expr);
            }
        },
    }
}

/// Validates the assignment `lhs = rhs` found at `pos`.
///
/// A local takes the mutability of its first value and must keep it. A
/// property of a readonly object must not be written. An index write is
/// always allowed, but its base is made explicit. For a property or index
/// write the value is made explicit too. Other targets are left alone.
pub fn check_assignment_validity(
    context: &mut Context,
    checker: &mut Checker,
    pos: &Pos,
    lhs: &mut Expr,
    rhs: &mut Expr,
)
    ensures
        final(context)@ == assignment_context(old(lhs)@, old(rhs)@, old(context)@),
        final(checker)@ == assignment_errors(
            old(checker)@,
            *pos,
            old(lhs)@,
            old(rhs)@,
            old(context)@,
        ),
        final(lhs)@ == assignment_target(old(lhs)@, old(context)@),
        final(rhs)@ == assignment_value(old(lhs)@, old(rhs)@, old(context)@),
{
    proof {
        lemma_expr_view(*lhs);
    }
    let writes_readonly_object = match &lhs.kind {
        ExprKind::ObjGet(_, _) => rty_expr(context, lhs) == Rty::Readonly,
        _ => false,
    };
    match &mut lhs.kind {
        ExprKind::Lvar(id_orig) => {
            let is_readonly = Rty::Readonly == rty_expr(context, rhs);
            if context.is_new_local(id_orig) {
                context.add_local(id_orig, is_readonly);
            } else if context.is_readonly(id_orig.as_str()) != is_readonly {
                checker.add_error(
                    pos,
                    ErrorKind::MutabilityMismatch,
                    redefined_assignment_different_mutability(id_orig.as_str()),
                );
            }
        },
        ExprKind::ObjGet(_, _) => {
            if writes_readonly_object {
                checker.add_error(
                    pos,
                    ErrorKind::ReadonlyAssignmentViolation,
                    assignment_to_readonly(),
                );
            }
            // Make the readonly value explicit here.
            explicit_readonly(context, rhs);
        },
        ExprKind::ArrayGet(array, index) => {
            // Writing through a readonly base is legal only for value types,
            // so later phases must see that the base is readonly.
            explicit_readonly(context, array);
            // And that no readonly value is written to a mutable place.
            explicit_readonly(context, rhs);
            assert(opt_expr_view(*index) == old(lhs)@.kind->ArrayGet_1);
        },
        _ => {},
    }
    proof {
        lemma_expr_view(*lhs);
    }
}

} // verus!
