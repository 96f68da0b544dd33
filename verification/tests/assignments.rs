use readonly_check::assign::{check_assignment_validity, explicit_readonly};
use readonly_check::ast::{Expr, ExprKind, Leaf, ListKind, Pos};
use readonly_check::context::Context;
use readonly_check::diagnostics::{
    assignment_to_readonly, invalid_readonly, redefined_assignment_different_mutability, Checker,
    Diagnostic, ErrorKind,
};
use readonly_check::lattice::Rty;

fn at(n: usize, kind: ExprKind) -> Expr {
    Expr { pos: Pos { start: n, end: n + 1 }, kind }
}

fn num(n: usize) -> Expr {
    at(n, ExprKind::Leaf(Leaf::Int(n.to_string())))
}

fn lvar(name: &str) -> Expr {
    at(40, ExprKind::Lvar(name.to_string()))
}

fn readonly(e: Expr) -> Expr {
    let pos = e.pos;
    Expr { pos, kind: ExprKind::ReadonlyExpr(Box::new(e)) }
}

fn prop(obj: Expr) -> Expr {
    at(50, ExprKind::ObjGet(Box::new(obj), Box::new(at(51, ExprKind::Leaf(Leaf::Id("p".to_string()))))))
}

fn index(base: Expr, i: Option<Expr>) -> Expr {
    at(60, ExprKind::ArrayGet(Box::new(base), i.map(Box::new)))
}

fn scope_with(readonly_locals: &[&str], mutable_locals: &[&str]) -> Context {
    let mut ctx = Context::new(Rty::Mutable, Rty::Mutable);
    for n in readonly_locals {
        ctx.add_local(&n.to_string(), true);
    }
    for n in mutable_locals {
        ctx.add_local(&n.to_string(), false);
    }
    ctx
}

const POS: Pos = Pos { start: 10, end: 20 };

#[test]
fn messages_have_their_exact_text() {
    assert_eq!(
        redefined_assignment_different_mutability("$x"),
        "$x is redefined with a different mutability than its first assignment"
    );
    assert_eq!(assignment_to_readonly(), "This expression is readonly, its members cannot be modified");
    assert_eq!(
        invalid_readonly("readonly", "mutable", "of this"),
        "This expression is readonly, but we expected a type that is mutable because of this"
    );
}

#[test]
fn add_error_appends_at_the_position() {
    let mut checker = Checker::new();
    assert!(checker.errors.is_empty());
    checker.add_error(&POS, ErrorKind::MutabilityMismatch, "first".to_string());
    checker.add_error(&Pos { start: 1, end: 2 }, ErrorKind::ReadonlyAssignmentViolation, "second".to_string());
    assert_eq!(
        checker.errors,
        vec![
            Diagnostic { start_offset: 10, end_offset: 20, kind: ErrorKind::MutabilityMismatch, message: "first".to_string() },
            Diagnostic { start_offset: 1, end_offset: 2, kind: ErrorKind::ReadonlyAssignmentViolation, message: "second".to_string() },
        ]
    );
}

#[test]
fn same_diagnostic_twice_is_kept_twice() {
    let mut checker = Checker::new();
    checker.add_error(&POS, ErrorKind::MutabilityMismatch, "m".to_string());
    checker.add_error(&POS, ErrorKind::MutabilityMismatch, "m".to_string());
    assert_eq!(checker.errors.len(), 2);
    assert_eq!(checker.errors[0], checker.errors[1]);
}

#[test]
fn subtype_rejects_readonly_into_mutable_only() {
    let mut checker = Checker::new();
    checker.subtype(&POS, &Rty::Mutable, &Rty::Mutable, "r");
    checker.subtype(&POS, &Rty::Mutable, &Rty::Readonly, "r");
    checker.subtype(&POS, &Rty::Readonly, &Rty::Readonly, "r");
    assert!(checker.errors.is_empty());
    checker.subtype(&POS, &Rty::Readonly, &Rty::Mutable, "r");
    assert_eq!(
        checker.errors,
        vec![Diagnostic {
            start_offset: 10,
            end_offset: 20,
            kind: ErrorKind::ReturnMutabilityViolation,
            message: "This expression is readonly, but we expected a type that is mutable because r".to_string(),
        }]
    );
}

#[test]
fn explicit_readonly_wraps_a_readonly_expression() {
    let ctx = scope_with(&["$r"], &[]);
    let mut e = lvar("$r");
    explicit_readonly(&ctx, &mut e);
    assert_eq!(e, readonly(lvar("$r")));
    assert_eq!(e.pos, lvar("$r").pos);
}

#[test]
fn explicit_readonly_leaves_a_mutable_expression() {
    let ctx = scope_with(&["$r"], &["$m"]);
    let mut e = lvar("$m");
    explicit_readonly(&ctx, &mut e);
    assert_eq!(e, lvar("$m"));
    let mut e = num(3);
    explicit_readonly(&ctx, &mut e);
    assert_eq!(e, num(3));
}

#[test]
fn explicit_readonly_does_not_wrap_twice() {
    let ctx = scope_with(&["$r"], &[]);
    let mut e = readonly(lvar("$r"));
    explicit_readonly(&ctx, &mut e);
    assert_eq!(e, readonly(lvar("$r")));
    let mut e = lvar("$r");
    explicit_readonly(&ctx, &mut e);
    explicit_readonly(&ctx, &mut e);
    assert_eq!(e, readonly(lvar("$r")));
}

#[test]
fn explicit_readonly_wraps_a_composite_as_a_whole() {
    let ctx = scope_with(&["$r"], &[]);
    let tuple = || at(5, ExprKind::ExprList(ListKind::Tuple, vec![num(1), lvar("$r")]));
    let mut e = tuple();
    explicit_readonly(&ctx, &mut e);
    assert_eq!(e, readonly(tuple()));
}

#[test]
fn first_write_binds_the_local() {
    let mut ctx = scope_with(&[], &[]);
    let mut checker = Checker::new();
    let (mut lhs, mut rhs) = (lvar("$x"), readonly(num(1)));
    check_assignment_validity(&mut ctx, &mut checker, &POS, &mut lhs, &mut rhs);
    assert!(checker.errors.is_empty());
    assert!(ctx.is_readonly("$x"));
    assert!(!ctx.is_new_local(&"$x".to_string()));
    assert_eq!(lhs, lvar("$x"));
    assert_eq!(rhs, readonly(num(1)));

    let (mut lhs, mut rhs) = (lvar("$y"), num(1));
    check_assignment_validity(&mut ctx, &mut checker, &POS, &mut lhs, &mut rhs);
    assert!(checker.errors.is_empty());
    assert!(!ctx.is_readonly("$y"));
    assert!(!ctx.is_new_local(&"$y".to_string()));
}

#[test]
fn readonly_then_mutable_is_one_mismatch() {
    let mut ctx = scope_with(&[], &[]);
    let mut checker = Checker::new();
    let (mut lhs, mut rhs) = (lvar("$x"), readonly(num(1)));
    check_assignment_validity(&mut ctx, &mut checker, &Pos { start: 0, end: 5 }, &mut lhs, &mut rhs);
    let (mut lhs, mut rhs) = (lvar("$x"), num(2));
    check_assignment_validity(&mut ctx, &mut checker, &POS, &mut lhs, &mut rhs);
    assert_eq!(
        checker.errors,
        vec![Diagnostic {
            start_offset: 10,
            end_offset: 20,
            kind: ErrorKind::MutabilityMismatch,
            message: "$x is redefined with a different mutability than its first assignment".to_string(),
        }]
    );
    // The binding is not replaced.
    assert!(ctx.is_readonly("$x"));
    assert_eq!(rhs, num(2));
}

#[test]
fn mutable_then_readonly_is_one_mismatch() {
    let mut ctx = scope_with(&[], &[]);
    let mut checker = Checker::new();
    let (mut lhs, mut rhs) = (lvar("$x"), num(1));
    check_assignment_validity(&mut ctx, &mut checker, &Pos { start: 0, end: 5 }, &mut lhs, &mut rhs);
    let (mut lhs, mut rhs) = (lvar("$x"), readonly(num(2)));
    check_assignment_validity(&mut ctx, &mut checker, &POS, &mut lhs, &mut rhs);
    assert_eq!(checker.errors.len(), 1);
    assert_eq!(checker.errors[0].kind, ErrorKind::MutabilityMismatch);
    assert_eq!((checker.errors[0].start_offset, checker.errors[0].end_offset), (10, 20));
    assert!(!ctx.is_readonly("$x"));
}

#[test]
fn every_later_mismatch_is_reported() {
    let mut ctx = scope_with(&["$x"], &[]);
    let mut checker = Checker::new();
    for _ in 0..3 {
        let (mut lhs, mut rhs) = (lvar("$x"), num(2));
        check_assignment_validity(&mut ctx, &mut checker, &POS, &mut lhs, &mut rhs);
    }
    assert_eq!(checker.errors.len(), 3);
    assert!(ctx.is_readonly("$x"));
}

#[test]
fn matching_reassignment_is_silent() {
    let mut ctx = scope_with(&["$r"], &["$m"]);
    let mut checker = Checker::new();
    let (mut lhs, mut rhs) = (lvar("$r"), readonly(num(1)));
    check_assignment_validity(&mut ctx, &mut checker, &POS, &mut lhs, &mut rhs);
    let (mut lhs, mut rhs) = (lvar("$m"), num(1));
    check_assignment_validity(&mut ctx, &mut checker, &POS, &mut lhs, &mut rhs);
    assert!(checker.errors.is_empty());
    assert!(ctx.is_readonly("$r"));
    assert!(!ctx.is_readonly("$m"));
}

#[test]
fn local_assigned_from_a_readonly_local_is_readonly() {
    let mut ctx = scope_with(&["$r"], &[]);
    let mut checker = Checker::new();
    let (mut lhs, mut rhs) = (lvar("$x"), lvar("$r"));
    check_assignment_validity(&mut ctx, &mut checker, &POS, &mut lhs, &mut rhs);
    assert!(ctx.is_readonly("$x"));
    // The value of a local assignment is not rewritten.
    assert_eq!(rhs, lvar("$r"));
}

#[test]
fn property_write_through_a_readonly_object_is_a_violation() {
    let mut ctx = scope_with(&["$obj"], &[]);
    let mut checker = Checker::new();
    let (mut lhs, mut rhs) = (prop(lvar("$obj")), num(1));
    check_assignment_validity(&mut ctx, &mut checker, &POS, &mut lhs, &mut rhs);
    assert_eq!(
        checker.errors,
        vec![Diagnostic {
            start_offset: 10,
            end_offset: 20,
            kind: ErrorKind::ReadonlyAssignmentViolation,
            message: "This expression is readonly, its members cannot be modified".to_string(),
        }]
    );
    assert_eq!(lhs, prop(lvar("$obj")));
    assert_eq!(rhs, num(1));
}

#[test]
fn property_write_through_a_mutable_object_is_fine() {
    let mut ctx = scope_with(&[], &["$obj"]);
    let mut checker = Checker::new();
    let (mut lhs, mut rhs) = (prop(lvar("$obj")), num(1));
    check_assignment_validity(&mut ctx, &mut checker, &POS, &mut lhs, &mut rhs);
    assert!(checker.errors.is_empty());
    assert_eq!(lhs, prop(lvar("$obj")));
    assert_eq!(rhs, num(1));
}

#[test]
fn property_write_makes_a_readonly_value_explicit() {
    let mut ctx = scope_with(&["$r"], &["$obj"]);
    let mut checker = Checker::new();
    let (mut lhs, mut rhs) = (prop(lvar("$obj")), lvar("$r"));
    check_assignment_validity(&mut ctx, &mut checker, &POS, &mut lhs, &mut rhs);
    assert!(checker.errors.is_empty());
    assert_eq!(rhs, readonly(lvar("$r")));
}

#[test]
fn property_write_makes_the_value_explicit_even_after_an_error() {
    let mut ctx = scope_with(&["$r", "$obj"], &[]);
    let mut checker = Checker::new();
    let (mut lhs, mut rhs) = (prop(lvar("$obj")), lvar("$r"));
    check_assignment_validity(&mut ctx, &mut checker, &POS, &mut lhs, &mut rhs);
    assert_eq!(checker.errors.len(), 1);
    assert_eq!(rhs, readonly(lvar("$r")));
    // The object of a property write is never wrapped.
    assert_eq!(lhs, prop(lvar("$obj")));
}

#[test]
fn index_write_never_reports() {
    for (ro, rw) in [(vec!["$a"], vec![]), (vec![], vec!["$a"])] {
        let mut ctx = scope_with(&ro, &rw);
        let mut checker = Checker::new();
        let (mut lhs, mut rhs) = (index(lvar("$a"), Some(num(0))), num(1));
        check_assignment_validity(&mut ctx, &mut checker, &POS, &mut lhs, &mut rhs);
        assert!(checker.errors.is_empty());
    }
}

#[test]
fn index_write_makes_a_readonly_base_explicit() {
    let mut ctx = scope_with(&["$a"], &[]);
    let mut checker = Checker::new();
    let (mut lhs, mut rhs) = (index(lvar("$a"), Some(num(0))), num(1));
    check_assignment_validity(&mut ctx, &mut checker, &POS, &mut lhs, &mut rhs);
    assert_eq!(lhs, index(readonly(lvar("$a")), Some(num(0))));
    assert_eq!(rhs, num(1));
}

#[test]
fn index_write_makes_a_readonly_value_explicit() {
    let mut ctx = scope_with(&["$r"], &["$a"]);
    let mut checker = Checker::new();
    let (mut lhs, mut rhs) = (index(lvar("$a"), None), lvar("$r"));
    check_assignment_validity(&mut ctx, &mut checker, &POS, &mut lhs, &mut rhs);
    assert_eq!(lhs, index(lvar("$a"), None));
    assert_eq!(rhs, readonly(lvar("$r")));
}

#[test]
fn index_write_makes_both_sides_explicit() {
    let mut ctx = scope_with(&["$a", "$r"], &[]);
    let mut checker = Checker::new();
    let (mut lhs, mut rhs) = (index(lvar("$a"), Some(lvar("$r"))), lvar("$r"));
    check_assignment_validity(&mut ctx, &mut checker, &POS, &mut lhs, &mut rhs);
    assert!(checker.errors.is_empty());
    // The index itself is left alone.
    assert_eq!(lhs, index(readonly(lvar("$a")), Some(lvar("$r"))));
    assert_eq!(rhs, readonly(lvar("$r")));
}

#[test]
fn index_write_leaves_mutable_sides_alone() {
    let mut ctx = scope_with(&[], &["$a"]);
    let mut checker = Checker::new();
    let (mut lhs, mut rhs) = (index(lvar("$a"), Some(num(0))), num(1));
    check_assignment_validity(&mut ctx, &mut checker, &POS, &mut lhs, &mut rhs);
    assert_eq!(lhs, index(lvar("$a"), Some(num(0))));
    assert_eq!(rhs, num(1));
}

#[test]
fn other_targets_are_not_validated() {
    let mut ctx = scope_with(&["$r"], &[]);
    let mut checker = Checker::new();
    let target = || at(70, ExprKind::ExprList(ListKind::List, vec![lvar("$a"), lvar("$b")]));
    let (mut lhs, mut rhs) = (target(), lvar("$r"));
    check_assignment_validity(&mut ctx, &mut checker, &POS, &mut lhs, &mut rhs);
    assert!(checker.errors.is_empty());
    assert_eq!(lhs, target());
    assert_eq!(rhs, lvar("$r"));
    assert!(ctx.is_new_local(&"$a".to_string()));
    assert!(ctx.is_new_local(&"$b".to_string()));
}
