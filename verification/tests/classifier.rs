use readonly_check::ast::{
    Afield, Bop, Expr, ExprKind, Field, FieldsKind, Leaf, ListKind, Pos, UnaryKind, Uop,
};
use readonly_check::classify::{is_this, ro_afield_list, ro_expr_list, ro_expr_list2, rty_expr};
use readonly_check::context::Context;
use readonly_check::lattice::{ro_kind_to_rty, rty_join, rty_of_flag, ReadonlyKind, Rty};

fn at(n: usize, kind: ExprKind) -> Expr {
    Expr { pos: Pos { start: n, end: n + 1 }, kind }
}

fn num(n: usize) -> Expr {
    at(n, ExprKind::Leaf(Leaf::Int(n.to_string())))
}

fn lvar(name: &str) -> Expr {
    at(0, ExprKind::Lvar(name.to_string()))
}

fn readonly(e: Expr) -> Expr {
    at(7, ExprKind::ReadonlyExpr(Box::new(e)))
}

fn call(name: &str, args: Vec<Expr>) -> Expr {
    at(3, ExprKind::Call(Box::new(at(3, ExprKind::Leaf(Leaf::Id(name.to_string())))), args, None))
}

fn mutable_scope() -> Context {
    Context::new(Rty::Mutable, Rty::Mutable)
}

#[test]
fn annotation_present_is_readonly() {
    assert_eq!(ro_kind_to_rty(Some(ReadonlyKind::Readonly)), Rty::Readonly);
}

#[test]
fn annotation_absent_is_mutable() {
    assert_eq!(ro_kind_to_rty(None), Rty::Mutable);
}

#[test]
fn flag_gives_classification() {
    assert_eq!(rty_of_flag(true), Rty::Readonly);
    assert_eq!(rty_of_flag(false), Rty::Mutable);
}

#[test]
fn join_is_readonly_as_soon_as_one_side_is() {
    assert_eq!(rty_join(Rty::Mutable, Rty::Mutable), Rty::Mutable);
    assert_eq!(rty_join(Rty::Mutable, Rty::Readonly), Rty::Readonly);
    assert_eq!(rty_join(Rty::Readonly, Rty::Mutable), Rty::Readonly);
    assert_eq!(rty_join(Rty::Readonly, Rty::Readonly), Rty::Readonly);
}

#[test]
fn this_is_recognised_by_name() {
    assert!(is_this("$this"));
    assert!(!is_this("$that"));
    assert!(!is_this("this"));
    assert!(!is_this(""));
}

#[test]
fn literals_are_mutable() {
    let ctx = mutable_scope();
    assert_eq!(rty_expr(&ctx, &num(1)), Rty::Mutable);
    assert_eq!(rty_expr(&ctx, &at(0, ExprKind::Leaf(Leaf::Null))), Rty::Mutable);
    assert_eq!(rty_expr(&ctx, &at(0, ExprKind::Leaf(Leaf::Str("s".to_string())))), Rty::Mutable);
    assert_eq!(
        rty_expr(&ctx, &at(0, ExprKind::Leaf(Leaf::ClassConst("C".to_string(), "K".to_string())))),
        Rty::Mutable
    );
}

#[test]
fn explicit_marker_is_readonly() {
    let ctx = mutable_scope();
    assert_eq!(rty_expr(&ctx, &readonly(num(1))), Rty::Readonly);
}

#[test]
fn unwritten_local_is_mutable() {
    let ctx = mutable_scope();
    assert_eq!(rty_expr(&ctx, &lvar("$x")), Rty::Mutable);
}

#[test]
fn local_has_the_mutability_of_its_binding() {
    let mut ctx = mutable_scope();
    ctx.add_local(&"$r".to_string(), true);
    ctx.add_local(&"$m".to_string(), false);
    assert_eq!(rty_expr(&ctx, &lvar("$r")), Rty::Readonly);
    assert_eq!(rty_expr(&ctx, &lvar("$m")), Rty::Mutable);
}

#[test]
fn this_takes_the_mutability_of_the_scope() {
    let ro = Context::new(Rty::Mutable, Rty::Readonly);
    let rw = Context::new(Rty::Readonly, Rty::Mutable);
    assert_eq!(rty_expr(&ro, &lvar("$this")), Rty::Readonly);
    assert_eq!(rty_expr(&rw, &lvar("$this")), Rty::Mutable);
    assert_eq!(rty_expr(&ro, &at(0, ExprKind::This)), Rty::Readonly);
    assert_eq!(rty_expr(&rw, &at(0, ExprKind::This)), Rty::Mutable);
}

#[test]
fn this_ignores_a_local_binding_of_the_same_name() {
    let mut ctx = Context::new(Rty::Mutable, Rty::Mutable);
    ctx.add_local(&"$this".to_string(), true);
    assert_eq!(rty_expr(&ctx, &lvar("$this")), Rty::Mutable);
}

#[test]
fn member_access_defers_to_the_object() {
    let mut ctx = mutable_scope();
    ctx.add_local(&"$r".to_string(), true);
    let get = |obj: Expr| at(1, ExprKind::ObjGet(Box::new(obj), Box::new(at(1, ExprKind::Leaf(Leaf::Id("p".to_string()))))));
    assert_eq!(rty_expr(&ctx, &get(lvar("$r"))), Rty::Readonly);
    assert_eq!(rty_expr(&ctx, &get(lvar("$m"))), Rty::Mutable);
    // The member itself does not count.
    let odd = at(1, ExprKind::ObjGet(Box::new(lvar("$m")), Box::new(readonly(num(1)))));
    assert_eq!(rty_expr(&ctx, &odd), Rty::Mutable);
    // Nested access goes down to the innermost object.
    assert_eq!(rty_expr(&ctx, &get(get(lvar("$r")))), Rty::Readonly);
}

#[test]
fn index_access_defers_to_the_base() {
    let mut ctx = mutable_scope();
    ctx.add_local(&"$r".to_string(), true);
    let r = at(1, ExprKind::ArrayGet(Box::new(lvar("$r")), Some(Box::new(num(0)))));
    let m = at(1, ExprKind::ArrayGet(Box::new(lvar("$m")), Some(Box::new(readonly(num(0))))));
    let append = at(1, ExprKind::ArrayGet(Box::new(lvar("$r")), None));
    assert_eq!(rty_expr(&ctx, &r), Rty::Readonly);
    assert_eq!(rty_expr(&ctx, &m), Rty::Mutable);
    assert_eq!(rty_expr(&ctx, &append), Rty::Readonly);
}

#[test]
fn collection_with_one_readonly_element_is_readonly() {
    let ctx = mutable_scope();
    let elems = vec![num(1), num(2), readonly(num(3))];
    assert_eq!(ro_expr_list(&ctx, &elems), Rty::Readonly);
    let lit = at(0, ExprKind::ExprList(ListKind::ValCollection, vec![num(1), num(2), readonly(num(3))]));
    assert_eq!(rty_expr(&ctx, &lit), Rty::Readonly);
}

#[test]
fn collection_of_mutable_elements_is_mutable() {
    let ctx = mutable_scope();
    let elems = vec![num(1), num(2)];
    assert_eq!(ro_expr_list(&ctx, &elems), Rty::Mutable);
    let lit = at(0, ExprKind::ExprList(ListKind::ValCollection, vec![num(1), num(2)]));
    assert_eq!(rty_expr(&ctx, &lit), Rty::Mutable);
}

#[test]
fn empty_composites_are_mutable() {
    let ctx = mutable_scope();
    assert_eq!(ro_expr_list(&ctx, &vec![]), Rty::Mutable);
    assert_eq!(ro_expr_list2(&ctx, &vec![]), Rty::Mutable);
    assert_eq!(ro_afield_list(&ctx, &vec![]), Rty::Mutable);
}

#[test]
fn every_composite_list_kind_joins() {
    let ctx = mutable_scope();
    for kind in [ListKind::Varray, ListKind::ValCollection, ListKind::Tuple] {
        let lit = at(0, ExprKind::ExprList(kind, vec![readonly(num(1)), num(2)]));
        assert_eq!(rty_expr(&ctx, &lit), Rty::Readonly);
    }
}

#[test]
fn lists_that_are_no_values_are_mutable() {
    let ctx = mutable_scope();
    for kind in [ListKind::List, ListKind::String2, ListKind::Xml("a".to_string())] {
        let lit = at(0, ExprKind::ExprList(kind, vec![readonly(num(1))]));
        assert_eq!(rty_expr(&ctx, &lit), Rty::Mutable);
    }
}

#[test]
fn keyed_literals_join_over_values_only() {
    let ctx = mutable_scope();
    let ro_value = vec![Field { key: num(1), value: num(2) }, Field { key: num(3), value: readonly(num(4)) }];
    let ro_key = vec![Field { key: readonly(num(1)), value: num(2) }];
    assert_eq!(ro_expr_list2(&ctx, &ro_value), Rty::Readonly);
    assert_eq!(ro_expr_list2(&ctx, &ro_key), Rty::Mutable);
    for kind in [FieldsKind::Darray, FieldsKind::Shape, FieldsKind::KeyValCollection, FieldsKind::Record("R".to_string())] {
        let lit = at(0, ExprKind::FieldList(kind, vec![Field { key: num(1), value: readonly(num(2)) }]));
        assert_eq!(rty_expr(&ctx, &lit), Rty::Readonly);
    }
    let lit = at(0, ExprKind::FieldList(FieldsKind::Darray, vec![Field { key: readonly(num(1)), value: num(2) }]));
    assert_eq!(rty_expr(&ctx, &lit), Rty::Mutable);
}

#[test]
fn collection_entries_join_over_values_only() {
    let ctx = mutable_scope();
    let plain = vec![Afield::Value(num(1)), Afield::KeyValue(num(2), num(3))];
    let ro_value = vec![Afield::Value(num(1)), Afield::KeyValue(num(2), readonly(num(3)))];
    let ro_key = vec![Afield::KeyValue(readonly(num(2)), num(3))];
    let ro_single = vec![Afield::Value(readonly(num(1)))];
    assert_eq!(ro_afield_list(&ctx, &plain), Rty::Mutable);
    assert_eq!(ro_afield_list(&ctx, &ro_value), Rty::Readonly);
    assert_eq!(ro_afield_list(&ctx, &ro_key), Rty::Mutable);
    assert_eq!(ro_afield_list(&ctx, &ro_single), Rty::Readonly);
    let lit = at(0, ExprKind::Collection("Vector".to_string(), vec![Afield::Value(readonly(num(1)))]));
    assert_eq!(rty_expr(&ctx, &lit), Rty::Readonly);
}

#[test]
fn ternary_with_a_readonly_branch_is_readonly() {
    let ctx = mutable_scope();
    let eif = |t: Option<Expr>, e: Expr| at(0, ExprKind::Eif(Box::new(num(0)), t.map(Box::new), Box::new(e)));
    assert_eq!(rty_expr(&ctx, &eif(Some(readonly(num(1))), num(2))), Rty::Readonly);
    assert_eq!(rty_expr(&ctx, &eif(Some(num(1)), readonly(num(2)))), Rty::Readonly);
    assert_eq!(rty_expr(&ctx, &eif(Some(num(1)), num(2))), Rty::Mutable);
    // The condition does not count.
    let cond = at(0, ExprKind::Eif(Box::new(readonly(num(0))), Some(Box::new(num(1))), Box::new(num(2))));
    assert_eq!(rty_expr(&ctx, &cond), Rty::Mutable);
}

#[test]
fn short_ternary_takes_the_last_branch() {
    let ctx = mutable_scope();
    let ro = at(0, ExprKind::Eif(Box::new(num(0)), None, Box::new(readonly(num(2)))));
    let rw = at(0, ExprKind::Eif(Box::new(readonly(num(0))), None, Box::new(num(2))));
    assert_eq!(rty_expr(&ctx, &ro), Rty::Readonly);
    assert_eq!(rty_expr(&ctx, &rw), Rty::Mutable);
}

#[test]
fn pair_joins_its_components() {
    let ctx = mutable_scope();
    let pair = |a: Expr, b: Expr| at(0, ExprKind::Pair(Box::new(a), Box::new(b)));
    assert_eq!(rty_expr(&ctx, &pair(readonly(num(1)), num(2))), Rty::Readonly);
    assert_eq!(rty_expr(&ctx, &pair(num(1), readonly(num(2)))), Rty::Readonly);
    assert_eq!(rty_expr(&ctx, &pair(num(1), num(2))), Rty::Mutable);
}

#[test]
fn transparent_wrappers_defer_to_what_they_wrap() {
    let ctx = mutable_scope();
    for kind in [UnaryKind::Await, UnaryKind::As("T".to_string()), UnaryKind::Hole, UnaryKind::Callconv] {
        let e = at(0, ExprKind::Unary(kind, Box::new(readonly(num(1)))));
        assert_eq!(rty_expr(&ctx, &e), Rty::Readonly);
    }
    for kind in [UnaryKind::Await, UnaryKind::As("T".to_string()), UnaryKind::Hole, UnaryKind::Callconv] {
        let e = at(0, ExprKind::Unary(kind, Box::new(num(1))));
        assert_eq!(rty_expr(&ctx, &e), Rty::Mutable);
    }
}

#[test]
fn other_unary_nodes_are_mutable() {
    let ctx = mutable_scope();
    let kinds = [
        UnaryKind::Clone,
        UnaryKind::Import,
        UnaryKind::ETSplice,
        UnaryKind::Cast("int".to_string()),
        UnaryKind::Unop(Uop::Unot),
        UnaryKind::Is("T".to_string()),
        UnaryKind::PrefixedString("re".to_string()),
        UnaryKind::ExpressionTree("Code".to_string()),
        UnaryKind::MethodId("m".to_string()),
    ];
    for kind in kinds {
        let e = at(0, ExprKind::Unary(kind, Box::new(readonly(num(1)))));
        assert_eq!(rty_expr(&ctx, &e), Rty::Mutable);
    }
}

#[test]
fn calls_and_operators_are_mutable_whatever_they_hold() {
    let ctx = mutable_scope();
    assert_eq!(rty_expr(&ctx, &call("f", vec![readonly(num(1))])), Rty::Mutable);
    let new = at(0, ExprKind::New("C".to_string(), vec![readonly(num(1))], None));
    assert_eq!(rty_expr(&ctx, &new), Rty::Mutable);
    let binop = at(0, ExprKind::Binop(Bop::Plus, Box::new(readonly(num(1))), Box::new(readonly(num(2)))));
    assert_eq!(rty_expr(&ctx, &binop), Rty::Mutable);
    let assign = at(0, ExprKind::Binop(Bop::Eq(None), Box::new(lvar("$x")), Box::new(readonly(num(2)))));
    assert_eq!(rty_expr(&ctx, &assign), Rty::Mutable);
    let pipe = at(0, ExprKind::Pipe(Box::new(readonly(num(1))), Box::new(readonly(num(2)))));
    assert_eq!(rty_expr(&ctx, &pipe), Rty::Mutable);
    let yielded = at(0, ExprKind::Yield(Box::new(Afield::Value(readonly(num(1))))));
    assert_eq!(rty_expr(&ctx, &yielded), Rty::Mutable);
}

#[test]
fn a_marked_call_is_readonly() {
    let ctx = mutable_scope();
    assert_eq!(rty_expr(&ctx, &readonly(call("f", vec![]))), Rty::Readonly);
}
