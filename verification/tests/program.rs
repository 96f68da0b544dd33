use readonly_check::ast::{
    Afield, Bop, Case, Catch, Class, Def, Expr, ExprKind, Field, FieldsKind, Fun, FunParam, Leaf,
    ListKind, Method, Pos, Program, Stmt, StmtKind, UnaryKind,
};
use readonly_check::context::Context;
use readonly_check::diagnostics::{Checker, Diagnostic, ErrorKind};
use readonly_check::lattice::{ReadonlyKind, Rty};
use readonly_check::program::check_program;

const RO: Option<ReadonlyKind> = Some(ReadonlyKind::Readonly);

const RETURN_MESSAGE: &str = "This expression is readonly, but we expected a type that is mutable because this function does not return readonly. Please mark it to return readonly if needed.";

fn at(n: usize, kind: ExprKind) -> Expr {
    Expr { pos: Pos { start: n, end: n + 1 }, kind }
}

fn num(n: usize) -> Expr {
    at(n, ExprKind::Leaf(Leaf::Int(n.to_string())))
}

fn lvar(n: usize, name: &str) -> Expr {
    at(n, ExprKind::Lvar(name.to_string()))
}

fn readonly(e: Expr) -> Expr {
    let pos = e.pos;
    Expr { pos, kind: ExprKind::ReadonlyExpr(Box::new(e)) }
}

fn assign(n: usize, lhs: Expr, rhs: Expr) -> Expr {
    at(n, ExprKind::Binop(Bop::Eq(None), Box::new(lhs), Box::new(rhs)))
}

fn call(n: usize, name: &str, args: Vec<Expr>) -> Expr {
    at(n, ExprKind::Call(Box::new(at(n, ExprKind::Leaf(Leaf::Id(name.to_string())))), args, None))
}

fn prop(n: usize, obj: Expr) -> Expr {
    at(n, ExprKind::ObjGet(Box::new(obj), Box::new(at(n, ExprKind::Leaf(Leaf::Id("p".to_string()))))))
}

fn index(n: usize, base: Expr, i: Expr) -> Expr {
    at(n, ExprKind::ArrayGet(Box::new(base), Some(Box::new(i))))
}

fn stmt(kind: StmtKind) -> Stmt {
    Stmt { pos: Pos { start: 0, end: 0 }, kind }
}

fn expr_stmt(e: Expr) -> Stmt {
    stmt(StmtKind::Expr(Box::new(e)))
}

fn ret(e: Expr) -> Stmt {
    stmt(StmtKind::Return(Some(Box::new(e))))
}

fn param(name: &str, readonly: Option<ReadonlyKind>) -> FunParam {
    FunParam { name: name.to_string(), readonly }
}

fn fun(name: &str, ret: Option<ReadonlyKind>, params: Vec<FunParam>, body: Vec<Stmt>) -> Fun {
    Fun { name: name.to_string(), readonly_this: None, readonly_ret: ret, params, body }
}

fn method(name: &str, this: bool, ret: Option<ReadonlyKind>, params: Vec<FunParam>, body: Vec<Stmt>) -> Method {
    Method { name: name.to_string(), readonly_this: this, readonly_ret: ret, params, body }
}

fn program_of(f: Fun) -> Program {
    Program { defs: vec![Def::Fun(f)] }
}

fn kinds(errors: &[Diagnostic]) -> Vec<ErrorKind> {
    errors.iter().map(|d| d.kind).collect()
}

fn starts(errors: &[Diagnostic]) -> Vec<usize> {
    errors.iter().map(|d| d.start_offset).collect()
}

#[test]
fn empty_program_has_no_diagnostics() {
    let mut p = Program { defs: vec![] };
    assert!(check_program(&mut p).is_empty());
    assert_eq!(p, Program { defs: vec![] });
}

fn unannotated() -> Program {
    let body = vec![
        expr_stmt(assign(1, lvar(1, "$x"), num(2))),
        expr_stmt(assign(3, lvar(3, "$x"), call(4, "f", vec![lvar(5, "$x"), num(6)]))),
        expr_stmt(assign(7, prop(7, lvar(7, "$x")), lvar(8, "$a"))),
        expr_stmt(assign(9, index(9, lvar(9, "$a"), num(9)), lvar(10, "$x"))),
        stmt(StmtKind::If(
            Box::new(lvar(11, "$x")),
            vec![ret(lvar(12, "$x"))],
            vec![ret(at(13, ExprKind::ExprList(ListKind::Tuple, vec![lvar(13, "$a"), num(14)])))],
        )),
    ];
    let m = method("m", false, None, vec![param("$a", None)], vec![
        expr_stmt(assign(20, prop(20, lvar(20, "$this")), lvar(21, "$a"))),
        ret(lvar(22, "$this")),
    ]);
    Program {
        defs: vec![
            Def::Fun(fun("f", None, vec![param("$a", None)], body)),
            Def::Class(Class { name: "C".to_string(), methods: vec![m] }),
            Def::Stmt(expr_stmt(assign(30, lvar(30, "$g"), num(31)))),
            Def::Constant("K".to_string(), num(32)),
            Def::Typedef("T".to_string()),
        ],
    }
}

#[test]
fn program_without_annotations_has_no_diagnostics() {
    let mut p = unannotated();
    assert!(check_program(&mut p).is_empty());
    // And nothing is wrapped.
    assert_eq!(p, unannotated());
}

#[test]
fn first_write_wins_readonly_then_mutable() {
    let mut p = program_of(fun("f", None, vec![], vec![
        expr_stmt(assign(1, lvar(1, "$x"), readonly(call(2, "g", vec![])))),
        expr_stmt(assign(5, lvar(5, "$x"), call(6, "g", vec![]))),
    ]));
    let errors = check_program(&mut p);
    assert_eq!(
        errors,
        vec![Diagnostic {
            start_offset: 5,
            end_offset: 6,
            kind: ErrorKind::MutabilityMismatch,
            message: "$x is redefined with a different mutability than its first assignment".to_string(),
        }]
    );
}

#[test]
fn first_write_wins_mutable_then_readonly() {
    let mut p = program_of(fun("f", None, vec![], vec![
        expr_stmt(assign(1, lvar(1, "$x"), call(2, "g", vec![]))),
        expr_stmt(assign(5, lvar(5, "$x"), readonly(call(6, "g", vec![])))),
    ]));
    let errors = check_program(&mut p);
    assert_eq!(kinds(&errors), vec![ErrorKind::MutabilityMismatch]);
    assert_eq!(starts(&errors), vec![5]);
}

#[test]
fn readonly_return_from_a_mutable_scope_is_a_violation() {
    let mut p = program_of(fun("f", None, vec![param("$r", RO)], vec![ret(lvar(9, "$r"))]));
    let errors = check_program(&mut p);
    assert_eq!(
        errors,
        vec![Diagnostic {
            start_offset: 9,
            end_offset: 10,
            kind: ErrorKind::ReturnMutabilityViolation,
            message: RETURN_MESSAGE.to_string(),
        }]
    );
    // A return is checked, not rewritten.
    assert_eq!(p, program_of(fun("f", None, vec![param("$r", RO)], vec![ret(lvar(9, "$r"))])));
}

#[test]
fn mutable_return_from_a_readonly_scope_is_fine() {
    let mut p = program_of(fun("f", RO, vec![param("$m", None)], vec![ret(lvar(9, "$m"))]));
    assert!(check_program(&mut p).is_empty());
}

#[test]
fn readonly_return_from_a_readonly_scope_is_fine() {
    let mut p = program_of(fun("f", RO, vec![param("$r", RO)], vec![ret(lvar(9, "$r"))]));
    assert!(check_program(&mut p).is_empty());
}

#[test]
fn return_without_a_value_is_not_checked() {
    let mut p = program_of(fun("f", None, vec![], vec![stmt(StmtKind::Return(None))]));
    assert!(check_program(&mut p).is_empty());
}

#[test]
fn property_write_through_readonly_parameter() {
    let mut p = program_of(fun("f", None, vec![param("$obj", RO)], vec![
        expr_stmt(assign(4, prop(4, lvar(4, "$obj")), num(5))),
    ]));
    let errors = check_program(&mut p);
    assert_eq!(kinds(&errors), vec![ErrorKind::ReadonlyAssignmentViolation]);
    assert_eq!(starts(&errors), vec![4]);
}

#[test]
fn property_write_through_mutable_parameter() {
    let mut p = program_of(fun("f", None, vec![param("$obj", None)], vec![
        expr_stmt(assign(4, prop(4, lvar(4, "$obj")), num(5))),
    ]));
    assert!(check_program(&mut p).is_empty());
}

#[test]
fn index_write_rewrites_both_sides_and_reports_nothing() {
    let mut p = program_of(fun("f", None, vec![param("$a", RO), param("$r", RO)], vec![
        expr_stmt(assign(4, index(4, lvar(4, "$a"), num(5)), lvar(6, "$r"))),
    ]));
    let errors = check_program(&mut p);
    assert!(errors.is_empty());
    let expected = program_of(fun("f", None, vec![param("$a", RO), param("$r", RO)], vec![
        expr_stmt(assign(4, index(4, readonly(lvar(4, "$a")), num(5)), readonly(lvar(6, "$r")))),
    ]));
    assert_eq!(p, expected);
}

#[test]
fn call_arguments_are_made_explicit() {
    let mut p = program_of(fun("f", None, vec![param("$r", RO), param("$m", None)], vec![
        expr_stmt(call(3, "g", vec![lvar(4, "$r"), lvar(5, "$m"), readonly(lvar(6, "$r"))])),
    ]));
    let errors = check_program(&mut p);
    assert!(errors.is_empty());
    let expected = program_of(fun("f", None, vec![param("$r", RO), param("$m", None)], vec![
        expr_stmt(call(3, "g", vec![readonly(lvar(4, "$r")), lvar(5, "$m"), readonly(lvar(6, "$r"))])),
    ]));
    assert_eq!(p, expected);
}

#[test]
fn arguments_of_nested_calls_are_made_explicit() {
    let mut p = program_of(fun("f", None, vec![param("$r", RO)], vec![
        expr_stmt(call(3, "g", vec![call(4, "h", vec![lvar(5, "$r")])])),
    ]));
    check_program(&mut p);
    let expected = program_of(fun("f", None, vec![param("$r", RO)], vec![
        expr_stmt(call(3, "g", vec![call(4, "h", vec![readonly(lvar(5, "$r"))])])),
    ]));
    assert_eq!(p, expected);
}

#[test]
fn arguments_of_new_are_left_alone() {
    let build = || program_of(fun("f", None, vec![param("$r", RO)], vec![
        expr_stmt(at(3, ExprKind::New("C".to_string(), vec![lvar(4, "$r")], None))),
    ]));
    let mut p = build();
    assert!(check_program(&mut p).is_empty());
    assert_eq!(p, build());
}

#[test]
fn arguments_are_classified_before_the_walk_goes_into_them() {
    // g($x, $x = readonly h()): when the call is reached $x is not bound
    // yet, so the first argument stays as it is.
    let mut p = program_of(fun("f", None, vec![], vec![
        expr_stmt(call(3, "g", vec![
            lvar(4, "$x"),
            assign(5, lvar(5, "$x"), readonly(call(6, "h", vec![]))),
        ])),
        expr_stmt(call(7, "g", vec![lvar(8, "$x")])),
    ]));
    check_program(&mut p);
    let expected = program_of(fun("f", None, vec![], vec![
        expr_stmt(call(3, "g", vec![
            lvar(4, "$x"),
            assign(5, lvar(5, "$x"), readonly(call(6, "h", vec![]))),
        ])),
        expr_stmt(call(7, "g", vec![readonly(lvar(8, "$x"))])),
    ]));
    assert_eq!(p, expected);
}

fn violations() -> Program {
    program_of(fun("f", None, vec![param("$r", RO), param("$m", None)], vec![
        expr_stmt(assign(1, lvar(1, "$m"), lvar(2, "$r"))),
        expr_stmt(assign(3, prop(3, lvar(3, "$r")), lvar(4, "$r"))),
        expr_stmt(assign(5, index(5, lvar(5, "$r"), num(5)), lvar(6, "$r"))),
        expr_stmt(call(7, "g", vec![lvar(8, "$r"), prop(9, lvar(9, "$r"))])),
        ret(lvar(10, "$r")),
    ]))
}

#[test]
fn every_violation_is_reported_in_source_order() {
    let mut p = violations();
    let errors = check_program(&mut p);
    assert_eq!(
        kinds(&errors),
        vec![
            ErrorKind::MutabilityMismatch,
            ErrorKind::ReadonlyAssignmentViolation,
            ErrorKind::ReturnMutabilityViolation,
        ]
    );
    assert_eq!(starts(&errors), vec![1, 3, 10]);
}

#[test]
fn second_run_changes_nothing_and_reports_the_same() {
    let mut p = violations();
    let first = check_program(&mut p);
    let mut again = violations();
    check_program(&mut again);
    let second = check_program(&mut p);
    assert_eq!(first, second);
    assert_eq!(p, again);
}

#[test]
fn second_run_on_a_clean_program_reports_nothing() {
    let build = || program_of(fun("f", RO, vec![param("$r", RO)], vec![
        expr_stmt(call(3, "g", vec![lvar(4, "$r")])),
        ret(lvar(5, "$r")),
    ]));
    let mut p = build();
    assert!(check_program(&mut p).is_empty());
    let mut once = build();
    check_program(&mut once);
    assert!(check_program(&mut p).is_empty());
    assert_eq!(p, once);
}

#[test]
fn each_function_starts_from_a_fresh_context() {
    let mut p = Program {
        defs: vec![
            Def::Fun(fun("f", None, vec![], vec![
                expr_stmt(assign(1, lvar(1, "$x"), readonly(call(2, "g", vec![])))),
            ])),
            Def::Fun(fun("h", None, vec![], vec![
                expr_stmt(assign(3, lvar(3, "$x"), num(4))),
                ret(lvar(5, "$x")),
            ])),
        ],
    };
    assert!(check_program(&mut p).is_empty());
}

#[test]
fn function_does_not_see_toplevel_locals() {
    let mut p = Program {
        defs: vec![
            Def::Stmt(expr_stmt(assign(1, lvar(1, "$x"), readonly(call(2, "g", vec![]))))),
            Def::Fun(fun("f", None, vec![], vec![ret(lvar(3, "$x"))])),
            Def::Stmt(expr_stmt(assign(4, lvar(4, "$x"), num(5)))),
        ],
    };
    let errors = check_program(&mut p);
    // The function is clean; the second top-level write disagrees with the
    // first.
    assert_eq!(kinds(&errors), vec![ErrorKind::MutabilityMismatch]);
    assert_eq!(starts(&errors), vec![4]);
}

#[test]
fn readonly_this_method_cannot_write_its_properties() {
    let body = || vec![expr_stmt(assign(2, prop(2, lvar(2, "$this")), num(3)))];
    let mut p = Program {
        defs: vec![Def::Class(Class {
            name: "C".to_string(),
            methods: vec![method("ro", true, None, vec![], body()), method("rw", false, None, vec![], body())],
        })],
    };
    let errors = check_program(&mut p);
    assert_eq!(kinds(&errors), vec![ErrorKind::ReadonlyAssignmentViolation]);
}

#[test]
fn readonly_this_method_returning_this() {
    let body = || vec![ret(lvar(2, "$this"))];
    let mut p = Program {
        defs: vec![Def::Class(Class {
            name: "C".to_string(),
            methods: vec![
                method("a", true, None, vec![], body()),
                method("b", true, RO, vec![], body()),
                method("c", false, None, vec![], body()),
            ],
        })],
    };
    let errors = check_program(&mut p);
    assert_eq!(kinds(&errors), vec![ErrorKind::ReturnMutabilityViolation]);
}

#[test]
fn function_with_readonly_this() {
    let f = Fun {
        name: "f".to_string(),
        readonly_this: RO,
        readonly_ret: None,
        params: vec![],
        body: vec![ret(at(2, ExprKind::This))],
    };
    let mut p = program_of(f);
    assert_eq!(kinds(&check_program(&mut p)), vec![ErrorKind::ReturnMutabilityViolation]);
}

#[test]
fn closure_bodies_are_not_analysed() {
    let inner = || fun("", None, vec![param("$r", RO)], vec![
        expr_stmt(assign(1, prop(1, lvar(1, "$r")), lvar(2, "$r"))),
        expr_stmt(call(3, "g", vec![lvar(4, "$r")])),
        ret(lvar(5, "$r")),
    ]);
    let build = || program_of(fun("f", None, vec![], vec![
        expr_stmt(assign(0, lvar(0, "$c"), at(0, ExprKind::Efun(Box::new(inner()))))),
        expr_stmt(call(6, "g", vec![at(6, ExprKind::Lfun(Box::new(inner())))])),
    ]));
    let mut p = build();
    assert!(check_program(&mut p).is_empty());
    assert_eq!(p, build());
}

#[test]
fn walk_reaches_every_statement_kind() {
    let bad = |n: usize| expr_stmt(assign(n, prop(n, lvar(n, "$r")), num(n)));
    let body = vec![
        stmt(StmtKind::If(Box::new(num(0)), vec![bad(1)], vec![bad(2)])),
        stmt(StmtKind::While(Box::new(num(0)), vec![bad(3)])),
        stmt(StmtKind::Do(vec![bad(4)], Box::new(num(0)))),
        stmt(StmtKind::For(vec![assign(5, prop(5, lvar(5, "$r")), num(5))], Some(Box::new(num(0))), vec![assign(6, prop(6, lvar(6, "$r")), num(6))], vec![bad(7)])),
        stmt(StmtKind::Foreach(Box::new(num(0)), Box::new(Afield::KeyValue(lvar(0, "$k"), lvar(0, "$v"))), vec![bad(8)])),
        stmt(StmtKind::Switch(Box::new(num(0)), vec![
            Case { label: Some(assign(9, prop(9, lvar(9, "$r")), num(9))), body: vec![bad(10)] },
            Case { label: None, body: vec![bad(11)] },
        ])),
        stmt(StmtKind::Try(
            vec![bad(12)],
            vec![Catch { class_name: "E".to_string(), var: "$e".to_string(), body: vec![bad(13)] }],
            vec![bad(14)],
        )),
        stmt(StmtKind::Block(vec![bad(15)])),
        stmt(StmtKind::Using(vec![assign(16, prop(16, lvar(16, "$r")), num(16))], vec![bad(17)])),
        stmt(StmtKind::Awaitall(vec![assign(18, prop(18, lvar(18, "$r")), num(18))], vec![bad(19)])),
        stmt(StmtKind::Throw(Box::new(assign(20, prop(20, lvar(20, "$r")), num(20))))),
        stmt(StmtKind::Break),
        stmt(StmtKind::Continue),
        stmt(StmtKind::Fallthrough),
        stmt(StmtKind::YieldBreak),
        stmt(StmtKind::Noop),
        stmt(StmtKind::Markup("<p>".to_string())),
        stmt(StmtKind::Return(Some(Box::new(assign(21, prop(21, lvar(21, "$r")), num(21)))))),
    ];
    let mut p = program_of(fun("f", None, vec![param("$r", RO)], body));
    let errors = check_program(&mut p);
    assert_eq!(starts(&errors), (1..=21).collect::<Vec<usize>>());
    assert!(errors.iter().all(|d| d.kind == ErrorKind::ReadonlyAssignmentViolation));
}

#[test]
fn walk_reaches_every_expression_kind() {
    let bad = |n: usize| assign(n, prop(n, lvar(n, "$r")), num(n));
    let b = |e: Expr| Box::new(e);
    let exprs = vec![
        at(0, ExprKind::ReadonlyExpr(b(bad(1)))),
        at(0, ExprKind::Unary(UnaryKind::Await, b(bad(2)))),
        at(0, ExprKind::ObjGet(b(bad(3)), b(bad(4)))),
        at(0, ExprKind::ArrayGet(b(bad(5)), Some(b(bad(6))))),
        at(0, ExprKind::Binop(Bop::Plus, b(bad(7)), b(bad(8)))),
        at(0, ExprKind::Pipe(b(bad(9)), b(bad(10)))),
        at(0, ExprKind::Pair(b(bad(11)), b(bad(12)))),
        at(0, ExprKind::Eif(b(bad(13)), Some(b(bad(14))), b(bad(15)))),
        at(0, ExprKind::ExprList(ListKind::Tuple, vec![bad(16), bad(17)])),
        at(0, ExprKind::FieldList(FieldsKind::Darray, vec![Field { key: bad(18), value: bad(19) }])),
        at(0, ExprKind::Collection("Map".to_string(), vec![Afield::Value(bad(20)), Afield::KeyValue(bad(21), bad(22))])),
        at(0, ExprKind::Yield(Box::new(Afield::KeyValue(bad(23), bad(24))))),
        at(0, ExprKind::Call(b(bad(25)), vec![bad(26)], Some(b(bad(27))))),
        at(0, ExprKind::New("C".to_string(), vec![bad(28)], Some(b(bad(29))))),
        assign(0, lvar(0, "$x"), bad(30)),
        assign(0, index(0, bad(31), bad(32)), bad(33)),
    ];
    let body = exprs.into_iter().map(expr_stmt).collect();
    let mut p = program_of(fun("f", None, vec![param("$r", RO)], body));
    let errors = check_program(&mut p);
    assert_eq!(starts(&errors), (1..=33).collect::<Vec<usize>>());
}

#[test]
fn assignment_is_validated_before_its_sides_are_walked() {
    // $x = ($x = readonly g()): the outer assignment binds $x as mutable
    // (an assignment classifies mutable), so the inner one disagrees.
    let mut p = program_of(fun("f", None, vec![], vec![
        expr_stmt(assign(1, lvar(1, "$x"), assign(2, lvar(2, "$x"), readonly(call(3, "g", vec![]))))),
    ]));
    let errors = check_program(&mut p);
    assert_eq!(kinds(&errors), vec![ErrorKind::MutabilityMismatch]);
    assert_eq!(starts(&errors), vec![2]);
}

#[test]
fn compound_assignment_is_an_assignment() {
    let mut p = program_of(fun("f", None, vec![param("$r", RO)], vec![
        expr_stmt(at(1, ExprKind::Binop(
            Bop::Eq(Some(readonly_check::ast::AssignOp::Plus)),
            Box::new(prop(1, lvar(1, "$r"))),
            Box::new(num(2)),
        ))),
    ]));
    assert_eq!(kinds(&check_program(&mut p)), vec![ErrorKind::ReadonlyAssignmentViolation]);
}

#[test]
fn comparison_is_no_assignment() {
    let mut p = program_of(fun("f", None, vec![param("$r", RO)], vec![
        expr_stmt(at(1, ExprKind::Binop(Bop::Eqeq, Box::new(prop(1, lvar(1, "$r"))), Box::new(lvar(2, "$r"))))),
    ]));
    assert!(check_program(&mut p).is_empty());
}

#[test]
fn namespaces_are_walked_in_order() {
    let bad = |n: usize| Def::Fun(fun("f", None, vec![param("$r", RO)], vec![ret(lvar(n, "$r"))]));
    let mut p = Program {
        defs: vec![
            bad(1),
            Def::Namespace("N".to_string(), vec![bad(2), Def::Namespace("M".to_string(), vec![bad(3)]), bad(4)]),
            bad(5),
        ],
    };
    assert_eq!(starts(&check_program(&mut p)), vec![1, 2, 3, 4, 5]);
}

#[test]
fn toplevel_constant_is_walked() {
    let mut p = Program {
        defs: vec![
            Def::Stmt(expr_stmt(assign(1, lvar(1, "$r"), readonly(call(1, "g", vec![]))))),
            Def::Constant("K".to_string(), call(2, "g", vec![lvar(3, "$r")])),
        ],
    };
    assert!(check_program(&mut p).is_empty());
    match &p.defs[1] {
        Def::Constant(_, e) => assert_eq!(*e, call(2, "g", vec![readonly(lvar(3, "$r"))])),
        _ => unreachable!(),
    }
}

#[test]
fn visitor_can_be_driven_by_hand() {
    let mut checker = Checker::new();
    let mut ctx = Context::new(Rty::Mutable, Rty::Readonly);
    let mut e = assign(1, prop(1, lvar(1, "$this")), num(2));
    checker.visit_expr(&mut ctx, &mut e);
    let mut s = ret(lvar(3, "$this"));
    checker.visit_stmt(&mut ctx, &mut s);
    let mut f = fun("f", None, vec![], vec![ret(lvar(4, "$this"))]);
    checker.visit_fun_(&mut ctx, &mut f);
    let mut m = method("m", true, None, vec![], vec![ret(lvar(5, "$this"))]);
    checker.visit_method_(&mut ctx, &mut m);
    assert_eq!(starts(&checker.errors), vec![1, 3, 5]);
    // The caller's context is what it was.
    assert_eq!(ctx.this_ty(), Rty::Readonly);
    assert!(ctx.is_new_local(&"$x".to_string()));
}

#[test]
fn earlier_diagnostics_stay_in_front() {
    let mut checker = Checker::new();
    let mut ctx = Context::new(Rty::Mutable, Rty::Mutable);
    ctx.add_local(&"$r".to_string(), true);
    let mut first = ret(lvar(1, "$r"));
    checker.visit_stmt(&mut ctx, &mut first);
    let before: Vec<(usize, ErrorKind)> = checker.errors.iter().map(|d| (d.start_offset, d.kind)).collect();
    assert_eq!(before, vec![(1, ErrorKind::ReturnMutabilityViolation)]);
    let mut second = expr_stmt(assign(2, prop(2, lvar(2, "$r")), num(3)));
    checker.visit_stmt(&mut ctx, &mut second);
    let after: Vec<(usize, ErrorKind)> = checker.errors.iter().map(|d| (d.start_offset, d.kind)).collect();
    assert_eq!(
        after,
        vec![(1, ErrorKind::ReturnMutabilityViolation), (2, ErrorKind::ReadonlyAssignmentViolation)]
    );
}

#[test]
fn a_walk_never_changes_a_binding_or_the_scope() {
    let mut checker = Checker::new();
    let mut ctx = Context::new(Rty::Readonly, Rty::Readonly);
    ctx.add_local(&"$r".to_string(), true);
    ctx.add_local(&"$m".to_string(), false);
    let mut s = stmt(StmtKind::Block(vec![
        expr_stmt(assign(1, lvar(1, "$r"), num(1))),
        expr_stmt(assign(2, lvar(2, "$m"), readonly(num(2)))),
        expr_stmt(assign(3, lvar(3, "$n"), readonly(num(3)))),
    ]));
    checker.visit_stmt(&mut ctx, &mut s);
    assert_eq!(starts(&checker.errors), vec![1, 2]);
    assert!(ctx.is_readonly("$r"));
    assert!(!ctx.is_readonly("$m"));
    assert!(ctx.is_readonly("$n"));
    assert_eq!(ctx.readonly_return(), Rty::Readonly);
    assert_eq!(ctx.this_ty(), Rty::Readonly);
}
