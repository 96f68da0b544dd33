//! Mathematical views of the syntax tree: the same shapes, with sequences in
//! place of vectors. Contracts are stated over these.
//!
//! Names and other strings are viewed as character sequences.

use vstd::prelude::*;
use crate::ast::{
    Afield, Bop, Case, Catch, Class, Def, Expr, ExprKind, Field, FieldsKind, Fun, FunParam, Leaf,
    ListKind, Method, Pos, Program, Stmt, StmtKind, UnaryKind, Uop,
};
use crate::lattice::ReadonlyKind;

verus! {

/// The view of an [`Expr`].
pub struct ExprView {
    pub pos: Pos,
    pub kind: ExprKindView,
}

/// The view of a [`Field`].
pub struct FieldView {
    pub key: ExprView,
    pub value: ExprView,
}

/// The view of an [`Afield`].
pub enum AfieldView {
    Value(ExprView),
    KeyValue(ExprView, ExprView),
}

/// The view of a [`Leaf`].
pub enum LeafView {
    Null,
    True,
    False,
    Omitted,
    Int(Seq<char>),
    Float(Seq<char>),
    Str(Seq<char>),
    Id(Seq<char>),
    Dollardollar(Seq<char>),
    ClassGet(Seq<char>, Seq<char>),
    ClassConst(Seq<char>, Seq<char>),
    FunctionPointer(Seq<char>),
    FunId(Seq<char>),
    MethodCaller(Seq<char>, Seq<char>),
    SmethodId(Seq<char>, Seq<char>),
    EnumClassLabel(Seq<char>),
    Lplaceholder,
}

/// The view of a [`UnaryKind`].
pub enum UnaryKindView {
    Clone,
    Await,
    Callconv,
    Import,
    ETSplice,
    Hole,
    Cast(Seq<char>),
    Unop(Uop),
    Is(Seq<char>),
    As(Seq<char>),
    PrefixedString(Seq<char>),
    ExpressionTree(Seq<char>),
    MethodId(Seq<char>),
}

/// The view of a [`ListKind`].
pub enum ListKindView {
    Varray,
    ValCollection,
    Tuple,
    String2,
    List,
    Xml(Seq<char>),
}

/// The view of a [`FieldsKind`].
pub enum FieldsKindView {
    Darray,
    Shape,
    KeyValCollection,
    Record(Seq<char>),
}

/// The view of an [`ExprKind`].
pub enum ExprKindView {
    Leaf(LeafView),
    Lvar(Seq<char>),
    This,
    Efun(Box<FunView>),
    Lfun(Box<FunView>),
    ReadonlyExpr(Box<ExprView>),
    Unary(UnaryKindView, Box<ExprView>),
    ObjGet(Box<ExprView>, Box<ExprView>),
    ArrayGet(Box<ExprView>, Option<Box<ExprView>>),
    Binop(Bop, Box<ExprView>, Box<ExprView>),
    Pipe(Box<ExprView>, Box<ExprView>),
    Pair(Box<ExprView>, Box<ExprView>),
    Eif(Box<ExprView>, Option<Box<ExprView>>, Box<ExprView>),
    ExprList(ListKindView, Seq<ExprView>),
    FieldList(FieldsKindView, Seq<FieldView>),
    Collection(Seq<char>, Seq<AfieldView>),
    Yield(Box<AfieldView>),
    Call(Box<ExprView>, Seq<ExprView>, Option<Box<ExprView>>),
    New(Seq<char>, Seq<ExprView>, Option<Box<ExprView>>),
}

/// The view of a [`Stmt`].
pub struct StmtView {
    pub pos: Pos,
    pub kind: StmtKindView,
}

/// The view of a [`Case`].
pub struct CaseView {
    pub label: Option<ExprView>,
    pub body: Seq<StmtView>,
}

/// The view of a [`Catch`].
pub struct CatchView {
    pub class_name: Seq<char>,
    pub var: Seq<char>,
    pub body: Seq<StmtView>,
}

/// The view of a [`StmtKind`].
pub enum StmtKindView {
    Fallthrough,
    Break,
    Continue,
    YieldBreak,
    Noop,
    Markup(Seq<char>),
    Expr(Box<ExprView>),
    Throw(Box<ExprView>),
    Return(Option<Box<ExprView>>),
    Awaitall(Seq<ExprView>, Seq<StmtView>),
    If(Box<ExprView>, Seq<StmtView>, Seq<StmtView>),
    Do(Seq<StmtView>, Box<ExprView>),
    While(Box<ExprView>, Seq<StmtView>),
    Using(Seq<ExprView>, Seq<StmtView>),
    For(Seq<ExprView>, Option<Box<ExprView>>, Seq<ExprView>, Seq<StmtView>),
    Switch(Box<ExprView>, Seq<CaseView>),
    Foreach(Box<ExprView>, Box<AfieldView>, Seq<StmtView>),
    Try(Seq<StmtView>, Seq<CatchView>, Seq<StmtView>),
    Block(Seq<StmtView>),
}

/// The view of a [`FunParam`].
pub struct FunParamView {
    pub name: Seq<char>,
    pub readonly: Option<ReadonlyKind>,
}

/// The view of a [`Fun`].
pub struct FunView {
    pub name: Seq<char>,
    pub readonly_this: Option<ReadonlyKind>,
    pub readonly_ret: Option<ReadonlyKind>,
    pub params: Seq<FunParamView>,
    pub body: Seq<StmtView>,
}

/// The view of a [`Method`].
pub struct MethodView {
    pub name: Seq<char>,
    pub readonly_this: bool,
    pub readonly_ret: Option<ReadonlyKind>,
    pub params: Seq<FunParamView>,
    pub body: Seq<StmtView>,
}

/// The view of a [`Class`].
pub struct ClassView {
    pub name: Seq<char>,
    pub methods: Seq<MethodView>,
}

/// The view of a [`Def`].
pub enum DefView {
    Fun(FunView),
    Class(ClassView),
    Stmt(StmtView),
    Constant(Seq<char>, ExprView),
    Typedef(Seq<char>),
    Namespace(Seq<char>, Seq<DefView>),
}

/// The view of a [`Program`].
pub struct ProgramView {
    pub defs: Seq<DefView>,
}

// ---------------------------------------------------------------------------
// The view of each node, by structural recursion.
// ---------------------------------------------------------------------------

/// The view of a node without sub-expressions.
pub open spec fn leaf_view(l: Leaf) -> LeafView {
    match l {
        Leaf::Null => LeafView::Null,
        Leaf::True => LeafView::True,
        Leaf::False => LeafView::False,
        Leaf::Omitted => LeafView::Omitted,
        Leaf::Int(s) => LeafView::Int(s@),
        Leaf::Float(s) => LeafView::Float(s@),
        Leaf::Str(s) => LeafView::Str(s@),
        Leaf::Id(n) => LeafView::Id(n@),
        Leaf::Dollardollar(n) => LeafView::Dollardollar(n@),
        Leaf::ClassGet(c, p) => LeafView::ClassGet(c@, p@),
        Leaf::ClassConst(c, n) => LeafView::ClassConst(c@, n@),
        Leaf::FunctionPointer(n) => LeafView::FunctionPointer(n@),
        Leaf::FunId(n) => LeafView::FunId(n@),
        Leaf::MethodCaller(c, n) => LeafView::MethodCaller(c@, n@),
        Leaf::SmethodId(c, n) => LeafView::SmethodId(c@, n@),
        Leaf::EnumClassLabel(n) => LeafView::EnumClassLabel(n@),
        Leaf::Lplaceholder => LeafView::Lplaceholder,
    }
}

/// The view of the kind of a node with one sub-expression.
pub open spec fn unary_kind_view(k: UnaryKind) -> UnaryKindView {
    match k {
        UnaryKind::Clone => UnaryKindView::Clone,
        UnaryKind::Await => UnaryKindView::Await,
        UnaryKind::Callconv => UnaryKindView::Callconv,
        UnaryKind::Import => UnaryKindView::Import,
        UnaryKind::ETSplice => UnaryKindView::ETSplice,
        UnaryKind::Hole => UnaryKindView::Hole,
        UnaryKind::Cast(h) => UnaryKindView::Cast(h@),
        UnaryKind::Unop(op) => UnaryKindView::Unop(op),
        UnaryKind::Is(h) => UnaryKindView::Is(h@),
        UnaryKind::As(h) => UnaryKindView::As(h@),
        UnaryKind::PrefixedString(p) => UnaryKindView::PrefixedString(p@),
        UnaryKind::ExpressionTree(h) => UnaryKindView::ExpressionTree(h@),
        UnaryKind::MethodId(n) => UnaryKindView::MethodId(n@),
    }
}

/// The view of the kind of a list of expressions.
pub open spec fn list_kind_view(k: ListKind) -> ListKindView {
    match k {
        ListKind::Varray => ListKindView::Varray,
        ListKind::ValCollection => ListKindView::ValCollection,
        ListKind::Tuple => ListKindView::Tuple,
        ListKind::String2 => ListKindView::String2,
        ListKind::List => ListKindView::List,
        ListKind::Xml(n) => ListKindView::Xml(n@),
    }
}

/// The view of the kind of a keyed literal.
pub open spec fn fields_kind_view(k: FieldsKind) -> FieldsKindView {
    match k {
        FieldsKind::Darray => FieldsKindView::Darray,
        FieldsKind::Shape => FieldsKindView::Shape,
        FieldsKind::KeyValCollection => FieldsKindView::KeyValCollection,
        FieldsKind::Record(n) => FieldsKindView::Record(n@),
    }
}

/// The view of an expression that may be absent.
pub open spec fn opt_expr_view(o: Option<Box<Expr>>) -> Option<Box<ExprView>>
    decreases o,
{
    match o {
        Some(e) => Some(Box::new(expr_view(*e))),
        None => None,
    }
}

/// The views of a list of expressions, in order.
pub open spec fn exprs_view(s: Seq<Expr>) -> Seq<ExprView>
    decreases s,
{
    Seq::new(
        s.len(),
        |i: int|
            if 0 <= i < s.len() {
                expr_view(s[i])
            } else {
                arbitrary()
            },
    )
}

/// The view of a `key => value` entry.
pub open spec fn field_view(f: Field) -> FieldView
    decreases f,
{
    FieldView { key: expr_view(f.key), value: expr_view(f.value) }
}

/// The views of a list of entries, in order.
pub open spec fn fields_view(s: Seq<Field>) -> Seq<FieldView>
    decreases s,
{
    Seq::new(
        s.len(),
        |i: int|
            if 0 <= i < s.len() {
                field_view(s[i])
            } else {
                arbitrary()
            },
    )
}

/// The view of an entry of a collection literal.
pub open spec fn afield_view(f: Afield) -> AfieldView
    decreases f,
{
    match f {
        Afield::Value(v) => AfieldView::Value(expr_view(v)),
        Afield::KeyValue(k, v) => AfieldView::KeyValue(expr_view(k), expr_view(v)),
    }
}

/// The views of a list of entries, in order.
pub open spec fn afields_view(s: Seq<Afield>) -> Seq<AfieldView>
    decreases s,
{
    Seq::new(
        s.len(),
        |i: int|
            if 0 <= i < s.len() {
                afield_view(s[i])
            } else {
                arbitrary()
            },
    )
}

/// The view of an expression. It is opaque to the verifier;
/// [`lemma_expr_view`] unfolds it by one level.
#[verifier::opaque]
pub open spec fn expr_view(e: Expr) -> ExprView
    decreases e,
{
    ExprView { pos: e.pos, kind: expr_kind_view(e.kind) }
}

/// The view of an expression, one level down.
pub proof fn lemma_expr_view(e: Expr)
    ensures
        expr_view(e) == (ExprView { pos: e.pos, kind: expr_kind_view(e.kind) }),
{
    reveal(expr_view);
}

/// The view of what an expression node holds.
pub open spec fn expr_kind_view(k: ExprKind) -> ExprKindView
    decreases k,
{
    match k {
        ExprKind::Leaf(l) => ExprKindView::Leaf(leaf_view(l)),
        ExprKind::Lvar(n) => ExprKindView::Lvar(n@),
        ExprKind::This => ExprKindView::This,
        ExprKind::Efun(f) => ExprKindView::Efun(Box::new(fun_view(*f))),
        ExprKind::Lfun(f) => ExprKindView::Lfun(Box::new(fun_view(*f))),
        ExprKind::ReadonlyExpr(e) => ExprKindView::ReadonlyExpr(Box::new(expr_view(*e))),
        ExprKind::Unary(k, e) => ExprKindView::Unary(
            unary_kind_view(k),
            Box::new(expr_view(*e)),
        ),
        ExprKind::ObjGet(o, m) => ExprKindView::ObjGet(
            Box::new(expr_view(*o)),
            Box::new(expr_view(*m)),
        ),
        ExprKind::ArrayGet(b, i) => ExprKindView::ArrayGet(
            Box::new(expr_view(*b)),
            opt_expr_view(i),
        ),
        ExprKind::Binop(op, l, r) => ExprKindView::Binop(
            op,
            Box::new(expr_view(*l)),
            Box::new(expr_view(*r)),
        ),
        ExprKind::Pipe(l, r) => ExprKindView::Pipe(
            Box::new(expr_view(*l)),
            Box::new(expr_view(*r)),
        ),
        ExprKind::Pair(a, b) => ExprKindView::Pair(
            Box::new(expr_view(*a)),
            Box::new(expr_view(*b)),
        ),
        ExprKind::Eif(c, t, e) => ExprKindView::Eif(
            Box::new(expr_view(*c)),
            opt_expr_view(t),
            Box::new(expr_view(*e)),
        ),
        ExprKind::ExprList(k, es) => ExprKindView::ExprList(list_kind_view(k), exprs_view(es@)),
        ExprKind::FieldList(k, fs) => ExprKindView::FieldList(
            fields_kind_view(k),
            fields_view(fs@),
        ),
        ExprKind::Collection(n, fs) => ExprKindView::Collection(n@, afields_view(fs@)),
        ExprKind::Yield(f) => ExprKindView::Yield(Box::new(afield_view(*f))),
        ExprKind::Call(f, args, unpacked) => ExprKindView::Call(
            Box::new(expr_view(*f)),
            exprs_view(args@),
            opt_expr_view(unpacked),
        ),
        ExprKind::New(c, args, unpacked) => ExprKindView::New(
            c@,
            exprs_view(args@),
            opt_expr_view(unpacked),
        ),
    }
}

/// The views of a list of statements, in order.
pub open spec fn stmts_view(s: Seq<Stmt>) -> Seq<StmtView>
    decreases s,
{
    Seq::new(
        s.len(),
        |i: int|
            if 0 <= i < s.len() {
                stmt_view(s[i])
            } else {
                arbitrary()
            },
    )
}

/// The view of one arm of a `switch`.
pub open spec fn case_view(c: Case) -> CaseView
    decreases c,
{
    CaseView {
        label: match c.label {
            Some(e) => Some(expr_view(e)),
            None => None,
        },
        body: stmts_view(c.body@),
    }
}

/// The views of the arms of a `switch`, in order.
pub open spec fn cases_view(s: Seq<Case>) -> Seq<CaseView>
    decreases s,
{
    Seq::new(
        s.len(),
        |i: int|
            if 0 <= i < s.len() {
                case_view(s[i])
            } else {
                arbitrary()
            },
    )
}

/// The view of one handler of a `try`.
pub open spec fn catch_view(c: Catch) -> CatchView
    decreases c,
{
    CatchView { class_name: c.class_name@, var: c.var@, body: stmts_view(c.body@) }
}

/// The views of the handlers of a `try`, in order.
pub open spec fn catches_view(s: Seq<Catch>) -> Seq<CatchView>
    decreases s,
{
    Seq::new(
        s.len(),
        |i: int|
            if 0 <= i < s.len() {
                catch_view(s[i])
            } else {
                arbitrary()
            },
    )
}

/// The view of a statement. It is opaque to the verifier;
/// [`lemma_stmt_view`] unfolds it by one level.
#[verifier::opaque]
pub open spec fn stmt_view(s: Stmt) -> StmtView
    decreases s,
{
    StmtView { pos: s.pos, kind: stmt_kind_view(s.kind) }
}

/// The view of a statement, one level down.
pub proof fn lemma_stmt_view(s: Stmt)
    ensures
        stmt_view(s) == (StmtView { pos: s.pos, kind: stmt_kind_view(s.kind) }),
{
    reveal(stmt_view);
}

/// The view of what a statement node holds.
pub open spec fn stmt_kind_view(k: StmtKind) -> StmtKindView
    decreases k,
{
    match k {
        StmtKind::Fallthrough => StmtKindView::Fallthrough,
        StmtKind::Break => StmtKindView::Break,
        StmtKind::Continue => StmtKindView::Continue,
        StmtKind::YieldBreak => StmtKindView::YieldBreak,
        StmtKind::Noop => StmtKindView::Noop,
        StmtKind::Markup(s) => StmtKindView::Markup(s@),
        StmtKind::Expr(e) => StmtKindView::Expr(Box::new(expr_view(*e))),
        StmtKind::Throw(e) => StmtKindView::Throw(Box::new(expr_view(*e))),
        StmtKind::Return(e) => StmtKindView::Return(opt_expr_view(e)),
        StmtKind::Awaitall(es, b) => StmtKindView::Awaitall(exprs_view(es@), stmts_view(b@)),
        StmtKind::If(c, t, e) => StmtKindView::If(
            Box::new(expr_view(*c)),
            stmts_view(t@),
            stmts_view(e@),
        ),
        StmtKind::Do(b, c) => StmtKindView::Do(stmts_view(b@), Box::new(expr_view(*c))),
        StmtKind::While(c, b) => StmtKindView::While(Box::new(expr_view(*c)), stmts_view(b@)),
        StmtKind::Using(es, b) => StmtKindView::Using(exprs_view(es@), stmts_view(b@)),
        StmtKind::For(init, cond, step, b) => StmtKindView::For(
            exprs_view(init@),
            opt_expr_view(cond),
            exprs_view(step@),
            stmts_view(b@),
        ),
        StmtKind::Switch(e, cs) => StmtKindView::Switch(Box::new(expr_view(*e)), cases_view(cs@)),
        StmtKind::Foreach(e, binding, b) => StmtKindView::Foreach(
            Box::new(expr_view(*e)),
            Box::new(afield_view(*binding)),
            stmts_view(b@),
        ),
        StmtKind::Try(b, cs, f) => StmtKindView::Try(
            stmts_view(b@),
            catches_view(cs@),
            stmts_view(f@),
        ),
        StmtKind::Block(b) => StmtKindView::Block(stmts_view(b@)),
    }
}

/// The view of a parameter.
pub open spec fn param_view(p: FunParam) -> FunParamView {
    FunParamView { name: p.name@, readonly: p.readonly }
}

/// The views of a list of parameters, in order.
pub open spec fn params_view(s: Seq<FunParam>) -> Seq<FunParamView> {
    Seq::new(s.len(), |i: int| param_view(s[i]))
}

/// The view of a function.
pub open spec fn fun_view(f: Fun) -> FunView
    decreases f,
{
    FunView {
        name: f.name@,
        readonly_this: f.readonly_this,
        readonly_ret: f.readonly_ret,
        params: params_view(f.params@),
        body: stmts_view(f.body@),
    }
}

/// The view of a method.
pub open spec fn method_view(m: Method) -> MethodView {
    MethodView {
        name: m.name@,
        readonly_this: m.readonly_this,
        readonly_ret: m.readonly_ret,
        params: params_view(m.params@),
        body: stmts_view(m.body@),
    }
}

/// The views of a list of methods, in order.
pub open spec fn methods_view(s: Seq<Method>) -> Seq<MethodView> {
    Seq::new(s.len(), |i: int| method_view(s[i]))
}

/// The view of a class.
pub open spec fn class_view(c: Class) -> ClassView {
    ClassView { name: c.name@, methods: methods_view(c.methods@) }
}

/// The views of a list of declarations, in order.
pub open spec fn defs_view(s: Seq<Def>) -> Seq<DefView>
    decreases s,
{
    Seq::new(
        s.len(),
        |i: int|
            if 0 <= i < s.len() {
                def_view(s[i])
            } else {
                arbitrary()
            },
    )
}

/// The view of a top-level declaration.
pub open spec fn def_view(d: Def) -> DefView
    decreases d,
{
    match d {
        Def::Fun(f) => DefView::Fun(fun_view(f)),
        Def::Class(c) => DefView::Class(class_view(c)),
        Def::Stmt(s) => DefView::Stmt(stmt_view(s)),
        Def::Constant(n, e) => DefView::Constant(n@, expr_view(e)),
        Def::Typedef(n) => DefView::Typedef(n@),
        Def::Namespace(n, ds) => DefView::Namespace(n@, defs_view(ds@)),
    }
}

impl View for Leaf {
    type V = LeafView;

    open spec fn view(&self) -> LeafView {
        leaf_view(*self)
    }
}

impl View for UnaryKind {
    type V = UnaryKindView;

    open spec fn view(&self) -> UnaryKindView {
        unary_kind_view(*self)
    }
}

impl View for ListKind {
    type V = ListKindView;

    open spec fn view(&self) -> ListKindView {
        list_kind_view(*self)
    }
}

impl View for FieldsKind {
    type V = FieldsKindView;

    open spec fn view(&self) -> FieldsKindView {
        fields_kind_view(*self)
    }
}

impl View for Expr {
    type V = ExprView;

    open spec fn view(&self) -> ExprView {
        expr_view(*self)
    }
}

impl View for Field {
    type V = FieldView;

    open spec fn view(&self) -> FieldView {
        field_view(*self)
    }
}

impl View for Afield {
    type V = AfieldView;

    open spec fn view(&self) -> AfieldView {
        afield_view(*self)
    }
}

impl View for Stmt {
    type V = StmtView;

    open spec fn view(&self) -> StmtView {
        stmt_view(*self)
    }
}

impl View for Case {
    type V = CaseView;

    open spec fn view(&self) -> CaseView {
        case_view(*self)
    }
}

impl View for Catch {
    type V = CatchView;

    open spec fn view(&self) -> CatchView {
        catch_view(*self)
    }
}

impl View for FunParam {
    type V = FunParamView;

    open spec fn view(&self) -> FunParamView {
        param_view(*self)
    }
}

impl View for Fun {
    type V = FunView;

    open spec fn view(&self) -> FunView {
        fun_view(*self)
    }
}

impl View for Method {
    type V = MethodView;

    open spec fn view(&self) -> MethodView {
        method_view(*self)
    }
}

impl View for Class {
    type V = ClassView;

    open spec fn view(&self) -> ClassView {
        class_view(*self)
    }
}

impl View for Def {
    type V = DefView;

    open spec fn view(&self) -> DefView {
        def_view(*self)
    }
}

impl View for Program {
    type V = ProgramView;

    open spec fn view(&self) -> ProgramView {
        ProgramView { defs: defs_view(self.defs@) }
    }
}

} // verus!
