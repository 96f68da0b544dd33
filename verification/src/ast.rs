//! The syntax tree that the pass walks and rewrites.
//!
//! Nodes carry what the pass reads (names, positions, readonly annotations,
//! sub-expressions); type hints and other annotations are left out.

use vstd::prelude::*;
use crate::lattice::ReadonlyKind;

verus! {

/// A source range, as a pair of offsets.
#[derive(Clone, Copy, PartialEq, Eq, Debug, Structural)]
pub struct Pos {
    pub start: usize,
    pub end: usize,
}

/// Unary operators.
#[derive(Clone, Copy, PartialEq, Eq, Debug, Structural)]
pub enum Uop {
    Utild,
    Unot,
    Uplus,
    Uminus,
    Uincr,
    Udecr,
    Upincr,
    Updecr,
    Usilence,
}

/// The operator of a compound assignment such as `+=`.
#[derive(Clone, Copy, PartialEq, Eq, Debug, Structural)]
pub enum AssignOp {
    Plus,
    Minus,
    Star,
    Slash,
    Percent,
    Dot,
    QuestionQuestion,
}

/// Binary operators. `Eq(None)` is plain assignment, `Eq(Some(op))` a
/// compound assignment.
#[derive(Clone, Copy, PartialEq, Eq, Debug, Structural)]
pub enum Bop {
    Plus,
    Minus,
    Star,
    Slash,
    Percent,
    Dot,
    Eqeq,
    Eqeqeq,
    Diff,
    Diff2,
    Lt,
    Lte,
    Gt,
    Gte,
    Ampamp,
    Barbar,
    QuestionQuestion,
    Eq(Option<AssignOp>),
}

/// An expression node: a position and a tagged union over the syntax kinds.
#[derive(PartialEq, Eq, Debug)]
pub struct Expr {
    pub pos: Pos,
    pub kind: ExprKind,
}

/// A `key => value` entry of a keyed literal.
#[derive(PartialEq, Eq, Debug)]
pub struct Field {
    pub key: Expr,
    pub value: Expr,
}

/// An entry of a collection literal, with or without a key.
#[derive(PartialEq, Eq, Debug)]
pub enum Afield {
    Value(Expr),
    KeyValue(Expr, Expr),
}

/// A node without sub-expressions: a literal, a name or a placeholder.
#[derive(PartialEq, Eq, Debug)]
pub enum Leaf {
    Null,
    True,
    False,
    Omitted,
    Int(String),
    Float(String),
    Str(String),
    /// A global name.
    Id(String),
    /// `$$` inside a pipe.
    Dollardollar(String),
    /// `Class::$property`
    ClassGet(String, String),
    /// `Class::CONSTANT`
    ClassConst(String, String),
    FunctionPointer(String),
    FunId(String),
    MethodCaller(String, String),
    SmethodId(String, String),
    EnumClassLabel(String),
    Lplaceholder,
}

/// The kinds of node with exactly one sub-expression.
#[derive(PartialEq, Eq, Debug)]
pub enum UnaryKind {
    Clone,
    Await,
    /// An argument passed with an explicit convention (`inout`).
    Callconv,
    Import,
    ETSplice,
    /// A typing placeholder around an expression.
    Hole,
    /// `(hint) expr`
    Cast(String),
    Unop(Uop),
    /// `expr is hint`
    Is(String),
    /// `expr as hint`
    As(String),
    /// A string literal with a prefix, such as `re"..."`.
    PrefixedString(String),
    ExpressionTree(String),
    /// `inst_meth(expr, name)`
    MethodId(String),
}

/// The kinds of node made of a list of expressions.
#[derive(PartialEq, Eq, Debug)]
pub enum ListKind {
    /// `varray[v, ..]`
    Varray,
    /// `vec[..]`, `keyset[..]`, `Vector {..}`, ...
    ValCollection,
    Tuple,
    /// An interpolated string.
    String2,
    /// `list(..)`, only as a destructuring target.
    List,
    /// An XHP element with its children.
    Xml(String),
}

/// The kinds of literal made of `key => value` entries.
#[derive(PartialEq, Eq, Debug)]
pub enum FieldsKind {
    /// `darray[k => v, ..]`
    Darray,
    /// `shape('k' => v, ..)`
    Shape,
    /// `dict[..]`, `Map {..}`, ...
    KeyValCollection,
    Record(String),
}

/// What an expression node holds, by syntax kind.
#[derive(PartialEq, Eq, Debug)]
pub enum ExprKind {
    Leaf(Leaf),
    /// A local variable, by name (including `$this`).
    Lvar(String),
    This,
    /// An anonymous function. Opaque to the pass.
    Efun(Box<Fun>),
    /// A lambda. Opaque to the pass.
    Lfun(Box<Fun>),
    /// The explicit marker: `readonly expr`.
    ReadonlyExpr(Box<Expr>),
    Unary(UnaryKind, Box<Expr>),
    /// `object->member`
    ObjGet(Box<Expr>, Box<Expr>),
    /// `base[index]`; the index is absent in `base[] = ..`.
    ArrayGet(Box<Expr>, Option<Box<Expr>>),
    Binop(Bop, Box<Expr>, Box<Expr>),
    /// `lhs |> rhs`
    Pipe(Box<Expr>, Box<Expr>),
    Pair(Box<Expr>, Box<Expr>),
    /// `cond ? then : else`, or `cond ?: else` when the middle is absent.
    Eif(Box<Expr>, Option<Box<Expr>>, Box<Expr>),
    ExprList(ListKind, Vec<Expr>),
    FieldList(FieldsKind, Vec<Field>),
    /// `Name {entries}`
    Collection(String, Vec<Afield>),
    Yield(Box<Afield>),
    /// `callee(args.., ...unpacked)`
    Call(Box<Expr>, Vec<Expr>, Option<Box<Expr>>),
    /// `new Class(args.., ...unpacked)`
    New(String, Vec<Expr>, Option<Box<Expr>>),
}

/// A statement node: a position and a tagged union over the statement kinds.
#[derive(PartialEq, Eq, Debug)]
pub struct Stmt {
    pub pos: Pos,
    pub kind: StmtKind,
}

/// One arm of a `switch`; `label` is absent for `default`.
#[derive(PartialEq, Eq, Debug)]
pub struct Case {
    pub label: Option<Expr>,
    pub body: Vec<Stmt>,
}

/// One handler of a `try`: `catch (class_name var) { body }`.
#[derive(PartialEq, Eq, Debug)]
pub struct Catch {
    pub class_name: String,
    pub var: String,
    pub body: Vec<Stmt>,
}

/// What a statement node holds, by syntax kind.
#[derive(PartialEq, Eq, Debug)]
pub enum StmtKind {
    Fallthrough,
    Break,
    Continue,
    YieldBreak,
    Noop,
    Markup(String),
    Expr(Box<Expr>),
    Throw(Box<Expr>),
    Return(Option<Box<Expr>>),
    /// `concurrent { $x = await ..; .. }`
    Awaitall(Vec<Expr>, Vec<Stmt>),
    If(Box<Expr>, Vec<Stmt>, Vec<Stmt>),
    Do(Vec<Stmt>, Box<Expr>),
    While(Box<Expr>, Vec<Stmt>),
    Using(Vec<Expr>, Vec<Stmt>),
    /// `for (init; cond; step) body`
    For(Vec<Expr>, Option<Box<Expr>>, Vec<Expr>, Vec<Stmt>),
    Switch(Box<Expr>, Vec<Case>),
    /// `foreach (collection as binding) body`
    Foreach(Box<Expr>, Box<Afield>, Vec<Stmt>),
    Try(Vec<Stmt>, Vec<Catch>, Vec<Stmt>),
    Block(Vec<Stmt>),
}

/// A parameter, with its readonly annotation if it has one.
#[derive(PartialEq, Eq, Debug)]
pub struct FunParam {
    pub name: String,
    pub readonly: Option<ReadonlyKind>,
}

/// A free function (or the function inside a closure).
#[derive(PartialEq, Eq, Debug)]
pub struct Fun {
    pub name: String,
    pub readonly_this: Option<ReadonlyKind>,
    pub readonly_ret: Option<ReadonlyKind>,
    pub params: Vec<FunParam>,
    pub body: Vec<Stmt>,
}

/// A method of a class.
#[derive(PartialEq, Eq, Debug)]
pub struct Method {
    pub name: String,
    pub readonly_this: bool,
    pub readonly_ret: Option<ReadonlyKind>,
    pub params: Vec<FunParam>,
    pub body: Vec<Stmt>,
}

/// A class, as far as the pass looks at it: its methods.
#[derive(PartialEq, Eq, Debug)]
pub struct Class {
    pub name: String,
    pub methods: Vec<Method>,
}

/// A top-level declaration.
#[derive(PartialEq, Eq, Debug)]
pub enum Def {
    Fun(Fun),
    Class(Class),
    Stmt(Stmt),
    Constant(String, Expr),
    Typedef(String),
    Namespace(String, Vec<Def>),
}

/// A whole program: its top-level declarations, in source order.
#[derive(PartialEq, Eq, Debug)]
pub struct Program {
    pub defs: Vec<Def>,
}

} // verus!
