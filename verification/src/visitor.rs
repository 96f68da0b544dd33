//! The walker over expressions: a depth-first, pre-order traversal that
//! validates and rewrites the tree in place.

use vstd::prelude::*;
use crate::assign::{check_assignment_validity, explicit_readonly};
use crate::ast::{Afield, Bop, Expr, ExprKind, Field};
use crate::context::{Context, ContextView};
use crate::diagnostics::Checker;
use crate::view::{
    afields_view, exprs_view, fields_view, lemma_expr_view, opt_expr_view, ExprView,
};
use crate::walk::{
    assignment_target, explicit, explicit_all, lemma_visit_afields_upto, lemma_visit_args_upto,
    lemma_visit_expr, lemma_visit_exprs_upto, lemma_visit_fields_upto, visit_afield, visit_afields,
    visit_afields_upto, visit_args, visit_args_upto, visit_explicit, visit_expr, visit_exprs,
    visit_exprs_upto, visit_field, visit_fields, visit_fields_upto, visit_opt_expr, visit_target,
    Visited, Walk,
};

verus! {

/// The state of a walk, as held by a context and a collector.
pub open spec fn state(context: Context, checker: Checker) -> Walk {
    Walk { ctx: context@, errors: checker@ }
}

/// Makes every argument of a call explicit.
pub fn explicit_args(context: &Context, args: &mut Vec<Expr>)
    ensures
        exprs_view(final(args)@) == explicit_all(exprs_view(old(args)@), context@),
{
    let ghost orig = exprs_view(args@);
    let n = args.len();
    let mut i: usize = 0;
    while i < n
        invariant
            i <= n,
            n == args.len(),
            n == orig.len(),
            forall|j: int| i <= j < n ==> exprs_view(args@)[j] == orig[j],
            forall|j: int| 0 <= j < i ==> exprs_view(args@)[j] == explicit(orig[j], context@),
        decreases n - i,
    {
        let ghost before = exprs_view(args@);
        assert(before[i as int] == args[i as int]@);
        assert(before[i as int] == orig[i as int]);
        explicit_readonly(context, &mut args[i]);
        assert(exprs_view(args@)[i as int] == args[i as int]@);
        assert forall|j: int| 0 <= j < n && j != i implies exprs_view(args@)[j] == before[j] by {
            assert(exprs_view(args@)[j] == args@[j]@);
            assert(before[j] == args@[j]@);
        }
        assert forall|j: int| 0 <= j < i + 1 implies exprs_view(args@)[j] == explicit(
            orig[j],
            context@,
        ) by {
            if j < i {
                assert(exprs_view(args@)[j] == before[j]);
            }
        }
        i += 1;
    }
    assert(exprs_view(args@) =~= explicit_all(orig, context@));
}

impl Checker {
    /// Visits an expression that has just been made explicit under `ctx`:
    /// a marker has no rule of its own, so the walk goes on below it.
    fn visit_explicit(
        &mut self,
        context: &mut Context,
        e: &mut Expr,
        Ghost(orig): Ghost<ExprView>,
        Ghost(ctx): Ghost<ContextView>,
    )
        requires
            old(e)@ == explicit(orig, ctx),
        ensures
            visit_explicit(orig, ctx, state(*old(context), *old(self))) == (Visited {
                tree: final(e)@,
                walk: state(*final(context), *final(self)),
            }),
        decreases orig, 2nat,
    {
        proof {
            lemma_expr_view(*e);
            lemma_visit_expr(orig, state(*context, *self));
        }
        match &mut e.kind {
            ExprKind::ReadonlyExpr(inner) => self.visit_expr(context, inner),
            _ => self.visit_expr(context, e),
        }
        proof {
            lemma_expr_view(*e);
        }
    }

    /// Visits the target of an assignment that has just been validated under
    /// `ctx`.
    fn visit_target(
        &mut self,
        context: &mut Context,
        e: &mut Expr,
        Ghost(orig): Ghost<ExprView>,
        Ghost(ctx): Ghost<ContextView>,
    )
        requires
            old(e)@ == assignment_target(orig, ctx),
        ensures
            visit_target(orig, ctx, state(*old(context), *old(self))) == (Visited {
                tree: final(e)@,
                walk: state(*final(context), *final(self)),
            }),
        decreases orig, 3nat,
    {
        proof {
            lemma_expr_view(*e);
        }
        match &mut e.kind {
            ExprKind::ArrayGet(base, index) => {
                assert(opt_expr_view(*index) == orig.kind->ArrayGet_1);
                self.visit_explicit(context, base, Ghost(*orig.kind->ArrayGet_0), Ghost(ctx));
                self.visit_opt_expr(context, index);
            },
            _ => self.visit_expr(context, e),
        }
        proof {
            lemma_expr_view(*e);
        }
    }

    /// Visits the arguments of a call, which have been made explicit under
    /// `ctx`.
    fn visit_args(
        &mut self,
        context: &mut Context,
        args: &mut Vec<Expr>,
        Ghost(orig): Ghost<Seq<ExprView>>,
        Ghost(ctx): Ghost<ContextView>,
    )
        requires
            exprs_view(old(args)@) == explicit_all(orig, ctx),
        ensures
            visit_args(orig, ctx, state(*old(context), *old(self))) == (Visited {
                tree: exprs_view(final(args)@),
                walk: state(*final(context), *final(self)),
            }),
        decreases orig, orig.len(),
    {
        let ghost start = exprs_view(args@);
        let ghost w = state(*context, *self);
        let n = args.len();
        assert(start.len() == n);
        assert(explicit_all(orig, ctx).len() == orig.len());
        proof {
            lemma_visit_args_upto(orig, 0, ctx, w);
        }
        let mut i: usize = 0;
        while i < n
            invariant
                i <= n,
                n == args.len(),
                n == orig.len(),
                start == explicit_all(orig, ctx),
                forall|j: int| i <= j < n ==> exprs_view(args@)[j] == start[j],
                visit_args_upto(orig, i as nat, ctx, w).tree == exprs_view(args@).subrange(0, i as int),
                visit_args_upto(orig, i as nat, ctx, w).walk == state(*context, *self),
            decreases n - i,
        {
            let ghost before = exprs_view(args@);
            assert(before[i as int] == args[i as int]@);
            assert(start[i as int] == explicit(orig[i as int], ctx));
            self.visit_explicit(context, &mut args[i], Ghost(orig[i as int]), Ghost(ctx));
            proof {
                lemma_visit_args_upto(orig, (i + 1) as nat, ctx, w);
            }
            assert(exprs_view(args@)[i as int] == args[i as int]@);
            assert forall|j: int| 0 <= j < n && j != i implies exprs_view(args@)[j] == before[j] by {
                assert(exprs_view(args@)[j] == args@[j]@);
                assert(before[j] == args@[j]@);
            }
            assert(exprs_view(args@).subrange(0, i + 1) =~= before.subrange(0, i as int).push(
                exprs_view(args@)[i as int],
            ));
            i += 1;
        }
        assert(exprs_view(args@).subrange(0, n as int) =~= exprs_view(args@));
    }

    /// Visits an expression that may be absent.
    pub fn visit_opt_expr(&mut self, context: &mut Context, o: &mut Option<Box<Expr>>)
        ensures
            visit_opt_expr(opt_expr_view(*old(o)), state(*old(context), *old(self))) == (Visited {
                tree: opt_expr_view(*final(o)),
                walk: state(*final(context), *final(self)),
            }),
        decreases opt_expr_view(*old(o)), 0nat,
    {
        match o {
            Some(e) => self.visit_expr(context, e),
            None => {},
        }
    }

    /// Visits a `key => value` entry, key first.
    pub fn visit_field(&mut self, context: &mut Context, f: &mut Field)
        ensures
            visit_field(old(f)@, state(*old(context), *old(self))) == (Visited {
                tree: final(f)@,
                walk: state(*final(context), *final(self)),
            }),
        decreases old(f)@, 0nat,
    {
        self.visit_expr(context, &mut f.key);
        self.visit_expr(context, &mut f.value);
    }

    /// Visits an entry of a collection literal: its key, if it has one, then
    /// its value.
    pub fn visit_afield(&mut self, context: &mut Context, f: &mut Afield)
        ensures
            visit_afield(old(f)@, state(*old(context), *old(self))) == (Visited {
                tree: final(f)@,
                walk: state(*final(context), *final(self)),
            }),
        decreases old(f)@, 0nat,
    {
        match f {
            Afield::Value(e) => {
                self.visit_expr(context, e);
            },
            Afield::KeyValue(k, v) => {
                self.visit_expr(context, k);
                self.visit_expr(context, v);
            },
        }
    }

    /// Visits the expressions of a list, in order.
    pub fn visit_exprs(&mut self, context: &mut Context, exprs: &mut Vec<Expr>)
        ensures
            visit_exprs(exprs_view(old(exprs)@), state(*old(context), *old(self))) == (Visited {
                tree: exprs_view(final(exprs)@),
                walk: state(*final(context), *final(self)),
            }),
        decreases exprs_view(old(exprs)@), exprs_view(old(exprs)@).len(),
    {
        let ghost orig = exprs_view(exprs@);
        let ghost w = state(*context, *self);
        let n = exprs.len();
        proof {
            lemma_visit_exprs_upto(orig, 0, w);
        }
        let mut i: usize = 0;
        while i < n
            invariant
                i <= n,
                n == exprs.len(),
                n == orig.len(),
                orig == exprs_view(old(exprs)@),
                forall|j: int| i <= j < n ==> exprs_view(exprs@)[j] == orig[j],
                visit_exprs_upto(orig, i as nat, w).tree == exprs_view(exprs@).subrange(0, i as int),
                visit_exprs_upto(orig, i as nat, w).walk == state(*context, *self),
            decreases n - i,
        {
            let ghost before = exprs_view(exprs@);
            assert(before[i as int] == exprs[i as int]@);
            assert(exprs[i as int]@ == orig[i as int]);
            self.visit_expr(context, &mut exprs[i]);
            proof {
                lemma_visit_exprs_upto(orig, (i + 1) as nat, w);
            }
            assert(exprs_view(exprs@)[i as int] == exprs[i as int]@);
            assert forall|j: int| 0 <= j < n && j != i implies exprs_view(exprs@)[j] == before[j] by {
                assert(exprs_view(exprs@)[j] == exprs@[j]@);
                assert(before[j] == exprs@[j]@);
            }
            assert(exprs_view(exprs@).subrange(0, i + 1) =~= before.subrange(0, i as int).push(
                exprs_view(exprs@)[i as int],
            ));
            i += 1;
        }
        assert(exprs_view(exprs@).subrange(0, n as int) =~= exprs_view(exprs@));
    }

    /// Visits the entries of a keyed literal, in order.
    pub fn visit_fields(&mut self, context: &mut Context, fields: &mut Vec<Field>)
        ensures
            visit_fields(fields_view(old(fields)@), state(*old(context), *old(self))) == (Visited {
                tree: fields_view(final(fields)@),
                walk: state(*final(context), *final(self)),
            }),
        decreases fields_view(old(fields)@), fields_view(old(fields)@).len(),
    {
        let ghost orig = fields_view(fields@);
        let ghost w = state(*context, *self);
        let n = fields.len();
        proof {
            lemma_visit_fields_upto(orig, 0, w);
        }
        let mut i: usize = 0;
        while i < n
            invariant
                i <= n,
                n == fields.len(),
                n == orig.len(),
                orig == fields_view(old(fields)@),
                forall|j: int| i <= j < n ==> fields_view(fields@)[j] == orig[j],
                visit_fields_upto(orig, i as nat, w).tree == fields_view(fields@).subrange(0, i as int),
                visit_fields_upto(orig, i as nat, w).walk == state(*context, *self),
            decreases n - i,
        {
            let ghost before = fields_view(fields@);
            assert(before[i as int] == fields[i as int]@);
            assert(fields[i as int]@ == orig[i as int]);
            self.visit_field(context, &mut fields[i]);
            proof {
                lemma_visit_fields_upto(orig, (i + 1) as nat, w);
            }
            assert(fields_view(fields@)[i as int] == fields[i as int]@);
            assert forall|j: int| 0 <= j < n && j != i implies fields_view(fields@)[j] == before[j] by {
                assert(fields_view(fields@)[j] == fields@[j]@);
                assert(before[j] == fields@[j]@);
            }
            assert(fields_view(fields@).subrange(0, i + 1) =~= before.subrange(0, i as int).push(
                fields_view(fields@)[i as int],
            ));
            i += 1;
        }
        assert(fields_view(fields@).subrange(0, n as int) =~= fields_view(fields@));
    }

    /// Visits the entries of a collection literal, in order.
    pub fn visit_afields(&mut self, context: &mut Context, entries: &mut Vec<Afield>)
        ensures
            visit_afields(afields_view(old(entries)@), state(*old(context), *old(self))) == (Visited {
                tree: afields_view(final(entries)@),
                walk: state(*final(context), *final(self)),
            }),
        decreases afields_view(old(entries)@), afields_view(old(entries)@).len(),
    {
        let ghost orig = afields_view(entries@);
        let ghost w = state(*context, *self);
        let n = entries.len();
        proof {
            lemma_visit_afields_upto(orig, 0, w);
        }
        let mut i: usize = 0;
        while i < n
            invariant
                i <= n,
                n == entries.len(),
                n == orig.len(),
                orig == afields_view(old(entries)@),
                forall|j: int| i <= j < n ==> afields_view(entries@)[j] == orig[j],
                visit_afields_upto(orig, i as nat, w).tree == afields_view(entries@).subrange(0, i as int),
                visit_afields_upto(orig, i as nat, w).walk == state(*context, *self),
            decreases n - i,
        {
            let ghost before = afields_view(entries@);
            assert(before[i as int] == entries[i as int]@);
            assert(entries[i as int]@ == orig[i as int]);
            self.visit_afield(context, &mut entries[i]);
            proof {
                lemma_visit_afields_upto(orig, (i + 1) as nat, w);
            }
            assert(afields_view(entries@)[i as int] == entries[i as int]@);
            assert forall|j: int| 0 <= j < n && j != i implies afields_view(entries@)[j] == before[j] by {
                assert(afields_view(entries@)[j] == entries@[j]@);
                assert(before[j] == entries@[j]@);
            }
            assert(afields_view(entries@).subrange(0, i + 1) =~= before.subrange(0, i as int).push(
                afields_view(entries@)[i as int],
            ));
            i += 1;
        }
        assert(afields_view(entries@).subrange(0, n as int) =~= afields_view(entries@));
    }

    /// Visits an expression: an assignment is validated, the arguments of a
    /// call are made explicit, and then every child is visited in turn.
    pub fn visit_expr(&mut self, context: &mut Context, p: &mut Expr)
        ensures
            visit_expr(old(p)@, state(*old(context), *old(self))) == (Visited {
                tree: final(p)@,
                walk: state(*final(context), *final(self)),
            }),
        decreases old(p)@, 1nat,
    {
        let pos = p.pos;
        let ghost ctx = context@;
        proof {
            lemma_expr_view(*p);
            lemma_visit_expr(p@, state(*context, *self));
        }
        match &mut p.kind {
            ExprKind::Binop(bop, lhs, rhs) => {
                if let Bop::Eq(_) = bop {
                    let ghost l = lhs@;
                    let ghost r = rhs@;
                    proof {
                        lemma_expr_view(**lhs);
                    }
                    let value_is_explicit = match &lhs.kind {
                        ExprKind::ObjGet(_, _) | ExprKind::ArrayGet(_, _) => true,
                        _ => false,
                    };
                    check_assignment_validity(context, self, &pos, lhs, rhs);
                    self.visit_target(context, lhs, Ghost(l), Ghost(ctx));
                    if value_is_explicit {
                        self.visit_explicit(context, rhs, Ghost(r), Ghost(ctx));
                    } else {
                        self.visit_expr(context, rhs);
                    }
                } else {
                    self.visit_expr(context, lhs);
                    self.visit_expr(context, rhs);
                }
            },
            ExprKind::Call(callee, args, unpacked) => {
                let ghost a = exprs_view(args@);
                assert(opt_expr_view(*unpacked) == old(p)@.kind->Call_2);
                explicit_args(context, args);
                self.visit_expr(context, callee);
                self.visit_args(context, args, Ghost(a), Ghost(ctx));
                self.visit_opt_expr(context, unpacked);
            },
            // Closures are opaque to the pass.
            ExprKind::Efun(_) | ExprKind::Lfun(_) => {},
            ExprKind::Leaf(_) | ExprKind::Lvar(_) | ExprKind::This => {},
            ExprKind::ReadonlyExpr(e) => self.visit_expr(context, e),
            ExprKind::Unary(_, e) => self.visit_expr(context, e),
            ExprKind::ObjGet(obj, member) => {
                self.visit_expr(context, obj);
                self.visit_expr(context, member);
            },
            ExprKind::ArrayGet(base, index) => {
                assert(opt_expr_view(*index) == old(p)@.kind->ArrayGet_1);
                self.visit_expr(context, base);
                self.visit_opt_expr(context, index);
            },
            ExprKind::Pipe(lhs, rhs) => {
                self.visit_expr(context, lhs);
                self.visit_expr(context, rhs);
            },
            ExprKind::Pair(a, b) => {
                self.visit_expr(context, a);
                self.visit_expr(context, b);
            },
            ExprKind::Eif(cond, then, otherwise) => {
                assert(opt_expr_view(*then) == old(p)@.kind->Eif_1);
                self.visit_expr(context, cond);
                self.visit_opt_expr(context, then);
                self.visit_expr(context, otherwise);
            },
            ExprKind::ExprList(_, es) => self.visit_exprs(context, es),
            ExprKind::FieldList(_, fs) => self.visit_fields(context, fs),
            ExprKind::Collection(_, fs) => self.visit_afields(context, fs),
            ExprKind::Yield(f) => self.visit_afield(context, f),
            ExprKind::New(_, args, unpacked) => {
                assert(opt_expr_view(*unpacked) == old(p)@.kind->New_2);
                self.visit_exprs(context, args);
                self.visit_opt_expr(context, unpacked);
            },
        }
        proof {
            lemma_expr_view(*p);
        }
    }
}

} // verus!
