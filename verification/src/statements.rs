//! The walker over statements.

use vstd::prelude::*;
use crate::ast::{Case, Catch, Stmt, StmtKind};
use crate::classify::rty_expr;
use crate::context::Context;
use crate::diagnostics::Checker;
use crate::view::{
    cases_view, catches_view, lemma_expr_view, lemma_stmt_view, opt_expr_view, stmts_view,
};
use crate::visitor::state;
use crate::walk::{
    lemma_visit_block_upto, lemma_visit_cases_upto, lemma_visit_catches_upto, visit_block,
    lemma_visit_stmt, visit_block_upto, visit_case, visit_cases, visit_cases_upto, visit_catch,
    visit_catches, visit_catches_upto, visit_stmt, Visited,
};

verus! {

impl Checker {
    /// Visits the statements of a block, in order.
    pub fn visit_block(&mut self, context: &mut Context, block: &mut Vec<Stmt>)
        ensures
            visit_block(stmts_view(old(block)@), state(*old(context), *old(self))) == (Visited {
                tree: stmts_view(final(block)@),
                walk: state(*final(context), *final(self)),
            }),
        decreases stmts_view(old(block)@), stmts_view(old(block)@).len(),
    {
        let ghost orig = stmts_view(block@);
        let ghost w = state(*context, *self);
        let n = block.len();
        proof {
            lemma_visit_block_upto(orig, 0, w);
        }
        let mut i: usize = 0;
        while i < n
            invariant
                i <= n,
                n == block.len(),
                n == orig.len(),
                orig == stmts_view(old(block)@),
                forall|j: int| i <= j < n ==> stmts_view(block@)[j] == orig[j],
                visit_block_upto(orig, i as nat, w).tree == stmts_view(block@).subrange(0, i as int),
                visit_block_upto(orig, i as nat, w).walk == state(*context, *self),
            decreases n - i,
        {
            let ghost before = stmts_view(block@);
            assert(before[i as int] == block[i as int]@);
            assert(block[i as int]@ == orig[i as int]);
            self.visit_stmt(context, &mut block[i]);
            proof {
                lemma_visit_block_upto(orig, (i + 1) as nat, w);
            }
            assert(stmts_view(block@)[i as int] == block[i as int]@);
            assert forall|j: int| 0 <= j < n && j != i implies stmts_view(block@)[j] == before[j] by {
                assert(stmts_view(block@)[j] == block@[j]@);
                assert(before[j] == block@[j]@);
            }
            assert(stmts_view(block@).subrange(0, i + 1) =~= before.subrange(0, i as int).push(
                stmts_view(block@)[i as int],
            ));
            i += 1;
        }
        assert(stmts_view(block@).subrange(0, n as int) =~= stmts_view(block@));
    }

    /// Visits the arms of a `switch`, in order.
    pub fn visit_cases(&mut self, context: &mut Context, cases: &mut Vec<Case>)
        ensures
            visit_cases(cases_view(old(cases)@), state(*old(context), *old(self))) == (Visited {
                tree: cases_view(final(cases)@),
                walk: state(*final(context), *final(self)),
            }),
        decreases cases_view(old(cases)@), cases_view(old(cases)@).len(),
    {
        let ghost orig = cases_view(cases@);
        let ghost w = state(*context, *self);
        let n = cases.len();
        proof {
            lemma_visit_cases_upto(orig, 0, w);
        }
        let mut i: usize = 0;
        while i < n
            invariant
                i <= n,
                n == cases.len(),
                n == orig.len(),
                orig == cases_view(old(cases)@),
                forall|j: int| i <= j < n ==> cases_view(cases@)[j] == orig[j],
                visit_cases_upto(orig, i as nat, w).tree == cases_view(cases@).subrange(0, i as int),
                visit_cases_upto(orig, i as nat, w).walk == state(*context, *self),
            decreases n - i,
        {
            let ghost before = cases_view(cases@);
            assert(before[i as int] == cases[i as int]@);
            assert(cases[i as int]@ == orig[i as int]);
            self.visit_case(context, &mut cases[i]);
            proof {
                lemma_visit_cases_upto(orig, (i + 1) as nat, w);
            }
            assert(cases_view(cases@)[i as int] == cases[i as int]@);
            assert forall|j: int| 0 <= j < n && j != i implies cases_view(cases@)[j] == before[j] by {
                assert(cases_view(cases@)[j] == cases@[j]@);
                assert(before[j] == cases@[j]@);
            }
            assert(cases_view(cases@).subrange(0, i + 1) =~= before.subrange(0, i as int).push(
                cases_view(cases@)[i as int],
            ));
            i += 1;
        }
        assert(cases_view(cases@).subrange(0, n as int) =~= cases_view(cases@));
    }

    /// Visits the handlers of a `try`, in order.
    pub fn visit_catches(&mut self, context: &mut Context, catches: &mut Vec<Catch>)
        ensures
            visit_catches(catches_view(old(catches)@), state(*old(context), *old(self))) == (Visited {
                tree: catches_view(final(catches)@),
                walk: state(*final(context), *final(self)),
            }),
        decreases catches_view(old(catches)@), catches_view(old(catches)@).len(),
    {
        let ghost orig = catches_view(catches@);
        let ghost w = state(*context, *self);
        let n = catches.len();
        proof {
            lemma_visit_catches_upto(orig, 0, w);
        }
        let mut i: usize = 0;
        while i < n
            invariant
                i <= n,
                n == catches.len(),
                n == orig.len(),
                orig == catches_view(old(catches)@),
                forall|j: int| i <= j < n ==> catches_view(catches@)[j] == orig[j],
                visit_catches_upto(orig, i as nat, w).tree == catches_view(catches@).subrange(0, i as int),
                visit_catches_upto(orig, i as nat, w).walk == state(*context, *self),
            decreases n - i,
        {
            let ghost before = catches_view(catches@);
            assert(before[i as int] == catches[i as int]@);
            assert(catches[i as int]@ == orig[i as int]);
            self.visit_catch(context, &mut catches[i]);
            proof {
                lemma_visit_catches_upto(orig, (i + 1) as nat, w);
            }
            assert(catches_view(catches@)[i as int] == catches[i as int]@);
            assert forall|j: int| 0 <= j < n && j != i implies catches_view(catches@)[j] == before[j] by {
                assert(catches_view(catches@)[j] == catches@[j]@);
                assert(before[j] == catches@[j]@);
            }
            assert(catches_view(catches@).subrange(0, i + 1) =~= before.subrange(0, i as int).push(
                catches_view(catches@)[i as int],
            ));
            i += 1;
        }
        assert(catches_view(catches@).subrange(0, n as int) =~= catches_view(catches@));
    }

    /// Visits one arm of a `switch`: its label, if it has one, then its body.
    pub fn visit_case(&mut self, context: &mut Context, c: &mut Case)
        ensures
            visit_case(old(c)@, state(*old(context), *old(self))) == (Visited {
                tree: final(c)@,
                walk: state(*final(context), *final(self)),
            }),
        decreases old(c)@, 0nat,
    {
        match &mut c.label {
            Some(e) => self.visit_expr(context, e),
            None => {},
        }
        self.visit_block(context, &mut c.body);
    }

    /// Visits one handler of a `try`.
    pub fn visit_catch(&mut self, context: &mut Context, c: &mut Catch)
        ensures
            visit_catch(old(c)@, state(*old(context), *old(self))) == (Visited {
                tree: final(c)@,
                walk: state(*final(context), *final(self)),
            }),
        decreases old(c)@, 0nat,
    {
        self.visit_block(context, &mut c.body);
    }

    /// Visits a statement: a `return` with a value is checked against what
    /// the scope declared, and then every child is visited in turn.
    pub fn visit_stmt(&mut self, context: &mut Context, s: &mut Stmt)
        ensures
            visit_stmt(old(s)@, state(*old(context), *old(self))) == (Visited {
                tree: final(s)@,
                walk: state(*final(context), *final(self)),
            }),
        decreases old(s)@, 1nat,
    {
        proof {
            lemma_stmt_view(*s);
            lemma_visit_stmt(s@, state(*context, *self));
        }
        match &mut s.kind {
            StmtKind::Return(r) => {
                assert(opt_expr_view(*r) == old(s)@.kind->Return_0);
                match r {
                    Some(expr) => {
                        proof {
                            lemma_expr_view(**expr);
                        }
                        let returned = rty_expr(context, expr);
                        let declared = context.readonly_return();
                        self.subtype(
                            &expr.pos,
                            &returned,
                            &declared,
                            "this function does not return readonly. Please mark it to return readonly if needed.",
                        );
                        self.visit_expr(context, expr);
                    },
                    None => {},
                }
            },
            StmtKind::Fallthrough
            | StmtKind::Break
            | StmtKind::Continue
            | StmtKind::YieldBreak
            | StmtKind::Noop
            | StmtKind::Markup(_) => {},
            StmtKind::Expr(e) => self.visit_expr(context, e),
            StmtKind::Throw(e) => self.visit_expr(context, e),
            StmtKind::Awaitall(es, body) => {
                self.visit_exprs(context, es);
                self.visit_block(context, body);
            },
            StmtKind::If(cond, then, otherwise) => {
                self.visit_expr(context, cond);
                self.visit_block(context, then);
                self.visit_block(context, otherwise);
            },
            StmtKind::Do(body, cond) => {
                self.visit_block(context, body);
                self.visit_expr(context, cond);
            },
            StmtKind::While(cond, body) => {
                self.visit_expr(context, cond);
                self.visit_block(context, body);
            },
            StmtKind::Using(es, body) => {
                self.visit_exprs(context, es);
                self.visit_block(context, body);
            },
            StmtKind::For(init, cond, step, body) => {
                assert(opt_expr_view(*cond) == old(s)@.kind->For_1);
                self.visit_exprs(context, init);
                self.visit_opt_expr(context, cond);
                self.visit_exprs(context, step);
                self.visit_block(context, body);
            },
            StmtKind::Switch(e, cases) => {
                self.visit_expr(context, e);
                self.visit_cases(context, cases);
            },
            StmtKind::Foreach(e, binding, body) => {
                self.visit_expr(context, e);
                self.visit_afield(context, binding);
                self.visit_block(context, body);
            },
            StmtKind::Try(body, catches, finally) => {
                self.visit_block(context, body);
                self.visit_catches(context, catches);
                self.visit_block(context, finally);
            },
            StmtKind::Block(body) => self.visit_block(context, body),
        }
        proof {
            lemma_stmt_view(*s);
        }
    }
}

} // verus!
