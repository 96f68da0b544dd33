//! The walker over declarations, and the entry point of the pass.

use vstd::prelude::*;
use crate::ast::{Class, Def, Fun, Method, Program};
use crate::context::{Context, ScopeKind};
use crate::diagnostics::{Checker, Diagnostic, diagnostics_view};
use crate::lattice::Rty;
use crate::view::{defs_view, methods_view};
use crate::visitor::state;
use crate::walk::{
    lemma_visit_defs_upto, lemma_visit_methods_upto, visit_class, visit_def, visit_defs,
    visit_defs_upto, visit_fun, visit_method, visit_methods, visit_methods_upto, visit_program,
    Visited,
};

verus! {

impl Checker {
    /// Visits a method: its body is walked in a context of its own, made
    /// from what the method declares and seeded with its parameters. The
    /// context of the caller is not touched.
    pub fn visit_method_(&mut self, context: &mut Context, m: &mut Method)
        ensures
            visit_method(old(m)@, state(*old(context), *old(self))) == (Visited {
                tree: final(m)@,
                walk: state(*final(context), *final(self)),
            }),
    {
        let kind = ScopeKind::Method {
            readonly_this: m.readonly_this,
            readonly_ret: m.readonly_ret,
        };
        let mut scope = Context::for_scope(kind, &m.params);
        self.visit_block(&mut scope, &mut m.body);
    }

    /// Visits a function, as [`Checker::visit_method_`] does a method.
    pub fn visit_fun_(&mut self, context: &mut Context, f: &mut Fun)
        ensures
            visit_fun(old(f)@, state(*old(context), *old(self))) == (Visited {
                tree: final(f)@,
                walk: state(*final(context), *final(self)),
            }),
    {
        let kind = ScopeKind::Function {
            readonly_this: f.readonly_this,
            readonly_ret: f.readonly_ret,
        };
        let mut scope = Context::for_scope(kind, &f.params);
        self.visit_block(&mut scope, &mut f.body);
    }

    /// Visits the methods of a class, in order.
    pub fn visit_methods(&mut self, context: &mut Context, methods: &mut Vec<Method>)
        ensures
            visit_methods(methods_view(old(methods)@), state(*old(context), *old(self))) == (Visited {
                tree: methods_view(final(methods)@),
                walk: state(*final(context), *final(self)),
            }),
    {
        let ghost orig = methods_view(methods@);
        let ghost w = state(*context, *self);
        let n = methods.len();
        proof {
            lemma_visit_methods_upto(orig, 0, w);
        }
        let mut i: usize = 0;
        while i < n
            invariant
                i <= n,
                n == methods.len(),
                n == orig.len(),
                forall|j: int| i <= j < n ==> methods_view(methods@)[j] == orig[j],
                visit_methods_upto(orig, i as nat, w).tree == methods_view(methods@).subrange(
                    0,
                    i as int,
                ),
                visit_methods_upto(orig, i as nat, w).walk == state(*context, *self),
            decreases n - i,
        {
            let ghost before = methods_view(methods@);
            assert(before[i as int] == methods[i as int]@);
            self.visit_method_(context, &mut methods[i]);
            proof {
                lemma_visit_methods_upto(orig, (i + 1) as nat, w);
            }
            assert(methods_view(methods@)[i as int] == methods[i as int]@);
            assert forall|j: int| 0 <= j < n && j != i implies methods_view(methods@)[j]
                == before[j] by {
                assert(methods_view(methods@)[j] == methods@[j]@);
                assert(before[j] == methods@[j]@);
            }
            assert(methods_view(methods@).subrange(0, i + 1) =~= before.subrange(0, i as int).push(
                methods_view(methods@)[i as int],
            ));
            i += 1;
        }
        assert(methods_view(methods@).subrange(0, n as int) =~= methods_view(methods@));
    }

    /// Visits a class: each of its methods, in order.
    pub fn visit_class(&mut self, context: &mut Context, c: &mut Class)
        ensures
            visit_class(old(c)@, state(*old(context), *old(self))) == (Visited {
                tree: final(c)@,
                walk: state(*final(context), *final(self)),
            }),
    {
        self.visit_methods(context, &mut c.methods);
    }

    /// Visits the declarations of a program or of a namespace, in order.
    pub fn visit_defs(&mut self, context: &mut Context, defs: &mut Vec<Def>)
        ensures
            visit_defs(defs_view(old(defs)@), state(*old(context), *old(self))) == (Visited {
                tree: defs_view(final(defs)@),
                walk: state(*final(context), *final(self)),
            }),
        decreases defs_view(old(defs)@), defs_view(old(defs)@).len(),
    {
        let ghost orig = defs_view(defs@);
        let ghost w = state(*context, *self);
        let n = defs.len();
        proof {
            lemma_visit_defs_upto(orig, 0, w);
        }
        let mut i: usize = 0;
        while i < n
            invariant
                i <= n,
                n == defs.len(),
                n == orig.len(),
                orig == defs_view(old(defs)@),
                forall|j: int| i <= j < n ==> defs_view(defs@)[j] == orig[j],
                visit_defs_upto(orig, i as nat, w).tree == defs_view(defs@).subrange(0, i as int),
                visit_defs_upto(orig, i as nat, w).walk == state(*context, *self),
            decreases n - i,
        {
            let ghost before = defs_view(defs@);
            assert(before[i as int] == defs[i as int]@);
            assert(defs[i as int]@ == orig[i as int]);
            self.visit_def(context, &mut defs[i]);
            proof {
                lemma_visit_defs_upto(orig, (i + 1) as nat, w);
            }
            assert(defs_view(defs@)[i as int] == defs[i as int]@);
            assert forall|j: int| 0 <= j < n && j != i implies defs_view(defs@)[j] == before[j] by {
                assert(defs_view(defs@)[j] == defs@[j]@);
                assert(before[j] == defs@[j]@);
            }
            assert(defs_view(defs@).subrange(0, i + 1) =~= before.subrange(0, i as int).push(
                defs_view(defs@)[i as int],
            ));
            i += 1;
        }
        assert(defs_view(defs@).subrange(0, n as int) =~= defs_view(defs@));
    }

    /// Visits a top-level declaration. Functions and methods open a scope of
    /// their own. Statements and constants outside any function are walked
    /// in the context handed in.
    pub fn visit_def(&mut self, context: &mut Context, d: &mut Def)
        ensures
            visit_def(old(d)@, state(*old(context), *old(self))) == (Visited {
                tree: final(d)@,
                walk: state(*final(context), *final(self)),
            }),
        decreases old(d)@, 0nat,
    {
        match d {
            Def::Fun(f) => self.visit_fun_(context, f),
            Def::Class(c) => self.visit_class(context, c),
            Def::Stmt(s) => self.visit_stmt(context, s),
            Def::Constant(_, e) => self.visit_expr(context, e),
            Def::Typedef(_) => {},
            Def::Namespace(_, ds) => self.visit_defs(context, ds),
        }
    }
}

/// Runs the pass over a program: the tree is rewritten in place and the
/// diagnostics are returned in the order of the walk.
pub fn check_program(program: &mut Program) -> (errors: Vec<Diagnostic>)
    ensures
        final(program)@ == visit_program(old(program)@).tree,
        diagnostics_view(errors@) == visit_program(old(program)@).walk.errors,
{
    let mut checker = Checker::new();
    let mut context = Context::new(Rty::Mutable, Rty::Mutable);
    checker.visit_defs(&mut context, &mut program.defs);
    checker.errors
}

} // verus!
