//! The state of one scope: what the function or method declared, and the
//! mutability that each local was bound to at its first write.

use vstd::prelude::*;
use vstd::hash_map::StringHashMap;
use crate::ast::FunParam;
use crate::lattice::{annotation_rty, flag_rty, ro_kind_to_rty, rty_of_flag, ReadonlyKind, Rty};
use crate::view::{params_view, FunParamView};

verus! {

/// The mathematical content of a [`Context`].
pub struct ContextView {
    /// For each local written so far, whether its first write was readonly.
    pub locals: Map<Seq<char>, bool>,
    pub readonly_return: Rty,
    pub this_ty: Rty,
}

impl ContextView {
    /// A scope with the given return requirement and `this` mutability, and
    /// no local bound yet.
    pub open spec fn new(readonly_return: Rty, this_ty: Rty) -> ContextView {
        ContextView { locals: Map::empty(), readonly_return, this_ty }
    }

    /// No write to the local has been seen yet.
    pub open spec fn is_new_local(self, name: Seq<char>) -> bool {
        !self.locals.contains_key(name)
    }

    /// A local that was never written counts as mutable.
    pub open spec fn is_readonly(self, name: Seq<char>) -> bool {
        self.locals.contains_key(name) && self.locals[name]
    }

    /// First write wins: a name that is already bound keeps its binding.
    pub open spec fn add_local(self, name: Seq<char>, is_readonly: bool) -> ContextView {
        if self.locals.contains_key(name) {
            self
        } else {
            ContextView { locals: self.locals.insert(name, is_readonly), ..self }
        }
    }

    /// The context after binding the first `n` parameters, in order.
    pub open spec fn seed_params(self, params: Seq<FunParamView>, n: nat) -> ContextView
        decreases n,
    {
        if n == 0 || n > params.len() {
            self
        } else {
            let p = params[n - 1];
            self.seed_params(params, (n - 1) as nat).add_local(p.name, p.readonly is Some)
        }
    }
}

/// A function or a method, with the annotations that fix the scope's return
/// requirement and the mutability of `this`.
#[derive(Clone, Copy, PartialEq, Eq, Debug, Structural)]
#[allow(inconsistent_fields)]
pub enum ScopeKind {
    Function { readonly_this: Option<ReadonlyKind>, readonly_ret: Option<ReadonlyKind> },
    Method { readonly_this: bool, readonly_ret: Option<ReadonlyKind> },
}

impl ScopeKind {
    /// What the declaration says about its return value.
    pub open spec fn readonly_return(self) -> Rty {
        match self {
            ScopeKind::Function { readonly_ret, .. } => annotation_rty(readonly_ret),
            ScopeKind::Method { readonly_ret, .. } => annotation_rty(readonly_ret),
        }
    }

    /// What the declaration says about `this`.
    pub open spec fn this_ty(self) -> Rty {
        match self {
            ScopeKind::Function { readonly_this, .. } => annotation_rty(readonly_this),
            ScopeKind::Method { readonly_this, .. } => flag_rty(readonly_this),
        }
    }
}

/// The context in which the body of a declaration is walked: fresh, and
/// seeded with one binding per parameter.
pub open spec fn scope_context(kind: ScopeKind, params: Seq<FunParamView>) -> ContextView {
    ContextView::new(kind.readonly_return(), kind.this_ty()).seed_params(params, params.len())
}

/// The context used outside any function or method.
pub open spec fn toplevel_context() -> ContextView {
    ContextView::new(Rty::Mutable, Rty::Mutable)
}

/// The state of the scope that is being walked.
pub struct Context {
    locals: StringHashMap<bool>,
    readonly_return: Rty,
    this_ty: Rty,
}

impl View for Context {
    type V = ContextView;

    closed spec fn view(&self) -> ContextView {
        ContextView {
            locals: self.locals@,
            readonly_return: self.readonly_return,
            this_ty: self.this_ty,
        }
    }
}

impl Context {
    /// A scope with the given return requirement and `this` mutability, and no
    /// local bound yet.
    pub fn new(readonly_ret: Rty, this_ty: Rty) -> (r: Context)
        ensures
            r@ == ContextView::new(readonly_ret, this_ty),
    {
        Context { locals: StringHashMap::new(), readonly_return: readonly_ret, this_ty }
    }

    /// The context for the body of a function or method.
    pub fn for_scope(kind: ScopeKind, params: &Vec<FunParam>) -> (r: Context)
        ensures
            r@ == scope_context(kind, params_view(params@)),
    {
        let (readonly_return, this_ty) = match kind {
            ScopeKind::Function { readonly_this, readonly_ret } => (
                ro_kind_to_rty(readonly_ret),
                ro_kind_to_rty(readonly_this),
            ),
            ScopeKind::Method { readonly_this, readonly_ret } => (
                ro_kind_to_rty(readonly_ret),
                rty_of_flag(readonly_this),
            ),
        };
        let mut context = Context::new(readonly_return, this_ty);
        let ghost start = context@;
        let n = params.len();
        let mut i: usize = 0;
        while i < n
            invariant
                i <= n,
                n == params.len(),
                start == ContextView::new(kind.readonly_return(), kind.this_ty()),
                context@ == start.seed_params(params_view(params@), i as nat),
            decreases n - i,
        {
            let p = &params[i];
            if let Some(_) = p.readonly {
                context.add_local(&p.name, true)
            } else {
                context.add_local(&p.name, false)
            }
            i += 1;
        }
        context
    }

    /// Binds a local at its first write. A local that is bound already keeps
    /// its binding.
    pub fn add_local(&mut self, var_name: &String, is_readonly: bool)
        ensures
            final(self)@ == old(self)@.add_local(var_name@, is_readonly),
    {
        match self.locals.get(var_name.as_str()) {
            Some(_) => {
                // Once a variable has been assigned, later assignments must
                // agree with the first: the binding is never replaced.
            },
            None => {
                self.locals.insert(var_name.clone(), is_readonly);
            },
        }
    }

    /// Whether no write to the local has been seen yet.
    pub fn is_new_local(&self, var_name: &String) -> (r: bool)
        ensures
            r == self@.is_new_local(var_name@),
    {
        !self.locals.contains_key(var_name.as_str())
    }

    /// Whether the local was bound readonly. A local that was never written
    /// counts as mutable.
    pub fn is_readonly(&self, var_name: &str) -> (r: bool)
        ensures
            r == self@.is_readonly(var_name@),
    {
        match self.locals.get(var_name) {
            Some(x) => *x,
            None => false,
        }
    }

    /// What the scope declared about its return value.
    pub fn readonly_return(&self) -> (r: Rty)
        ensures
            r == self@.readonly_return,
    {
        self.readonly_return
    }

    /// The mutability of `this` in the scope.
    pub fn this_ty(&self) -> (r: Rty)
        ensures
            r == self@.this_ty,
    {
        self.this_ty
    }
}

} // verus!
