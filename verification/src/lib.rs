//! A static pass that enforces readonly value semantics over a syntax tree.
//!
//! Every expression is classified as `Readonly` or `Mutable`. Assignments,
//! returns and call arguments are held to that classification: violations
//! are recorded as positioned diagnostics, and sub-expressions whose
//! readonly status later phases must see are wrapped in an explicit marker
//! node. The walk never stops at a violation, so one run reports them all.
//!
//! # Layout
//!
//! * [`lattice`]: the two classifications, their join and their subtyping.
//! * [`ast`]: the syntax tree, and [`view`]: its mathematical view.
//! * [`context`]: the state of one scope.
//! * [`classify`]: the classifier.
//! * [`diagnostics`]: error records and their collector.
//! * [`walk`]: what the pass computes, as specification functions over views.
//! * [`assign`], [`visitor`], [`statements`], [`program`]: the executable
//!   pass, proved to compute what [`walk`] says. The entry point is
//!   [`program::check_program`].
//! * [`rules`], [`unannotated`], [`stability`], [`idempotence`], [`growth`]:
//!   theorems about the pass.
//!
//! # Using the contracts
//!
//! The views of expressions and statements and their visits are opaque to
//! the verifier, so that proofs about one node do not unfold its whole
//! subtree. Each comes with a lemma that unfolds it by one level:
//! [`view::lemma_expr_view`], [`view::lemma_stmt_view`],
//! [`walk::lemma_visit_expr`], [`walk::lemma_visit_stmt`], and one lemma for
//! each visit of a sequence.

pub mod lattice;
pub mod ast;
pub mod view;
pub mod context;
pub mod diagnostics;
pub mod classify;
pub mod walk;
pub mod assign;
pub mod visitor;
pub mod statements;
pub mod program;
pub mod rules;
pub mod unannotated;
pub mod stability;
pub mod idempotence;
pub mod growth;
