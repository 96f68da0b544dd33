//! Diagnostics, and the append-only collector that the walk fills.

use vstd::prelude::*;
use vstd::string::StringExecFns;
use crate::ast::Pos;
use crate::lattice::{is_subtype, Rty};

verus! {

/// The three violations that the pass reports.
#[derive(Clone, Copy, PartialEq, Eq, Debug, Structural)]
pub enum ErrorKind {
    /// A local is assigned a value whose mutability differs from that of its
    /// first assignment.
    MutabilityMismatch,
    /// A property is written through an object that is readonly.
    ReadonlyAssignmentViolation,
    /// A readonly value is returned from a scope that returns mutable.
    ReturnMutabilityViolation,
}

/// A positioned error record.
#[derive(Clone, PartialEq, Eq, Debug)]
pub struct Diagnostic {
    pub start_offset: usize,
    pub end_offset: usize,
    pub kind: ErrorKind,
    pub message: String,
}

/// The mathematical content of a [`Diagnostic`].
pub struct DiagnosticView {
    pub start_offset: usize,
    pub end_offset: usize,
    pub kind: ErrorKind,
    pub message: Seq<char>,
}

impl View for Diagnostic {
    type V = DiagnosticView;

    open spec fn view(&self) -> DiagnosticView {
        DiagnosticView {
            start_offset: self.start_offset,
            end_offset: self.end_offset,
            kind: self.kind,
            message: self.message@,
        }
    }
}

/// The record for an error of the given kind at the given position.
pub open spec fn diagnostic_at(pos: Pos, kind: ErrorKind, message: Seq<char>) -> DiagnosticView {
    DiagnosticView { start_offset: pos.start, end_offset: pos.end, kind, message }
}

/// Why a readonly return is rejected.
pub open spec fn return_reason() -> Seq<char> {
    "this function does not return readonly. Please mark it to return readonly if needed."@
}

/// The text that names a local reassigned with another mutability.
pub open spec fn mismatch_message(name: Seq<char>) -> Seq<char> {
    name + " is redefined with a different mutability than its first assignment"@
}

/// The text for a write to a property of a readonly object.
pub open spec fn readonly_assignment_message() -> Seq<char> {
    "This expression is readonly, its members cannot be modified"@
}

/// The text for a value of one mutability where another was expected.
pub open spec fn invalid_readonly_message(
    actual: Seq<char>,
    expected: Seq<char>,
    reason: Seq<char>,
) -> Seq<char> {
    "This expression is "@ + actual + ", but we expected a type that is "@ + expected
        + " because "@ + reason
}

/// The diagnostic for a local reassigned with another mutability.
pub open spec fn mismatch_diagnostic(pos: Pos, name: Seq<char>) -> DiagnosticView {
    diagnostic_at(pos, ErrorKind::MutabilityMismatch, mismatch_message(name))
}

/// The diagnostic for a write to a property of a readonly object.
pub open spec fn readonly_assignment_diagnostic(pos: Pos) -> DiagnosticView {
    diagnostic_at(pos, ErrorKind::ReadonlyAssignmentViolation, readonly_assignment_message())
}

/// The diagnostic for a readonly value where a mutable one is required.
pub open spec fn subtype_diagnostic(pos: Pos, reason: Seq<char>) -> DiagnosticView {
    diagnostic_at(
        pos,
        ErrorKind::ReturnMutabilityViolation,
        invalid_readonly_message("readonly"@, "mutable"@, reason),
    )
}

/// The diagnostics after checking `sub` against `sup`: one more exactly when
/// a readonly value meets a mutable requirement.
pub open spec fn subtype_errors(
    errors: Seq<DiagnosticView>,
    pos: Pos,
    sub: Rty,
    sup: Rty,
    reason: Seq<char>,
) -> Seq<DiagnosticView> {
    if is_subtype(sub, sup) {
        errors
    } else {
        errors.push(subtype_diagnostic(pos, reason))
    }
}

/// The message for a local reassigned with another mutability.
pub fn redefined_assignment_different_mutability(name: &str) -> (msg: String)
    ensures
        msg@ == mismatch_message(name@),
{
    String::from_str(name).concat(
        " is redefined with a different mutability than its first assignment",
    )
}

/// The message for a write to a property of a readonly object.
pub fn assignment_to_readonly() -> (msg: String)
    ensures
        msg@ == readonly_assignment_message(),
{
    String::from_str("This expression is readonly, its members cannot be modified")
}

/// The message for a value of one mutability where another was expected.
pub fn invalid_readonly(actual: &str, expected: &str, reason: &str) -> (msg: String)
    ensures
        msg@ == invalid_readonly_message(actual@, expected@, reason@),
{
    String::from_str("This expression is ").concat(actual).concat(
        ", but we expected a type that is ",
    ).concat(expected).concat(" because ").concat(reason)
}

/// The collector: an ordered list of diagnostics that only ever grows.
pub struct Checker {
    pub errors: Vec<Diagnostic>,
}

/// The views of a list of diagnostics, in order.
pub open spec fn diagnostics_view(s: Seq<Diagnostic>) -> Seq<DiagnosticView> {
    Seq::new(s.len(), |i: int| s[i]@)
}

impl View for Checker {
    type V = Seq<DiagnosticView>;

    open spec fn view(&self) -> Seq<DiagnosticView> {
        diagnostics_view(self.errors@)
    }
}

impl Checker {
    /// A collector that holds nothing yet.
    pub fn new() -> (r: Checker)
        ensures
            r@ == Seq::<DiagnosticView>::empty(),
    {
        Checker { errors: Vec::new() }
    }

    /// Appends a diagnostic for the source range `pos`.
    pub fn add_error(&mut self, pos: &Pos, kind: ErrorKind, msg: String)
        ensures
            final(self)@ == old(self)@.push(diagnostic_at(*pos, kind, msg@)),
    {
        self.errors.push(
            Diagnostic { start_offset: pos.start, end_offset: pos.end, kind, message: msg },
        );
    }

    /// Checks that a value of mutability `r_sub` may stand where `r_sup` is
    /// required, and reports it at `pos` if not. Only a readonly value where a
    /// mutable one is required is rejected.
    pub fn subtype(&mut self, pos: &Pos, r_sub: &Rty, r_sup: &Rty, reason: &str)
        ensures
            final(self)@ == subtype_errors(old(self)@, *pos, *r_sub, *r_sup, reason@),
    {
        match (r_sub, r_sup) {
            (Rty::Readonly, Rty::Mutable) => {
                let msg = invalid_readonly("readonly", "mutable", reason);
                self.add_error(pos, ErrorKind::ReturnMutabilityViolation, msg)
            },
            _ => {},
        }
    }
}

} // verus!
