//! The two-valued mutability lattice.

use vstd::prelude::*;

verus! {

/// The classification of a value: may it be mutated through this path or not.
#[derive(Clone, Copy, PartialEq, Eq, Debug, Structural)]
pub enum Rty {
    Readonly,
    Mutable,
}

/// A `readonly` annotation as written in the source.
#[derive(Clone, Copy, PartialEq, Eq, Debug, Structural)]
pub enum ReadonlyKind {
    Readonly,
}

/// The classification that a declared annotation stands for.
pub open spec fn annotation_rty(ro: Option<ReadonlyKind>) -> Rty {
    if ro is Some {
        Rty::Readonly
    } else {
        Rty::Mutable
    }
}

/// The classification that a boolean readonly flag stands for.
pub open spec fn flag_rty(readonly: bool) -> Rty {
    if readonly {
        Rty::Readonly
    } else {
        Rty::Mutable
    }
}

/// Join of two classifications: readonly as soon as either side is.
pub open spec fn join(a: Rty, b: Rty) -> Rty {
    if a == Rty::Readonly || b == Rty::Readonly {
        Rty::Readonly
    } else {
        Rty::Mutable
    }
}

/// One-directional subtyping: a mutable value may stand wherever a readonly
/// one is accepted, and a readonly value never where a mutable one is required.
pub open spec fn is_subtype(sub: Rty, sup: Rty) -> bool {
    !(sub == Rty::Readonly && sup == Rty::Mutable)
}

/// The classification that a declared annotation stands for: readonly if
/// the annotation is there, mutable if it is not.
pub fn ro_kind_to_rty(ro: Option<ReadonlyKind>) -> (r: Rty)
    ensures
        r == annotation_rty(ro),
{
    match ro {
        Some(ReadonlyKind::Readonly) => Rty::Readonly,
        _ => Rty::Mutable,
    }
}

/// Executable form of [`flag_rty`].
pub fn rty_of_flag(readonly: bool) -> (r: Rty)
    ensures
        r == flag_rty(readonly),
{
    if readonly {
        Rty::Readonly
    } else {
        Rty::Mutable
    }
}

/// Executable form of [`join`].
pub fn rty_join(a: Rty, b: Rty) -> (r: Rty)
    ensures
        r == join(a, b),
{
    match (a, b) {
        (_, Rty::Readonly) | (Rty::Readonly, _) => Rty::Readonly,
        (Rty::Mutable, Rty::Mutable) => Rty::Mutable,
    }
}

/// The join is commutative, associative and idempotent, with `Mutable` as its
/// neutral element and `Readonly` absorbing.
pub proof fn lemma_join_is_semilattice(a: Rty, b: Rty, c: Rty)
    ensures
        join(a, b) == join(b, a),
        join(join(a, b), c) == join(a, join(b, c)),
        join(a, a) == a,
        join(a, Rty::Mutable) == a,
        join(a, Rty::Readonly) == Rty::Readonly,
{
}

/// Subtyping is reflexive and transitive, and it fails for exactly one pair.
pub proof fn lemma_subtype_is_preorder(a: Rty, b: Rty, c: Rty)
    ensures
        is_subtype(a, a),
        is_subtype(a, b) && is_subtype(b, c) ==> is_subtype(a, c),
        !is_subtype(a, b) <==> (a == Rty::Readonly && b == Rty::Mutable),
        is_subtype(Rty::Mutable, a),
        is_subtype(a, Rty::Readonly),
{
}

} // verus!
