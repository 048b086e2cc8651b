//! De Bruijn variable arithmetic.
//!
//! Two nameless representations of variables are used side by side:
//!
//! - a *level* counts binders from the outside in, and is stable under
//!   context extension, so it is used for values in the semantic domain;
//! - an *index* counts binders from the innermost one out, so a core term
//!   using indices is independent of the context it sits in.
//!
//! All conversions go through the current environment *size* (the number of
//! bindings in scope): `index = size - level - 1` and symmetrically
//! `level = size - index - 1`.

use vstd::prelude::*;

verus! {

/// The index that a binder at `level` has when `size` bindings are in scope.
pub open spec fn spec_index_of_level(size: nat, level: nat) -> nat
    recommends
        level < size,
{
    (size - level - 1) as nat
}

/// The level that a variable with `index` refers to when `size` bindings are
/// in scope.
pub open spec fn spec_level_of_index(size: nat, index: nat) -> nat
    recommends
        index < size,
{
    (size - index - 1) as nat
}

/// The level that the next binder will receive when `size` bindings are in
/// scope.
pub fn next_level(size: usize) -> (r: usize)
    ensures
        r == size,
{
    size
}

/// Convert a binder's level to a de Bruijn index.  Levels at or above the
/// current size do not denote a binder in scope, so they are excluded.
pub fn index_of_level(size: usize, level: usize) -> (r: usize)
    requires
        level < size,
    ensures
        r == spec_index_of_level(size as nat, level as nat),
        r < size,
{
    size - level - 1
}

/// Convert a de Bruijn index to the level of the binder it refers to.
pub fn level_of_index(size: usize, index: usize) -> (r: usize)
    requires
        index < size,
    ensures
        r == spec_level_of_index(size as nat, index as nat),
        r < size,
{
    size - index - 1
}

/// Index/level round trip: for all `level < size`, converting the level to an
/// index gives `size - level - 1`, and converting that index back gives the
/// original level; symmetrically starting from an index.
pub proof fn lemma_index_level_round_trip(size: nat, level: nat, index: nat)
    requires
        level < size,
        index < size,
    ensures
        spec_index_of_level(size, level) == size - level - 1,
        spec_level_of_index(size, spec_index_of_level(size, level)) == level,
        spec_index_of_level(size, spec_level_of_index(size, index)) == index,
{
}

} // verus!
