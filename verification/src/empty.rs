//! The empty state of a platform record.

use vstd::prelude::*;

verus! {

/// A platform record that has an empty state, in which every address is null
/// and every identifier is zero.
pub trait EmptyRecord: Sized {
    /// Every field is zero, null or absent.
    spec fn is_empty(&self) -> bool;

    /// There is only one empty record of a type: two empty records are equal.
    proof fn lemma_empty_unique(a: &Self, b: &Self)
        requires
            a.is_empty(),
            b.is_empty(),
        ensures
            a == b,
    ;
}

} // verus!
