//! Handles for Haiku.

use crate::empty::EmptyRecord;
use vstd::prelude::*;

verus! {

/// Raw display handle for Haiku.
#[non_exhaustive]
#[derive(Debug, Clone, Copy, PartialEq, Eq, Hash, Structural)]
pub struct HaikuDisplayHandle {}

impl EmptyRecord for HaikuDisplayHandle {
    open spec fn is_empty(&self) -> bool {
        true
    }

    proof fn lemma_empty_unique(a: &Self, b: &Self) {
    }
}

impl HaikuDisplayHandle {
    /// Creates an empty display handle.
    pub fn empty() -> (h: Self)
        ensures
            h.is_empty(),
    {
        Self {  }
    }
}

/// Raw window handle for Haiku.
#[non_exhaustive]
#[derive(Debug, Clone, Copy, PartialEq, Eq, Hash, Structural)]
pub struct HaikuWindowHandle {
    /// Address of a `BWindow` object.
    pub b_window: usize,
    /// Address of a `BDirectWindow` object, which may be null.
    pub b_direct_window: usize,
}

impl EmptyRecord for HaikuWindowHandle {
    open spec fn is_empty(&self) -> bool {
        self.b_window == 0 && self.b_direct_window == 0
    }

    proof fn lemma_empty_unique(a: &Self, b: &Self) {
    }
}

impl HaikuWindowHandle {
    /// Creates a handle in which both addresses are null.
    pub fn empty() -> (h: Self)
        ensures
            h.is_empty(),
    {
        Self { b_window: 0, b_direct_window: 0 }
    }
}

} // verus!
