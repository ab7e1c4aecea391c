//! Handles for the Horizon system of the 3DS.

use crate::empty::EmptyRecord;
use cty::c_uint;
use vstd::prelude::*;

verus! {

/// Raw display handle for the 3DS.
#[non_exhaustive]
#[derive(Debug, Clone, Copy, PartialEq, Eq, Hash, Structural)]
pub struct HorizonDisplayHandle {}

impl EmptyRecord for HorizonDisplayHandle {
    open spec fn is_empty(&self) -> bool {
        true
    }

    proof fn lemma_empty_unique(a: &Self, b: &Self) {
    }
}

impl HorizonDisplayHandle {
    /// Creates an empty display handle.
    pub fn empty() -> (h: Self)
        ensures
            h.is_empty(),
    {
        Self {  }
    }
}

/// Raw window handle for the 3DS.
#[non_exhaustive]
#[derive(Debug, Clone, Copy, PartialEq, Eq, Hash, Structural)]
pub struct HorizonWindowHandle {
    /// The screen that this window is on.
    pub screen: c_uint,
}

impl EmptyRecord for HorizonWindowHandle {
    open spec fn is_empty(&self) -> bool {
        self.screen == 0
    }

    proof fn lemma_empty_unique(a: &Self, b: &Self) {
    }
}

impl HorizonWindowHandle {
    /// Creates an empty window handle, with screen zero.
    pub fn empty() -> (h: Self)
        ensures
            h.is_empty(),
    {
        Self { screen: 0 }
    }
}

} // verus!
