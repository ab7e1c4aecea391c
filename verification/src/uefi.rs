//! Handles for UEFI.

use crate::address::NonNullAddr;
use crate::empty::EmptyRecord;
use vstd::prelude::*;

verus! {

/// Raw display handle for UEFI.
#[non_exhaustive]
#[derive(Debug, Clone, Copy, PartialEq, Eq, Hash, Structural)]
pub struct UefiDisplayHandle {
    /// Address of the UEFI Graphics Output Protocol handle,
    /// `EFI_GRAPHICS_OUTPUT_PROTOCOL`.
    pub handle: NonNullAddr,
}

impl UefiDisplayHandle {
    /// Creates a new display handle.
    pub fn new(handle: NonNullAddr) -> (h: Self)
        ensures
            h.handle == handle,
    {
        Self { handle }
    }
}

/// Raw window handle for UEFI.
#[non_exhaustive]
#[derive(Debug, Clone, Copy, PartialEq, Eq, Hash, Structural)]
pub struct UefiWindowHandle {}

impl EmptyRecord for UefiWindowHandle {
    open spec fn is_empty(&self) -> bool {
        true
    }

    proof fn lemma_empty_unique(a: &Self, b: &Self) {
    }
}

impl UefiWindowHandle {
    /// Creates a new empty window handle.
    pub fn new() -> (h: Self)
        ensures
            h.is_empty(),
    {
        Self {  }
    }
}

} // verus!
