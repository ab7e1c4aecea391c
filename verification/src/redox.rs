//! Handles for the Orbital windowing system of Redox OS.

use crate::empty::EmptyRecord;
use vstd::prelude::*;

verus! {

/// Raw display handle for Orbital.
#[non_exhaustive]
#[derive(Debug, Clone, Copy, PartialEq, Eq, Hash, Structural)]
pub struct OrbitalDisplayHandle {}

impl EmptyRecord for OrbitalDisplayHandle {
    open spec fn is_empty(&self) -> bool {
        true
    }

    proof fn lemma_empty_unique(a: &Self, b: &Self) {
    }
}

impl OrbitalDisplayHandle {
    /// Creates an empty display handle.
    pub fn empty() -> (h: Self)
        ensures
            h.is_empty(),
    {
        Self {  }
    }
}

/// Raw window handle for Orbital.
#[non_exhaustive]
#[derive(Debug, Clone, Copy, PartialEq, Eq, Hash, Structural)]
pub struct OrbitalWindowHandle {
    /// Address of an orbclient window.
    pub window: usize,
}

impl EmptyRecord for OrbitalWindowHandle {
    open spec fn is_empty(&self) -> bool {
        self.window == 0
    }

    proof fn lemma_empty_unique(a: &Self, b: &Self) {
    }
}

impl OrbitalWindowHandle {
    /// Creates a handle whose window address is null.
    pub fn empty() -> (h: Self)
        ensures
            h.is_empty(),
    {
        Self { window: 0 }
    }
}

/// Raw handle for Redox OS that stands for window and display at once.
#[non_exhaustive]
#[derive(Debug, Clone, Copy, PartialEq, Eq, Hash, Structural)]
pub struct RedoxHandle {
    /// Address of an orbclient window.
    pub window: usize,
}

impl EmptyRecord for RedoxHandle {
    open spec fn is_empty(&self) -> bool {
        self.window == 0
    }

    proof fn lemma_empty_unique(a: &Self, b: &Self) {
    }
}

impl RedoxHandle {
    /// Creates a handle whose window address is null.
    pub fn empty() -> (h: RedoxHandle)
        ensures
            h.is_empty(),
    {
        RedoxHandle { window: 0 }
    }
}

} // verus!
