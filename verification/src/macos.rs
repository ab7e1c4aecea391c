//! The handle for macOS that stands for window and display at once.

use crate::address::NonNullAddr;
use crate::empty::EmptyRecord;
use vstd::prelude::*;

verus! {

/// Raw handle for macOS.
#[non_exhaustive]
#[derive(Debug, Clone, Copy, PartialEq, Eq, Hash, Structural)]
pub struct MacOSHandle {
    /// Address of an `NSWindow` object, if known.
    pub ns_window: Option<NonNullAddr>,
    /// Address of an `NSView` object, if known.
    pub ns_view: Option<NonNullAddr>,
}

impl EmptyRecord for MacOSHandle {
    open spec fn is_empty(&self) -> bool {
        self.ns_window is None && self.ns_view is None
    }

    proof fn lemma_empty_unique(a: &Self, b: &Self) {
    }
}

impl MacOSHandle {
    /// Creates a handle in which every address is absent.
    pub fn empty() -> (h: Self)
        ensures
            h.is_empty(),
    {
        MacOSHandle { ns_window: None, ns_view: None }
    }
}

} // verus!
