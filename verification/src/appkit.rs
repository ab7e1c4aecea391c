//! Handles for AppKit.

use crate::address::NonNullAddr;
use crate::empty::EmptyRecord;
use vstd::prelude::*;

verus! {

/// Raw display handle for AppKit.
#[non_exhaustive]
#[derive(Debug, Clone, Copy, PartialEq, Eq, Hash, Structural)]
pub struct AppKitDisplayHandle {}

impl EmptyRecord for AppKitDisplayHandle {
    open spec fn is_empty(&self) -> bool {
        true
    }

    proof fn lemma_empty_unique(a: &Self, b: &Self) {
    }
}

impl AppKitDisplayHandle {
    /// Creates a new empty display handle.
    pub fn new() -> (h: Self)
        ensures
            h.is_empty(),
    {
        Self {  }
    }
}

/// Raw window handle for AppKit.
///
/// An `NSView` may only be used from the main thread of the application.
#[non_exhaustive]
#[derive(Debug, Clone, Copy, PartialEq, Eq, Hash, Structural)]
pub struct AppKitWindowHandle {
    /// Address of an `NSView` object.
    pub ns_view: NonNullAddr,
}

impl AppKitWindowHandle {
    /// Creates a new handle to a view.
    pub fn new(ns_view: NonNullAddr) -> (h: Self)
        ensures
            h.ns_view == ns_view,
    {
        Self { ns_view }
    }
}

} // verus!
