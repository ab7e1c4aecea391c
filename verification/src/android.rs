//! Handles for Android.

use crate::empty::EmptyRecord;
use vstd::prelude::*;

verus! {

/// Raw display handle for Android.
#[non_exhaustive]
#[derive(Debug, Clone, Copy, PartialEq, Eq, Hash, Structural)]
pub struct AndroidDisplayHandle {}

impl EmptyRecord for AndroidDisplayHandle {
    open spec fn is_empty(&self) -> bool {
        true
    }

    proof fn lemma_empty_unique(a: &Self, b: &Self) {
    }
}

impl AndroidDisplayHandle {
    /// Creates an empty display handle.
    pub fn empty() -> (h: Self)
        ensures
            h.is_empty(),
    {
        Self {  }
    }
}

/// Raw window handle for the Android NDK.
#[non_exhaustive]
#[derive(Debug, Clone, Copy, PartialEq, Eq, Hash, Structural)]
pub struct AndroidNdkWindowHandle {
    /// Address of an `ANativeWindow`.
    pub a_native_window: usize,
}

impl EmptyRecord for AndroidNdkWindowHandle {
    open spec fn is_empty(&self) -> bool {
        self.a_native_window == 0
    }

    proof fn lemma_empty_unique(a: &Self, b: &Self) {
    }
}

impl AndroidNdkWindowHandle {
    /// Creates a handle whose window address is null.
    pub fn empty() -> (h: Self)
        ensures
            h.is_empty(),
    {
        Self { a_native_window: 0 }
    }
}

/// Raw handle for the Android NDK that stands for window and display at once.
#[non_exhaustive]
#[derive(Debug, Clone, Copy, PartialEq, Eq, Hash, Structural)]
pub struct AndroidNDKHandle {
    /// Address of an `ANativeWindow`.
    pub a_native_window: usize,
}

impl EmptyRecord for AndroidNDKHandle {
    open spec fn is_empty(&self) -> bool {
        self.a_native_window == 0
    }

    proof fn lemma_empty_unique(a: &Self, b: &Self) {
    }
}

impl AndroidNDKHandle {
    /// Creates a handle whose window address is null.
    pub fn empty() -> (h: Self)
        ensures
            h.is_empty(),
    {
        Self { a_native_window: 0 }
    }
}

} // verus!
