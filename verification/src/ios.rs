//! The handle for iOS that stands for window and display at once.

use crate::address::NonNullAddr;
use crate::empty::EmptyRecord;
use vstd::prelude::*;

verus! {

/// Raw handle for iOS.
#[non_exhaustive]
#[derive(Debug, Clone, Copy, PartialEq, Eq, Hash, Structural)]
pub struct IOSHandle {
    /// Address of a `UIWindow` object, if known.
    pub ui_window: Option<NonNullAddr>,
    /// Address of a `UIView` object, if known.
    pub ui_view: Option<NonNullAddr>,
    /// Address of a `UIViewController` object, if known.
    pub ui_view_controller: Option<NonNullAddr>,
}

impl EmptyRecord for IOSHandle {
    open spec fn is_empty(&self) -> bool {
        self.ui_window is None && self.ui_view is None && self.ui_view_controller is None
    }

    proof fn lemma_empty_unique(a: &Self, b: &Self) {
    }
}

impl IOSHandle {
    /// Creates a handle in which every address is absent.
    pub fn empty() -> (h: Self)
        ensures
            h.is_empty(),
    {
        IOSHandle { ui_window: None, ui_view: None, ui_view_controller: None }
    }
}

} // verus!
