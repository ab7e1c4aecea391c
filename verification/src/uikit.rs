//! Handles for UIKit.

use crate::address::NonNullAddr;
use crate::empty::EmptyRecord;
use vstd::prelude::*;

verus! {

/// Raw display handle for UIKit.
#[non_exhaustive]
#[derive(Debug, Clone, Copy, PartialEq, Eq, Hash, Structural)]
pub struct UiKitDisplayHandle {}

impl EmptyRecord for UiKitDisplayHandle {
    open spec fn is_empty(&self) -> bool {
        true
    }

    proof fn lemma_empty_unique(a: &Self, b: &Self) {
    }
}

impl UiKitDisplayHandle {
    /// Creates a new empty display handle.
    pub fn new() -> (h: Self)
        ensures
            h.is_empty(),
    {
        Self {  }
    }
}

/// Raw window handle for UIKit.
///
/// A `UIView` may only be used from the main thread of the application.
#[non_exhaustive]
#[derive(Debug, Clone, Copy, PartialEq, Eq, Hash, Structural)]
pub struct UiKitWindowHandle {
    /// Address of a `UIView` object.
    pub ui_view: NonNullAddr,
    /// Address of a `UIViewController` object, if the view has one.
    ///
    /// The controller can also be found by walking the responder chain of
    /// the view, which is the better way.
    pub ui_view_controller: Option<NonNullAddr>,
}

impl UiKitWindowHandle {
    /// Creates a new handle to a view, with no view controller.
    pub fn new(ui_view: NonNullAddr) -> (h: Self)
        ensures
            h.ui_view == ui_view,
            h.ui_view_controller is None,
    {
        Self { ui_view, ui_view_controller: None }
    }
}

} // verus!
