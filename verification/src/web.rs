//! Handles for the Web.

use crate::address::NonNullAddr;
use crate::empty::EmptyRecord;
use vstd::prelude::*;

verus! {

/// Raw display handle for the Web.
#[non_exhaustive]
#[derive(Debug, Clone, Copy, PartialEq, Eq, Hash, Structural)]
pub struct WebDisplayHandle {}

impl EmptyRecord for WebDisplayHandle {
    open spec fn is_empty(&self) -> bool {
        true
    }

    proof fn lemma_empty_unique(a: &Self, b: &Self) {
    }
}

impl WebDisplayHandle {
    /// Creates a new empty display handle.
    pub fn new() -> (h: Self)
        ensures
            h.is_empty(),
    {
        Self {  }
    }
}

/// Raw window handle for the Web.
#[non_exhaustive]
#[derive(Debug, Clone, Copy, PartialEq, Eq, Hash, Structural)]
pub struct WebWindowHandle {
    /// An ID value inserted into the data attributes of the canvas element
    /// as `raw-handle`; from JavaScript the attribute reads `rawHandle`.
    ///
    /// Each canvas that the windowing system creates gets an ID of its own.
    pub id: u32,
}

impl WebWindowHandle {
    /// Creates a new handle to a canvas element.
    pub fn new(id: u32) -> (h: Self)
        ensures
            h.id == id,
    {
        Self { id }
    }
}

/// Raw window handle for a Web canvas registered in the object table of the
/// JavaScript binding layer.
#[non_exhaustive]
#[derive(Debug, Clone, Copy, PartialEq, Eq, Hash, Structural)]
pub struct Wbg02CanvasWindowHandle {
    /// Address of the binding layer's value that stands for the
    /// `HtmlCanvasElement`.
    pub obj: NonNullAddr,
}

impl Wbg02CanvasWindowHandle {
    /// Creates a new handle to an `HtmlCanvasElement`.
    pub fn new(obj: NonNullAddr) -> (h: Self)
        ensures
            h.obj == obj,
    {
        Self { obj }
    }
}

/// Raw window handle for a Web offscreen canvas registered in the object
/// table of the JavaScript binding layer.
#[non_exhaustive]
#[derive(Debug, Clone, Copy, PartialEq, Eq, Hash, Structural)]
pub struct Wbg02OffscreenCanvasWindowHandle {
    /// Address of the binding layer's value that stands for the
    /// `OffscreenCanvas`.
    pub obj: NonNullAddr,
}

impl Wbg02OffscreenCanvasWindowHandle {
    /// Creates a new handle to an `OffscreenCanvas`.
    pub fn new(obj: NonNullAddr) -> (h: Self)
        ensures
            h.obj == obj,
    {
        Self { obj }
    }
}

} // verus!
