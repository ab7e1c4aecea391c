//! Handles for Windows.

use crate::address::NonNullAddr;
use crate::empty::EmptyRecord;
use vstd::prelude::*;

verus! {

/// Raw display handle for Windows, whatever the window backend.
#[non_exhaustive]
#[derive(Debug, Clone, Copy, PartialEq, Eq, Hash, Structural)]
pub struct WindowsDisplayHandle {}

impl EmptyRecord for WindowsDisplayHandle {
    open spec fn is_empty(&self) -> bool {
        true
    }

    proof fn lemma_empty_unique(a: &Self, b: &Self) {
    }
}

impl WindowsDisplayHandle {
    /// Creates a new empty display handle.
    pub fn new() -> (h: Self)
        ensures
            h.is_empty(),
    {
        Self {  }
    }
}

/// Raw window handle for Win32.
#[non_exhaustive]
#[derive(Debug, Clone, Copy, PartialEq, Eq, Hash, Structural)]
pub struct Win32WindowHandle {
    /// A Win32 `HWND` handle.
    pub hwnd: isize,
    /// The `GWLP_HINSTANCE` of the `HWND`, or 0 if unknown.
    pub hinstance: isize,
}

impl EmptyRecord for Win32WindowHandle {
    open spec fn is_empty(&self) -> bool {
        self.hwnd == 0 && self.hinstance == 0
    }

    proof fn lemma_empty_unique(a: &Self, b: &Self) {
    }
}

impl Win32WindowHandle {
    /// Creates a new handle to a window, with no instance handle.
    pub fn new(hwnd: isize) -> (h: Self)
        ensures
            h.hwnd == hwnd,
            h.hinstance == 0,
    {
        Self { hwnd, hinstance: 0 }
    }
}

/// Raw window handle for WinRT.
#[non_exhaustive]
#[derive(Debug, Clone, Copy, PartialEq, Eq, Hash, Structural)]
pub struct WinRtWindowHandle {
    /// Address of a WinRT `CoreWindow`.
    pub core_window: NonNullAddr,
}

impl WinRtWindowHandle {
    /// Creates a new handle to a window.
    pub fn new(core_window: NonNullAddr) -> (h: Self)
        ensures
            h.core_window == core_window,
    {
        Self { core_window }
    }
}

} // verus!
