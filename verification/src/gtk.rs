//! Handles for GTK windows and displays.

use crate::empty::EmptyRecord;
use vstd::prelude::*;

verus! {

/// Raw display handle for GTK 3.
#[non_exhaustive]
#[derive(Debug, Clone, Copy, PartialEq, Eq, Hash, Structural)]
pub struct Gtk3DisplayHandle {
    /// Address of a `GtkApplication`.
    pub application: usize,
}

/// Raw window handle for GTK 3.
#[non_exhaustive]
#[derive(Debug, Clone, Copy, PartialEq, Eq, Hash, Structural)]
pub struct Gtk3WindowHandle {
    /// Address of a `GtkWidget`.
    pub widget: usize,
}

/// Raw display handle for GTK 4.
#[non_exhaustive]
#[derive(Debug, Clone, Copy, PartialEq, Eq, Hash, Structural)]
pub struct Gtk4DisplayHandle {
    /// Address of a `GtkApplication`.
    pub application: usize,
}

/// Raw window handle for GTK 4.
#[non_exhaustive]
#[derive(Debug, Clone, Copy, PartialEq, Eq, Hash, Structural)]
pub struct Gtk4WindowHandle {
    /// Address of a `GtkWidget`.
    pub widget: usize,
}

impl EmptyRecord for Gtk3DisplayHandle {
    open spec fn is_empty(&self) -> bool {
        self.application == 0
    }

    proof fn lemma_empty_unique(a: &Self, b: &Self) {
    }
}

impl EmptyRecord for Gtk3WindowHandle {
    open spec fn is_empty(&self) -> bool {
        self.widget == 0
    }

    proof fn lemma_empty_unique(a: &Self, b: &Self) {
    }
}

impl EmptyRecord for Gtk4DisplayHandle {
    open spec fn is_empty(&self) -> bool {
        self.application == 0
    }

    proof fn lemma_empty_unique(a: &Self, b: &Self) {
    }
}

impl EmptyRecord for Gtk4WindowHandle {
    open spec fn is_empty(&self) -> bool {
        self.widget == 0
    }

    proof fn lemma_empty_unique(a: &Self, b: &Self) {
    }
}

impl Gtk3DisplayHandle {
    /// Creates a handle whose application address is null.
    pub fn empty() -> (h: Self)
        ensures
            h.is_empty(),
    {
        Self { application: 0 }
    }
}

impl Gtk3WindowHandle {
    /// Creates a handle whose widget address is null.
    pub fn empty() -> (h: Self)
        ensures
            h.is_empty(),
    {
        Self { widget: 0 }
    }
}

impl Gtk4DisplayHandle {
    /// Creates a handle whose application address is null.
    pub fn empty() -> (h: Self)
        ensures
            h.is_empty(),
    {
        Self { application: 0 }
    }
}

impl Gtk4WindowHandle {
    /// Creates a handle whose widget address is null.
    pub fn empty() -> (h: Self)
        ensures
            h.is_empty(),
    {
        Self { widget: 0 }
    }
}

} // verus!
