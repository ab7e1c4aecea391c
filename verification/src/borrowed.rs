//! Borrowed display and window handles.
//!
//! A borrowed handle is a raw handle together with a proof that the native
//! object behind it is valid. It lives no longer than the proof, so it cannot
//! be kept across an invalidation; while it lives, it is safe to read.

use crate::active::ActiveHandle;
use crate::active::HandleError;
use crate::appkit::AppKitDisplayHandle;
use crate::display::HasRawDisplayHandle;
use crate::display::RawDisplayHandle;
use crate::uikit::UiKitDisplayHandle;
use crate::window::HasRawWindowHandle;
use crate::window::RawWindowHandle;
use std::rc::Rc;
use std::sync::Arc;
use vstd::prelude::*;
use vstd::std_specs::cmp::PartialEqSpec;

verus! {

/// The handle to the display controller of a windowing system, borrowed for
/// as long as the proof of liveness in it is held.
///
/// Two borrowed handles are equal when their raw handles are; the proof is no
/// part of what a handle is.
#[derive(Debug, Clone, Copy, Hash)]
pub struct DisplayHandle<'a> {
    raw: RawDisplayHandle,
    active: &'a ActiveHandle,
}

impl<'a> View for DisplayHandle<'a> {
    type V = RawDisplayHandle;

    /// The raw handle inside.
    closed spec fn view(&self) -> RawDisplayHandle {
        self.raw
    }
}

impl<'a> DisplayHandle<'a> {
    /// Borrows `raw` for as long as `active` is held. The caller vouches that
    /// `active` came from the token of the object that `raw` belongs to.
    pub fn borrow_raw(raw: RawDisplayHandle, active: &'a ActiveHandle) -> (handle: Self)
        ensures
            handle@ == raw,
    {
        DisplayHandle { raw, active }
    }

    /// The raw handle inside. That the borrowed handle exists shows that the
    /// raw handle is valid.
    pub fn as_raw(&self) -> (raw: RawDisplayHandle)
        ensures
            raw == self@,
    {
        self.raw
    }
}

impl DisplayHandle<'static> {
    /// Creates an AppKit display handle. It holds no address, so there is
    /// nothing to keep alive and it is valid for good.
    pub fn appkit() -> (handle: Self)
        ensures
            handle@ == RawDisplayHandle::AppKit(AppKitDisplayHandle {  }),
    {
        DisplayHandle {
            raw: RawDisplayHandle::AppKit(AppKitDisplayHandle::new()),
            active: ActiveHandle::detached(),
        }
    }

    /// Creates a UIKit display handle. It holds no address, so there is
    /// nothing to keep alive and it is valid for good.
    pub fn uikit() -> (handle: Self)
        ensures
            handle@ == RawDisplayHandle::UiKit(UiKitDisplayHandle {  }),
    {
        DisplayHandle {
            raw: RawDisplayHandle::UiKit(UiKitDisplayHandle::new()),
            active: ActiveHandle::detached(),
        }
    }
}

impl<'a> PartialEq for DisplayHandle<'a> {
    fn eq(&self, other: &Self) -> (equal: bool) {
        self.raw == other.raw
    }
}

impl<'a> Eq for DisplayHandle<'a> {

}

impl<'a> vstd::std_specs::cmp::PartialEqSpecImpl for DisplayHandle<'a> {
    open spec fn obeys_eq_spec() -> bool {
        true
    }

    open spec fn eq_spec(&self, other: &Self) -> bool {
        self@ == other@
    }
}

impl<'a> HasRawDisplayHandle for DisplayHandle<'a> {
    open spec fn raw_display(&self) -> RawDisplayHandle {
        self@
    }

    fn raw_display_handle(&self) -> (raw: RawDisplayHandle) {
        self.raw
    }
}

/// An object that stands for a display and can lend out its handle.
///
/// The borrow lasts no longer than the object, and is refused while the
/// object is inactive.
pub trait HasDisplayHandle {
    /// The display behind this object is valid at the moment.
    spec fn display_active(&self) -> bool;

    /// The raw handle of the display behind this object.
    spec fn display_raw(&self) -> RawDisplayHandle;

    /// Lends out the handle of the display: the handle of this object while it
    /// is active, [`HandleError::Inactive`] while it is not.
    fn display_handle(&self) -> (r: Result<DisplayHandle<'_>, HandleError>)
        ensures
            self.display_active() ==> r is Ok && r->Ok_0@ == self.display_raw(),
            !self.display_active() ==> r is Err && r->Err_0 == HandleError::Inactive,
    ;
}

impl<H: HasDisplayHandle + ?Sized> HasDisplayHandle for &H {
    open spec fn display_active(&self) -> bool {
        (**self).display_active()
    }

    open spec fn display_raw(&self) -> RawDisplayHandle {
        (**self).display_raw()
    }

    fn display_handle(&self) -> (r: Result<DisplayHandle<'_>, HandleError>) {
        (**self).display_handle()
    }
}

impl<H: HasDisplayHandle + ?Sized> HasDisplayHandle for &mut H {
    open spec fn display_active(&self) -> bool {
        (**self).display_active()
    }

    open spec fn display_raw(&self) -> RawDisplayHandle {
        (**self).display_raw()
    }

    fn display_handle(&self) -> (r: Result<DisplayHandle<'_>, HandleError>) {
        (**self).display_handle()
    }
}

impl<H: HasDisplayHandle + ?Sized> HasDisplayHandle for Box<H> {
    open spec fn display_active(&self) -> bool {
        (**self).display_active()
    }

    open spec fn display_raw(&self) -> RawDisplayHandle {
        (**self).display_raw()
    }

    fn display_handle(&self) -> (r: Result<DisplayHandle<'_>, HandleError>) {
        (**self).display_handle()
    }
}

impl<H: HasDisplayHandle + ?Sized> HasDisplayHandle for Rc<H> {
    open spec fn display_active(&self) -> bool {
        (**self).display_active()
    }

    open spec fn display_raw(&self) -> RawDisplayHandle {
        (**self).display_raw()
    }

    fn display_handle(&self) -> (r: Result<DisplayHandle<'_>, HandleError>) {
        (**self).display_handle()
    }
}

impl<H: HasDisplayHandle + ?Sized> HasDisplayHandle for Arc<H> {
    open spec fn display_active(&self) -> bool {
        (**self).display_active()
    }

    open spec fn display_raw(&self) -> RawDisplayHandle {
        (**self).display_raw()
    }

    fn display_handle(&self) -> (r: Result<DisplayHandle<'_>, HandleError>) {
        (**self).display_handle()
    }
}

impl<'a> HasDisplayHandle for DisplayHandle<'a> {
    /// A borrowed handle is its own proof: it is always active.
    open spec fn display_active(&self) -> bool {
        true
    }

    open spec fn display_raw(&self) -> RawDisplayHandle {
        self@
    }

    fn display_handle(&self) -> (r: Result<DisplayHandle<'_>, HandleError>) {
        Ok(*self)
    }
}

/// Two handles borrowed from one object compare equal, whenever each was
/// borrowed and whichever proof each holds.
pub proof fn lemma_display_borrows_equal<H: HasDisplayHandle>(
    producer: &H,
    first: DisplayHandle,
    second: DisplayHandle,
)
    requires
        first@ == producer.display_raw(),
        second@ == producer.display_raw(),
    ensures
        first.eq_spec(&second),
{
}

/// The handle to a window, borrowed for as long as the proof of liveness in it
/// is held.
///
/// Every address in it points at a live object while the handle lives. That
/// does not hold of window IDs, such as those of X11 or of the Web: other code,
/// even in another process, can delete the window that an ID names, or put
/// another in its place.
///
/// Two borrowed handles are equal when their raw handles are; the proof is no
/// part of what a handle is.
#[derive(Debug, Clone, Copy, Hash)]
pub struct WindowHandle<'a> {
    raw: RawWindowHandle,
    active: &'a ActiveHandle,
}

impl<'a> View for WindowHandle<'a> {
    type V = RawWindowHandle;

    /// The raw handle inside.
    closed spec fn view(&self) -> RawWindowHandle {
        self.raw
    }
}

impl<'a> WindowHandle<'a> {
    /// Borrows `raw` for as long as `active` is held. The caller vouches that
    /// `active` came from the token of the object that `raw` belongs to.
    pub fn borrow_raw(raw: RawWindowHandle, active: &'a ActiveHandle) -> (handle: Self)
        ensures
            handle@ == raw,
    {
        WindowHandle { raw, active }
    }

    /// The raw handle inside. That the borrowed handle exists shows that the
    /// raw handle is valid.
    pub fn as_raw(&self) -> (raw: RawWindowHandle)
        ensures
            raw == self@,
    {
        self.raw
    }
}

impl<'a> PartialEq for WindowHandle<'a> {
    fn eq(&self, other: &Self) -> (equal: bool) {
        self.raw == other.raw
    }
}

impl<'a> Eq for WindowHandle<'a> {

}

impl<'a> vstd::std_specs::cmp::PartialEqSpecImpl for WindowHandle<'a> {
    open spec fn obeys_eq_spec() -> bool {
        true
    }

    open spec fn eq_spec(&self, other: &Self) -> bool {
        self@ == other@
    }
}

impl<'a> HasRawWindowHandle for WindowHandle<'a> {
    open spec fn raw_window(&self) -> RawWindowHandle {
        self@
    }

    fn raw_window_handle(&self) -> (raw: RawWindowHandle) {
        self.raw
    }
}

/// An object that stands for a window and can lend out its handle.
///
/// The borrow lasts no longer than the object, and is refused while the
/// object is inactive. Hold the borrow for as long as the window is in use:
/// that keeps the window from being taken away meanwhile.
pub trait HasWindowHandle {
    /// The window behind this object is valid at the moment.
    spec fn window_active(&self) -> bool;

    /// The raw handle of the window behind this object.
    spec fn window_raw(&self) -> RawWindowHandle;

    /// Lends out the handle of the window: the handle of this object while it
    /// is active, [`HandleError::Inactive`] while it is not.
    fn window_handle(&self) -> (r: Result<WindowHandle<'_>, HandleError>)
        ensures
            self.window_active() ==> r is Ok && r->Ok_0@ == self.window_raw(),
            !self.window_active() ==> r is Err && r->Err_0 == HandleError::Inactive,
    ;
}

impl<H: HasWindowHandle + ?Sized> HasWindowHandle for &H {
    open spec fn window_active(&self) -> bool {
        (**self).window_active()
    }

    open spec fn window_raw(&self) -> RawWindowHandle {
        (**self).window_raw()
    }

    fn window_handle(&self) -> (r: Result<WindowHandle<'_>, HandleError>) {
        (**self).window_handle()
    }
}

impl<H: HasWindowHandle + ?Sized> HasWindowHandle for &mut H {
    open spec fn window_active(&self) -> bool {
        (**self).window_active()
    }

    open spec fn window_raw(&self) -> RawWindowHandle {
        (**self).window_raw()
    }

    fn window_handle(&self) -> (r: Result<WindowHandle<'_>, HandleError>) {
        (**self).window_handle()
    }
}

impl<H: HasWindowHandle + ?Sized> HasWindowHandle for Box<H> {
    open spec fn window_active(&self) -> bool {
        (**self).window_active()
    }

    open spec fn window_raw(&self) -> RawWindowHandle {
        (**self).window_raw()
    }

    fn window_handle(&self) -> (r: Result<WindowHandle<'_>, HandleError>) {
        (**self).window_handle()
    }
}

impl<H: HasWindowHandle + ?Sized> HasWindowHandle for Rc<H> {
    open spec fn window_active(&self) -> bool {
        (**self).window_active()
    }

    open spec fn window_raw(&self) -> RawWindowHandle {
        (**self).window_raw()
    }

    fn window_handle(&self) -> (r: Result<WindowHandle<'_>, HandleError>) {
        (**self).window_handle()
    }
}

impl<H: HasWindowHandle + ?Sized> HasWindowHandle for Arc<H> {
    open spec fn window_active(&self) -> bool {
        (**self).window_active()
    }

    open spec fn window_raw(&self) -> RawWindowHandle {
        (**self).window_raw()
    }

    fn window_handle(&self) -> (r: Result<WindowHandle<'_>, HandleError>) {
        (**self).window_handle()
    }
}

impl<'a> HasWindowHandle for WindowHandle<'a> {
    /// A borrowed handle is its own proof: it is always active.
    open spec fn window_active(&self) -> bool {
        true
    }

    open spec fn window_raw(&self) -> RawWindowHandle {
        self@
    }

    fn window_handle(&self) -> (r: Result<WindowHandle<'_>, HandleError>) {
        Ok(*self)
    }
}

/// Two handles borrowed from one object compare equal, whenever each was
/// borrowed and whichever proof each holds.
pub proof fn lemma_window_borrows_equal<H: HasWindowHandle>(
    producer: &H,
    first: WindowHandle,
    second: WindowHandle,
)
    requires
        first@ == producer.window_raw(),
        second@ == producer.window_raw(),
    ensures
        first.eq_spec(&second),
{
}

} // verus!
