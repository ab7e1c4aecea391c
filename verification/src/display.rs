//! The union of the display handles of all platforms.

use crate::android::AndroidDisplayHandle;
use crate::appkit::AppKitDisplayHandle;
use crate::empty::EmptyRecord;
use crate::gtk::Gtk3DisplayHandle;
use crate::gtk::Gtk4DisplayHandle;
use crate::haiku::HaikuDisplayHandle;
use crate::horizon::HorizonDisplayHandle;
use crate::redox::OrbitalDisplayHandle;
use crate::uefi::UefiDisplayHandle;
use crate::uikit::UiKitDisplayHandle;
use crate::unix::DrmDisplayHandle;
use crate::unix::GbmDisplayHandle;
use crate::unix::WaylandDisplayHandle;
use crate::unix::XcbDisplayHandle;
use crate::unix::XlibDisplayHandle;
use crate::web::WebDisplayHandle;
use crate::windows::WindowsDisplayHandle;
use std::rc::Rc;
use std::sync::Arc;
use vstd::prelude::*;
use vstd::std_specs::convert::FromSpec;

verus! {

/// A display handle for a particular windowing system.
///
/// A display mostly stands for a connection to a display server and is not
/// bound to one window. Where a windowing system has no display of its own,
/// its variant holds a record without fields.
#[non_exhaustive]
#[derive(Debug, Clone, Copy, PartialEq, Eq, Hash, Structural)]
pub enum RawDisplayHandle {
    /// A raw display handle for UIKit, Apple's windowing library for iOS and its kin.
    UiKit(UiKitDisplayHandle),
    /// A raw display handle for AppKit, the windowing library of macOS.
    AppKit(AppKitDisplayHandle),
    /// A raw display handle for the Orbital windowing system of Redox OS.
    Orbital(OrbitalDisplayHandle),
    /// A raw display handle for Xlib.
    Xlib(XlibDisplayHandle),
    /// A raw display handle for Xcb.
    Xcb(XcbDisplayHandle),
    /// A raw display handle for Wayland.
    Wayland(WaylandDisplayHandle),
    /// A raw display handle for the Linux Direct Rendering Manager, for
    /// systems with neither X nor Wayland.
    Drm(DrmDisplayHandle),
    /// A raw display handle for the Linux Generic Buffer Manager.
    Gbm(GbmDisplayHandle),
    /// A raw display handle for Windows.
    Windows(WindowsDisplayHandle),
    /// A raw display handle for the Web.
    Web(WebDisplayHandle),
    /// A raw display handle for Android.
    Android(AndroidDisplayHandle),
    /// A raw display handle for Haiku.
    Haiku(HaikuDisplayHandle),
    /// A raw display handle for UEFI.
    Uefi(UefiDisplayHandle),
    /// A raw display handle for the 3DS.
    Horizon(HorizonDisplayHandle),
    /// A raw display handle for GTK 3.
    Gtk3(Gtk3DisplayHandle),
    /// A raw display handle for GTK 4.
    Gtk4(Gtk4DisplayHandle),
}

impl RawDisplayHandle {
    /// Both values belong to the same windowing system.
    pub open spec fn same_variant(self, other: Self) -> bool {
        match self {
            RawDisplayHandle::UiKit(_) => other is UiKit,
            RawDisplayHandle::AppKit(_) => other is AppKit,
            RawDisplayHandle::Orbital(_) => other is Orbital,
            RawDisplayHandle::Xlib(_) => other is Xlib,
            RawDisplayHandle::Xcb(_) => other is Xcb,
            RawDisplayHandle::Wayland(_) => other is Wayland,
            RawDisplayHandle::Drm(_) => other is Drm,
            RawDisplayHandle::Gbm(_) => other is Gbm,
            RawDisplayHandle::Windows(_) => other is Windows,
            RawDisplayHandle::Web(_) => other is Web,
            RawDisplayHandle::Android(_) => other is Android,
            RawDisplayHandle::Haiku(_) => other is Haiku,
            RawDisplayHandle::Uefi(_) => other is Uefi,
            RawDisplayHandle::Horizon(_) => other is Horizon,
            RawDisplayHandle::Gtk3(_) => other is Gtk3,
            RawDisplayHandle::Gtk4(_) => other is Gtk4,
        }
    }

    /// The record inside is the empty one of its windowing system. A record
    /// with an address that cannot be null is never empty.
    pub open spec fn is_empty(self) -> bool {
        match self {
            RawDisplayHandle::UiKit(h) => h.is_empty(),
            RawDisplayHandle::AppKit(h) => h.is_empty(),
            RawDisplayHandle::Orbital(h) => h.is_empty(),
            RawDisplayHandle::Xlib(h) => h.is_empty(),
            RawDisplayHandle::Xcb(h) => h.is_empty(),
            RawDisplayHandle::Wayland(h) => h.is_empty(),
            RawDisplayHandle::Drm(h) => h.is_empty(),
            RawDisplayHandle::Gbm(h) => h.is_empty(),
            RawDisplayHandle::Windows(h) => h.is_empty(),
            RawDisplayHandle::Web(h) => h.is_empty(),
            RawDisplayHandle::Android(h) => h.is_empty(),
            RawDisplayHandle::Haiku(h) => h.is_empty(),
            RawDisplayHandle::Uefi(_) => false,
            RawDisplayHandle::Horizon(h) => h.is_empty(),
            RawDisplayHandle::Gtk3(h) => h.is_empty(),
            RawDisplayHandle::Gtk4(h) => h.is_empty(),
        }
    }

    /// Two empty handles of the same windowing system are equal.
    pub proof fn lemma_empty_same_variant_equal(a: Self, b: Self)
        requires
            a.is_empty(),
            b.is_empty(),
            a.same_variant(b),
        ensures
            a == b,
    {
    }

    /// Handles of different windowing systems are never equal, whatever the
    /// records inside hold.
    pub proof fn lemma_distinct_variants_differ(a: Self, b: Self)
        requires
            !a.same_variant(b),
        ensures
            a != b,
    {
    }

    /// Wrapping a record and taking the payload back out gives the record that
    /// went in, under the variant of its windowing system.
    pub proof fn lemma_wrap_round_trip()
        ensures
            forall|h: UiKitDisplayHandle|
                (#[trigger] RawDisplayHandle::from_spec(h)) is UiKit && RawDisplayHandle::from_spec(h)->UiKit_0 == h,
            forall|h: AppKitDisplayHandle|
                (#[trigger] RawDisplayHandle::from_spec(h)) is AppKit && RawDisplayHandle::from_spec(h)->AppKit_0 == h,
            forall|h: OrbitalDisplayHandle|
                (#[trigger] RawDisplayHandle::from_spec(h)) is Orbital && RawDisplayHandle::from_spec(h)->Orbital_0 == h,
            forall|h: XlibDisplayHandle|
                (#[trigger] RawDisplayHandle::from_spec(h)) is Xlib && RawDisplayHandle::from_spec(h)->Xlib_0 == h,
            forall|h: XcbDisplayHandle|
                (#[trigger] RawDisplayHandle::from_spec(h)) is Xcb && RawDisplayHandle::from_spec(h)->Xcb_0 == h,
            forall|h: WaylandDisplayHandle|
                (#[trigger] RawDisplayHandle::from_spec(h)) is Wayland && RawDisplayHandle::from_spec(h)->Wayland_0 == h,
            forall|h: DrmDisplayHandle|
                (#[trigger] RawDisplayHandle::from_spec(h)) is Drm && RawDisplayHandle::from_spec(h)->Drm_0 == h,
            forall|h: GbmDisplayHandle|
                (#[trigger] RawDisplayHandle::from_spec(h)) is Gbm && RawDisplayHandle::from_spec(h)->Gbm_0 == h,
            forall|h: WindowsDisplayHandle|
                (#[trigger] RawDisplayHandle::from_spec(h)) is Windows && RawDisplayHandle::from_spec(h)->Windows_0 == h,
            forall|h: WebDisplayHandle|
                (#[trigger] RawDisplayHandle::from_spec(h)) is Web && RawDisplayHandle::from_spec(h)->Web_0 == h,
            forall|h: AndroidDisplayHandle|
                (#[trigger] RawDisplayHandle::from_spec(h)) is Android && RawDisplayHandle::from_spec(h)->Android_0 == h,
            forall|h: HaikuDisplayHandle|
                (#[trigger] RawDisplayHandle::from_spec(h)) is Haiku && RawDisplayHandle::from_spec(h)->Haiku_0 == h,
            forall|h: UefiDisplayHandle|
                (#[trigger] RawDisplayHandle::from_spec(h)) is Uefi && RawDisplayHandle::from_spec(h)->Uefi_0 == h,
            forall|h: HorizonDisplayHandle|
                (#[trigger] RawDisplayHandle::from_spec(h)) is Horizon && RawDisplayHandle::from_spec(h)->Horizon_0 == h,
            forall|h: Gtk3DisplayHandle|
                (#[trigger] RawDisplayHandle::from_spec(h)) is Gtk3 && RawDisplayHandle::from_spec(h)->Gtk3_0 == h,
            forall|h: Gtk4DisplayHandle|
                (#[trigger] RawDisplayHandle::from_spec(h)) is Gtk4 && RawDisplayHandle::from_spec(h)->Gtk4_0 == h,
    {
    }
}

impl From<UiKitDisplayHandle> for RawDisplayHandle {
    fn from(value: UiKitDisplayHandle) -> (raw: Self) {
        RawDisplayHandle::UiKit(value)
    }
}

impl vstd::std_specs::convert::FromSpecImpl<UiKitDisplayHandle> for RawDisplayHandle {
    open spec fn obeys_from_spec() -> bool {
        true
    }

    open spec fn from_spec(value: UiKitDisplayHandle) -> Self {
        RawDisplayHandle::UiKit(value)
    }
}

impl From<AppKitDisplayHandle> for RawDisplayHandle {
    fn from(value: AppKitDisplayHandle) -> (raw: Self) {
        RawDisplayHandle::AppKit(value)
    }
}

impl vstd::std_specs::convert::FromSpecImpl<AppKitDisplayHandle> for RawDisplayHandle {
    open spec fn obeys_from_spec() -> bool {
        true
    }

    open spec fn from_spec(value: AppKitDisplayHandle) -> Self {
        RawDisplayHandle::AppKit(value)
    }
}

impl From<OrbitalDisplayHandle> for RawDisplayHandle {
    fn from(value: OrbitalDisplayHandle) -> (raw: Self) {
        RawDisplayHandle::Orbital(value)
    }
}

impl vstd::std_specs::convert::FromSpecImpl<OrbitalDisplayHandle> for RawDisplayHandle {
    open spec fn obeys_from_spec() -> bool {
        true
    }

    open spec fn from_spec(value: OrbitalDisplayHandle) -> Self {
        RawDisplayHandle::Orbital(value)
    }
}

impl From<XlibDisplayHandle> for RawDisplayHandle {
    fn from(value: XlibDisplayHandle) -> (raw: Self) {
        RawDisplayHandle::Xlib(value)
    }
}

impl vstd::std_specs::convert::FromSpecImpl<XlibDisplayHandle> for RawDisplayHandle {
    open spec fn obeys_from_spec() -> bool {
        true
    }

    open spec fn from_spec(value: XlibDisplayHandle) -> Self {
        RawDisplayHandle::Xlib(value)
    }
}

impl From<XcbDisplayHandle> for RawDisplayHandle {
    fn from(value: XcbDisplayHandle) -> (raw: Self) {
        RawDisplayHandle::Xcb(value)
    }
}

impl vstd::std_specs::convert::FromSpecImpl<XcbDisplayHandle> for RawDisplayHandle {
    open spec fn obeys_from_spec() -> bool {
        true
    }

    open spec fn from_spec(value: XcbDisplayHandle) -> Self {
        RawDisplayHandle::Xcb(value)
    }
}

impl From<WaylandDisplayHandle> for RawDisplayHandle {
    fn from(value: WaylandDisplayHandle) -> (raw: Self) {
        RawDisplayHandle::Wayland(value)
    }
}

impl vstd::std_specs::convert::FromSpecImpl<WaylandDisplayHandle> for RawDisplayHandle {
    open spec fn obeys_from_spec() -> bool {
        true
    }

    open spec fn from_spec(value: WaylandDisplayHandle) -> Self {
        RawDisplayHandle::Wayland(value)
    }
}

impl From<DrmDisplayHandle> for RawDisplayHandle {
    fn from(value: DrmDisplayHandle) -> (raw: Self) {
        RawDisplayHandle::Drm(value)
    }
}

impl vstd::std_specs::convert::FromSpecImpl<DrmDisplayHandle> for RawDisplayHandle {
    open spec fn obeys_from_spec() -> bool {
        true
    }

    open spec fn from_spec(value: DrmDisplayHandle) -> Self {
        RawDisplayHandle::Drm(value)
    }
}

impl From<GbmDisplayHandle> for RawDisplayHandle {
    fn from(value: GbmDisplayHandle) -> (raw: Self) {
        RawDisplayHandle::Gbm(value)
    }
}

impl vstd::std_specs::convert::FromSpecImpl<GbmDisplayHandle> for RawDisplayHandle {
    open spec fn obeys_from_spec() -> bool {
        true
    }

    open spec fn from_spec(value: GbmDisplayHandle) -> Self {
        RawDisplayHandle::Gbm(value)
    }
}

impl From<WindowsDisplayHandle> for RawDisplayHandle {
    fn from(value: WindowsDisplayHandle) -> (raw: Self) {
        RawDisplayHandle::Windows(value)
    }
}

impl vstd::std_specs::convert::FromSpecImpl<WindowsDisplayHandle> for RawDisplayHandle {
    open spec fn obeys_from_spec() -> bool {
        true
    }

    open spec fn from_spec(value: WindowsDisplayHandle) -> Self {
        RawDisplayHandle::Windows(value)
    }
}

impl From<WebDisplayHandle> for RawDisplayHandle {
    fn from(value: WebDisplayHandle) -> (raw: Self) {
        RawDisplayHandle::Web(value)
    }
}

impl vstd::std_specs::convert::FromSpecImpl<WebDisplayHandle> for RawDisplayHandle {
    open spec fn obeys_from_spec() -> bool {
        true
    }

    open spec fn from_spec(value: WebDisplayHandle) -> Self {
        RawDisplayHandle::Web(value)
    }
}

impl From<AndroidDisplayHandle> for RawDisplayHandle {
    fn from(value: AndroidDisplayHandle) -> (raw: Self) {
        RawDisplayHandle::Android(value)
    }
}

impl vstd::std_specs::convert::FromSpecImpl<AndroidDisplayHandle> for RawDisplayHandle {
    open spec fn obeys_from_spec() -> bool {
        true
    }

    open spec fn from_spec(value: AndroidDisplayHandle) -> Self {
        RawDisplayHandle::Android(value)
    }
}

impl From<HaikuDisplayHandle> for RawDisplayHandle {
    fn from(value: HaikuDisplayHandle) -> (raw: Self) {
        RawDisplayHandle::Haiku(value)
    }
}

impl vstd::std_specs::convert::FromSpecImpl<HaikuDisplayHandle> for RawDisplayHandle {
    open spec fn obeys_from_spec() -> bool {
        true
    }

    open spec fn from_spec(value: HaikuDisplayHandle) -> Self {
        RawDisplayHandle::Haiku(value)
    }
}

impl From<UefiDisplayHandle> for RawDisplayHandle {
    fn from(value: UefiDisplayHandle) -> (raw: Self) {
        RawDisplayHandle::Uefi(value)
    }
}

impl vstd::std_specs::convert::FromSpecImpl<UefiDisplayHandle> for RawDisplayHandle {
    open spec fn obeys_from_spec() -> bool {
        true
    }

    open spec fn from_spec(value: UefiDisplayHandle) -> Self {
        RawDisplayHandle::Uefi(value)
    }
}

impl From<HorizonDisplayHandle> for RawDisplayHandle {
    fn from(value: HorizonDisplayHandle) -> (raw: Self) {
        RawDisplayHandle::Horizon(value)
    }
}

impl vstd::std_specs::convert::FromSpecImpl<HorizonDisplayHandle> for RawDisplayHandle {
    open spec fn obeys_from_spec() -> bool {
        true
    }

    open spec fn from_spec(value: HorizonDisplayHandle) -> Self {
        RawDisplayHandle::Horizon(value)
    }
}

impl From<Gtk3DisplayHandle> for RawDisplayHandle {
    fn from(value: Gtk3DisplayHandle) -> (raw: Self) {
        RawDisplayHandle::Gtk3(value)
    }
}

impl vstd::std_specs::convert::FromSpecImpl<Gtk3DisplayHandle> for RawDisplayHandle {
    open spec fn obeys_from_spec() -> bool {
        true
    }

    open spec fn from_spec(value: Gtk3DisplayHandle) -> Self {
        RawDisplayHandle::Gtk3(value)
    }
}

impl From<Gtk4DisplayHandle> for RawDisplayHandle {
    fn from(value: Gtk4DisplayHandle) -> (raw: Self) {
        RawDisplayHandle::Gtk4(value)
    }
}

impl vstd::std_specs::convert::FromSpecImpl<Gtk4DisplayHandle> for RawDisplayHandle {
    open spec fn obeys_from_spec() -> bool {
        true
    }

    open spec fn from_spec(value: Gtk4DisplayHandle) -> Self {
        RawDisplayHandle::Gtk4(value)
    }
}

/// An object that stands for a display and can give its raw handle.
///
/// Whoever implements this trait sees to it that every address in the handle
/// that is not null points at a live native object, and that the handle
/// stays the same from call to call until the platform says otherwise.
pub trait HasRawDisplayHandle {
    /// The raw handle of the display behind this object.
    spec fn raw_display(&self) -> RawDisplayHandle;

    /// Gives the raw handle of the display behind this object.
    fn raw_display_handle(&self) -> (raw: RawDisplayHandle)
        ensures
            raw == self.raw_display(),
    ;
}

impl<'a, T: HasRawDisplayHandle + ?Sized> HasRawDisplayHandle for &'a T {
    open spec fn raw_display(&self) -> RawDisplayHandle {
        (**self).raw_display()
    }

    fn raw_display_handle(&self) -> (raw: RawDisplayHandle) {
        (**self).raw_display_handle()
    }
}

impl<T: HasRawDisplayHandle + ?Sized> HasRawDisplayHandle for Rc<T> {
    open spec fn raw_display(&self) -> RawDisplayHandle {
        (**self).raw_display()
    }

    fn raw_display_handle(&self) -> (raw: RawDisplayHandle) {
        (**self).raw_display_handle()
    }
}

impl<T: HasRawDisplayHandle + ?Sized> HasRawDisplayHandle for Arc<T> {
    open spec fn raw_display(&self) -> RawDisplayHandle {
        (**self).raw_display()
    }

    fn raw_display_handle(&self) -> (raw: RawDisplayHandle) {
        (**self).raw_display_handle()
    }
}

} // verus!
