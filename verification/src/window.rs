//! The union of the window handles of all platforms.

use crate::android::AndroidNdkWindowHandle;
use crate::appkit::AppKitWindowHandle;
use crate::empty::EmptyRecord;
use crate::gtk::Gtk3WindowHandle;
use crate::gtk::Gtk4WindowHandle;
use crate::haiku::HaikuWindowHandle;
use crate::horizon::HorizonWindowHandle;
use crate::redox::OrbitalWindowHandle;
use crate::uefi::UefiWindowHandle;
use crate::uikit::UiKitWindowHandle;
use crate::unix::DrmWindowHandle;
use crate::unix::GbmWindowHandle;
use crate::unix::WaylandWindowHandle;
use crate::unix::XcbWindowHandle;
use crate::unix::XlibWindowHandle;
use crate::web::Wbg02CanvasWindowHandle;
use crate::web::Wbg02OffscreenCanvasWindowHandle;
use crate::web::WebWindowHandle;
use crate::windows::Win32WindowHandle;
use crate::windows::WinRtWindowHandle;
use std::rc::Rc;
use std::sync::Arc;
use vstd::prelude::*;
use vstd::std_specs::convert::FromSpec;

verus! {

/// A window handle for a particular windowing system.
///
/// Each variant holds the record of one windowing system. Every variant is
/// there on every target; which one a window yields is up to the windowing
/// library that made the window.
#[non_exhaustive]
#[derive(Debug, Clone, Copy, PartialEq, Eq, Hash, Structural)]
pub enum RawWindowHandle {
    /// A raw window handle for UIKit, Apple's windowing library for iOS and its kin.
    UiKit(UiKitWindowHandle),
    /// A raw window handle for AppKit, the windowing library of macOS.
    AppKit(AppKitWindowHandle),
    /// A raw window handle for the Orbital windowing system of Redox OS.
    Orbital(OrbitalWindowHandle),
    /// A raw window handle for Xlib.
    Xlib(XlibWindowHandle),
    /// A raw window handle for Xcb.
    Xcb(XcbWindowHandle),
    /// A raw window handle for Wayland.
    Wayland(WaylandWindowHandle),
    /// A raw window handle for the Linux Direct Rendering Manager, for
    /// systems with neither X nor Wayland.
    Drm(DrmWindowHandle),
    /// A raw window handle for the Linux Generic Buffer Manager.
    Gbm(GbmWindowHandle),
    /// A raw window handle for Win32.
    Win32(Win32WindowHandle),
    /// A raw window handle for WinRT.
    WinRt(WinRtWindowHandle),
    /// A raw window handle for the Web, by canvas ID.
    Web(WebWindowHandle),
    /// A raw window handle for a Web canvas known to the JavaScript binding
    /// layer.
    Wbg02Canvas(Wbg02CanvasWindowHandle),
    /// A raw window handle for a Web offscreen canvas known to the JavaScript
    /// binding layer.
    Wbg02OffscreenCanvas(Wbg02OffscreenCanvasWindowHandle),
    /// A raw window handle for the Android NDK.
    AndroidNdk(AndroidNdkWindowHandle),
    /// A raw window handle for Haiku.
    Haiku(HaikuWindowHandle),
    /// A raw window handle for UEFI.
    Uefi(UefiWindowHandle),
    /// A raw window handle for the 3DS.
    Horizon(HorizonWindowHandle),
    /// A raw window handle for GTK 3.
    Gtk3(Gtk3WindowHandle),
    /// A raw window handle for GTK 4.
    Gtk4(Gtk4WindowHandle),
}

impl RawWindowHandle {
    /// Both values belong to the same windowing system.
    pub open spec fn same_variant(self, other: Self) -> bool {
        match self {
            RawWindowHandle::UiKit(_) => other is UiKit,
            RawWindowHandle::AppKit(_) => other is AppKit,
            RawWindowHandle::Orbital(_) => other is Orbital,
            RawWindowHandle::Xlib(_) => other is Xlib,
            RawWindowHandle::Xcb(_) => other is Xcb,
            RawWindowHandle::Wayland(_) => other is Wayland,
            RawWindowHandle::Drm(_) => other is Drm,
            RawWindowHandle::Gbm(_) => other is Gbm,
            RawWindowHandle::Win32(_) => other is Win32,
            RawWindowHandle::WinRt(_) => other is WinRt,
            RawWindowHandle::Web(_) => other is Web,
            RawWindowHandle::Wbg02Canvas(_) => other is Wbg02Canvas,
            RawWindowHandle::Wbg02OffscreenCanvas(_) => other is Wbg02OffscreenCanvas,
            RawWindowHandle::AndroidNdk(_) => other is AndroidNdk,
            RawWindowHandle::Haiku(_) => other is Haiku,
            RawWindowHandle::Uefi(_) => other is Uefi,
            RawWindowHandle::Horizon(_) => other is Horizon,
            RawWindowHandle::Gtk3(_) => other is Gtk3,
            RawWindowHandle::Gtk4(_) => other is Gtk4,
        }
    }

    /// The record inside is the empty one of its windowing system. A record
    /// with an address that cannot be null is never empty.
    pub open spec fn is_empty(self) -> bool {
        match self {
            RawWindowHandle::UiKit(_) => false,
            RawWindowHandle::AppKit(_) => false,
            RawWindowHandle::Orbital(h) => h.is_empty(),
            RawWindowHandle::Xlib(h) => h.is_empty(),
            RawWindowHandle::Xcb(h) => h.is_empty(),
            RawWindowHandle::Wayland(h) => h.is_empty(),
            RawWindowHandle::Drm(h) => h.is_empty(),
            RawWindowHandle::Gbm(h) => h.is_empty(),
            RawWindowHandle::Win32(h) => h.is_empty(),
            RawWindowHandle::WinRt(_) => false,
            RawWindowHandle::Web(_) => false,
            RawWindowHandle::Wbg02Canvas(_) => false,
            RawWindowHandle::Wbg02OffscreenCanvas(_) => false,
            RawWindowHandle::AndroidNdk(h) => h.is_empty(),
            RawWindowHandle::Haiku(h) => h.is_empty(),
            RawWindowHandle::Uefi(h) => h.is_empty(),
            RawWindowHandle::Horizon(h) => h.is_empty(),
            RawWindowHandle::Gtk3(h) => h.is_empty(),
            RawWindowHandle::Gtk4(h) => h.is_empty(),
        }
    }

    /// Two empty handles of the same windowing system are equal.
    pub proof fn lemma_empty_same_variant_equal(a: Self, b: Self)
        requires
            a.is_empty(),
            b.is_empty(),
            a.same_variant(b),
        ensures
            a == b,
    {
    }

    /// Handles of different windowing systems are never equal, whatever the
    /// records inside hold.
    pub proof fn lemma_distinct_variants_differ(a: Self, b: Self)
        requires
            !a.same_variant(b),
        ensures
            a != b,
    {
    }

    /// Wrapping a record and taking the payload back out gives the record that
    /// went in, under the variant of its windowing system.
    pub proof fn lemma_wrap_round_trip()
        ensures
            forall|h: UiKitWindowHandle|
                (#[trigger] RawWindowHandle::from_spec(h)) is UiKit && RawWindowHandle::from_spec(h)->UiKit_0 == h,
            forall|h: AppKitWindowHandle|
                (#[trigger] RawWindowHandle::from_spec(h)) is AppKit && RawWindowHandle::from_spec(h)->AppKit_0 == h,
            forall|h: OrbitalWindowHandle|
                (#[trigger] RawWindowHandle::from_spec(h)) is Orbital && RawWindowHandle::from_spec(h)->Orbital_0 == h,
            forall|h: XlibWindowHandle|
                (#[trigger] RawWindowHandle::from_spec(h)) is Xlib && RawWindowHandle::from_spec(h)->Xlib_0 == h,
            forall|h: XcbWindowHandle|
                (#[trigger] RawWindowHandle::from_spec(h)) is Xcb && RawWindowHandle::from_spec(h)->Xcb_0 == h,
            forall|h: WaylandWindowHandle|
                (#[trigger] RawWindowHandle::from_spec(h)) is Wayland && RawWindowHandle::from_spec(h)->Wayland_0 == h,
            forall|h: DrmWindowHandle|
                (#[trigger] RawWindowHandle::from_spec(h)) is Drm && RawWindowHandle::from_spec(h)->Drm_0 == h,
            forall|h: GbmWindowHandle|
                (#[trigger] RawWindowHandle::from_spec(h)) is Gbm && RawWindowHandle::from_spec(h)->Gbm_0 == h,
            forall|h: Win32WindowHandle|
                (#[trigger] RawWindowHandle::from_spec(h)) is Win32 && RawWindowHandle::from_spec(h)->Win32_0 == h,
            forall|h: WinRtWindowHandle|
                (#[trigger] RawWindowHandle::from_spec(h)) is WinRt && RawWindowHandle::from_spec(h)->WinRt_0 == h,
            forall|h: WebWindowHandle|
                (#[trigger] RawWindowHandle::from_spec(h)) is Web && RawWindowHandle::from_spec(h)->Web_0 == h,
            forall|h: Wbg02CanvasWindowHandle|
                (#[trigger] RawWindowHandle::from_spec(h)) is Wbg02Canvas && RawWindowHandle::from_spec(h)->Wbg02Canvas_0 == h,
            forall|h: Wbg02OffscreenCanvasWindowHandle|
                (#[trigger] RawWindowHandle::from_spec(h)) is Wbg02OffscreenCanvas && RawWindowHandle::from_spec(h)->Wbg02OffscreenCanvas_0 == h,
            forall|h: AndroidNdkWindowHandle|
                (#[trigger] RawWindowHandle::from_spec(h)) is AndroidNdk && RawWindowHandle::from_spec(h)->AndroidNdk_0 == h,
            forall|h: HaikuWindowHandle|
                (#[trigger] RawWindowHandle::from_spec(h)) is Haiku && RawWindowHandle::from_spec(h)->Haiku_0 == h,
            forall|h: UefiWindowHandle|
                (#[trigger] RawWindowHandle::from_spec(h)) is Uefi && RawWindowHandle::from_spec(h)->Uefi_0 == h,
            forall|h: HorizonWindowHandle|
                (#[trigger] RawWindowHandle::from_spec(h)) is Horizon && RawWindowHandle::from_spec(h)->Horizon_0 == h,
            forall|h: Gtk3WindowHandle|
                (#[trigger] RawWindowHandle::from_spec(h)) is Gtk3 && RawWindowHandle::from_spec(h)->Gtk3_0 == h,
            forall|h: Gtk4WindowHandle|
                (#[trigger] RawWindowHandle::from_spec(h)) is Gtk4 && RawWindowHandle::from_spec(h)->Gtk4_0 == h,
    {
    }
}

impl From<UiKitWindowHandle> for RawWindowHandle {
    fn from(value: UiKitWindowHandle) -> (raw: Self) {
        RawWindowHandle::UiKit(value)
    }
}

impl vstd::std_specs::convert::FromSpecImpl<UiKitWindowHandle> for RawWindowHandle {
    open spec fn obeys_from_spec() -> bool {
        true
    }

    open spec fn from_spec(value: UiKitWindowHandle) -> Self {
        RawWindowHandle::UiKit(value)
    }
}

impl From<AppKitWindowHandle> for RawWindowHandle {
    fn from(value: AppKitWindowHandle) -> (raw: Self) {
        RawWindowHandle::AppKit(value)
    }
}

impl vstd::std_specs::convert::FromSpecImpl<AppKitWindowHandle> for RawWindowHandle {
    open spec fn obeys_from_spec() -> bool {
        true
    }

    open spec fn from_spec(value: AppKitWindowHandle) -> Self {
        RawWindowHandle::AppKit(value)
    }
}

impl From<OrbitalWindowHandle> for RawWindowHandle {
    fn from(value: OrbitalWindowHandle) -> (raw: Self) {
        RawWindowHandle::Orbital(value)
    }
}

impl vstd::std_specs::convert::FromSpecImpl<OrbitalWindowHandle> for RawWindowHandle {
    open spec fn obeys_from_spec() -> bool {
        true
    }

    open spec fn from_spec(value: OrbitalWindowHandle) -> Self {
        RawWindowHandle::Orbital(value)
    }
}

impl From<XlibWindowHandle> for RawWindowHandle {
    fn from(value: XlibWindowHandle) -> (raw: Self) {
        RawWindowHandle::Xlib(value)
    }
}

impl vstd::std_specs::convert::FromSpecImpl<XlibWindowHandle> for RawWindowHandle {
    open spec fn obeys_from_spec() -> bool {
        true
    }

    open spec fn from_spec(value: XlibWindowHandle) -> Self {
        RawWindowHandle::Xlib(value)
    }
}

impl From<XcbWindowHandle> for RawWindowHandle {
    fn from(value: XcbWindowHandle) -> (raw: Self) {
        RawWindowHandle::Xcb(value)
    }
}

impl vstd::std_specs::convert::FromSpecImpl<XcbWindowHandle> for RawWindowHandle {
    open spec fn obeys_from_spec() -> bool {
        true
    }

    open spec fn from_spec(value: XcbWindowHandle) -> Self {
        RawWindowHandle::Xcb(value)
    }
}

impl From<WaylandWindowHandle> for RawWindowHandle {
    fn from(value: WaylandWindowHandle) -> (raw: Self) {
        RawWindowHandle::Wayland(value)
    }
}

impl vstd::std_specs::convert::FromSpecImpl<WaylandWindowHandle> for RawWindowHandle {
    open spec fn obeys_from_spec() -> bool {
        true
    }

    open spec fn from_spec(value: WaylandWindowHandle) -> Self {
        RawWindowHandle::Wayland(value)
    }
}

impl From<DrmWindowHandle> for RawWindowHandle {
    fn from(value: DrmWindowHandle) -> (raw: Self) {
        RawWindowHandle::Drm(value)
    }
}

impl vstd::std_specs::convert::FromSpecImpl<DrmWindowHandle> for RawWindowHandle {
    open spec fn obeys_from_spec() -> bool {
        true
    }

    open spec fn from_spec(value: DrmWindowHandle) -> Self {
        RawWindowHandle::Drm(value)
    }
}

impl From<GbmWindowHandle> for RawWindowHandle {
    fn from(value: GbmWindowHandle) -> (raw: Self) {
        RawWindowHandle::Gbm(value)
    }
}

impl vstd::std_specs::convert::FromSpecImpl<GbmWindowHandle> for RawWindowHandle {
    open spec fn obeys_from_spec() -> bool {
        true
    }

    open spec fn from_spec(value: GbmWindowHandle) -> Self {
        RawWindowHandle::Gbm(value)
    }
}

impl From<Win32WindowHandle> for RawWindowHandle {
    fn from(value: Win32WindowHandle) -> (raw: Self) {
        RawWindowHandle::Win32(value)
    }
}

impl vstd::std_specs::convert::FromSpecImpl<Win32WindowHandle> for RawWindowHandle {
    open spec fn obeys_from_spec() -> bool {
        true
    }

    open spec fn from_spec(value: Win32WindowHandle) -> Self {
        RawWindowHandle::Win32(value)
    }
}

impl From<WinRtWindowHandle> for RawWindowHandle {
    fn from(value: WinRtWindowHandle) -> (raw: Self) {
        RawWindowHandle::WinRt(value)
    }
}

impl vstd::std_specs::convert::FromSpecImpl<WinRtWindowHandle> for RawWindowHandle {
    open spec fn obeys_from_spec() -> bool {
        true
    }

    open spec fn from_spec(value: WinRtWindowHandle) -> Self {
        RawWindowHandle::WinRt(value)
    }
}

impl From<WebWindowHandle> for RawWindowHandle {
    fn from(value: WebWindowHandle) -> (raw: Self) {
        RawWindowHandle::Web(value)
    }
}

impl vstd::std_specs::convert::FromSpecImpl<WebWindowHandle> for RawWindowHandle {
    open spec fn obeys_from_spec() -> bool {
        true
    }

    open spec fn from_spec(value: WebWindowHandle) -> Self {
        RawWindowHandle::Web(value)
    }
}

impl From<Wbg02CanvasWindowHandle> for RawWindowHandle {
    fn from(value: Wbg02CanvasWindowHandle) -> (raw: Self) {
        RawWindowHandle::Wbg02Canvas(value)
    }
}

impl vstd::std_specs::convert::FromSpecImpl<Wbg02CanvasWindowHandle> for RawWindowHandle {
    open spec fn obeys_from_spec() -> bool {
        true
    }

    open spec fn from_spec(value: Wbg02CanvasWindowHandle) -> Self {
        RawWindowHandle::Wbg02Canvas(value)
    }
}

impl From<Wbg02OffscreenCanvasWindowHandle> for RawWindowHandle {
    fn from(value: Wbg02OffscreenCanvasWindowHandle) -> (raw: Self) {
        RawWindowHandle::Wbg02OffscreenCanvas(value)
    }
}

impl vstd::std_specs::convert::FromSpecImpl<Wbg02OffscreenCanvasWindowHandle> for RawWindowHandle {
    open spec fn obeys_from_spec() -> bool {
        true
    }

    open spec fn from_spec(value: Wbg02OffscreenCanvasWindowHandle) -> Self {
        RawWindowHandle::Wbg02OffscreenCanvas(value)
    }
}

impl From<AndroidNdkWindowHandle> for RawWindowHandle {
    fn from(value: AndroidNdkWindowHandle) -> (raw: Self) {
        RawWindowHandle::AndroidNdk(value)
    }
}

impl vstd::std_specs::convert::FromSpecImpl<AndroidNdkWindowHandle> for RawWindowHandle {
    open spec fn obeys_from_spec() -> bool {
        true
    }

    open spec fn from_spec(value: AndroidNdkWindowHandle) -> Self {
        RawWindowHandle::AndroidNdk(value)
    }
}

impl From<HaikuWindowHandle> for RawWindowHandle {
    fn from(value: HaikuWindowHandle) -> (raw: Self) {
        RawWindowHandle::Haiku(value)
    }
}

impl vstd::std_specs::convert::FromSpecImpl<HaikuWindowHandle> for RawWindowHandle {
    open spec fn obeys_from_spec() -> bool {
        true
    }

    open spec fn from_spec(value: HaikuWindowHandle) -> Self {
        RawWindowHandle::Haiku(value)
    }
}

impl From<UefiWindowHandle> for RawWindowHandle {
    fn from(value: UefiWindowHandle) -> (raw: Self) {
        RawWindowHandle::Uefi(value)
    }
}

impl vstd::std_specs::convert::FromSpecImpl<UefiWindowHandle> for RawWindowHandle {
    open spec fn obeys_from_spec() -> bool {
        true
    }

    open spec fn from_spec(value: UefiWindowHandle) -> Self {
        RawWindowHandle::Uefi(value)
    }
}

impl From<HorizonWindowHandle> for RawWindowHandle {
    fn from(value: HorizonWindowHandle) -> (raw: Self) {
        RawWindowHandle::Horizon(value)
    }
}

impl vstd::std_specs::convert::FromSpecImpl<HorizonWindowHandle> for RawWindowHandle {
    open spec fn obeys_from_spec() -> bool {
        true
    }

    open spec fn from_spec(value: HorizonWindowHandle) -> Self {
        RawWindowHandle::Horizon(value)
    }
}

impl From<Gtk3WindowHandle> for RawWindowHandle {
    fn from(value: Gtk3WindowHandle) -> (raw: Self) {
        RawWindowHandle::Gtk3(value)
    }
}

impl vstd::std_specs::convert::FromSpecImpl<Gtk3WindowHandle> for RawWindowHandle {
    open spec fn obeys_from_spec() -> bool {
        true
    }

    open spec fn from_spec(value: Gtk3WindowHandle) -> Self {
        RawWindowHandle::Gtk3(value)
    }
}

impl From<Gtk4WindowHandle> for RawWindowHandle {
    fn from(value: Gtk4WindowHandle) -> (raw: Self) {
        RawWindowHandle::Gtk4(value)
    }
}

impl vstd::std_specs::convert::FromSpecImpl<Gtk4WindowHandle> for RawWindowHandle {
    open spec fn obeys_from_spec() -> bool {
        true
    }

    open spec fn from_spec(value: Gtk4WindowHandle) -> Self {
        RawWindowHandle::Gtk4(value)
    }
}

/// An object that stands for a window and can give its raw handle.
///
/// Whoever implements this trait sees to it that every address in the handle
/// that is not null points at a live native object, and that the handle
/// stays the same from call to call until the platform says otherwise.
pub trait HasRawWindowHandle {
    /// The raw handle of the window behind this object.
    spec fn raw_window(&self) -> RawWindowHandle;

    /// Gives the raw handle of the window behind this object.
    fn raw_window_handle(&self) -> (raw: RawWindowHandle)
        ensures
            raw == self.raw_window(),
    ;
}

impl<'a, T: HasRawWindowHandle + ?Sized> HasRawWindowHandle for &'a T {
    open spec fn raw_window(&self) -> RawWindowHandle {
        (**self).raw_window()
    }

    fn raw_window_handle(&self) -> (raw: RawWindowHandle) {
        (**self).raw_window_handle()
    }
}

impl<T: HasRawWindowHandle + ?Sized> HasRawWindowHandle for Rc<T> {
    open spec fn raw_window(&self) -> RawWindowHandle {
        (**self).raw_window()
    }

    fn raw_window_handle(&self) -> (raw: RawWindowHandle) {
        (**self).raw_window_handle()
    }
}

impl<T: HasRawWindowHandle + ?Sized> HasRawWindowHandle for Arc<T> {
    open spec fn raw_window(&self) -> RawWindowHandle {
        (**self).raw_window()
    }

    fn raw_window_handle(&self) -> (raw: RawWindowHandle) {
        (**self).raw_window_handle()
    }
}

} // verus!
