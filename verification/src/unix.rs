//! Handles for the Unix display systems: Xlib, Xcb, Wayland, DRM and GBM.

use crate::empty::EmptyRecord;
use cty::c_int;
use cty::c_ulong;
use vstd::prelude::*;

verus! {

/// Raw display handle for Xlib.
#[non_exhaustive]
#[derive(Debug, Clone, Copy, PartialEq, Eq, Hash, Structural)]
pub struct XlibDisplayHandle {
    /// Address of an Xlib `Display`.
    pub display: usize,
    /// Number of the screen, for a window that has none of its own.
    pub screen: c_int,
}

impl EmptyRecord for XlibDisplayHandle {
    open spec fn is_empty(&self) -> bool {
        self.display == 0 && self.screen == 0
    }

    proof fn lemma_empty_unique(a: &Self, b: &Self) {
    }
}

impl XlibDisplayHandle {
    /// Creates a handle with a null display and screen zero.
    pub fn empty() -> (h: Self)
        ensures
            h.is_empty(),
    {
        Self { display: 0, screen: 0 }
    }
}

/// Raw window handle for Xlib.
#[non_exhaustive]
#[derive(Debug, Clone, Copy, PartialEq, Eq, Hash, Structural)]
pub struct XlibWindowHandle {
    /// An Xlib `Window`.
    pub window: c_ulong,
    /// An Xlib visual ID, or 0 if unknown.
    pub visual_id: c_ulong,
}

impl EmptyRecord for XlibWindowHandle {
    open spec fn is_empty(&self) -> bool {
        self.window == 0 && self.visual_id == 0
    }

    proof fn lemma_empty_unique(a: &Self, b: &Self) {
    }
}

impl XlibWindowHandle {
    /// Creates a handle with window and visual ID zero.
    pub fn empty() -> (h: Self)
        ensures
            h.is_empty(),
    {
        Self { window: 0, visual_id: 0 }
    }
}

/// Raw display handle for Xcb.
#[non_exhaustive]
#[derive(Debug, Clone, Copy, PartialEq, Eq, Hash, Structural)]
pub struct XcbDisplayHandle {
    /// Address of an X server `xcb_connection_t`.
    pub connection: usize,
    /// Number of the screen, for a window that has none of its own.
    pub screen: c_int,
}

impl EmptyRecord for XcbDisplayHandle {
    open spec fn is_empty(&self) -> bool {
        self.connection == 0 && self.screen == 0
    }

    proof fn lemma_empty_unique(a: &Self, b: &Self) {
    }
}

impl XcbDisplayHandle {
    /// Creates a handle with a null connection and screen zero.
    pub fn empty() -> (h: Self)
        ensures
            h.is_empty(),
    {
        Self { connection: 0, screen: 0 }
    }
}

/// Raw window handle for Xcb.
#[non_exhaustive]
#[derive(Debug, Clone, Copy, PartialEq, Eq, Hash, Structural)]
pub struct XcbWindowHandle {
    /// An X11 `xcb_window_t`.
    pub window: u32,
    /// An X11 `xcb_visualid_t`, or 0 if unknown.
    pub visual_id: u32,
}

impl EmptyRecord for XcbWindowHandle {
    open spec fn is_empty(&self) -> bool {
        self.window == 0 && self.visual_id == 0
    }

    proof fn lemma_empty_unique(a: &Self, b: &Self) {
    }
}

impl XcbWindowHandle {
    /// Creates a handle with window and visual ID zero.
    pub fn empty() -> (h: Self)
        ensures
            h.is_empty(),
    {
        Self { window: 0, visual_id: 0 }
    }
}

/// Raw display handle for Wayland.
#[non_exhaustive]
#[derive(Debug, Clone, Copy, PartialEq, Eq, Hash, Structural)]
pub struct WaylandDisplayHandle {
    /// Address of a `wl_display`.
    pub display: usize,
}

impl EmptyRecord for WaylandDisplayHandle {
    open spec fn is_empty(&self) -> bool {
        self.display == 0
    }

    proof fn lemma_empty_unique(a: &Self, b: &Self) {
    }
}

impl WaylandDisplayHandle {
    /// Creates a handle with a null display.
    pub fn empty() -> (h: Self)
        ensures
            h.is_empty(),
    {
        Self { display: 0 }
    }
}

/// Raw window handle for Wayland.
#[non_exhaustive]
#[derive(Debug, Clone, Copy, PartialEq, Eq, Hash, Structural)]
pub struct WaylandWindowHandle {
    /// Address of a `wl_surface`.
    pub surface: usize,
}

impl EmptyRecord for WaylandWindowHandle {
    open spec fn is_empty(&self) -> bool {
        self.surface == 0
    }

    proof fn lemma_empty_unique(a: &Self, b: &Self) {
    }
}

impl WaylandWindowHandle {
    /// Creates a handle with a null surface.
    pub fn empty() -> (h: Self)
        ensures
            h.is_empty(),
    {
        Self { surface: 0 }
    }
}

/// Raw display handle for the Linux Direct Rendering Manager.
#[non_exhaustive]
#[derive(Debug, Clone, Copy, PartialEq, Eq, Hash, Structural)]
pub struct DrmDisplayHandle {
    /// File descriptor of the DRM device.
    pub fd: i32,
}

impl EmptyRecord for DrmDisplayHandle {
    open spec fn is_empty(&self) -> bool {
        self.fd == 0
    }

    proof fn lemma_empty_unique(a: &Self, b: &Self) {
    }
}

impl DrmDisplayHandle {
    /// Creates a handle with file descriptor zero.
    pub fn empty() -> (h: Self)
        ensures
            h.is_empty(),
    {
        Self { fd: 0 }
    }
}

/// Raw window handle for the Linux Direct Rendering Manager.
#[non_exhaustive]
#[derive(Debug, Clone, Copy, PartialEq, Eq, Hash, Structural)]
pub struct DrmWindowHandle {
    /// Identifier of the plane.
    pub plane: u32,
}

impl EmptyRecord for DrmWindowHandle {
    open spec fn is_empty(&self) -> bool {
        self.plane == 0
    }

    proof fn lemma_empty_unique(a: &Self, b: &Self) {
    }
}

impl DrmWindowHandle {
    /// Creates a handle with plane zero.
    pub fn empty() -> (h: Self)
        ensures
            h.is_empty(),
    {
        Self { plane: 0 }
    }
}

/// Raw display handle for the Linux Generic Buffer Manager.
#[non_exhaustive]
#[derive(Debug, Clone, Copy, PartialEq, Eq, Hash, Structural)]
pub struct GbmDisplayHandle {
    /// Address of a `gbm_device`.
    pub gbm_device: usize,
}

impl EmptyRecord for GbmDisplayHandle {
    open spec fn is_empty(&self) -> bool {
        self.gbm_device == 0
    }

    proof fn lemma_empty_unique(a: &Self, b: &Self) {
    }
}

impl GbmDisplayHandle {
    /// Creates a handle with a null device.
    pub fn empty() -> (h: Self)
        ensures
            h.is_empty(),
    {
        Self { gbm_device: 0 }
    }
}

/// Raw window handle for the Linux Generic Buffer Manager.
#[non_exhaustive]
#[derive(Debug, Clone, Copy, PartialEq, Eq, Hash, Structural)]
pub struct GbmWindowHandle {
    /// Address of a `gbm_surface`.
    pub gbm_surface: usize,
}

impl EmptyRecord for GbmWindowHandle {
    open spec fn is_empty(&self) -> bool {
        self.gbm_surface == 0
    }

    proof fn lemma_empty_unique(a: &Self, b: &Self) {
    }
}

impl GbmWindowHandle {
    /// Creates a handle with a null surface.
    pub fn empty() -> (h: Self)
        ensures
            h.is_empty(),
    {
        Self { gbm_surface: 0 }
    }
}

/// Raw handle for Xlib that stands for window and display at once.
#[non_exhaustive]
#[derive(Debug, Clone, Copy, PartialEq, Eq, Hash, Structural)]
pub struct XlibHandle {
    /// An Xlib `Window`.
    pub window: c_ulong,
    /// Address of an Xlib `Display`.
    pub display: usize,
    /// An Xlib visual ID, or 0 if unknown.
    pub visual_id: c_ulong,
}

impl EmptyRecord for XlibHandle {
    open spec fn is_empty(&self) -> bool {
        self.window == 0 && self.display == 0 && self.visual_id == 0
    }

    proof fn lemma_empty_unique(a: &Self, b: &Self) {
    }
}

impl XlibHandle {
    /// Creates a handle with a null display and window and visual ID zero.
    pub fn empty() -> (h: Self)
        ensures
            h.is_empty(),
    {
        Self { window: 0, display: 0, visual_id: 0 }
    }
}

/// Raw handle for Xcb that stands for window and display at once.
#[non_exhaustive]
#[derive(Debug, Clone, Copy, PartialEq, Eq, Hash, Structural)]
pub struct XcbHandle {
    /// An X11 `xcb_window_t`.
    pub window: u32,
    /// Address of an X server `xcb_connection_t`.
    pub connection: usize,
    /// An X11 `xcb_visualid_t`, or 0 if unknown.
    pub visual_id: u32,
}

impl EmptyRecord for XcbHandle {
    open spec fn is_empty(&self) -> bool {
        self.window == 0 && self.connection == 0 && self.visual_id == 0
    }

    proof fn lemma_empty_unique(a: &Self, b: &Self) {
    }
}

impl XcbHandle {
    /// Creates a handle with a null connection and window and visual ID zero.
    pub fn empty() -> (h: Self)
        ensures
            h.is_empty(),
    {
        Self { window: 0, connection: 0, visual_id: 0 }
    }
}

/// Raw handle for Wayland that stands for window and display at once.
#[non_exhaustive]
#[derive(Debug, Clone, Copy, PartialEq, Eq, Hash, Structural)]
pub struct WaylandHandle {
    /// Address of a `wl_surface`.
    pub surface: usize,
    /// Address of a `wl_display`.
    pub display: usize,
}

impl EmptyRecord for WaylandHandle {
    open spec fn is_empty(&self) -> bool {
        self.surface == 0 && self.display == 0
    }

    proof fn lemma_empty_unique(a: &Self, b: &Self) {
    }
}

impl WaylandHandle {
    /// Creates a handle with a null surface and a null display.
    pub fn empty() -> (h: Self)
        ensures
            h.is_empty(),
    {
        Self { surface: 0, display: 0 }
    }
}

impl From<(XlibWindowHandle, XlibDisplayHandle)> for XlibHandle {
    /// Joins a window handle and the handle of its display. The display's
    /// screen number has no place in the joint handle.
    fn from(handle: (XlibWindowHandle, XlibDisplayHandle)) -> (h: Self) {
        Self { window: handle.0.window, display: handle.1.display, visual_id: handle.0.visual_id }
    }
}

impl vstd::std_specs::convert::FromSpecImpl<(XlibWindowHandle, XlibDisplayHandle)> for XlibHandle {
    open spec fn obeys_from_spec() -> bool {
        true
    }

    open spec fn from_spec(handle: (XlibWindowHandle, XlibDisplayHandle)) -> Self {
        XlibHandle {
            window: handle.0.window,
            display: handle.1.display,
            visual_id: handle.0.visual_id,
        }
    }
}

impl From<(XcbWindowHandle, XcbDisplayHandle)> for XcbHandle {
    /// Joins a window handle and the handle of its display. The display's
    /// screen number has no place in the joint handle.
    fn from(handle: (XcbWindowHandle, XcbDisplayHandle)) -> (h: Self) {
        Self {
            window: handle.0.window,
            connection: handle.1.connection,
            visual_id: handle.0.visual_id,
        }
    }
}

impl vstd::std_specs::convert::FromSpecImpl<(XcbWindowHandle, XcbDisplayHandle)> for XcbHandle {
    open spec fn obeys_from_spec() -> bool {
        true
    }

    open spec fn from_spec(handle: (XcbWindowHandle, XcbDisplayHandle)) -> Self {
        XcbHandle {
            window: handle.0.window,
            connection: handle.1.connection,
            visual_id: handle.0.visual_id,
        }
    }
}

impl From<(WaylandWindowHandle, WaylandDisplayHandle)> for WaylandHandle {
    /// Joins a window handle and the handle of its display.
    fn from(handle: (WaylandWindowHandle, WaylandDisplayHandle)) -> (h: Self) {
        Self { surface: handle.0.surface, display: handle.1.display }
    }
}

impl vstd::std_specs::convert::FromSpecImpl<(WaylandWindowHandle, WaylandDisplayHandle)> for WaylandHandle {
    open spec fn obeys_from_spec() -> bool {
        true
    }

    open spec fn from_spec(handle: (WaylandWindowHandle, WaylandDisplayHandle)) -> Self {
        WaylandHandle { surface: handle.0.surface, display: handle.1.display }
    }
}

} // verus!
