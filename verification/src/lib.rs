//! Plain-data handles to native windows and displays, and the borrow wrapper
//! that keeps a handle from being read while the native object is gone.
//!
//! A windowing library fills in a handle for the platform it runs on and hands
//! it to a graphics library; neither needs the other's types. The handles own
//! nothing: an address in a handle is a non-owning reference to a native
//! object, and zero means "absent".

pub mod active;
pub mod address;
pub mod android;
pub mod appkit;
pub mod borrowed;
pub mod display;
pub mod empty;
pub mod gtk;
pub mod haiku;
pub mod horizon;
pub mod ios;
pub mod macos;
pub mod redox;
pub mod uefi;
pub mod uikit;
pub mod unix;
pub mod web;
pub mod window;
pub mod windows;

pub use active::{Active, ActiveHandle, AlwaysActive, HandleError, Liveness, LivenessState};
pub use address::NonNullAddr;
pub use android::{AndroidDisplayHandle, AndroidNDKHandle, AndroidNdkWindowHandle};
pub use appkit::{AppKitDisplayHandle, AppKitWindowHandle};
pub use borrowed::{DisplayHandle, HasDisplayHandle, HasWindowHandle, WindowHandle};
pub use display::{HasRawDisplayHandle, RawDisplayHandle};
pub use empty::EmptyRecord;
pub use gtk::{Gtk3DisplayHandle, Gtk3WindowHandle, Gtk4DisplayHandle, Gtk4WindowHandle};
pub use haiku::{HaikuDisplayHandle, HaikuWindowHandle};
pub use horizon::{HorizonDisplayHandle, HorizonWindowHandle};
pub use ios::IOSHandle;
pub use macos::MacOSHandle;
pub use redox::{OrbitalDisplayHandle, OrbitalWindowHandle, RedoxHandle};
pub use uefi::{UefiDisplayHandle, UefiWindowHandle};
pub use uikit::{UiKitDisplayHandle, UiKitWindowHandle};
pub use unix::{
    DrmDisplayHandle, DrmWindowHandle, GbmDisplayHandle, GbmWindowHandle, WaylandDisplayHandle,
    WaylandHandle, WaylandWindowHandle, XcbDisplayHandle, XcbHandle, XcbWindowHandle,
    XlibDisplayHandle, XlibHandle, XlibWindowHandle,
};
pub use web::{
    Wbg02CanvasWindowHandle, Wbg02OffscreenCanvasWindowHandle, WebDisplayHandle, WebWindowHandle,
};
pub use window::{HasRawWindowHandle, RawWindowHandle};
pub use windows::{Win32WindowHandle, WinRtWindowHandle, WindowsDisplayHandle};
