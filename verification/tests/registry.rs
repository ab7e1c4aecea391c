use raw_window_handle::{
    AndroidDisplayHandle, AndroidNDKHandle, AndroidNdkWindowHandle, AppKitDisplayHandle,
    AppKitWindowHandle, DrmDisplayHandle, DrmWindowHandle, GbmDisplayHandle, GbmWindowHandle,
    Gtk3DisplayHandle, Gtk3WindowHandle, Gtk4DisplayHandle, Gtk4WindowHandle, HaikuDisplayHandle,
    HaikuWindowHandle, HorizonDisplayHandle, HorizonWindowHandle, IOSHandle, MacOSHandle,
    NonNullAddr, OrbitalDisplayHandle, OrbitalWindowHandle, RawDisplayHandle, RawWindowHandle,
    RedoxHandle, UefiDisplayHandle, UefiWindowHandle, UiKitDisplayHandle, UiKitWindowHandle,
    WaylandDisplayHandle, WaylandHandle, WaylandWindowHandle, Wbg02CanvasWindowHandle,
    Wbg02OffscreenCanvasWindowHandle, WebDisplayHandle, WebWindowHandle, Win32WindowHandle,
    WinRtWindowHandle, WindowsDisplayHandle, XcbDisplayHandle, XcbHandle, XcbWindowHandle,
    XlibDisplayHandle, XlibHandle, XlibWindowHandle,
};

fn addr(a: usize) -> NonNullAddr {
    NonNullAddr::new(a).unwrap()
}

#[test]
fn non_null_addr_refuses_zero() {
    assert!(NonNullAddr::new(0).is_none());
}

#[test]
fn non_null_addr_keeps_the_address() {
    let a = NonNullAddr::new(0x1000).unwrap();
    assert_eq!(a.get(), 0x1000);
    assert_eq!(NonNullAddr::new(usize::MAX).unwrap().get(), usize::MAX);
    assert_eq!(NonNullAddr::new(1).unwrap().get(), 1);
    assert_eq!(addr(7), addr(7));
    assert_ne!(addr(7), addr(8));
}

#[test]
fn empty_unix_handles_are_all_zero() {
    let x = XlibHandle::empty();
    assert_eq!(x.window, 0);
    assert_eq!(x.display, 0);
    assert_eq!(x.visual_id, 0);
    let c = XcbHandle::empty();
    assert_eq!(c.window, 0);
    assert_eq!(c.connection, 0);
    assert_eq!(c.visual_id, 0);
    let w = WaylandHandle::empty();
    assert_eq!(w.surface, 0);
    assert_eq!(w.display, 0);
    let xd = XlibDisplayHandle::empty();
    assert_eq!(xd.display, 0);
    assert_eq!(xd.screen, 0);
    let xw = XlibWindowHandle::empty();
    assert_eq!(xw.window, 0);
    assert_eq!(xw.visual_id, 0);
    let cd = XcbDisplayHandle::empty();
    assert_eq!(cd.connection, 0);
    assert_eq!(cd.screen, 0);
    let cw = XcbWindowHandle::empty();
    assert_eq!(cw.window, 0);
    assert_eq!(cw.visual_id, 0);
    assert_eq!(WaylandDisplayHandle::empty().display, 0);
    assert_eq!(WaylandWindowHandle::empty().surface, 0);
    assert_eq!(DrmDisplayHandle::empty().fd, 0);
    assert_eq!(DrmWindowHandle::empty().plane, 0);
    assert_eq!(GbmDisplayHandle::empty().gbm_device, 0);
    assert_eq!(GbmWindowHandle::empty().gbm_surface, 0);
}

#[test]
fn empty_handles_of_other_platforms_are_all_zero() {
    assert_eq!(AndroidNDKHandle::empty().a_native_window, 0);
    assert_eq!(AndroidNdkWindowHandle::empty().a_native_window, 0);
    assert_eq!(RedoxHandle::empty().window, 0);
    assert_eq!(OrbitalWindowHandle::empty().window, 0);
    let h = HaikuWindowHandle::empty();
    assert_eq!(h.b_window, 0);
    assert_eq!(h.b_direct_window, 0);
    assert_eq!(Gtk3DisplayHandle::empty().application, 0);
    assert_eq!(Gtk3WindowHandle::empty().widget, 0);
    assert_eq!(Gtk4DisplayHandle::empty().application, 0);
    assert_eq!(Gtk4WindowHandle::empty().widget, 0);
    assert_eq!(HorizonWindowHandle::empty().screen, 0);
    let i = IOSHandle::empty();
    assert_eq!(i.ui_window, None);
    assert_eq!(i.ui_view, None);
    assert_eq!(i.ui_view_controller, None);
    let m = MacOSHandle::empty();
    assert_eq!(m.ns_window, None);
    assert_eq!(m.ns_view, None);
}

#[test]
fn two_empty_handles_of_one_platform_are_equal() {
    assert_eq!(XlibHandle::empty(), XlibHandle::empty());
    assert_eq!(XcbHandle::empty(), XcbHandle::empty());
    assert_eq!(WaylandHandle::empty(), WaylandHandle::empty());
    assert_eq!(IOSHandle::empty(), IOSHandle::empty());
    assert_eq!(MacOSHandle::empty(), MacOSHandle::empty());
    assert_eq!(RedoxHandle::empty(), RedoxHandle::empty());
    assert_eq!(AndroidNDKHandle::empty(), AndroidNDKHandle::empty());
    assert_eq!(HorizonDisplayHandle::empty(), HorizonDisplayHandle::empty());
    assert_eq!(HorizonWindowHandle::empty(), HorizonWindowHandle::empty());
    assert_eq!(AndroidDisplayHandle::empty(), AndroidDisplayHandle::empty());
    assert_eq!(OrbitalDisplayHandle::empty(), OrbitalDisplayHandle::empty());
    assert_eq!(HaikuDisplayHandle::empty(), HaikuDisplayHandle::empty());
    assert_eq!(AppKitDisplayHandle::new(), AppKitDisplayHandle::new());
    assert_eq!(UiKitDisplayHandle::new(), UiKitDisplayHandle::new());
    assert_eq!(WebDisplayHandle::new(), WebDisplayHandle::new());
    assert_eq!(WindowsDisplayHandle::new(), WindowsDisplayHandle::new());
    assert_eq!(UefiWindowHandle::new(), UefiWindowHandle::new());
    assert_eq!(
        RawWindowHandle::Xlib(XlibWindowHandle::empty()),
        RawWindowHandle::Xlib(XlibWindowHandle::empty())
    );
    assert_eq!(
        RawDisplayHandle::Wayland(WaylandDisplayHandle::empty()),
        RawDisplayHandle::Wayland(WaylandDisplayHandle::empty())
    );
}

#[test]
fn a_filled_handle_differs_from_the_empty_one() {
    let mut h = XlibHandle::empty();
    h.window = 5;
    assert_ne!(h, XlibHandle::empty());
    let mut w = WaylandWindowHandle::empty();
    w.surface = 0x2000;
    assert_ne!(RawWindowHandle::Wayland(w), RawWindowHandle::Wayland(WaylandWindowHandle::empty()));
}

#[test]
fn constructors_keep_their_arguments() {
    let h = Win32WindowHandle::new(42);
    assert_eq!(h.hwnd, 42);
    assert_eq!(h.hinstance, 0);
    assert_eq!(Win32WindowHandle::new(-1).hwnd, -1);
    assert_eq!(WebWindowHandle::new(7).id, 7);
    assert_eq!(WebWindowHandle::new(u32::MAX).id, u32::MAX);
    assert_eq!(AppKitWindowHandle::new(addr(0x10)).ns_view, addr(0x10));
    let u = UiKitWindowHandle::new(addr(0x20));
    assert_eq!(u.ui_view, addr(0x20));
    assert_eq!(u.ui_view_controller, None);
    assert_eq!(UefiDisplayHandle::new(addr(0x30)).handle, addr(0x30));
    assert_eq!(WinRtWindowHandle::new(addr(0x40)).core_window, addr(0x40));
    assert_eq!(Wbg02CanvasWindowHandle::new(addr(0x50)).obj, addr(0x50));
    assert_eq!(Wbg02OffscreenCanvasWindowHandle::new(addr(0x60)).obj, addr(0x60));
}

#[test]
fn different_variants_are_never_equal() {
    let mut x = XcbWindowHandle::empty();
    x.window = 9;
    let mut d = DrmWindowHandle::empty();
    d.plane = 9;
    assert_ne!(RawWindowHandle::Xcb(x), RawWindowHandle::Drm(d));
    assert_ne!(
        RawWindowHandle::Xlib(XlibWindowHandle::empty()),
        RawWindowHandle::Wayland(WaylandWindowHandle::empty())
    );
    assert_ne!(
        RawWindowHandle::Gtk3(Gtk3WindowHandle::empty()),
        RawWindowHandle::Gtk4(Gtk4WindowHandle::empty())
    );
    assert_ne!(
        RawWindowHandle::Wbg02Canvas(Wbg02CanvasWindowHandle::new(addr(1))),
        RawWindowHandle::Wbg02OffscreenCanvas(Wbg02OffscreenCanvasWindowHandle::new(addr(1)))
    );
    assert_ne!(
        RawWindowHandle::AppKit(AppKitWindowHandle::new(addr(1))),
        RawWindowHandle::WinRt(WinRtWindowHandle::new(addr(1)))
    );
    assert_ne!(
        RawDisplayHandle::AppKit(AppKitDisplayHandle::new()),
        RawDisplayHandle::UiKit(UiKitDisplayHandle::new())
    );
    assert_ne!(
        RawDisplayHandle::Xlib(XlibDisplayHandle::empty()),
        RawDisplayHandle::Xcb(XcbDisplayHandle::empty())
    );
    assert_ne!(
        RawDisplayHandle::Gbm(GbmDisplayHandle::empty()),
        RawDisplayHandle::Wayland(WaylandDisplayHandle::empty())
    );
}

#[test]
fn wrapping_a_window_handle_and_taking_it_out_gives_it_back() {
    let mut x = XlibWindowHandle::empty();
    x.window = 77;
    x.visual_id = 3;
    match RawWindowHandle::from(x) {
        RawWindowHandle::Xlib(back) => assert_eq!(back, x),
        other => panic!("wrong variant: {:?}", other),
    }
    let win = Win32WindowHandle::new(1234);
    let raw: RawWindowHandle = win.into();
    assert_eq!(raw, RawWindowHandle::Win32(win));
    match raw {
        RawWindowHandle::Win32(back) => assert_eq!(back.hwnd, 1234),
        other => panic!("wrong variant: {:?}", other),
    }
    let ui = UiKitWindowHandle::new(addr(0x99));
    assert!(matches!(RawWindowHandle::from(ui), RawWindowHandle::UiKit(b) if b == ui));
    let ak = AppKitWindowHandle::new(addr(0x98));
    assert!(matches!(RawWindowHandle::from(ak), RawWindowHandle::AppKit(b) if b == ak));
    let web = WebWindowHandle::new(5);
    assert!(matches!(RawWindowHandle::from(web), RawWindowHandle::Web(b) if b == web));
    let ob = OrbitalWindowHandle::empty();
    assert!(matches!(RawWindowHandle::from(ob), RawWindowHandle::Orbital(b) if b == ob));
    let xc = XcbWindowHandle::empty();
    assert!(matches!(RawWindowHandle::from(xc), RawWindowHandle::Xcb(b) if b == xc));
    let wl = WaylandWindowHandle::empty();
    assert!(matches!(RawWindowHandle::from(wl), RawWindowHandle::Wayland(b) if b == wl));
    let dr = DrmWindowHandle::empty();
    assert!(matches!(RawWindowHandle::from(dr), RawWindowHandle::Drm(b) if b == dr));
    let gb = GbmWindowHandle::empty();
    assert!(matches!(RawWindowHandle::from(gb), RawWindowHandle::Gbm(b) if b == gb));
    let rt = WinRtWindowHandle::new(addr(3));
    assert!(matches!(RawWindowHandle::from(rt), RawWindowHandle::WinRt(b) if b == rt));
    let cv = Wbg02CanvasWindowHandle::new(addr(4));
    assert!(matches!(RawWindowHandle::from(cv), RawWindowHandle::Wbg02Canvas(b) if b == cv));
    let oc = Wbg02OffscreenCanvasWindowHandle::new(addr(5));
    assert!(matches!(RawWindowHandle::from(oc), RawWindowHandle::Wbg02OffscreenCanvas(b) if b == oc));
    let an = AndroidNdkWindowHandle::empty();
    assert!(matches!(RawWindowHandle::from(an), RawWindowHandle::AndroidNdk(b) if b == an));
    let hk = HaikuWindowHandle::empty();
    assert!(matches!(RawWindowHandle::from(hk), RawWindowHandle::Haiku(b) if b == hk));
    let ue = UefiWindowHandle::new();
    assert!(matches!(RawWindowHandle::from(ue), RawWindowHandle::Uefi(b) if b == ue));
    let hz = HorizonWindowHandle::empty();
    assert!(matches!(RawWindowHandle::from(hz), RawWindowHandle::Horizon(b) if b == hz));
    let g3 = Gtk3WindowHandle::empty();
    assert!(matches!(RawWindowHandle::from(g3), RawWindowHandle::Gtk3(b) if b == g3));
    let g4 = Gtk4WindowHandle::empty();
    assert!(matches!(RawWindowHandle::from(g4), RawWindowHandle::Gtk4(b) if b == g4));
}

#[test]
fn wrapping_a_display_handle_and_taking_it_out_gives_it_back() {
    let mut x = XlibDisplayHandle::empty();
    x.display = 0x5000;
    x.screen = 2;
    match RawDisplayHandle::from(x) {
        RawDisplayHandle::Xlib(back) => assert_eq!(back, x),
        other => panic!("wrong variant: {:?}", other),
    }
    let ui = UiKitDisplayHandle::new();
    assert!(matches!(RawDisplayHandle::from(ui), RawDisplayHandle::UiKit(b) if b == ui));
    let ak = AppKitDisplayHandle::new();
    assert!(matches!(RawDisplayHandle::from(ak), RawDisplayHandle::AppKit(b) if b == ak));
    let ob = OrbitalDisplayHandle::empty();
    assert!(matches!(RawDisplayHandle::from(ob), RawDisplayHandle::Orbital(b) if b == ob));
    let xc = XcbDisplayHandle::empty();
    assert!(matches!(RawDisplayHandle::from(xc), RawDisplayHandle::Xcb(b) if b == xc));
    let wl = WaylandDisplayHandle::empty();
    assert!(matches!(RawDisplayHandle::from(wl), RawDisplayHandle::Wayland(b) if b == wl));
    let dr = DrmDisplayHandle::empty();
    assert!(matches!(RawDisplayHandle::from(dr), RawDisplayHandle::Drm(b) if b == dr));
    let gb = GbmDisplayHandle::empty();
    assert!(matches!(RawDisplayHandle::from(gb), RawDisplayHandle::Gbm(b) if b == gb));
    let wi = WindowsDisplayHandle::new();
    assert!(matches!(RawDisplayHandle::from(wi), RawDisplayHandle::Windows(b) if b == wi));
    let we = WebDisplayHandle::new();
    assert!(matches!(RawDisplayHandle::from(we), RawDisplayHandle::Web(b) if b == we));
    let an = AndroidDisplayHandle::empty();
    assert!(matches!(RawDisplayHandle::from(an), RawDisplayHandle::Android(b) if b == an));
    let hk = HaikuDisplayHandle::empty();
    assert!(matches!(RawDisplayHandle::from(hk), RawDisplayHandle::Haiku(b) if b == hk));
    let ue = UefiDisplayHandle::new(addr(0x77));
    assert!(matches!(RawDisplayHandle::from(ue), RawDisplayHandle::Uefi(b) if b == ue));
    let hz = HorizonDisplayHandle::empty();
    assert!(matches!(RawDisplayHandle::from(hz), RawDisplayHandle::Horizon(b) if b == hz));
    let g3 = Gtk3DisplayHandle::empty();
    assert!(matches!(RawDisplayHandle::from(g3), RawDisplayHandle::Gtk3(b) if b == g3));
    let g4 = Gtk4DisplayHandle::empty();
    assert!(matches!(RawDisplayHandle::from(g4), RawDisplayHandle::Gtk4(b) if b == g4));
}

#[test]
fn a_window_and_its_display_join_into_one_handle() {
    let mut xw = XlibWindowHandle::empty();
    xw.window = 11;
    xw.visual_id = 22;
    let mut xd = XlibDisplayHandle::empty();
    xd.display = 0x3300;
    xd.screen = 4;
    let x = XlibHandle::from((xw, xd));
    assert_eq!(x.window, 11);
    assert_eq!(x.display, 0x3300);
    assert_eq!(x.visual_id, 22);

    let mut cw = XcbWindowHandle::empty();
    cw.window = 55;
    cw.visual_id = 66;
    let mut cd = XcbDisplayHandle::empty();
    cd.connection = 0x7700;
    cd.screen = 1;
    let c = XcbHandle::from((cw, cd));
    assert_eq!(c.window, 55);
    assert_eq!(c.connection, 0x7700);
    assert_eq!(c.visual_id, 66);

    let mut ww = WaylandWindowHandle::empty();
    ww.surface = 0x8800;
    let mut wd = WaylandDisplayHandle::empty();
    wd.display = 0x9900;
    let w: WaylandHandle = (ww, wd).into();
    assert_eq!(w.surface, 0x8800);
    assert_eq!(w.display, 0x9900);

    assert_eq!(
        XlibHandle::from((XlibWindowHandle::empty(), XlibDisplayHandle::empty())),
        XlibHandle::empty()
    );
}
