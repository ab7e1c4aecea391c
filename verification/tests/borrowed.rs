use raw_window_handle::{
    Active, AlwaysActive, AppKitDisplayHandle, DisplayHandle, HandleError, HasDisplayHandle,
    HasRawDisplayHandle, HasRawWindowHandle, HasWindowHandle, Liveness, RawDisplayHandle,
    RawWindowHandle,
    UiKitDisplayHandle, WaylandDisplayHandle, WaylandWindowHandle, WindowHandle, XlibDisplayHandle,
    XlibWindowHandle,
};
use std::collections::hash_map::DefaultHasher;
use std::hash::Hash;
use std::hash::Hasher;
use std::rc::Rc;
use std::sync::Arc;

fn xlib_display(display: usize) -> RawDisplayHandle {
    let mut h = XlibDisplayHandle::empty();
    h.display = display;
    RawDisplayHandle::Xlib(h)
}

fn xlib_window(window: u64) -> RawWindowHandle {
    let mut h = XlibWindowHandle::empty();
    h.window = window as _;
    RawWindowHandle::Xlib(h)
}

#[test]
fn a_borrowed_handle_gives_its_raw_handle_back() {
    let mut token = AlwaysActive::new();
    let proof = token.handle().unwrap();
    let d = DisplayHandle::borrow_raw(xlib_display(0x1000), &proof);
    assert_eq!(d.as_raw(), xlib_display(0x1000));
    assert_eq!(d.raw_display_handle(), xlib_display(0x1000));
    let w = WindowHandle::borrow_raw(xlib_window(17), &proof);
    assert_eq!(w.as_raw(), xlib_window(17));
    assert_eq!(w.raw_window_handle(), xlib_window(17));
    assert_ne!(w.as_raw(), xlib_window(18));
}

#[test]
fn two_borrows_of_one_display_are_equal() {
    let mut token = Active::new();
    token.set_active();
    let raw = xlib_display(0x4000);
    let first_proof = token.handle().unwrap();
    let second_proof = token.handle().unwrap();
    assert_eq!(token.outstanding(), 2);
    let first = DisplayHandle::borrow_raw(raw, &first_proof);
    let second = DisplayHandle::borrow_raw(raw, &second_proof);
    assert_eq!(first, second);
    assert!(first == second);
    token.release(first_proof);
    token.release(second_proof);
    assert!(token.set_inactive());
}

#[test]
fn borrows_from_different_tokens_compare_by_raw_handle_alone() {
    let mut counted = Active::new();
    counted.set_active();
    let a = counted.handle().unwrap();
    let b = AlwaysActive::new().handle().unwrap();
    assert_eq!(
        WindowHandle::borrow_raw(xlib_window(5), &a),
        WindowHandle::borrow_raw(xlib_window(5), &b)
    );
    assert_ne!(
        WindowHandle::borrow_raw(xlib_window(5), &a),
        WindowHandle::borrow_raw(xlib_window(6), &a)
    );
    assert_ne!(
        WindowHandle::borrow_raw(xlib_window(5), &a),
        WindowHandle::borrow_raw(RawWindowHandle::Wayland(WaylandWindowHandle::empty()), &a)
    );
    assert_ne!(
        DisplayHandle::borrow_raw(xlib_display(0), &b),
        DisplayHandle::borrow_raw(RawDisplayHandle::Wayland(WaylandDisplayHandle::empty()), &b)
    );
    counted.release(a);
}

#[test]
fn a_borrowed_handle_lends_itself() {
    let proof = AlwaysActive::new().handle().unwrap();
    let d = DisplayHandle::borrow_raw(xlib_display(0x10), &proof);
    let again = d.display_handle().unwrap();
    assert_eq!(again, d);
    let later = d.display_handle().unwrap();
    assert_eq!(again, later);
    let w = WindowHandle::borrow_raw(xlib_window(3), &proof);
    assert_eq!(w.window_handle(), Ok(w));
    assert_ne!(w.window_handle(), Err(HandleError::Inactive));
}

#[test]
fn references_and_smart_pointers_lend_what_they_point_at() {
    let proof = AlwaysActive::new().handle().unwrap();
    let d = DisplayHandle::borrow_raw(xlib_display(0x20), &proof);
    let w = WindowHandle::borrow_raw(xlib_window(9), &proof);

    assert_eq!((&d).display_handle().unwrap().as_raw(), xlib_display(0x20));
    assert_eq!((&w).window_handle().unwrap().as_raw(), xlib_window(9));
    let mut dm = d;
    let mut wm = w;
    assert_eq!((&mut dm).display_handle().unwrap().as_raw(), xlib_display(0x20));
    assert_eq!((&mut wm).window_handle().unwrap().as_raw(), xlib_window(9));
    assert_eq!(Box::new(d).display_handle().unwrap().as_raw(), xlib_display(0x20));
    assert_eq!(Box::new(w).window_handle().unwrap().as_raw(), xlib_window(9));
    assert_eq!(Rc::new(d).display_handle().unwrap().as_raw(), xlib_display(0x20));
    assert_eq!(Rc::new(w).window_handle().unwrap().as_raw(), xlib_window(9));
    assert_eq!(Arc::new(d).display_handle().unwrap().as_raw(), xlib_display(0x20));
    assert_eq!(Arc::new(w).window_handle().unwrap().as_raw(), xlib_window(9));

    assert_eq!((&d).raw_display_handle(), xlib_display(0x20));
    assert_eq!(Rc::new(d).raw_display_handle(), xlib_display(0x20));
    assert_eq!(Arc::new(d).raw_display_handle(), xlib_display(0x20));
    assert_eq!((&w).raw_window_handle(), xlib_window(9));
    assert_eq!(Rc::new(w).raw_window_handle(), xlib_window(9));
    assert_eq!(Arc::new(w).raw_window_handle(), xlib_window(9));
}

#[test]
fn display_handles_without_data_need_no_token() {
    let a = DisplayHandle::appkit();
    assert_eq!(a.as_raw(), RawDisplayHandle::AppKit(AppKitDisplayHandle::new()));
    let u = DisplayHandle::uikit();
    assert_eq!(u.as_raw(), RawDisplayHandle::UiKit(UiKitDisplayHandle::new()));
    assert_ne!(a, u);
    assert_eq!(a, DisplayHandle::appkit());
    assert_eq!(u, DisplayHandle::uikit());
}

fn hash_of<T: Hash>(value: &T) -> u64 {
    let mut hasher = DefaultHasher::new();
    value.hash(&mut hasher);
    hasher.finish()
}

#[test]
fn equal_borrows_hash_alike() {
    let mut counted = Active::new();
    counted.set_active();
    let a = counted.handle().unwrap();
    let b = AlwaysActive::new().handle().unwrap();
    let first = WindowHandle::borrow_raw(xlib_window(5), &a);
    let second = WindowHandle::borrow_raw(xlib_window(5), &b);
    assert_eq!(first, second);
    assert_eq!(hash_of(&first), hash_of(&second));
    let d1 = DisplayHandle::borrow_raw(xlib_display(8), &a);
    let d2 = DisplayHandle::borrow_raw(xlib_display(8), &b);
    assert_eq!(hash_of(&d1), hash_of(&d2));
    counted.release(a);
}
