use raw_window_handle::{
    NonNullAddr, RawWindowHandle, Wbg02CanvasWindowHandle, Wbg02OffscreenCanvasWindowHandle,
};

#[test]
fn html_canvas_element() {
    // The binding layer names a canvas by an index into its object table.
    let index: u32 = 100;
    let handle = Wbg02CanvasWindowHandle::new(NonNullAddr::new(index as usize).unwrap());

    // To get the canvas back, convert the index back.
    assert_eq!(handle.obj.get() as u32, index);
    assert!(matches!(
        RawWindowHandle::from(handle),
        RawWindowHandle::Wbg02Canvas(back) if back.obj.get() as u32 == index
    ));
}

#[test]
fn offscreen_canvas() {
    let index: u32 = 100;
    let handle = Wbg02OffscreenCanvasWindowHandle::new(NonNullAddr::new(index as usize).unwrap());

    assert_eq!(handle.obj.get() as u32, index);
    assert!(matches!(
        RawWindowHandle::from(handle),
        RawWindowHandle::Wbg02OffscreenCanvas(back) if back.obj.get() as u32 == index
    ));
}
