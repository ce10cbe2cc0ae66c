use mediacodec::native_window::{
    ARect, NativeWindow, NativeWindowFormat, NativeWindowTransform,
};

#[test]
fn geometry_is_stored_and_renegotiated() {
    let mut window = NativeWindow::new(640, 360, NativeWindowFormat::Rgba8);
    assert_eq!(window.width(), 640);
    assert_eq!(window.height(), 360);
    assert_eq!(window.format(), NativeWindowFormat::Rgba8);
    window.set_geometry(1280, 720, NativeWindowFormat::Yuv420);
    assert_eq!(window.width(), 1280);
    assert_eq!(window.height(), 720);
    assert_eq!(window.format(), NativeWindowFormat::Yuv420);
}

#[test]
fn format_codes_roundtrip_and_unknown_maps_to_other() {
    for format in NativeWindowFormat::values() {
        assert_eq!(NativeWindowFormat::from(format.code()), format);
    }
    assert_eq!(NativeWindowFormat::from(3), NativeWindowFormat::Other);
    assert_eq!(NativeWindowFormat::from(0x23), NativeWindowFormat::Yuv420);
}

#[test]
fn transforms_combine_as_bit_values() {
    assert_eq!(NativeWindowTransform::Identity.value(), 0);
    assert_eq!(
        NativeWindowTransform::MirrorHorizontal.combine(NativeWindowTransform::MirrorVertical),
        NativeWindowTransform::Rotate180.value()
    );
    assert_eq!(
        NativeWindowTransform::Rotate180.combine(NativeWindowTransform::Rotate90),
        NativeWindowTransform::Rotate270.value()
    );
}

#[test]
fn rect_fields_are_plain_pixels() {
    let rect = ARect { left: 0, top: 0, right: 640, bottom: 360 };
    assert_eq!(rect.right - rect.left, 640);
    assert_eq!(rect.bottom - rect.top, 360);
}
