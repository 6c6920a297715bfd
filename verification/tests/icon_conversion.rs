use window_lifecycle::geometry::LayoutInfo;
use window_lifecycle::icon::{to_straight_rgba, ImageInner, SharedImageBuffer};
use window_lifecycle::registry::WindowRegistry;
use window_lifecycle::window::{NativeWindowInfo, ShowInputs, WindowHandle};
use window_lifecycle::geometry::{PhysicalPosition, PhysicalSize};

fn mapped_handle(reg: &mut WindowRegistry) -> WindowHandle {
    let mut h = WindowHandle::new(1);
    let cfg = h
        .plan_show(ShowInputs {
            window_item: None,
            runtime_scale_milli: 1000,
            env_scale_factor: None,
            env_fullscreen: false,
            layout_horizontal: LayoutInfo::default(),
            layout_vertical: LayoutInfo::default(),
        })
        .unwrap();
    h.complete_show(
        cfg.scale_factor_override,
        NativeWindowInfo {
            id: 2,
            position: PhysicalPosition { x: 0, y: 0 },
            size: PhysicalSize { width: 10, height: 10 },
            scale_factor_milli: 1000,
        },
        reg,
    );
    h
}

#[test]
fn premultiplied_unscales_by_truncation() {
    // alpha = 128, channel = 200: 200 * 128 / 255 = 100 (truncated).
    let buf = SharedImageBuffer::Rgba8Premultiplied {
        width: 1,
        height: 1,
        data: vec![200, 0, 0, 128],
    };
    assert_eq!(to_straight_rgba(&buf), vec![100, 0, 0, 128]);
}

#[test]
fn rgb_gains_opaque_alpha() {
    let buf = SharedImageBuffer::Rgb8 { width: 1, height: 1, data: vec![10, 20, 30] };
    assert_eq!(to_straight_rgba(&buf), vec![10, 20, 30, 255]);
}

#[test]
fn straight_rgba_passes_through() {
    let buf = SharedImageBuffer::Rgba8 {
        width: 2,
        height: 1,
        data: vec![1, 2, 3, 4, 5, 6, 7, 8],
    };
    assert_eq!(to_straight_rgba(&buf), vec![1, 2, 3, 4, 5, 6, 7, 8]);
}

#[test]
fn premultiplied_multiple_pixels() {
    let buf = SharedImageBuffer::Rgba8Premultiplied {
        width: 2,
        height: 1,
        data: vec![200, 0, 0, 128, 255, 255, 255, 255],
    };
    assert_eq!(
        to_straight_rgba(&buf),
        vec![100, 0, 0, 128, 255, 255, 255, 255]
    );
}

#[test]
fn zero_alpha_zeroes_colour_channels() {
    let buf = SharedImageBuffer::Rgba8Premultiplied {
        width: 1,
        height: 1,
        data: vec![9, 9, 9, 0],
    };
    assert_eq!(to_straight_rgba(&buf), vec![0, 0, 0, 0]);
}

#[test]
fn icon_set_only_when_mapped_and_embedded() {
    let mut reg = WindowRegistry::new();
    let h = mapped_handle(&mut reg);
    let embedded = ImageInner::EmbeddedImage {
        buffer: SharedImageBuffer::Rgb8 { width: 1, height: 1, data: vec![10, 20, 30] },
    };
    let req = h.set_icon(&embedded).unwrap();
    assert_eq!(req.rgba, vec![10, 20, 30, 255]);
    assert_eq!(req.width, 1);
    assert_eq!(req.height, 1);

    // Non-embedded sources are silently ignored.
    assert!(h.set_icon(&ImageInner::Opaque).is_none());

    // An unmapped handle sets no icon.
    let unmapped = WindowHandle::new(9);
    assert!(unmapped.set_icon(&embedded).is_none());
}
