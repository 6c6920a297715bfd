use window_lifecycle::cursor::{cursor_icon, cursor_visible, CursorIcon, MouseCursor};
use window_lifecycle::geometry::{physical_length, LayoutInfo};
use window_lifecycle::registry::WindowRegistry;
use window_lifecycle::window::{NativeWindowInfo, ShowInputs, WindowHandle, WindowProperties};
use window_lifecycle::geometry::{PhysicalPosition, PhysicalSize};

#[test]
fn cursor_mapping_samples() {
    assert_eq!(cursor_icon(MouseCursor::Standard), CursorIcon::Standard);
    assert_eq!(cursor_icon(MouseCursor::Pointer), CursorIcon::Hand);
    assert_eq!(cursor_icon(MouseCursor::NoCursor), CursorIcon::Standard);
    assert_eq!(cursor_icon(MouseCursor::NeswResize), CursorIcon::NeswResize);
    assert_eq!(cursor_icon(MouseCursor::Grabbing), CursorIcon::Grabbing);
}

#[test]
fn cursor_visibility() {
    assert!(cursor_visible(MouseCursor::Standard));
    assert!(cursor_visible(MouseCursor::Text));
    assert!(!cursor_visible(MouseCursor::NoCursor));
}

#[test]
fn cursor_request_only_while_mapped() {
    let mut h = WindowHandle::new(1);
    assert!(h.set_mouse_cursor(MouseCursor::Wait).is_none());

    let mut reg = WindowRegistry::new();
    let cfg = h
        .plan_show(ShowInputs {
            window_item: None,
            runtime_scale_milli: 1000,
            env_scale_factor: None,
            env_fullscreen: false,
            layout_horizontal: LayoutInfo::default(),
            layout_vertical: LayoutInfo::default(),
        })
        .unwrap();
    h.complete_show(
        cfg.scale_factor_override,
        NativeWindowInfo {
            id: 4,
            position: PhysicalPosition { x: 0, y: 0 },
            size: PhysicalSize { width: 1, height: 1 },
            scale_factor_milli: 1000,
        },
        &mut reg,
    );
    let req = h.set_mouse_cursor(MouseCursor::NoCursor).unwrap();
    assert_eq!(req.icon, CursorIcon::Standard);
    assert!(!req.visible);

    let req = h.set_mouse_cursor(MouseCursor::Crosshair).unwrap();
    assert_eq!(req.icon, CursorIcon::Crosshair);
    assert!(req.visible);
}

#[test]
fn preferred_bounded_clamps() {
    let li = LayoutInfo { min_milli: 100, max_milli: 300, preferred_milli: 200 };
    assert_eq!(li.preferred_bounded(), 200);
    let li = LayoutInfo { min_milli: 100, max_milli: 300, preferred_milli: 50 };
    assert_eq!(li.preferred_bounded(), 100);
    let li = LayoutInfo { min_milli: 100, max_milli: 300, preferred_milli: 900 };
    assert_eq!(li.preferred_bounded(), 300);
}

#[test]
fn physical_length_truncates() {
    // 640 logical px at factor 1.5 = 960 physical px.
    assert_eq!(physical_length(640_000, 1500), 960);
    // Truncation: 1.001 logical px at factor 1.0 = 1 physical px.
    assert_eq!(physical_length(1001, 1000), 1);
    // Non-positive lengths give zero.
    assert_eq!(physical_length(0, 1500), 0);
    assert_eq!(physical_length(-5000, 1500), 0);
}

#[test]
fn window_properties_default_scale_is_one() {
    let p = WindowProperties::default();
    assert_eq!(p.scale_factor_milli, 1000);
}
