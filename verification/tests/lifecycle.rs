use window_lifecycle::geometry::{LayoutInfo, LogicalSize, PhysicalPosition, PhysicalSize};
use window_lifecycle::registry::WindowRegistry;
use window_lifecycle::window::{
    CustomEvent, Effect, MapState, NativeWindowInfo, RenderingState, SetRenderingNotifierError,
    ShowInputs, SizeRequest, WindowHandle,
};

fn plain_inputs() -> ShowInputs {
    ShowInputs {
        window_item: None,
        runtime_scale_milli: 1000,
        env_scale_factor: None,
        env_fullscreen: false,
        layout_horizontal: LayoutInfo::default(),
        layout_vertical: LayoutInfo::default(),
    }
}

fn native(id: u64) -> NativeWindowInfo {
    NativeWindowInfo {
        id,
        position: PhysicalPosition { x: 30, y: 40 },
        size: PhysicalSize { width: 640, height: 480 },
        scale_factor_milli: 1000,
    }
}

#[test]
fn show_hide_alternate_strictly() {
    let mut h = WindowHandle::new(7);
    let mut reg = WindowRegistry::new();
    assert!(!h.is_mapped());

    let cfg = h.plan_show(plain_inputs());
    assert!(cfg.is_some());
    let cfg = cfg.unwrap();
    h.complete_show(cfg.scale_factor_override, native(1), &mut reg);
    assert!(h.is_mapped());

    // A redundant show is cut off at the planning step.
    assert!(h.plan_show(plain_inputs()).is_none());
    assert!(h.is_mapped());

    let effects = h.hide_window(&mut reg);
    assert!(!h.is_mapped());
    assert!(!effects.is_empty());

    // A redundant hide changes nothing and runs nothing.
    let effects2 = h.hide_window(&mut reg);
    assert!(effects2.is_empty());
    assert!(!h.is_mapped());
}

#[test]
fn redundant_hide_keeps_buffered_geometry() {
    let mut h = WindowHandle::new(7);
    let mut reg = WindowRegistry::new();
    h.set_position(PhysicalPosition { x: 5, y: 6 });
    h.set_inner_size(PhysicalSize { width: 100, height: 200 });
    let effects = h.hide_window(&mut reg);
    assert!(effects.is_empty());
    assert_eq!(h.position(), PhysicalPosition { x: 5, y: 6 });
    assert_eq!(h.inner_size(), PhysicalSize { width: 100, height: 200 });
}

#[test]
fn buffered_geometry_applied_on_show() {
    let mut h = WindowHandle::new(7);
    let mut reg = WindowRegistry::new();
    let pos = PhysicalPosition { x: 11, y: 22 };
    let size = PhysicalSize { width: 333, height: 444 };
    assert_eq!(h.set_position(pos), None);
    assert_eq!(h.set_inner_size(size), None);

    let cfg = h.plan_show(plain_inputs()).unwrap();
    assert_eq!(cfg.position, Some(pos));
    assert_eq!(cfg.size, SizeRequest::Physical(size));

    // The platform honors the request; the mapped window mirrors it.
    let created = NativeWindowInfo {
        id: 9,
        position: pos,
        size,
        scale_factor_milli: 1000,
    };
    h.complete_show(cfg.scale_factor_override, created, &mut reg);
    assert_eq!(h.position(), pos);
    assert_eq!(h.inner_size(), size);
}

#[test]
fn geometry_defaults_while_unmapped() {
    let h = WindowHandle::new(1);
    assert_eq!(h.position(), PhysicalPosition { x: 0, y: 0 });
    assert_eq!(h.inner_size(), PhysicalSize { width: 0, height: 0 });
}

#[test]
fn mapped_geometry_set_directly() {
    let mut h = WindowHandle::new(1);
    let mut reg = WindowRegistry::new();
    let cfg = h.plan_show(plain_inputs()).unwrap();
    h.complete_show(cfg.scale_factor_override, native(3), &mut reg);

    let p = PhysicalPosition { x: -3, y: 9 };
    let s = PhysicalSize { width: 10, height: 20 };
    assert_eq!(h.set_position(p), Some(p));
    assert_eq!(h.set_inner_size(s), Some(s));
    assert_eq!(h.position(), p);
    assert_eq!(h.inner_size(), s);
}

#[test]
fn second_notifier_rejected_first_kept() {
    let mut h = WindowHandle::new(7);
    let mut reg = WindowRegistry::new();
    assert_eq!(h.set_rendering_notifier(41), Ok(()));
    assert_eq!(
        h.set_rendering_notifier(42),
        Err(SetRenderingNotifierError::AlreadySet)
    );
    assert!(h.has_rendering_notifier());

    let cfg = h.plan_show(plain_inputs()).unwrap();
    h.complete_show(cfg.scale_factor_override, native(5), &mut reg);

    // Subsequent draws keep notifying the first notifier.
    let effects = h.draw();
    assert_eq!(
        effects[2],
        Effect::Notify { token: 41, state: RenderingState::BeforeRendering }
    );
    assert_eq!(
        effects[4],
        Effect::Notify { token: 41, state: RenderingState::AfterRendering }
    );
}

#[test]
fn draw_unmapped_is_inert() {
    let mut h = WindowHandle::new(7);
    h.set_rendering_notifier(1).unwrap();
    let effects = h.draw();
    assert!(effects.is_empty());
}

#[test]
fn draw_sequence_mapped() {
    let mut h = WindowHandle::new(7);
    let mut reg = WindowRegistry::new();
    let cfg = h.plan_show(plain_inputs()).unwrap();
    h.complete_show(cfg.scale_factor_override, native(5), &mut reg);

    // Without a notifier: no Notify step anywhere.
    let effects = h.draw();
    assert_eq!(
        effects,
        vec![
            Effect::MakeCurrent,
            Effect::EnsureResized,
            Effect::Render { width: 640, height: 480 },
            Effect::SwapBuffers,
            Effect::MakeNotCurrent,
        ]
    );
}

#[test]
fn hide_sequence_and_event() {
    let mut h = WindowHandle::new(7);
    let mut reg = WindowRegistry::new();
    h.set_rendering_notifier(8).unwrap();
    let cfg = h.plan_show(plain_inputs()).unwrap();
    h.complete_show(cfg.scale_factor_override, native(5), &mut reg);

    let effects = h.hide_window(&mut reg);
    assert_eq!(
        effects,
        vec![
            Effect::MakeCurrent,
            Effect::Notify { token: 8, state: RenderingState::RenderingTeardown },
            Effect::ReleaseGraphicsResources,
            Effect::MakeNotCurrent,
            Effect::PostEvent { event: CustomEvent::WindowHidden },
        ]
    );
    // The notifier survives unmapping.
    assert!(h.has_rendering_notifier());
}

#[test]
fn teardown_releases_exactly_once() {
    let mut h = WindowHandle::new(7);
    let mut reg = WindowRegistry::new();
    let cfg = h.plan_show(plain_inputs()).unwrap();
    h.complete_show(cfg.scale_factor_override, native(5), &mut reg);
    assert_eq!(reg.lookup(5), Some(7));

    let effects = h.teardown(&mut reg);
    let releases = effects
        .iter()
        .filter(|e| matches!(e, Effect::ReleaseGraphicsResources))
        .count();
    assert_eq!(releases, 1);
    // No dangling registry entry.
    assert_eq!(reg.lookup(5), None);
    assert_eq!(reg.len(), 0);

    // A second teardown releases nothing.
    let effects2 = h.teardown(&mut reg);
    assert!(effects2.is_empty());
}

#[test]
fn setup_notification_and_scale_on_show() {
    let mut h = WindowHandle::new(7);
    let mut reg = WindowRegistry::new();
    h.set_rendering_notifier(3).unwrap();
    let cfg = h.plan_show(plain_inputs()).unwrap();
    let effects = h.complete_show(cfg.scale_factor_override, native(5), &mut reg);
    assert_eq!(
        effects,
        vec![
            Effect::Notify { token: 3, state: RenderingState::RenderingSetup },
            Effect::MakeNotCurrent,
            Effect::ApplyScaleFactor { milli: 1000 },
        ]
    );
}

#[test]
fn redraw_and_properties_requests() {
    let mut h = WindowHandle::new(7);
    let mut reg = WindowRegistry::new();
    assert_eq!(h.request_redraw(), None);
    assert_eq!(h.request_window_properties_update(), None);

    let cfg = h.plan_show(plain_inputs()).unwrap();
    h.complete_show(cfg.scale_factor_override, native(5), &mut reg);
    assert_eq!(h.request_redraw(), Some(CustomEvent::RedrawRequested(5)));
    assert_eq!(
        h.request_window_properties_update(),
        Some(CustomEvent::PropertiesChanged(5))
    );
}

#[test]
fn unregister_component_effects() {
    let mut h = WindowHandle::new(7);
    let mut reg = WindowRegistry::new();
    assert!(h.unregister_component(12).is_empty());
    h.register_component();

    let cfg = h.plan_show(plain_inputs()).unwrap();
    h.complete_show(cfg.scale_factor_override, native(5), &mut reg);
    assert_eq!(
        h.unregister_component(12),
        vec![
            Effect::MakeCurrent,
            Effect::ComponentDestroyed { component: 12 },
            Effect::MakeNotCurrent,
        ]
    );
}

#[test]
fn existing_size_survives_remap() {
    let mut h = WindowHandle::new(7);
    let mut reg = WindowRegistry::new();
    let hint = LogicalSize { width_milli: 320_000, height_milli: 200_000 };
    h.set_existing_size(hint);

    let cfg = h.plan_show(plain_inputs()).unwrap();
    h.complete_show(cfg.scale_factor_override, native(5), &mut reg);
    h.hide_window(&mut reg);
    assert_eq!(h.existing_size(), hint);
}

#[test]
fn keyboard_state_roundtrip() {
    let mut h = WindowHandle::new(7);
    assert_eq!(h.currently_pressed_key_code(), None);
    h.set_currently_pressed_key_code(Some(65));
    assert_eq!(h.currently_pressed_key_code(), Some(65));

    let mods = window_lifecycle::window::KeyboardModifiers {
        alt: true,
        control: false,
        shift: true,
        logo: false,
    };
    h.set_keyboard_modifiers(mods);
    assert_eq!(h.current_keyboard_modifiers(), mods);
}

#[test]
fn constraints_cached_only_while_mapped() {
    let mut h = WindowHandle::new(7);
    let mut reg = WindowRegistry::new();
    let tight = LayoutInfo { min_milli: 1000, max_milli: 2000, preferred_milli: 1500 };

    // Ignored while unmapped; the default is reported.
    h.set_constraints((tight, tight));
    assert_eq!(h.constraints(), (LayoutInfo::default(), LayoutInfo::default()));

    let cfg = h.plan_show(plain_inputs()).unwrap();
    h.complete_show(cfg.scale_factor_override, native(5), &mut reg);
    h.set_constraints((tight, tight));
    assert_eq!(h.constraints(), (tight, tight));
}

#[test]
fn native_geometry_events_update_mirror() {
    let mut h = WindowHandle::new(7);
    let mut reg = WindowRegistry::new();
    let cfg = h.plan_show(plain_inputs()).unwrap();
    h.complete_show(cfg.scale_factor_override, native(5), &mut reg);

    h.apply_native_position(PhysicalPosition { x: 77, y: 88 });
    h.apply_native_size(PhysicalSize { width: 1024, height: 768 });
    assert_eq!(h.position(), PhysicalPosition { x: 77, y: 88 });
    assert_eq!(h.inner_size(), PhysicalSize { width: 1024, height: 768 });

    match h.map_state {
        MapState::Mapped { window } => assert_eq!(window.id, 5),
        MapState::Unmapped { .. } => panic!("expected a mapped window"),
    }
}

#[test]
fn registry_register_lookup_unregister() {
    let mut reg = WindowRegistry::new();
    assert_eq!(reg.lookup(1), None);
    reg.register(1, 10);
    reg.register(2, 20);
    assert_eq!(reg.lookup(1), Some(10));
    assert_eq!(reg.lookup(2), Some(20));
    assert_eq!(reg.len(), 2);

    // Registering the same id again replaces the stale entry.
    reg.register(1, 11);
    assert_eq!(reg.lookup(1), Some(11));
    assert_eq!(reg.len(), 2);

    reg.unregister(1);
    assert_eq!(reg.lookup(1), None);
    assert_eq!(reg.lookup(2), Some(20));
    reg.unregister(1);
    assert_eq!(reg.len(), 1);
}
