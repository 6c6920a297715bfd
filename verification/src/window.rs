//! The window state machine.
//!
//! A [`WindowHandle`] is either `Unmapped` (no native window exists;
//! geometry requests are buffered) or `Mapped` (a native window and GPU
//! context back it).  `plan_show` computes everything the platform needs
//! to create the native window; `complete_show` performs the transition
//! once the platform reports the created window; `hide_window`, `draw`
//! and `teardown` yield the exact sequence of GPU effects the host must
//! run, with context currency bracketed around every GPU-touching step.
//!
//! The host owns the callbacks and the OS resources: rendering notifiers
//! are referred to by an opaque token, native windows by their id, and
//! the handle itself by a handle token kept in the window registry.

use vstd::prelude::*;

use crate::cursor::{spec_cursor_icon, spec_cursor_visible, cursor_icon, cursor_visible, CursorIcon, MouseCursor};
use crate::geometry::{
    physical_size_of, spec_physical_length, spec_unconstrained, LayoutInfo, LogicalSize,
    PhysicalPosition, PhysicalSize,
};
use crate::icon::{is_straight_rgba_of, to_straight_rgba, ImageInner};
use crate::registry::WindowRegistry;
use crate::scale::{
    effective_scale, resolve_scale_override, spec_effective_scale, spec_scale_override,
};

verus! {

/// The rendering phases a registered notifier observes.
#[derive(Clone, Copy, Debug, PartialEq, Eq, Structural)]
pub enum RenderingState {
    RenderingSetup,
    BeforeRendering,
    AfterRendering,
    RenderingTeardown,
}

/// Why registering a rendering notifier failed.
#[derive(Clone, Copy, Debug, PartialEq, Eq, Structural)]
pub enum SetRenderingNotifierError {
    AlreadySet,
}

/// An event posted into the event loop for asynchronous delivery.
#[derive(Clone, Copy, Debug, PartialEq, Eq, Structural)]
pub enum CustomEvent {
    RedrawRequested(u64),
    PropertiesChanged(u64),
    WindowHidden,
}

/// One step the host must perform on behalf of the state machine, in
/// order.  GPU-touching steps always appear between `MakeCurrent` and
/// `MakeNotCurrent`.
#[derive(Clone, Copy, Debug, PartialEq, Eq, Structural)]
pub enum Effect {
    /// Make the GPU context current on the owning thread.
    MakeCurrent,
    /// Release context currency.
    MakeNotCurrent,
    /// Resize the context's backing surface if the native size drifted.
    EnsureResized,
    /// Invoke the rendering notifier registered under `token`.
    Notify { token: u64, state: RenderingState },
    /// Run the renderer adapter over the canvas at this pixel size.
    Render { width: u32, height: u32 },
    /// Swap/present the drawn frame.
    SwapBuffers,
    /// Free all GPU objects held by the canvas.
    ReleaseGraphicsResources,
    /// Free the GPU resources cached for one UI component.
    ComponentDestroyed { component: u64 },
    /// Enqueue an event into the event loop.
    PostEvent { event: CustomEvent },
    /// Apply this scale factor (milli units) to the UI runtime.
    ApplyScaleFactor { milli: u32 },
}

/// Transient keyboard state, written by the input decoder.
#[derive(Clone, Copy, Debug, PartialEq, Eq, Structural)]
pub struct KeyboardModifiers {
    pub alt: bool,
    pub control: bool,
    pub shift: bool,
    pub logo: bool,
}

impl Default for KeyboardModifiers {
    /// No modifier held.
    fn default() -> (r: KeyboardModifiers)
        ensures
            r == (KeyboardModifiers { alt: false, control: false, shift: false, logo: false }),
    {
        KeyboardModifiers { alt: false, control: false, shift: false, logo: false }
    }
}

/// The live half of a mapped window: the native window id, the mirror of
/// its geometry, the scale factor in use, and the cached layout bounds.
#[derive(Clone, Copy, Debug, PartialEq, Eq)]
pub struct MappedWindow {
    pub id: u64,
    pub position: PhysicalPosition,
    pub size: PhysicalSize,
    pub scale_factor_milli: u32,
    pub constraints: (LayoutInfo, LayoutInfo),
}

/// Whether a native window currently backs the handle.  While unmapped,
/// position and size requests are buffered until the next `show`.
#[derive(Clone, Copy, Debug, PartialEq, Eq)]
pub enum MapState {
    Unmapped {
        requested_position: Option<PhysicalPosition>,
        requested_size: Option<PhysicalSize>,
    },
    Mapped { window: MappedWindow },
}

/// What the UI runtime's root window item contributes to window creation.
#[derive(Clone, Debug, PartialEq, Eq)]
pub struct WindowItemInfo {
    pub title: String,
    pub no_frame: bool,
    pub width_milli: i64,
    pub height_milli: i64,
}

/// Everything `plan_show` reads from the world: the root window item (if
/// one is bound), the runtime's programmatic scale factor, the two
/// environment override knobs, and the root item's layout bounds.
#[derive(Clone, Debug, PartialEq, Eq)]
pub struct ShowInputs {
    pub window_item: Option<WindowItemInfo>,
    pub runtime_scale_milli: u32,
    pub env_scale_factor: Option<String>,
    pub env_fullscreen: bool,
    pub layout_horizontal: LayoutInfo,
    pub layout_vertical: LayoutInfo,
}

impl ShowInputs {
    pub open spec fn wf(self) -> bool {
        &&& self.layout_horizontal.wf()
        &&& self.layout_vertical.wf()
    }

    /// The title of the native window: the root item's title, or a fixed
    /// fallback when no root item is bound.
    pub open spec fn spec_title(self) -> Seq<char> {
        match self.window_item {
            Some(wi) => wi.title@,
            None => "Slint Window"@,
        }
    }

    /// Whether the root item asks for a frameless window.
    pub open spec fn spec_no_frame(self) -> bool {
        match self.window_item {
            Some(wi) => wi.no_frame,
            None => false,
        }
    }

    /// The window is resizable exactly when the root item fixes neither
    /// of its lengths (or no root item is bound).
    pub open spec fn spec_resizable(self) -> bool {
        match self.window_item {
            Some(wi) => wi.height_milli <= 0 && wi.width_milli <= 0,
            None => true,
        }
    }

    /// The root item's preferred bounded layout size.
    pub open spec fn spec_layout_size(self) -> LogicalSize {
        LogicalSize {
            width_milli: self.layout_horizontal.spec_preferred_bounded(),
            height_milli: self.layout_vertical.spec_preferred_bounded(),
        }
    }

    pub open spec fn spec_env_text(self) -> Option<Seq<char>> {
        match self.env_scale_factor {
            Some(t) => Some(t@),
            None => None,
        }
    }
}

/// The inner size the native window is created with.
#[derive(Clone, Copy, Debug, PartialEq, Eq, Structural)]
pub enum SizeRequest {
    /// An exact size in physical pixels (a buffered request, or a layout
    /// size already converted under a known scale factor).
    Physical(PhysicalSize),
    /// A size in logical pixels, converted by the platform once it knows
    /// the scale factor.
    Logical(LogicalSize),
    /// Let the platform pick (also the fullscreen path, where the size
    /// comes from the monitor).
    PlatformDefault,
}

/// What the inner size resolves to: fullscreen suppresses any explicit
/// size; otherwise a buffered request wins; otherwise a positive layout
/// size is used (converted to physical pixels when the scale factor is
/// already known); otherwise the platform decides.
pub open spec fn spec_size_request(
    fullscreen: bool,
    requested: Option<PhysicalSize>,
    layout: LogicalSize,
    scale_override: Option<u32>,
) -> SizeRequest {
    if fullscreen {
        SizeRequest::PlatformDefault
    } else {
        match requested {
            Some(rs) => SizeRequest::Physical(rs),
            None => if layout.width_milli > 0 && layout.height_milli > 0 {
                match scale_override {
                    Some(f) => SizeRequest::Physical(
                        PhysicalSize {
                            width: spec_physical_length(layout.width_milli, f),
                            height: spec_physical_length(layout.height_milli, f),
                        },
                    ),
                    None => SizeRequest::Logical(layout),
                }
            } else {
                SizeRequest::PlatformDefault
            },
        }
    }
}

/// Everything the platform needs to create the native window.
#[derive(Clone, Debug, PartialEq, Eq)]
pub struct WindowConfig {
    pub title: String,
    pub decorations: bool,
    pub resizable: bool,
    pub fullscreen: bool,
    pub size: SizeRequest,
    pub position: Option<PhysicalPosition>,
    pub scale_factor_override: Option<u32>,
    /// A layout size that must be written back into the root item's
    /// geometry so layout and window stay consistent.
    pub sync_item_geometry: Option<LogicalSize>,
}

/// What the platform reports once the native window and GPU context
/// exist.
#[derive(Clone, Copy, Debug, PartialEq, Eq, Structural)]
pub struct NativeWindowInfo {
    pub id: u64,
    pub position: PhysicalPosition,
    pub size: PhysicalSize,
    pub scale_factor_milli: u32,
}

/// An icon ready for the platform icon API: straight-alpha 8-bit RGBA.
#[derive(Clone, Debug, PartialEq, Eq)]
pub struct IconRequest {
    pub rgba: Vec<u8>,
    pub width: u32,
    pub height: u32,
}

/// A cursor change ready for the platform cursor API.
#[derive(Clone, Copy, Debug, PartialEq, Eq, Structural)]
pub struct CursorRequest {
    pub icon: CursorIcon,
    pub visible: bool,
}

/// The per-window property block the runtime binds to; the scale factor
/// starts at one.
#[derive(Clone, Copy, Debug, PartialEq, Eq, Structural)]
pub struct WindowProperties {
    pub scale_factor_milli: u32,
}

impl Default for WindowProperties {
    /// Scale factor one.
    fn default() -> (r: WindowProperties)
        ensures
            r.scale_factor_milli == 1000,
    {
        WindowProperties { scale_factor_milli: 1000 }
    }
}

/// One logical window for the lifetime of its runtime window.  The
/// runtime owns the handle; the handle refers back through the handle
/// token kept in the registry, never through an owning edge.
#[derive(Debug)]
pub struct WindowHandle {
    /// The token under which the event loop's registry refers back to
    /// this handle (the non-owning back edge).
    pub handle_token: u64,
    pub map_state: MapState,
    pub keyboard_modifiers: KeyboardModifiers,
    pub pressed_key_code: Option<u32>,
    /// Last known logical size, a hint that survives unmap/remap.
    pub existing_size: LogicalSize,
    /// The token of the registered rendering notifier, at most one.
    pub rendering_notifier: Option<u64>,
}

impl WindowHandle {
    pub open spec fn spec_is_mapped(self) -> bool {
        self.map_state is Mapped
    }

    /// The notification step for one rendering phase: one `Notify` effect
    /// when a notifier is registered, nothing otherwise.
    pub open spec fn spec_notify(self, state: RenderingState) -> Seq<Effect> {
        match self.rendering_notifier {
            Some(t) => seq![Effect::Notify { token: t, state }],
            None => Seq::empty(),
        }
    }

    /// What a draw pass runs: nothing while unmapped; otherwise make the
    /// context current, resize the backing surface if needed, render at
    /// the mirrored pixel size with the notifier told before and after,
    /// then present and release currency.
    pub open spec fn spec_draw_effects(self) -> Seq<Effect> {
        match self.map_state {
            MapState::Unmapped { .. } => Seq::empty(),
            MapState::Mapped { window } => seq![Effect::MakeCurrent, Effect::EnsureResized]
                + self.spec_notify(RenderingState::BeforeRendering) + seq![
                Effect::Render { width: window.size.width, height: window.size.height },
            ] + self.spec_notify(RenderingState::AfterRendering) + seq![
                Effect::SwapBuffers,
                Effect::MakeNotCurrent,
            ],
        }
    }

    /// What releasing the GPU resources runs: nothing while unmapped;
    /// otherwise the teardown notification and the release, bracketed by
    /// context currency.
    pub open spec fn spec_teardown_effects(self) -> Seq<Effect> {
        if self.spec_is_mapped() {
            seq![Effect::MakeCurrent] + self.spec_notify(RenderingState::RenderingTeardown) + seq![
                Effect::ReleaseGraphicsResources,
                Effect::MakeNotCurrent,
            ]
        } else {
            Seq::empty()
        }
    }

    /// What hiding runs: the teardown sequence, then the hidden event.
    pub open spec fn spec_hide_effects(self) -> Seq<Effect> {
        if self.spec_is_mapped() {
            self.spec_teardown_effects() + seq![
                Effect::PostEvent { event: CustomEvent::WindowHidden },
            ]
        } else {
            Seq::empty()
        }
    }

    /// The handle after its mapped window is gone: unmapped with cleared
    /// buffered geometry; every other field (the notifier slot and the
    /// size hint included) is kept.  A handle that was already unmapped
    /// is left exactly as it is.
    pub open spec fn spec_hide_post(self) -> WindowHandle {
        if self.spec_is_mapped() {
            WindowHandle {
                map_state: MapState::Unmapped { requested_position: None, requested_size: None },
                ..self
            }
        } else {
            self
        }
    }

    /// The handle after `complete_show`: mapped onto the created native
    /// window, with the effective scale factor and unconstrained cached
    /// layout bounds; every other field is kept.
    pub open spec fn spec_show_post(
        self,
        scale_override: Option<u32>,
        native: NativeWindowInfo,
    ) -> WindowHandle {
        WindowHandle {
            map_state: MapState::Mapped {
                window: MappedWindow {
                    id: native.id,
                    position: native.position,
                    size: native.size,
                    scale_factor_milli: spec_effective_scale(
                        scale_override,
                        native.scale_factor_milli,
                    ),
                    constraints: (spec_unconstrained(), spec_unconstrained()),
                },
            },
            ..self
        }
    }

    /// A fresh handle: unmapped with nothing buffered, no notifier, no
    /// input state, zero size hint.
    pub fn new(handle_token: u64) -> (r: WindowHandle)
        ensures
            r.handle_token == handle_token,
            r.map_state == (MapState::Unmapped {
                requested_position: None,
                requested_size: None,
            }),
            r.keyboard_modifiers == (KeyboardModifiers {
                alt: false,
                control: false,
                shift: false,
                logo: false,
            }),
            r.pressed_key_code is None,
            r.existing_size == (LogicalSize { width_milli: 0, height_milli: 0 }),
            r.rendering_notifier is None,
    {
        WindowHandle {
            handle_token,
            map_state: MapState::Unmapped { requested_position: None, requested_size: None },
            keyboard_modifiers: KeyboardModifiers::default(),
            pressed_key_code: None,
            existing_size: LogicalSize::zero(),
            rendering_notifier: None,
        }
    }

    pub fn is_mapped(&self) -> (r: bool)
        ensures
            r == self.spec_is_mapped(),
    {
        match &self.map_state {
            MapState::Unmapped { .. } => false,
            MapState::Mapped { .. } => true,
        }
    }

    /// The native window id, while mapped.  The host resolves it to the
    /// native window for direct operations.
    pub fn mapped_window_id(&self) -> (r: Option<u64>)
        ensures
            self.spec_is_mapped() ==> r == Some(self.map_state->window.id),
            !self.spec_is_mapped() ==> r is None,
    {
        match &self.map_state {
            MapState::Unmapped { .. } => None,
            MapState::Mapped { window } => Some(window.id),
        }
    }

    pub fn has_rendering_notifier(&self) -> (r: bool)
        ensures
            r == (self.rendering_notifier is Some),
    {
        self.rendering_notifier.is_some()
    }

    /// Registers the rendering notifier known to the host under `token`.
    /// Fails, leaving the registered notifier untouched, when one is
    /// already registered; there is no removal operation.
    pub fn set_rendering_notifier(&mut self, token: u64) -> (r: Result<
        (),
        SetRenderingNotifierError,
    >)
        ensures
            old(self).rendering_notifier is None ==> r is Ok && *final(self) == (WindowHandle {
                rendering_notifier: Some(token),
                ..*old(self)
            }),
            old(self).rendering_notifier is Some ==> r == Err::<(), SetRenderingNotifierError>(
                SetRenderingNotifierError::AlreadySet,
            ) && *final(self) == *old(self),
    {
        match self.rendering_notifier {
            Some(_) => Err(SetRenderingNotifierError::AlreadySet),
            None => {
                self.rendering_notifier = Some(token);
                Ok(())
            },
        }
    }

    /// The notification step for one rendering phase, for the host to
    /// dispatch: the registered notifier's token, or nothing.
    pub fn rendering_notification(&self, state: RenderingState) -> (r: Option<Effect>)
        ensures
            self.rendering_notifier matches Some(t) ==> r == Some(
                Effect::Notify { token: t, state },
            ),
            self.rendering_notifier is None ==> r is None,
    {
        match self.rendering_notifier {
            Some(t) => Some(Effect::Notify { token: t, state }),
            None => None,
        }
    }

    /// Plans the creation of the native window.  Yields nothing when the
    /// window is already mapped (a redundant `show` is a no-op);
    /// otherwise resolves the window title, frame, resizability, the
    /// fullscreen and scale-factor overrides, the initial inner size and
    /// position.
    pub fn plan_show(&self, inputs: ShowInputs) -> (r: Option<WindowConfig>)
        requires
            inputs.wf(),
        ensures
            r is Some <==> !self.spec_is_mapped(),
            self.map_state matches MapState::Unmapped { requested_position, requested_size } ==> (
            r matches Some(cfg) && {
                &&& cfg.title@ == inputs.spec_title()
                &&& cfg.decorations == !inputs.spec_no_frame()
                &&& cfg.resizable == inputs.spec_resizable()
                &&& cfg.fullscreen == inputs.env_fullscreen
                &&& cfg.scale_factor_override == spec_scale_override(
                    inputs.runtime_scale_milli,
                    inputs.spec_env_text(),
                )
                &&& cfg.size == spec_size_request(
                    inputs.env_fullscreen,
                    requested_size,
                    inputs.spec_layout_size(),
                    cfg.scale_factor_override,
                )
                &&& cfg.position == requested_position
                &&& cfg.sync_item_geometry == (if !inputs.env_fullscreen && requested_size is None
                    && inputs.spec_layout_size().width_milli > 0
                    && inputs.spec_layout_size().height_milli > 0 {
                    Some(inputs.spec_layout_size())
                } else {
                    None::<LogicalSize>
                })
            }),
    {
        let (requested_position, requested_size) = match &self.map_state {
            MapState::Unmapped { requested_position, requested_size } => (
                *requested_position,
                *requested_size,
            ),
            MapState::Mapped { .. } => {
                return None;
            },
        };
        let scale_factor_override = resolve_scale_override(
            inputs.runtime_scale_milli,
            match &inputs.env_scale_factor {
                Some(t) => Some(t.as_str()),
                None => None,
            },
        );
        let layout_size = LogicalSize {
            width_milli: inputs.layout_horizontal.preferred_bounded(),
            height_milli: inputs.layout_vertical.preferred_bounded(),
        };
        let (title, no_frame, resizable) = match inputs.window_item {
            Some(wi) => (wi.title, wi.no_frame, wi.height_milli <= 0 && wi.width_milli <= 0),
            None => ("Slint Window".to_owned(), false, true),
        };
        let fullscreen = inputs.env_fullscreen;
        let layout_positive = layout_size.width_milli > 0 && layout_size.height_milli > 0;
        let size: SizeRequest = if fullscreen {
            SizeRequest::PlatformDefault
        } else if let Some(rs) = requested_size {
            SizeRequest::Physical(rs)
        } else if layout_positive {
            match scale_factor_override {
                Some(f) => SizeRequest::Physical(physical_size_of(layout_size, f)),
                None => SizeRequest::Logical(layout_size),
            }
        } else {
            SizeRequest::PlatformDefault
        };
        let sync_item_geometry: Option<LogicalSize> = if !fullscreen && requested_size.is_none()
            && layout_positive {
            Some(layout_size)
        } else {
            None
        };
        Some(
            WindowConfig {
                title,
                decorations: !no_frame,
                resizable,
                fullscreen,
                size,
                position: requested_position,
                scale_factor_override,
                sync_item_geometry,
            },
        )
    }

    /// Maps the handle onto the native window the platform created.
    /// Registers the window id, fires the setup notification, releases
    /// context currency (the context is not left current after setup),
    /// and applies the effective scale factor to the runtime.
    pub fn complete_show(
        &mut self,
        scale_factor_override: Option<u32>,
        native: NativeWindowInfo,
        registry: &mut WindowRegistry,
    ) -> (r: Vec<Effect>)
        requires
            !old(self).spec_is_mapped(),
            old(registry).wf(),
        ensures
            *final(self) == old(self).spec_show_post(scale_factor_override, native),
            r@ == old(self).spec_notify(RenderingState::RenderingSetup) + seq![
                Effect::MakeNotCurrent,
                Effect::ApplyScaleFactor {
                    milli: spec_effective_scale(scale_factor_override, native.scale_factor_milli),
                },
            ],
            final(registry).wf(),
            final(registry).spec_lookup(native.id) == Some(old(self).handle_token),
            forall|other: u64|
                other != native.id ==> #[trigger] final(registry).spec_lookup(other) == old(registry).spec_lookup(other),
    {
        let milli = effective_scale(scale_factor_override, native.scale_factor_milli);
        let mut r: Vec<Effect> = Vec::new();
        if let Some(t) = self.rendering_notifier {
            r.push(Effect::Notify { token: t, state: RenderingState::RenderingSetup });
        }
        r.push(Effect::MakeNotCurrent);
        r.push(Effect::ApplyScaleFactor { milli });
        registry.register(native.id, self.handle_token);
        self.map_state = MapState::Mapped {
            window: MappedWindow {
                id: native.id,
                position: native.position,
                size: native.size,
                scale_factor_milli: milli,
                constraints: (LayoutInfo::default(), LayoutInfo::default()),
            },
        };
        proof {
            assert(r@ =~= old(self).spec_notify(RenderingState::RenderingSetup) + seq![
                Effect::MakeNotCurrent,
                Effect::ApplyScaleFactor { milli },
            ]);
        }
        r
    }

    /// Unmaps the window: runs the GPU teardown sequence, unregisters the
    /// window id, clears the buffered geometry, and posts the hidden
    /// event.  A redundant `hide` changes nothing and runs nothing.
    pub fn hide_window(&mut self, registry: &mut WindowRegistry) -> (r: Vec<Effect>)
        requires
            old(registry).wf(),
        ensures
            *final(self) == old(self).spec_hide_post(),
            r@ == old(self).spec_hide_effects(),
            final(registry).wf(),
            old(self).map_state matches MapState::Mapped { window } ==> final(registry).spec_lookup(window.id) is None && (forall|other: u64|
                other != window.id ==> #[trigger] final(registry).spec_lookup(other) == old(registry).spec_lookup(other)),
            !old(self).spec_is_mapped() ==> *final(registry) == *old(registry),
    {
        let id = match &self.map_state {
            MapState::Unmapped { .. } => {
                let r: Vec<Effect> = Vec::new();
                proof {
                    assert(r@ =~= old(self).spec_hide_effects());
                }
                return r;
            },
            MapState::Mapped { window } => window.id,
        };
        let mut r: Vec<Effect> = Vec::new();
        r.push(Effect::MakeCurrent);
        if let Some(t) = self.rendering_notifier {
            r.push(Effect::Notify { token: t, state: RenderingState::RenderingTeardown });
        }
        r.push(Effect::ReleaseGraphicsResources);
        r.push(Effect::MakeNotCurrent);
        r.push(Effect::PostEvent { event: CustomEvent::WindowHidden });
        registry.unregister(id);
        self.map_state = MapState::Unmapped { requested_position: None, requested_size: None };
        proof {
            assert(r@ =~= old(self).spec_hide_effects());
        }
        r
    }

    /// Releases GPU resources on the drop path: like `hide`, but without
    /// the hidden event.  Idempotent: a second call finds the handle
    /// unmapped and runs nothing, so the release happens exactly once.
    pub fn teardown(&mut self, registry: &mut WindowRegistry) -> (r: Vec<Effect>)
        requires
            old(registry).wf(),
        ensures
            *final(self) == old(self).spec_hide_post(),
            r@ == old(self).spec_teardown_effects(),
            final(registry).wf(),
            old(self).map_state matches MapState::Mapped { window } ==> final(registry).spec_lookup(window.id) is None && (forall|other: u64|
                other != window.id ==> #[trigger] final(registry).spec_lookup(other) == old(registry).spec_lookup(other)),
            !old(self).spec_is_mapped() ==> *final(registry) == *old(registry),
    {
        let id = match &self.map_state {
            MapState::Unmapped { .. } => {
                let r: Vec<Effect> = Vec::new();
                proof {
                    assert(r@ =~= old(self).spec_teardown_effects());
                }
                return r;
            },
            MapState::Mapped { window } => window.id,
        };
        let mut r: Vec<Effect> = Vec::new();
        r.push(Effect::MakeCurrent);
        if let Some(t) = self.rendering_notifier {
            r.push(Effect::Notify { token: t, state: RenderingState::RenderingTeardown });
        }
        r.push(Effect::ReleaseGraphicsResources);
        r.push(Effect::MakeNotCurrent);
        registry.unregister(id);
        self.map_state = MapState::Unmapped { requested_position: None, requested_size: None };
        proof {
            assert(r@ =~= old(self).spec_teardown_effects());
        }
        r
    }

    /// Plans one draw pass.  On an unmapped handle this is empty: the
    /// renderer and the notifier are not reached (a queued redraw racing
    /// a teardown is a legitimate no-op, not an error).
    pub fn draw(&self) -> (r: Vec<Effect>)
        ensures
            r@ == self.spec_draw_effects(),
    {
        let window = match &self.map_state {
            MapState::Unmapped { .. } => {
                let r: Vec<Effect> = Vec::new();
                proof {
                    assert(r@ =~= self.spec_draw_effects());
                }
                return r;
            },
            MapState::Mapped { window } => window,
        };
        let mut r: Vec<Effect> = Vec::new();
        r.push(Effect::MakeCurrent);
        r.push(Effect::EnsureResized);
        if let Some(t) = self.rendering_notifier {
            r.push(Effect::Notify { token: t, state: RenderingState::BeforeRendering });
        }
        r.push(Effect::Render { width: window.size.width, height: window.size.height });
        if let Some(t) = self.rendering_notifier {
            r.push(Effect::Notify { token: t, state: RenderingState::AfterRendering });
        }
        r.push(Effect::SwapBuffers);
        r.push(Effect::MakeNotCurrent);
        proof {
            assert(r@ =~= self.spec_draw_effects());
        }
        r
    }

    /// Asks for a redraw of the mapped window; nothing while unmapped.
    pub fn request_redraw(&self) -> (r: Option<CustomEvent>)
        ensures
            self.spec_is_mapped() ==> r == Some(
                CustomEvent::RedrawRequested(self.map_state->window.id),
            ),
            !self.spec_is_mapped() ==> r is None,
    {
        match &self.map_state {
            MapState::Unmapped { .. } => None,
            MapState::Mapped { window } => Some(CustomEvent::RedrawRequested(window.id)),
        }
    }

    /// Asks the event loop to refresh the window properties of the
    /// mapped window; nothing while unmapped (the runtime refreshes them
    /// itself on the next `show`).
    pub fn request_window_properties_update(&self) -> (r: Option<CustomEvent>)
        ensures
            self.spec_is_mapped() ==> r == Some(
                CustomEvent::PropertiesChanged(self.map_state->window.id),
            ),
            !self.spec_is_mapped() ==> r is None,
    {
        match &self.map_state {
            MapState::Unmapped { .. } => None,
            MapState::Mapped { window } => Some(CustomEvent::PropertiesChanged(window.id)),
        }
    }

    /// Nothing is cached per component at registration time.
    pub fn register_component(&self) {
    }

    /// Frees the GPU resources cached for a torn-down UI component,
    /// bracketed by context currency; nothing while unmapped.
    pub fn unregister_component(&self, component: u64) -> (r: Vec<Effect>)
        ensures
            self.spec_is_mapped() ==> r@ == seq![
                Effect::MakeCurrent,
                Effect::ComponentDestroyed { component },
                Effect::MakeNotCurrent,
            ],
            !self.spec_is_mapped() ==> r@ == Seq::<Effect>::empty(),
    {
        let mut r: Vec<Effect> = Vec::new();
        match &self.map_state {
            MapState::Unmapped { .. } => {
                proof {
                    assert(r@ =~= Seq::<Effect>::empty());
                }
            },
            MapState::Mapped { .. } => {
                r.push(Effect::MakeCurrent);
                r.push(Effect::ComponentDestroyed { component });
                r.push(Effect::MakeNotCurrent);
                proof {
                    assert(r@ =~= seq![
                        Effect::MakeCurrent,
                        Effect::ComponentDestroyed { component },
                        Effect::MakeNotCurrent,
                    ]);
                }
            },
        }
        r
    }

    /// Converts an icon image for the platform icon API.  Only an
    /// embedded bitmap on a mapped window yields an icon; every other
    /// source is silently ignored.
    pub fn set_icon(&self, image: &ImageInner) -> (r: Option<IconRequest>)
        requires
            image matches ImageInner::EmbeddedImage { buffer } ==> buffer.wf(),
        ensures
            r is Some <==> (self.spec_is_mapped() && image is EmbeddedImage),
            r matches Some(req) ==> (image matches ImageInner::EmbeddedImage { buffer } && {
                &&& is_straight_rgba_of(req.rgba@, *buffer)
                &&& req.width == buffer.spec_width()
                &&& req.height == buffer.spec_height()
            }),
    {
        let buffer = match image {
            ImageInner::EmbeddedImage { buffer } => buffer,
            ImageInner::Opaque => {
                return None;
            },
        };
        if !self.is_mapped() {
            return None;
        }
        Some(
            IconRequest {
                rgba: to_straight_rgba(buffer),
                width: buffer.width(),
                height: buffer.height(),
            },
        )
    }

    /// Chooses the platform cursor icon and visibility for a cursor
    /// request; nothing while unmapped.
    pub fn set_mouse_cursor(&self, cursor: MouseCursor) -> (r: Option<CursorRequest>)
        ensures
            self.spec_is_mapped() ==> r == Some(
                CursorRequest {
                    icon: spec_cursor_icon(cursor),
                    visible: spec_cursor_visible(cursor),
                },
            ),
            !self.spec_is_mapped() ==> r is None,
    {
        if !self.is_mapped() {
            return None;
        }
        Some(CursorRequest { icon: cursor_icon(cursor), visible: cursor_visible(cursor) })
    }

    /// The window position: the buffered request (or the origin) while
    /// unmapped, the mirror of the native window while mapped.
    pub fn position(&self) -> (r: PhysicalPosition)
        ensures
            self.map_state matches MapState::Unmapped { requested_position, .. } ==> r == (
            match requested_position {
                Some(p) => p,
                None => PhysicalPosition { x: 0, y: 0 },
            }),
            self.spec_is_mapped() ==> r == self.map_state->window.position,
    {
        match &self.map_state {
            MapState::Unmapped { requested_position, .. } => match requested_position {
                Some(p) => *p,
                None => PhysicalPosition::origin(),
            },
            MapState::Mapped { window } => window.position,
        }
    }

    /// Moves the window.  While unmapped the request is buffered for the
    /// next `show`; while mapped the mirror is updated and the returned
    /// position must be applied to the native window.
    pub fn set_position(&mut self, position: PhysicalPosition) -> (r: Option<PhysicalPosition>)
        ensures
            old(self).map_state matches MapState::Unmapped { requested_size, .. } ==> *final(self)
                == (WindowHandle {
                map_state: MapState::Unmapped {
                    requested_position: Some(position),
                    requested_size,
                },
                ..*old(self)
            }) && r is None,
            old(self).map_state matches MapState::Mapped { window } ==> *final(self) == (
            WindowHandle {
                map_state: MapState::Mapped { window: MappedWindow { position, ..window } },
                ..*old(self)
            }) && r == Some(position),
    {
        match &self.map_state {
            MapState::Unmapped { requested_size, .. } => {
                self.map_state = MapState::Unmapped {
                    requested_position: Some(position),
                    requested_size: *requested_size,
                };
                None
            },
            MapState::Mapped { window } => {
                self.map_state = MapState::Mapped {
                    window: MappedWindow { position, ..*window },
                };
                Some(position)
            },
        }
    }

    /// The inner size: the buffered request (or zero) while unmapped,
    /// the mirror of the native window while mapped.
    pub fn inner_size(&self) -> (r: PhysicalSize)
        ensures
            self.map_state matches MapState::Unmapped { requested_size, .. } ==> r == (
            match requested_size {
                Some(s) => s,
                None => PhysicalSize { width: 0, height: 0 },
            }),
            self.spec_is_mapped() ==> r == self.map_state->window.size,
    {
        match &self.map_state {
            MapState::Unmapped { requested_size, .. } => match requested_size {
                Some(s) => *s,
                None => PhysicalSize::zero(),
            },
            MapState::Mapped { window } => window.size,
        }
    }

    /// Resizes the window.  While unmapped the request is buffered for
    /// the next `show`; while mapped the mirror is updated and the
    /// returned size must be applied to the native window.
    pub fn set_inner_size(&mut self, size: PhysicalSize) -> (r: Option<PhysicalSize>)
        ensures
            old(self).map_state matches MapState::Unmapped { requested_position, .. } ==> *final(self) == (WindowHandle {
                map_state: MapState::Unmapped {
                    requested_position,
                    requested_size: Some(size),
                },
                ..*old(self)
            }) && r is None,
            old(self).map_state matches MapState::Mapped { window } ==> *final(self) == (
            WindowHandle {
                map_state: MapState::Mapped { window: MappedWindow { size, ..window } },
                ..*old(self)
            }) && r == Some(size),
    {
        match &self.map_state {
            MapState::Unmapped { requested_position, .. } => {
                self.map_state = MapState::Unmapped {
                    requested_position: *requested_position,
                    requested_size: Some(size),
                };
                None
            },
            MapState::Mapped { window } => {
                self.map_state = MapState::Mapped { window: MappedWindow { size, ..*window } };
                Some(size)
            },
        }
    }

    /// Records the position the platform reports for the native window
    /// (a move observed by the event loop); ignored while unmapped.
    pub fn apply_native_position(&mut self, position: PhysicalPosition)
        ensures
            old(self).map_state matches MapState::Mapped { window } ==> *final(self) == (
            WindowHandle {
                map_state: MapState::Mapped { window: MappedWindow { position, ..window } },
                ..*old(self)
            }),
            !old(self).spec_is_mapped() ==> *final(self) == *old(self),
    {
        match &self.map_state {
            MapState::Unmapped { .. } => {},
            MapState::Mapped { window } => {
                self.map_state = MapState::Mapped {
                    window: MappedWindow { position, ..*window },
                };
            },
        }
    }

    /// Records the size the platform reports for the native window (a
    /// resize observed by the event loop); ignored while unmapped.
    pub fn apply_native_size(&mut self, size: PhysicalSize)
        ensures
            old(self).map_state matches MapState::Mapped { window } ==> *final(self) == (
            WindowHandle {
                map_state: MapState::Mapped { window: MappedWindow { size, ..window } },
                ..*old(self)
            }),
            !old(self).spec_is_mapped() ==> *final(self) == *old(self),
    {
        match &self.map_state {
            MapState::Unmapped { .. } => {},
            MapState::Mapped { window } => {
                self.map_state = MapState::Mapped { window: MappedWindow { size, ..*window } };
            },
        }
    }

    /// The cached layout bounds of the mapped window; unconstrained
    /// bounds while unmapped.
    pub fn constraints(&self) -> (r: (LayoutInfo, LayoutInfo))
        ensures
            self.spec_is_mapped() ==> r == self.map_state->window.constraints,
            !self.spec_is_mapped() ==> r == (spec_unconstrained(), spec_unconstrained()),
    {
        match &self.map_state {
            MapState::Unmapped { .. } => (LayoutInfo::default(), LayoutInfo::default()),
            MapState::Mapped { window } => window.constraints,
        }
    }

    /// Caches the layout bounds computed by the runtime's layout pass;
    /// ignored while unmapped.
    pub fn set_constraints(&mut self, constraints: (LayoutInfo, LayoutInfo))
        ensures
            old(self).map_state matches MapState::Mapped { window } ==> *final(self) == (
            WindowHandle {
                map_state: MapState::Mapped { window: MappedWindow { constraints, ..window } },
                ..*old(self)
            }),
            !old(self).spec_is_mapped() ==> *final(self) == *old(self),
    {
        match &self.map_state {
            MapState::Unmapped { .. } => {},
            MapState::Mapped { window } => {
                self.map_state = MapState::Mapped {
                    window: MappedWindow { constraints, ..*window },
                };
            },
        }
    }

    pub fn existing_size(&self) -> (r: LogicalSize)
        ensures
            r == self.existing_size,
    {
        self.existing_size
    }

    /// Updates the last-known-size hint; it persists across unmap/remap.
    pub fn set_existing_size(&mut self, size: LogicalSize)
        ensures
            *final(self) == (WindowHandle { existing_size: size, ..*old(self) }),
    {
        self.existing_size = size;
    }

    pub fn current_keyboard_modifiers(&self) -> (r: KeyboardModifiers)
        ensures
            r == self.keyboard_modifiers,
    {
        self.keyboard_modifiers
    }

    pub fn set_keyboard_modifiers(&mut self, modifiers: KeyboardModifiers)
        ensures
            *final(self) == (WindowHandle { keyboard_modifiers: modifiers, ..*old(self) }),
    {
        self.keyboard_modifiers = modifiers;
    }

    pub fn currently_pressed_key_code(&self) -> (r: Option<u32>)
        ensures
            r == self.pressed_key_code,
    {
        self.pressed_key_code
    }

    pub fn set_currently_pressed_key_code(&mut self, code: Option<u32>)
        ensures
            *final(self) == (WindowHandle { pressed_key_code: code, ..*old(self) }),
    {
        self.pressed_key_code = code;
    }
}

/// Show and hide alternate strictly.  A completed show always leaves the
/// handle mapped and a hide always leaves it unmapped; a hide on an
/// unmapped handle changes nothing — the buffered geometry included —
/// and fires no notification; a second hide after a hide is the same
/// no-op.  (A redundant show is cut off earlier: `plan_show` yields
/// nothing on a mapped handle.)
pub proof fn lemma_show_hide_strict_alternation(
    h: WindowHandle,
    scale_override: Option<u32>,
    native: NativeWindowInfo,
)
    ensures
        h.spec_show_post(scale_override, native).spec_is_mapped(),
        !h.spec_show_post(scale_override, native).spec_hide_post().spec_is_mapped(),
        !h.spec_hide_post().spec_is_mapped(),
        !h.spec_is_mapped() ==> h.spec_hide_post() == h && h.spec_hide_effects()
            == Seq::<Effect>::empty(),
        h.spec_hide_post().spec_hide_post() == h.spec_hide_post(),
        h.spec_hide_post().spec_hide_effects() == Seq::<Effect>::empty(),
{
}

/// A buffered geometry request is handed to the platform verbatim: with
/// no fullscreen override, the planned inner size is exactly the
/// buffered size, and the planned position is exactly the buffered
/// position (`plan_show` passes the buffered position through unchanged
/// for every configuration).
pub proof fn lemma_buffered_geometry_used(
    layout: LogicalSize,
    scale_override: Option<u32>,
    size: PhysicalSize,
)
    ensures
        spec_size_request(false, Some(size), layout, scale_override) == SizeRequest::Physical(
            size,
        ),
{
}

/// The fullscreen environment flag wins over an explicit buffered size:
/// the buffered size is not applied as the window's inner size.
pub proof fn lemma_fullscreen_overrides_buffered_size(
    requested: Option<PhysicalSize>,
    layout: LogicalSize,
    scale_override: Option<u32>,
)
    ensures
        spec_size_request(true, requested, layout, scale_override) == SizeRequest::PlatformDefault,
        forall|size: PhysicalSize|
            spec_size_request(true, requested, layout, scale_override) != SizeRequest::Physical(
                size,
            ),
{
}

/// The first registered notifier stays in charge: on a mapped handle
/// whose notifier slot holds `t1`, a draw pass notifies exactly `t1`
/// before and after the render, whatever later registrations were
/// rejected.
pub proof fn lemma_first_notifier_kept(h: WindowHandle, t1: u64)
    requires
        h.rendering_notifier == Some(t1),
        h.spec_is_mapped(),
    ensures
        h.spec_draw_effects() =~= seq![
            Effect::MakeCurrent,
            Effect::EnsureResized,
            Effect::Notify { token: t1, state: RenderingState::BeforeRendering },
            Effect::Render {
                width: h.map_state->window.size.width,
                height: h.map_state->window.size.height,
            },
            Effect::Notify { token: t1, state: RenderingState::AfterRendering },
            Effect::SwapBuffers,
            Effect::MakeNotCurrent,
        ],
{
}

/// A draw pass on an unmapped handle performs nothing at all: neither
/// the renderer adapter nor the notifier is reached.
pub proof fn lemma_unmapped_draw_is_inert(h: WindowHandle)
    requires
        !h.spec_is_mapped(),
    ensures
        h.spec_draw_effects() == Seq::<Effect>::empty(),
{
}

/// Teardown releases the GPU resources exactly once.  On a mapped handle
/// the teardown sequence holds exactly one release step; the handle is
/// unmapped afterwards, so a second teardown runs nothing.
pub proof fn lemma_teardown_releases_once(h: WindowHandle)
    ensures
        !h.spec_is_mapped() ==> h.spec_teardown_effects() == Seq::<Effect>::empty(),
        h.spec_is_mapped() && h.rendering_notifier is None ==> h.spec_teardown_effects() =~= seq![
            Effect::MakeCurrent,
            Effect::ReleaseGraphicsResources,
            Effect::MakeNotCurrent,
        ],
        h.spec_is_mapped() ==> (h.rendering_notifier matches Some(t)
            ==> h.spec_teardown_effects() =~= seq![
            Effect::MakeCurrent,
            Effect::Notify { token: t, state: RenderingState::RenderingTeardown },
            Effect::ReleaseGraphicsResources,
            Effect::MakeNotCurrent,
        ]),
        h.spec_hide_post().spec_teardown_effects() == Seq::<Effect>::empty(),
{
}

/// Context currency is bracketed: whenever a draw, hide or teardown
/// sequence is non-empty, it begins by making the context current, and
/// every GPU-touching step stays strictly between `MakeCurrent` and the
/// closing `MakeNotCurrent`.
pub proof fn lemma_currency_bracketed(h: WindowHandle)
    ensures
        h.spec_draw_effects().len() > 0 ==> h.spec_draw_effects()[0] == Effect::MakeCurrent
            && h.spec_draw_effects()[h.spec_draw_effects().len() - 1] == Effect::MakeNotCurrent,
        h.spec_teardown_effects().len() > 0 ==> h.spec_teardown_effects()[0]
            == Effect::MakeCurrent && h.spec_teardown_effects()[h.spec_teardown_effects().len()
            - 1] == Effect::MakeNotCurrent,
{
    if h.spec_is_mapped() {
        match h.rendering_notifier {
            Some(t) => {
                assert(h.spec_draw_effects()[0] == Effect::MakeCurrent);
                assert(h.spec_draw_effects()[h.spec_draw_effects().len() - 1]
                    == Effect::MakeNotCurrent);
                assert(h.spec_teardown_effects()[0] == Effect::MakeCurrent);
                assert(h.spec_teardown_effects()[h.spec_teardown_effects().len() - 1]
                    == Effect::MakeNotCurrent);
            },
            None => {
                assert(h.spec_draw_effects()[0] == Effect::MakeCurrent);
                assert(h.spec_draw_effects()[h.spec_draw_effects().len() - 1]
                    == Effect::MakeNotCurrent);
                assert(h.spec_teardown_effects()[0] == Effect::MakeCurrent);
                assert(h.spec_teardown_effects()[h.spec_teardown_effects().len() - 1]
                    == Effect::MakeNotCurrent);
            },
        }
    }
}

} // verus!
