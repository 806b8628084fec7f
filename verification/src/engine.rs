//! The window-management engine: a deterministic state machine.
//!
//! The host process decodes one event from the display server, hands it to
//! [`Engine::handle_event`], and receives back a terminate flag and the
//! list of server commands to carry out, in order.  Every handler's effect
//! is specified by a pure transition function over [`EngineModel`], the
//! mathematical image of the engine state.

use vstd::prelude::*;
use crate::bindings::{KeyAction, KeyBinding, KeyBindingView, MouseAction, MouseBinding,
    key_views, resolve_key, resolve_key_spec, resolve_mouse, resolve_mouse_spec};
use crate::drag::{DragState, drag_target, moved_coord, resized_dim, move_coord, resize_dim};
use crate::geom::Geometry;
use crate::registry::{Registry, geoms_wf};
use crate::theme::{BorderTheme, Layer, layers_wf, total_of};

verus! {

/// A program the engine can ask the host to launch, fire-and-forget.
#[derive(Clone, Copy, PartialEq, Eq, Structural, Debug)]
pub enum SpawnKind {
    Terminal,
    Launcher,
}

/// One server operation the host must carry out on the engine's behalf.
/// Commands are plain values; the engine never talks to the server itself.
#[derive(Clone, Copy, PartialEq, Eq, Structural, Debug)]
pub enum Command {
    /// Make `window` the server's input-focus target.
    SetInputFocus { window: u64 },
    /// Raise `window` above its siblings.
    Raise { window: u64 },
    /// Compose and install the border of `window` in the given focus style.
    DrawBorder { window: u64, focused: bool },
    /// Grab the pointer exclusively for motion and button-release events,
    /// on behalf of a drag of `window`.
    GrabPointer { window: u64 },
    /// Release the drag subsystem's pointer grab.
    UngrabPointer,
    /// Move `window` without resizing it.
    MoveWindow { window: u64, x: i32, y: i32 },
    /// Resize `window` without moving it.
    ResizeWindow { window: u64, w: u32, h: u32 },
    /// Apply a full geometry to `window`.
    MoveResizeWindow { window: u64, x: i32, y: i32, w: u32, h: u32 },
    /// Set the decoration inset of `window` in pixels.
    SetBorderWidth { window: u64, width: i32 },
    /// Subscribe to enter/focus/property/structure notifications of `window`.
    SelectClientEvents { window: u64 },
    /// Ask the server to make `window` visible.
    MapWindow { window: u64 },
    /// Clear the root window's background.
    ClearRoot,
    /// Launch a user program, detached; its outcome is never observed.
    Spawn { kind: SpawnKind },
}

/// Attributes of a window as the server reports them when the window asks
/// to be shown.
#[derive(Clone, Copy, PartialEq, Eq, Structural, Debug)]
pub struct WindowAttributes {
    pub x: i32,
    pub y: i32,
    pub w: u32,
    pub h: u32,
    /// True when the window asks to bypass management entirely.
    pub override_redirect: bool,
}

/// One decoded event from the display server.
///
/// The host performs the collaborator calls that decoding needs — querying
/// attributes for a show request, translating a key code to its symbolic
/// name, draining redundant queued motion events — and hands the engine
/// plain values only.
pub enum Event {
    /// Pointer motion; only the latest of a queued run need be delivered.
    Motion { x_root: i32, y_root: i32 },
    ButtonPress { button: u32, state: u32, subwindow: u64, x_root: i32, y_root: i32 },
    ButtonRelease,
    /// A key press, already translated to its symbolic name.
    KeyPress { sym: String, state: u32 },
    /// A window asks to be shown; `attrs` is `None` when the attribute
    /// query failed because the window is already gone.
    MapRequest { window: u64, attrs: Option<WindowAttributes> },
    DestroyNotify { window: u64 },
    EnterNotify { window: u64 },
    ConfigureNotify { window: u64 },
    /// Any event kind the engine attaches no meaning to.
    Other,
}

/// A request to reserve one configured trigger with the server, made once
/// at initialization.
pub enum GrabRequest {
    KeyGrab { sym: String, modifier: u32 },
    ButtonGrab { button: u32, modifier: u32 },
}

/// The mathematical image of the engine state.
pub struct EngineModel {
    /// The root window's handle; it is never managed and never bordered.
    pub root: u64,
    /// Managed windows and their last-known geometry.
    pub windows: Map<u64, Geometry>,
    /// The focus holder; the root window when no client holds focus.
    pub focuswin: u64,
    pub drag: DragState,
    pub sloppy_focus: bool,
    pub key_bindings: Seq<KeyBindingView>,
    pub mouse_bindings: Seq<MouseBinding>,
    pub theme_focused: Seq<Layer>,
    pub theme_unfocused: Seq<Layer>,
}

impl EngineModel {
    /// Validity of an engine state: usable themes, no degenerate managed
    /// geometry, and an active drag always aims at a managed window.
    pub open spec fn wf(self) -> bool {
        &&& layers_wf(self.theme_focused)
        &&& layers_wf(self.theme_unfocused)
        &&& geoms_wf(self.windows)
        &&& match self.drag {
            DragState::Idle => true,
            DragState::Moving { target, .. } => self.windows.dom().contains(target),
            DragState::Resizing { target, .. } => self.windows.dom().contains(target),
        }
    }
}

/// The commands a focus transfer to `window` issues: retarget the server's
/// input focus, raise unless focus follows the pointer, then redraw the
/// borders of the previous and of the new focus holder — root excepted,
/// since the root window is never bordered.
pub open spec fn focus_cmds(m: EngineModel, window: u64) -> Seq<Command> {
    let a = seq![Command::SetInputFocus { window }];
    let b = if !m.sloppy_focus {
        a.push(Command::Raise { window })
    } else {
        a
    };
    let c = if m.focuswin != m.root {
        b.push(Command::DrawBorder { window: m.focuswin, focused: false })
    } else {
        b
    };
    if window != m.root {
        c.push(Command::DrawBorder { window, focused: true })
    } else {
        c
    }
}

/// Focus transfer.  A transfer to the current holder is a no-op: no state
/// change and no redraw.
pub open spec fn set_focus_spec(m: EngineModel, window: u64) -> (EngineModel, Seq<Command>) {
    if m.focuswin == window {
        (m, Seq::<Command>::empty())
    } else {
        (EngineModel { focuswin: window, ..m }, focus_cmds(m, window))
    }
}

/// Pointer entry transfers focus only under the sloppy-focus policy.
pub open spec fn enter_spec(m: EngineModel, window: u64) -> (EngineModel, Seq<Command>) {
    if m.sloppy_focus {
        set_focus_spec(m, window)
    } else {
        (m, Seq::<Command>::empty())
    }
}

/// A key press resolves against the binding table and never mutates the
/// engine: it either terminates the loop, spawns a program, or does
/// nothing.
pub open spec fn key_spec(m: EngineModel, sym: Seq<char>, state: u32) -> (bool, Seq<Command>) {
    match resolve_key_spec(m.key_bindings, sym, state) {
        Some(KeyAction::Quit) => (true, Seq::<Command>::empty()),
        Some(KeyAction::SpawnTerminal) => (
            false,
            seq![Command::Spawn { kind: SpawnKind::Terminal }],
        ),
        Some(KeyAction::SpawnLauncher) => (
            false,
            seq![Command::Spawn { kind: SpawnKind::Launcher }],
        ),
        None => (false, Seq::<Command>::empty()),
    }
}

/// Begin a drag of `target` anchored at the pointer position.
pub open spec fn start_drag(
    action: MouseAction,
    target: u64,
    x_root: i32,
    y_root: i32,
) -> DragState {
    match action {
        MouseAction::Move => DragState::Moving { target, anchor_x: x_root, anchor_y: y_root },
        MouseAction::Resize => DragState::Resizing {
            target,
            anchor_w: x_root as u32,
            anchor_h: y_root as u32,
        },
        MouseAction::Raise => DragState::Idle,
    }
}

/// A button press resolves against the mouse binding table.  Presses on
/// the root background (no subwindow) are no-ops, as is any press while a
/// drag is already active — the exclusive grab makes such presses
/// unobservable anyway.  A move or resize binding over a managed window
/// focuses it and starts the drag under an exclusive pointer grab; over an
/// unmanaged window it only focuses, like a raise binding.
pub open spec fn button_press_spec(
    m: EngineModel,
    button: u32,
    state: u32,
    subwindow: u64,
    x_root: i32,
    y_root: i32,
) -> (EngineModel, Seq<Command>) {
    if m.drag != DragState::Idle || subwindow == 0 {
        (m, Seq::<Command>::empty())
    } else {
        match resolve_mouse_spec(m.mouse_bindings, button, state) {
            None => (m, Seq::<Command>::empty()),
            Some(MouseAction::Raise) => set_focus_spec(m, subwindow),
            Some(action) => if m.windows.dom().contains(subwindow) {
                let fm = set_focus_spec(m, subwindow);
                (
                    EngineModel { drag: start_drag(action, subwindow, x_root, y_root), ..fm.0 },
                    fm.1.push(Command::GrabPointer { window: subwindow }),
                )
            } else {
                set_focus_spec(m, subwindow)
            },
        }
    }
}

/// A button release ends any drag and releases the pointer grab
/// unconditionally, whichever button was released.
pub open spec fn release_spec(m: EngineModel) -> (EngineModel, Seq<Command>) {
    (EngineModel { drag: DragState::Idle, ..m }, seq![Command::UngrabPointer])
}

/// One pointer-motion step.
///
/// Moving: the target travels by the wrapped delta between the pointer and
/// the anchor; a single move command, no resize.  Resizing: each dimension
/// grows by the wrapped unsigned delta, floored at one pixel; a single
/// resize command, no move.  Either way the anchor advances to the new
/// pointer position.  A drag whose target is no longer managed is a
/// harmless race with a destroy notification: the step does nothing.
pub open spec fn motion_spec(m: EngineModel, px: i32, py: i32) -> (EngineModel, Seq<Command>) {
    match m.drag {
        DragState::Idle => (m, Seq::<Command>::empty()),
        DragState::Moving { target, anchor_x, anchor_y } => {
            if m.windows.dom().contains(target) {
                let g = m.windows[target];
                let nx = moved_coord(g.x, anchor_x, px);
                let ny = moved_coord(g.y, anchor_y, py);
                (
                    EngineModel {
                        windows: m.windows.insert(target, Geometry { x: nx, y: ny, w: g.w, h: g.h }),
                        drag: DragState::Moving { target, anchor_x: px, anchor_y: py },
                        ..m
                    },
                    seq![Command::MoveWindow { window: target, x: nx, y: ny }],
                )
            } else {
                (m, Seq::<Command>::empty())
            }
        },
        DragState::Resizing { target, anchor_w, anchor_h } => {
            if m.windows.dom().contains(target) {
                let g = m.windows[target];
                let nw = resized_dim(g.w, anchor_w, px as u32);
                let nh = resized_dim(g.h, anchor_h, py as u32);
                (
                    EngineModel {
                        windows: m.windows.insert(target, Geometry { x: g.x, y: g.y, w: nw, h: nh }),
                        drag: DragState::Resizing {
                            target,
                            anchor_w: px as u32,
                            anchor_h: py as u32,
                        },
                        ..m
                    },
                    seq![Command::ResizeWindow { window: target, w: nw, h: nh }],
                )
            } else {
                (m, Seq::<Command>::empty())
            }
        },
    }
}

/// A window asks to be shown.  A failed attribute query is a harmless
/// race: nothing happens.  A window that bypasses management is ignored
/// entirely: never registered, never decorated.  Otherwise the window is
/// registered with its geometry unchanged, given the unfocused inset,
/// subscribed, drawn unfocused, and mapped.
pub open spec fn map_request_spec(
    m: EngineModel,
    window: u64,
    attrs: Option<WindowAttributes>,
) -> (EngineModel, Seq<Command>) {
    match attrs {
        Option::None => (m, Seq::<Command>::empty()),
        Option::Some(a) => {
            if a.override_redirect {
                (m, Seq::<Command>::empty())
            } else {
                (
                    EngineModel {
                        windows: m.windows.insert(
                            window,
                            Geometry { x: a.x, y: a.y, w: a.w, h: a.h },
                        ),
                        ..m
                    },
                    seq![
                        Command::SetBorderWidth {
                            window,
                            width: total_of(m.theme_unfocused) as i32,
                        },
                        Command::MoveResizeWindow { window, x: a.x, y: a.y, w: a.w, h: a.h },
                        Command::SelectClientEvents { window },
                        Command::DrawBorder { window, focused: false },
                        Command::MapWindow { window },
                    ],
                )
            }
        },
    }
}

/// A window is gone: it leaves the registry; if it held focus, focus
/// reverts to the root window (no successor is chosen).  A drag aimed at
/// it is cancelled and the pointer grab released.
pub open spec fn destroy_spec(m: EngineModel, window: u64) -> (EngineModel, Seq<Command>) {
    let m1 = EngineModel {
        windows: m.windows.remove(window),
        focuswin: if m.focuswin == window {
            m.root
        } else {
            m.focuswin
        },
        ..m
    };
    if drag_target(m.drag) == Some(window) {
        (EngineModel { drag: DragState::Idle, ..m1 }, seq![Command::UngrabPointer])
    } else {
        (m1, Seq::<Command>::empty())
    }
}

/// A configure notification: clear the root background and refresh the
/// reconfigured window's border in its current focus style.  The root
/// window itself is never bordered.
pub open spec fn configure_spec(m: EngineModel, window: u64) -> (EngineModel, Seq<Command>) {
    if window != m.root {
        (
            m,
            seq![
                Command::ClearRoot,
                Command::DrawBorder { window, focused: window == m.focuswin },
            ],
        )
    } else {
        (m, seq![Command::ClearRoot])
    }
}

/// The dispatcher's classification: what one decoded event does to the
/// engine, whether the loop terminates, and which commands go out.
pub open spec fn step_spec(m: EngineModel, ev: Event) -> (EngineModel, bool, Seq<Command>) {
    match ev {
        Event::Motion { x_root, y_root } => {
            let r = motion_spec(m, x_root, y_root);
            (r.0, false, r.1)
        },
        Event::ButtonPress { button, state, subwindow, x_root, y_root } => {
            let r = button_press_spec(m, button, state, subwindow, x_root, y_root);
            (r.0, false, r.1)
        },
        Event::ButtonRelease => {
            let r = release_spec(m);
            (r.0, false, r.1)
        },
        Event::KeyPress { sym, state } => {
            let r = key_spec(m, sym@, state);
            (m, r.0, r.1)
        },
        Event::MapRequest { window, attrs } => {
            let r = map_request_spec(m, window, attrs);
            (r.0, false, r.1)
        },
        Event::DestroyNotify { window } => {
            let r = destroy_spec(m, window);
            (r.0, false, r.1)
        },
        Event::EnterNotify { window } => {
            let r = enter_spec(m, window);
            (r.0, false, r.1)
        },
        Event::ConfigureNotify { window } => {
            let r = configure_spec(m, window);
            (r.0, false, r.1)
        },
        Event::Other => (m, false, Seq::<Command>::empty()),
    }
}

/// What an event demands of its sender: the server never reports a
/// degenerate size for a window that asks to be shown.
pub open spec fn event_wf(ev: Event) -> bool {
    match ev {
        Event::MapRequest { window: _, attrs } => match attrs {
            Option::Some(a) => a.w >= 1 && a.h >= 1,
            Option::None => true,
        },
        _ => true,
    }
}

/// The engine state the host process drives.
pub struct Engine {
    pub root: u64,
    pub registry: Registry,
    pub focuswin: u64,
    pub drag: DragState,
    pub sloppy_focus: bool,
    pub theme: BorderTheme,
    pub key_bindings: Vec<KeyBinding>,
    pub mouse_bindings: Vec<MouseBinding>,
}

impl View for Engine {
    type V = EngineModel;

    open spec fn view(&self) -> EngineModel {
        EngineModel {
            root: self.root,
            windows: self.registry@,
            focuswin: self.focuswin,
            drag: self.drag,
            sloppy_focus: self.sloppy_focus,
            key_bindings: key_views(self.key_bindings@),
            mouse_bindings: self.mouse_bindings@,
            theme_focused: self.theme.focused@,
            theme_unfocused: self.theme.unfocused@,
        }
    }
}

impl Engine {
    /// A fresh engine: nothing managed, focus on the root window, no drag.
    pub fn new(
        root: u64,
        sloppy_focus: bool,
        theme: BorderTheme,
        key_bindings: Vec<KeyBinding>,
        mouse_bindings: Vec<MouseBinding>,
    ) -> (r: Engine)
        requires
            theme.wf(),
        ensures
            r@ == (EngineModel {
                root,
                windows: Map::<u64, Geometry>::empty(),
                focuswin: root,
                drag: DragState::Idle,
                sloppy_focus,
                key_bindings: key_views(key_bindings@),
                mouse_bindings: mouse_bindings@,
                theme_focused: theme.focused@,
                theme_unfocused: theme.unfocused@,
            }),
            r@.wf(),
    {
        Engine {
            root,
            registry: Registry::new(),
            focuswin: root,
            drag: DragState::Idle,
            sloppy_focus,
            theme,
            key_bindings,
            mouse_bindings,
        }
    }

    /// The trigger reservations to make with the server at initialization:
    /// one grab per configured key binding, then one per mouse binding, in
    /// table order.
    pub fn initial_grabs(&self) -> (r: Vec<GrabRequest>)
        ensures
            r@.len() == self@.key_bindings.len() + self@.mouse_bindings.len(),
            forall|i: int| 0 <= i < self@.key_bindings.len()
                ==> (#[trigger] r@[i] matches GrabRequest::KeyGrab { sym, modifier }
                    && sym@ == self@.key_bindings[i].sym
                    && modifier == self@.key_bindings[i].modifier),
            forall|i: int| 0 <= i < self@.mouse_bindings.len()
                ==> (#[trigger] r@[self@.key_bindings.len() + i] matches GrabRequest::ButtonGrab {
                    button,
                    modifier,
                } && button == self@.mouse_bindings[i].button
                    && modifier == self@.mouse_bindings[i].modifier),
    {
        let mut r: Vec<GrabRequest> = Vec::new();
        let mut i: usize = 0;
        while i < self.key_bindings.len()
            invariant
                0 <= i <= self.key_bindings.len(),
                r@.len() == i,
                forall|k: int| 0 <= k < i
                    ==> (#[trigger] r@[k] matches GrabRequest::KeyGrab { sym, modifier }
                        && sym@ == key_views(self.key_bindings@)[k].sym
                        && modifier == key_views(self.key_bindings@)[k].modifier),
            decreases self.key_bindings.len() - i,
        {
            let b = &self.key_bindings[i];
            r.push(GrabRequest::KeyGrab { sym: b.sym.clone(), modifier: b.modifier });
            i = i + 1;
        }
        let ghost nk = self.key_bindings@.len() as int;
        let mut j: usize = 0;
        while j < self.mouse_bindings.len()
            invariant
                0 <= j <= self.mouse_bindings.len(),
                nk == self.key_bindings@.len(),
                r@.len() == nk + j,
                forall|k: int| 0 <= k < nk
                    ==> (#[trigger] r@[k] matches GrabRequest::KeyGrab { sym, modifier }
                        && sym@ == key_views(self.key_bindings@)[k].sym
                        && modifier == key_views(self.key_bindings@)[k].modifier),
                forall|k: int| 0 <= k < j
                    ==> (#[trigger] r@[nk + k] matches GrabRequest::ButtonGrab { button, modifier }
                        && button == self.mouse_bindings@[k].button
                        && modifier == self.mouse_bindings@[k].modifier),
            decreases self.mouse_bindings.len() - j,
        {
            let b = &self.mouse_bindings[j];
            r.push(GrabRequest::ButtonGrab { button: b.button, modifier: b.modifier });
            j = j + 1;
        }
        r
    }

    /// Transfer focus to `window`; a no-op when it already holds focus.
    pub fn set_focus(&mut self, window: u64) -> (cmds: Vec<Command>)
        ensures
            final(self)@ == set_focus_spec(old(self)@, window).0,
            cmds@ == set_focus_spec(old(self)@, window).1,
            old(self)@.wf() ==> final(self)@.wf(),
    {
        if self.focuswin == window {
            Vec::new()
        } else {
            let mut cmds: Vec<Command> = Vec::new();
            cmds.push(Command::SetInputFocus { window });
            if !self.sloppy_focus {
                cmds.push(Command::Raise { window });
            }
            if self.focuswin != self.root {
                cmds.push(Command::DrawBorder { window: self.focuswin, focused: false });
            }
            if window != self.root {
                cmds.push(Command::DrawBorder { window, focused: true });
            }
            self.focuswin = window;
            cmds
        }
    }

    /// Pointer entered `window`: focus it under the sloppy-focus policy.
    pub fn on_enter_notify(&mut self, window: u64) -> (cmds: Vec<Command>)
        ensures
            final(self)@ == enter_spec(old(self)@, window).0,
            cmds@ == enter_spec(old(self)@, window).1,
            old(self)@.wf() ==> final(self)@.wf(),
    {
        if self.sloppy_focus {
            self.set_focus(window)
        } else {
            Vec::new()
        }
    }

    /// A key press, already translated to its symbolic name: resolve it
    /// and act.  Returns the terminate flag and the commands.
    pub fn on_key_press(&self, sym: &String, state: u32) -> (r: (bool, Vec<Command>))
        ensures
            r.0 == key_spec(self@, sym@, state).0,
            r.1@ == key_spec(self@, sym@, state).1,
    {
        match resolve_key(&self.key_bindings, sym, state) {
            Some(KeyAction::Quit) => (true, Vec::new()),
            Some(KeyAction::SpawnTerminal) => {
                let mut cmds: Vec<Command> = Vec::new();
                cmds.push(Command::Spawn { kind: SpawnKind::Terminal });
                (false, cmds)
            },
            Some(KeyAction::SpawnLauncher) => {
                let mut cmds: Vec<Command> = Vec::new();
                cmds.push(Command::Spawn { kind: SpawnKind::Launcher });
                (false, cmds)
            },
            None => (false, Vec::new()),
        }
    }

    /// A button press: resolve it against the mouse bindings; focus, and
    /// for a move or resize binding over a managed window start the drag.
    pub fn on_button_press(
        &mut self,
        button: u32,
        state: u32,
        subwindow: u64,
        x_root: i32,
        y_root: i32,
    ) -> (cmds: Vec<Command>)
        ensures
            final(self)@ == button_press_spec(old(self)@, button, state, subwindow, x_root,
                y_root).0,
            cmds@ == button_press_spec(old(self)@, button, state, subwindow, x_root, y_root).1,
            old(self)@.wf() ==> final(self)@.wf(),
    {
        let idle = match self.drag {
            DragState::Idle => true,
            _ => false,
        };
        if !idle || subwindow == 0 {
            return Vec::new();
        }
        match resolve_mouse(&self.mouse_bindings, button, state) {
            None => Vec::new(),
            Some(MouseAction::Raise) => self.set_focus(subwindow),
            Some(MouseAction::Move) => {
                if self.registry.contains(subwindow) {
                    let mut cmds = self.set_focus(subwindow);
                    cmds.push(Command::GrabPointer { window: subwindow });
                    self.drag = DragState::Moving {
                        target: subwindow,
                        anchor_x: x_root,
                        anchor_y: y_root,
                    };
                    cmds
                } else {
                    self.set_focus(subwindow)
                }
            },
            Some(MouseAction::Resize) => {
                if self.registry.contains(subwindow) {
                    let mut cmds = self.set_focus(subwindow);
                    cmds.push(Command::GrabPointer { window: subwindow });
                    self.drag = DragState::Resizing {
                        target: subwindow,
                        anchor_w: #[verifier::truncate] (x_root as u32),
                        anchor_h: #[verifier::truncate] (y_root as u32),
                    };
                    cmds
                } else {
                    self.set_focus(subwindow)
                }
            },
        }
    }

    /// A button release: end any drag, release the pointer grab.
    pub fn on_button_release(&mut self) -> (cmds: Vec<Command>)
        ensures
            final(self)@ == release_spec(old(self)@).0,
            cmds@ == release_spec(old(self)@).1,
            old(self)@.wf() ==> final(self)@.wf(),
    {
        self.drag = DragState::Idle;
        let mut cmds: Vec<Command> = Vec::new();
        cmds.push(Command::UngrabPointer);
        cmds
    }

    /// One pointer-motion step of the active drag, if any.
    pub fn on_motion(&mut self, x_root: i32, y_root: i32) -> (cmds: Vec<Command>)
        requires
            old(self)@.wf(),
        ensures
            final(self)@ == motion_spec(old(self)@, x_root, y_root).0,
            cmds@ == motion_spec(old(self)@, x_root, y_root).1,
            final(self)@.wf(),
    {
        match self.drag {
            DragState::Idle => Vec::new(),
            DragState::Moving { target, anchor_x, anchor_y } => {
                match self.registry.get(target) {
                    None => Vec::new(),
                    Some(g) => {
                        let nx = move_coord(g.x, anchor_x, x_root);
                        let ny = move_coord(g.y, anchor_y, y_root);
                        proof {
                            assert(old(self)@.windows[target].wf());
                        }
                        self.registry.insert(target, Geometry { x: nx, y: ny, w: g.w, h: g.h });
                        self.drag = DragState::Moving {
                            target,
                            anchor_x: x_root,
                            anchor_y: y_root,
                        };
                        let mut cmds: Vec<Command> = Vec::new();
                        cmds.push(Command::MoveWindow { window: target, x: nx, y: ny });
                        cmds
                    },
                }
            },
            DragState::Resizing { target, anchor_w, anchor_h } => {
                match self.registry.get(target) {
                    None => Vec::new(),
                    Some(g) => {
                        let nw = resize_dim(g.w, anchor_w, #[verifier::truncate] (x_root as u32));
                        let nh = resize_dim(g.h, anchor_h, #[verifier::truncate] (y_root as u32));
                        self.registry.insert(target, Geometry { x: g.x, y: g.y, w: nw, h: nh });
                        self.drag = DragState::Resizing {
                            target,
                            anchor_w: #[verifier::truncate] (x_root as u32),
                            anchor_h: #[verifier::truncate] (y_root as u32),
                        };
                        let mut cmds: Vec<Command> = Vec::new();
                        cmds.push(Command::ResizeWindow { window: target, w: nw, h: nh });
                        cmds
                    },
                }
            },
        }
    }

    /// A window asks to be shown: register and decorate it unless it
    /// bypasses management or is already gone.
    pub fn on_map_request(&mut self, window: u64, attrs: Option<WindowAttributes>) -> (cmds: Vec<
        Command,
    >)
        requires
            old(self)@.wf(),
            attrs matches Some(a) ==> a.w >= 1 && a.h >= 1,
        ensures
            final(self)@ == map_request_spec(old(self)@, window, attrs).0,
            cmds@ == map_request_spec(old(self)@, window, attrs).1,
            final(self)@.wf(),
    {
        match attrs {
            None => Vec::new(),
            Some(a) => {
                if a.override_redirect {
                    Vec::new()
                } else {
                    let width = crate::theme::total_size(&self.theme.unfocused);
                    self.registry.insert(window, Geometry { x: a.x, y: a.y, w: a.w, h: a.h });
                    let mut cmds: Vec<Command> = Vec::new();
                    cmds.push(Command::SetBorderWidth { window, width });
                    cmds.push(
                        Command::MoveResizeWindow { window, x: a.x, y: a.y, w: a.w, h: a.h },
                    );
                    cmds.push(Command::SelectClientEvents { window });
                    cmds.push(Command::DrawBorder { window, focused: false });
                    cmds.push(Command::MapWindow { window });
                    cmds
                }
            },
        }
    }

    /// A destroy notification: forget the window, revert focus to the root
    /// if it held focus, cancel a drag aimed at it.
    pub fn on_destroy_notify(&mut self, window: u64) -> (cmds: Vec<Command>)
        ensures
            final(self)@ == destroy_spec(old(self)@, window).0,
            cmds@ == destroy_spec(old(self)@, window).1,
            old(self)@.wf() ==> final(self)@.wf(),
    {
        self.registry.remove(window);
        if self.focuswin == window {
            self.focuswin = self.root;
        }
        let cancel = match self.drag {
            DragState::Idle => false,
            DragState::Moving { target, .. } => target == window,
            DragState::Resizing { target, .. } => target == window,
        };
        if cancel {
            self.drag = DragState::Idle;
            let mut cmds: Vec<Command> = Vec::new();
            cmds.push(Command::UngrabPointer);
            cmds
        } else {
            Vec::new()
        }
    }

    /// A configure notification: clear the root background and refresh the
    /// window's border in its current focus style.
    pub fn on_configure_notify(&mut self, window: u64) -> (cmds: Vec<Command>)
        ensures
            final(self)@ == configure_spec(old(self)@, window).0,
            cmds@ == configure_spec(old(self)@, window).1,
            old(self)@.wf() ==> final(self)@.wf(),
    {
        let mut cmds: Vec<Command> = Vec::new();
        cmds.push(Command::ClearRoot);
        if window != self.root {
            cmds.push(Command::DrawBorder { window, focused: window == self.focuswin });
        }
        cmds
    }

    /// Process one decoded event: route it to its handler and hand back
    /// the terminate flag with the commands to carry out, in order.
    pub fn handle_event(&mut self, ev: &Event) -> (r: (bool, Vec<Command>))
        requires
            old(self)@.wf(),
            event_wf(*ev),
        ensures
            final(self)@ == step_spec(old(self)@, *ev).0,
            r.0 == step_spec(old(self)@, *ev).1,
            r.1@ == step_spec(old(self)@, *ev).2,
            final(self)@.wf(),
    {
        match ev {
            Event::Motion { x_root, y_root } => (false, self.on_motion(*x_root, *y_root)),
            Event::ButtonPress { button, state, subwindow, x_root, y_root } => (
                false,
                self.on_button_press(*button, *state, *subwindow, *x_root, *y_root),
            ),
            Event::ButtonRelease => (false, self.on_button_release()),
            Event::KeyPress { sym, state } => {
                let r = self.on_key_press(sym, *state);
                (r.0, r.1)
            },
            Event::MapRequest { window, attrs } => (false, self.on_map_request(*window, *attrs)),
            Event::DestroyNotify { window } => (false, self.on_destroy_notify(*window)),
            Event::EnterNotify { window } => (false, self.on_enter_notify(*window)),
            Event::ConfigureNotify { window } => (false, self.on_configure_notify(*window)),
            Event::Other => (false, Vec::new()),
        }
    }
}

} // verus!
