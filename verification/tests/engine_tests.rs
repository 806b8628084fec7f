use alwm::config::{default_key_bindings, default_mouse_bindings, default_theme, MODKEY2, SHIFT};
use alwm::engine::{Command, Engine, Event, GrabRequest, SpawnKind, WindowAttributes};

const ROOT: u64 = 1;

fn fresh_engine() -> Engine {
    Engine::new(ROOT, false, default_theme(), default_key_bindings(), default_mouse_bindings())
}

fn attrs(x: i32, y: i32, w: u32, h: u32) -> Option<WindowAttributes> {
    Some(WindowAttributes { x, y, w, h, override_redirect: false })
}

fn map_window(eng: &mut Engine, win: u64, x: i32, y: i32, w: u32, h: u32) {
    let _ = eng.on_map_request(win, attrs(x, y, w, h));
}

#[test]
fn map_request_registers_and_decorates() {
    let mut eng = fresh_engine();
    let cmds = eng.on_map_request(10, attrs(10, 10, 100, 50));
    assert!(eng.registry.contains(10));
    assert_eq!(
        cmds,
        vec![
            Command::SetBorderWidth { window: 10, width: 8 },
            Command::MoveResizeWindow { window: 10, x: 10, y: 10, w: 100, h: 50 },
            Command::SelectClientEvents { window: 10 },
            Command::DrawBorder { window: 10, focused: false },
            Command::MapWindow { window: 10 },
        ]
    );
}

#[test]
fn map_request_failed_query_is_ignored() {
    let mut eng = fresh_engine();
    let cmds = eng.on_map_request(10, None);
    assert!(cmds.is_empty());
    assert!(!eng.registry.contains(10));
}

#[test]
fn override_redirect_window_never_managed_never_bordered() {
    let mut eng = fresh_engine();
    let cmds = eng.on_map_request(
        7,
        Some(WindowAttributes { x: 0, y: 0, w: 30, h: 30, override_redirect: true }),
    );
    assert!(cmds.is_empty());
    assert!(!eng.registry.contains(7));
    assert_eq!(eng.registry.len(), 0);
}

#[test]
fn move_drag_scenario() {
    // Press the move binding (button 1, MODKEY2) over window 10 at
    // (10,10,100,50); the pointer travels from (0,0) to (5,8); the window
    // ends at (15,18) with its size unchanged; release ends the drag.
    let mut eng = fresh_engine();
    map_window(&mut eng, 10, 10, 10, 100, 50);

    let press = eng.on_button_press(1, MODKEY2, 10, 0, 0);
    assert!(press.contains(&Command::GrabPointer { window: 10 }));
    assert!(press.contains(&Command::SetInputFocus { window: 10 }));
    assert!(press.contains(&Command::Raise { window: 10 }));

    let motion = eng.on_motion(5, 8);
    assert_eq!(motion, vec![Command::MoveWindow { window: 10, x: 15, y: 18 }]);
    assert_eq!(eng.registry.get(10), Some(alwm::Geometry { x: 15, y: 18, w: 100, h: 50 }));

    let release = eng.on_button_release();
    assert_eq!(release, vec![Command::UngrabPointer]);

    // The drag is over: further motion does nothing.
    assert!(eng.on_motion(100, 100).is_empty());
}

#[test]
fn move_translation_is_cumulative_and_coalescing_independent() {
    // Many motion events accumulate to initial position plus the sum of
    // the per-step deltas: the same place a single event to the final
    // pointer position reaches.
    let mut many = fresh_engine();
    map_window(&mut many, 10, 10, 10, 100, 50);
    let _ = many.on_button_press(1, MODKEY2, 10, 0, 0);
    let _ = many.on_motion(1, 1);
    let _ = many.on_motion(-3, 7);
    let _ = many.on_motion(40, -2);
    let last = many.on_motion(5, 8);

    let mut once = fresh_engine();
    map_window(&mut once, 10, 10, 10, 100, 50);
    let _ = once.on_button_press(1, MODKEY2, 10, 0, 0);
    let only = once.on_motion(5, 8);

    assert_eq!(last, only);
    assert_eq!(last, vec![Command::MoveWindow { window: 10, x: 15, y: 18 }]);
    assert_eq!(many.registry.get(10), once.registry.get(10));
}

#[test]
fn resize_drag_clamps_to_one_pixel() {
    // Press the resize binding (button 3, MODKEY2) over window 10 at
    // (10,10,100,50); the computed delta is (-150,-60); both dimensions
    // clamp to 1 rather than wrapping.
    let mut eng = fresh_engine();
    map_window(&mut eng, 10, 10, 10, 100, 50);

    let press = eng.on_button_press(3, MODKEY2, 10, 200, 100);
    assert!(press.contains(&Command::GrabPointer { window: 10 }));

    let motion = eng.on_motion(50, 40);
    assert_eq!(motion, vec![Command::ResizeWindow { window: 10, w: 1, h: 1 }]);
    assert_eq!(eng.registry.get(10), Some(alwm::Geometry { x: 10, y: 10, w: 1, h: 1 }));
}

#[test]
fn resize_drag_grows_and_keeps_position() {
    let mut eng = fresh_engine();
    map_window(&mut eng, 10, 10, 10, 100, 50);
    let _ = eng.on_button_press(3, MODKEY2, 10, 200, 100);
    let motion = eng.on_motion(225, 110);
    assert_eq!(motion, vec![Command::ResizeWindow { window: 10, w: 125, h: 60 }]);
}

#[test]
fn focus_transfer_redraws_both_and_is_idempotent() {
    // Two windows: focus B, then focus A; the transfer to A yields exactly
    // two border redraws (B unfocused, A focused); focusing A again does
    // nothing at all.
    let mut eng = fresh_engine();
    map_window(&mut eng, 2, 0, 0, 10, 10); // A
    map_window(&mut eng, 3, 0, 0, 10, 10); // B
    let _ = eng.set_focus(3);
    assert_eq!(eng.focuswin, 3);

    let cmds = eng.set_focus(2);
    let redraws: Vec<&Command> = cmds
        .iter()
        .filter(|c| matches!(c, Command::DrawBorder { .. }))
        .collect();
    assert_eq!(redraws.len(), 2);
    assert_eq!(*redraws[0], Command::DrawBorder { window: 3, focused: false });
    assert_eq!(*redraws[1], Command::DrawBorder { window: 2, focused: true });
    assert_eq!(eng.focuswin, 2);

    let again = eng.set_focus(2);
    assert!(again.is_empty());
    assert_eq!(eng.focuswin, 2);
}

#[test]
fn first_focus_from_root_redraws_only_new_holder() {
    let mut eng = fresh_engine();
    map_window(&mut eng, 2, 0, 0, 10, 10);
    let cmds = eng.set_focus(2);
    assert_eq!(
        cmds,
        vec![
            Command::SetInputFocus { window: 2 },
            Command::Raise { window: 2 },
            Command::DrawBorder { window: 2, focused: true },
        ]
    );
}

#[test]
fn raise_binding_focuses_without_grab() {
    let mut eng = fresh_engine();
    map_window(&mut eng, 10, 0, 0, 10, 10);
    let cmds = eng.on_button_press(1, 0, 10, 4, 4);
    assert!(cmds.contains(&Command::SetInputFocus { window: 10 }));
    assert!(!cmds.iter().any(|c| matches!(c, Command::GrabPointer { .. })));
    // No drag started: motion does nothing.
    assert!(eng.on_motion(50, 50).is_empty());
}

#[test]
fn press_on_root_background_is_ignored() {
    let mut eng = fresh_engine();
    let cmds = eng.on_button_press(1, MODKEY2, 0, 4, 4);
    assert!(cmds.is_empty());
}

#[test]
fn press_with_unbound_trigger_is_ignored() {
    let mut eng = fresh_engine();
    map_window(&mut eng, 10, 0, 0, 10, 10);
    let cmds = eng.on_button_press(2, MODKEY2, 10, 4, 4);
    assert!(cmds.is_empty());
}

#[test]
fn quit_binding_terminates() {
    let eng = fresh_engine();
    let (quit, cmds) = eng.on_key_press(&"F1".to_owned(), MODKEY2 | SHIFT);
    assert!(quit);
    assert!(cmds.is_empty());
}

#[test]
fn spawn_bindings_emit_spawn_commands() {
    let eng = fresh_engine();
    let (quit, cmds) = eng.on_key_press(&"t".to_owned(), MODKEY2 | SHIFT);
    assert!(!quit);
    assert_eq!(cmds, vec![Command::Spawn { kind: SpawnKind::Terminal }]);

    let (quit, cmds) = eng.on_key_press(&"r".to_owned(), MODKEY2);
    assert!(!quit);
    assert_eq!(cmds, vec![Command::Spawn { kind: SpawnKind::Launcher }]);
}

#[test]
fn unbound_key_is_ignored() {
    let eng = fresh_engine();
    let (quit, cmds) = eng.on_key_press(&"r".to_owned(), MODKEY2 | SHIFT);
    assert!(!quit);
    assert!(cmds.is_empty());

    let (quit, cmds) = eng.on_key_press(&"q".to_owned(), MODKEY2);
    assert!(!quit);
    assert!(cmds.is_empty());
}

#[test]
fn destroy_reverts_focus_and_cancels_drag() {
    let mut eng = fresh_engine();
    map_window(&mut eng, 10, 0, 0, 10, 10);
    let _ = eng.set_focus(10);
    let _ = eng.on_button_press(1, MODKEY2, 10, 0, 0);

    let cmds = eng.on_destroy_notify(10);
    assert_eq!(cmds, vec![Command::UngrabPointer]);
    assert!(!eng.registry.contains(10));
    assert_eq!(eng.focuswin, ROOT);
    assert!(eng.on_motion(5, 5).is_empty());
}

#[test]
fn destroy_of_other_window_keeps_focus() {
    let mut eng = fresh_engine();
    map_window(&mut eng, 10, 0, 0, 10, 10);
    map_window(&mut eng, 11, 0, 0, 10, 10);
    let _ = eng.set_focus(10);
    let cmds = eng.on_destroy_notify(11);
    assert!(cmds.is_empty());
    assert_eq!(eng.focuswin, 10);
    assert!(eng.registry.contains(10));
    assert!(!eng.registry.contains(11));
}

#[test]
fn motion_with_stale_drag_target_is_skipped() {
    let mut eng = fresh_engine();
    map_window(&mut eng, 10, 0, 0, 10, 10);
    let _ = eng.on_button_press(1, MODKEY2, 10, 0, 0);
    // The target vanishes mid-drag; the drag is cancelled with the grab.
    let _ = eng.on_destroy_notify(10);
    assert!(eng.on_motion(5, 5).is_empty());
}

#[test]
fn configure_notify_refreshes_border_in_current_style() {
    let mut eng = fresh_engine();
    map_window(&mut eng, 10, 0, 0, 10, 10);
    let cmds = eng.on_configure_notify(10);
    assert_eq!(
        cmds,
        vec![Command::ClearRoot, Command::DrawBorder { window: 10, focused: false }]
    );

    let _ = eng.set_focus(10);
    let cmds = eng.on_configure_notify(10);
    assert_eq!(
        cmds,
        vec![Command::ClearRoot, Command::DrawBorder { window: 10, focused: true }]
    );

    let cmds = eng.on_configure_notify(ROOT);
    assert_eq!(cmds, vec![Command::ClearRoot]);
}

#[test]
fn enter_notify_obeys_focus_policy() {
    let mut click_to_focus = fresh_engine();
    map_window(&mut click_to_focus, 10, 0, 0, 10, 10);
    assert!(click_to_focus.on_enter_notify(10).is_empty());
    assert_eq!(click_to_focus.focuswin, ROOT);

    let mut sloppy =
        Engine::new(ROOT, true, default_theme(), default_key_bindings(), default_mouse_bindings());
    map_window(&mut sloppy, 10, 0, 0, 10, 10);
    let cmds = sloppy.on_enter_notify(10);
    assert_eq!(
        cmds,
        vec![
            Command::SetInputFocus { window: 10 },
            Command::DrawBorder { window: 10, focused: true },
        ]
    );
    assert_eq!(sloppy.focuswin, 10);
}

#[test]
fn handle_event_routes_and_terminates() {
    let mut eng = fresh_engine();
    let (quit, cmds) = eng.handle_event(&Event::MapRequest { window: 10, attrs: attrs(0, 0, 20, 20) });
    assert!(!quit);
    assert_eq!(cmds.len(), 5);

    let (quit, cmds) = eng.handle_event(&Event::KeyPress {
        sym: "F1".to_owned(),
        state: MODKEY2 | SHIFT,
    });
    assert!(quit);
    assert!(cmds.is_empty());

    let (quit, cmds) = eng.handle_event(&Event::Other);
    assert!(!quit);
    assert!(cmds.is_empty());
}

#[test]
fn handle_event_runs_a_whole_drag_cycle() {
    let mut eng = fresh_engine();
    let (_, _) = eng.handle_event(&Event::MapRequest { window: 10, attrs: attrs(10, 10, 100, 50) });
    let (quit, press) = eng.handle_event(&Event::ButtonPress {
        button: 1,
        state: MODKEY2,
        subwindow: 10,
        x_root: 0,
        y_root: 0,
    });
    assert!(!quit);
    assert!(press.contains(&Command::GrabPointer { window: 10 }));

    let (_, motion) = eng.handle_event(&Event::Motion { x_root: 5, y_root: 8 });
    assert_eq!(motion, vec![Command::MoveWindow { window: 10, x: 15, y: 18 }]);

    let (_, release) = eng.handle_event(&Event::ButtonRelease);
    assert_eq!(release, vec![Command::UngrabPointer]);

    let (_, gone) = eng.handle_event(&Event::DestroyNotify { window: 10 });
    assert!(gone.is_empty());
    assert!(!eng.registry.contains(10));
}

#[test]
fn initial_grabs_cover_every_binding() {
    let eng = fresh_engine();
    let grabs = eng.initial_grabs();
    assert_eq!(grabs.len(), 6);
    match &grabs[0] {
        GrabRequest::KeyGrab { sym, modifier } => {
            assert_eq!(sym.as_str(), "F1");
            assert_eq!(*modifier, MODKEY2 | SHIFT);
        },
        other => panic!("expected a key grab, got {:?}", grab_kind(other)),
    }
    match &grabs[3] {
        GrabRequest::ButtonGrab { button, modifier } => {
            assert_eq!(*button, 1);
            assert_eq!(*modifier, MODKEY2);
        },
        other => panic!("expected a button grab, got {:?}", grab_kind(other)),
    }
    match &grabs[5] {
        GrabRequest::ButtonGrab { button, modifier } => {
            assert_eq!(*button, 1);
            assert_eq!(*modifier, 0);
        },
        other => panic!("expected a button grab, got {:?}", grab_kind(other)),
    }
}

fn grab_kind(g: &GrabRequest) -> &'static str {
    match g {
        GrabRequest::KeyGrab { .. } => "key grab",
        GrabRequest::ButtonGrab { .. } => "button grab",
    }
}

#[test]
fn press_while_dragging_is_ignored() {
    let mut eng = fresh_engine();
    map_window(&mut eng, 10, 0, 0, 10, 10);
    map_window(&mut eng, 11, 0, 0, 10, 10);
    let _ = eng.on_button_press(1, MODKEY2, 10, 0, 0);
    let cmds = eng.on_button_press(1, MODKEY2, 11, 0, 0);
    assert!(cmds.is_empty());
    // The original drag still runs.
    assert_eq!(eng.on_motion(5, 5), vec![Command::MoveWindow { window: 10, x: 5, y: 5 }]);
}

#[test]
fn move_binding_over_unmanaged_window_only_focuses() {
    let mut eng = fresh_engine();
    let cmds = eng.on_button_press(1, MODKEY2, 99, 0, 0);
    assert!(cmds.contains(&Command::SetInputFocus { window: 99 }));
    assert!(!cmds.iter().any(|c| matches!(c, Command::GrabPointer { .. })));
    assert!(eng.on_motion(5, 5).is_empty());
}
