use alwm::bindings::{resolve_key, resolve_mouse, KeyAction, KeyBinding, MouseAction,
    MouseBinding};
use alwm::config::{default_key_bindings, default_mouse_bindings, default_theme, Border,
    BorderInfo, KeyCmd, MouseCmd, MODKEY2, SHIFT};

#[test]
fn border_info_sums_layer_thicknesses() {
    let focus = [
        Border { size: 2, color: "rgb:ff/00/00" },
        Border { size: 2, color: "rgb:00/ff/00" },
        Border { size: 2, color: "rgb:00/00/ff" },
        Border { size: 2, color: "rgb:ff/ff/ff" },
    ];
    let unfocus = [
        Border { size: 1, color: "rgb:a5/a5/a5" },
        Border { size: 3, color: "rgb:18/18/18" },
        Border { size: 0, color: "rgb:aa/ff/33" },
        Border { size: 5, color: "rgb:00/bb/aa" },
    ];
    let info = BorderInfo::new(focus, unfocus);
    assert_eq!(info.get_focus_size(), 8);
    assert_eq!(info.get_unfocus_size(), 9);
}

#[test]
fn default_theme_layers_sum_to_inset() {
    let theme = default_theme();
    assert_eq!(theme.focus_inset(), 8);
    assert_eq!(theme.unfocus_inset(), 8);
    assert_eq!(theme.focused.len(), 4);
    assert_eq!(theme.unfocused.len(), 4);
    let focus_sum: i32 = theme.focused.iter().map(|l| l.size).sum();
    assert_eq!(focus_sum, theme.focus_inset());
    let unfocus_sum: i32 = theme.unfocused.iter().map(|l| l.size).sum();
    assert_eq!(unfocus_sum, theme.unfocus_inset());
    assert_eq!(theme.unfocused[0].color.as_str(), "rgb:a5/a5/a5");
    assert_eq!(theme.focused[3].color.as_str(), "rgb:ff/ff/ff");
}

#[test]
fn trigger_constructors_keep_fields() {
    let m = MouseCmd::new(3, MODKEY2);
    assert_eq!(m.button, 3);
    assert_eq!(m.modifier, MODKEY2);

    let k = KeyCmd::new("F1", MODKEY2 | SHIFT);
    assert_eq!(KeyCmd::get_modifier(k), MODKEY2 | SHIFT);

    let km = alwm::keys::MouseCmd::new(1, 0);
    assert_eq!(km.button, 1);
    assert_eq!(km.modifier, 0);

    let kk = alwm::keys::Key::new("t", MODKEY2);
    assert_eq!(alwm::keys::Key::get_modifier(kk), MODKEY2);
}

#[test]
fn key_resolution_is_exact_match() {
    let table = default_key_bindings();
    assert_eq!(resolve_key(&table, &"F1".to_owned(), MODKEY2 | SHIFT), Some(KeyAction::Quit));
    assert_eq!(
        resolve_key(&table, &"t".to_owned(), MODKEY2 | SHIFT),
        Some(KeyAction::SpawnTerminal)
    );
    assert_eq!(resolve_key(&table, &"r".to_owned(), MODKEY2), Some(KeyAction::SpawnLauncher));
    // Modifier masks must match exactly.
    assert_eq!(resolve_key(&table, &"F1".to_owned(), MODKEY2), None);
    assert_eq!(resolve_key(&table, &"t".to_owned(), 0), None);
    assert_eq!(resolve_key(&table, &"x".to_owned(), MODKEY2 | SHIFT), None);
}

#[test]
fn first_matching_key_binding_wins() {
    let mut table = Vec::new();
    table.push(KeyBinding { sym: "a".to_owned(), modifier: 0, action: KeyAction::SpawnTerminal });
    table.push(KeyBinding { sym: "a".to_owned(), modifier: 0, action: KeyAction::Quit });
    assert_eq!(resolve_key(&table, &"a".to_owned(), 0), Some(KeyAction::SpawnTerminal));
}

#[test]
fn mouse_resolution_is_exact_match() {
    let table = default_mouse_bindings();
    assert_eq!(resolve_mouse(&table, 1, MODKEY2), Some(MouseAction::Move));
    assert_eq!(resolve_mouse(&table, 3, MODKEY2), Some(MouseAction::Resize));
    assert_eq!(resolve_mouse(&table, 1, 0), Some(MouseAction::Raise));
    assert_eq!(resolve_mouse(&table, 2, MODKEY2), None);
    assert_eq!(resolve_mouse(&table, 3, 0), None);
}

#[test]
fn first_matching_mouse_binding_wins() {
    let mut table = Vec::new();
    table.push(MouseBinding { button: 9, modifier: 0, action: MouseAction::Raise });
    table.push(MouseBinding { button: 9, modifier: 0, action: MouseAction::Resize });
    assert_eq!(resolve_mouse(&table, 9, 0), Some(MouseAction::Raise));
}
