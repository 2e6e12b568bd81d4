use capptivo::hotkeys::{
    on_shortcut, ShortcutEffect, ShortcutState, RECORDER_HOTKEY, RECORDER_HOTKEYS,
};

#[test]
fn pressing_a_hotkey_dispatches_its_action_once() {
    for (accel, action) in RECORDER_HOTKEYS {
        assert!(matches!(
            on_shortcut(accel, ShortcutState::Pressed),
            ShortcutEffect::Dispatch(name) if name == action
        ));
        assert!(matches!(
            on_shortcut(accel, ShortcutState::Released),
            ShortcutEffect::Ignore
        ));
    }
}

#[test]
fn popover_hotkey_toggles_on_key_down_only() {
    assert!(matches!(
        on_shortcut(RECORDER_HOTKEY, ShortcutState::Pressed),
        ShortcutEffect::TogglePopover
    ));
    assert!(matches!(
        on_shortcut(RECORDER_HOTKEY, ShortcutState::Released),
        ShortcutEffect::Ignore
    ));
}

#[test]
fn unregistered_shortcuts_do_nothing() {
    assert!(matches!(
        on_shortcut("Ctrl+Shift+F1", ShortcutState::Pressed),
        ShortcutEffect::Ignore
    ));
    assert!(matches!(
        on_shortcut("", ShortcutState::Pressed),
        ShortcutEffect::Ignore
    ));
}

#[test]
fn the_table_is_what_users_know() {
    assert_eq!(RECORDER_HOTKEY, "Alt+Shift+R");
    assert_eq!(RECORDER_HOTKEYS.len(), 8);
    assert_eq!(RECORDER_HOTKEYS[0], ("Ctrl+Shift+F9", "start"));
    assert_eq!(RECORDER_HOTKEYS[1], ("Ctrl+Shift+F10", "stop"));
    assert_eq!(RECORDER_HOTKEYS[2], ("Ctrl+Shift+F8", "pause"));
    assert_eq!(RECORDER_HOTKEYS[3], ("Ctrl+Shift+F7", "cancel"));
    assert_eq!(RECORDER_HOTKEYS[4], ("Ctrl+Shift+F6", "new"));
    assert_eq!(RECORDER_HOTKEYS[5], ("Ctrl+Shift+F5", "mic"));
    assert_eq!(RECORDER_HOTKEYS[6], ("Ctrl+Shift+F4", "camera"));
    assert_eq!(RECORDER_HOTKEYS[7], ("Ctrl+Shift+F3", "system-audio"));
}

#[test]
fn accelerators_and_actions_are_distinct() {
    for i in 0..RECORDER_HOTKEYS.len() {
        assert!(RECORDER_HOTKEYS[i].0.starts_with("Ctrl+Shift+F"));
        assert_ne!(RECORDER_HOTKEYS[i].0, RECORDER_HOTKEY);
        for j in 0..i {
            assert_ne!(RECORDER_HOTKEYS[i].0, RECORDER_HOTKEYS[j].0);
            assert_ne!(RECORDER_HOTKEYS[i].1, RECORDER_HOTKEYS[j].1);
        }
    }
}
