use advanced_show_control::keyboard::{
    is_modifier_only, normalized_physical_key, route_action, shortcut_from_event,
    shortcut_keys_equal, shortcut_matches, shortcuts_equal, CaptureResult, InteractionState,
    KeyboardShortcut, KeyboardShortcutModifiers, KeyboardShortcuts, RoutedAction, ShortcutCapture,
};

fn mods(shift: bool, control: bool, alt: bool, meta: bool) -> KeyboardShortcutModifiers {
    KeyboardShortcutModifiers { shift, control, alt, meta }
}

#[test]
fn normalization_uses_physical_key_and_stable_labels() {
    assert_eq!(normalized_physical_key("2"), "2");
    assert_eq!(normalized_physical_key("space"), "Space");
    assert_eq!(normalized_physical_key("q"), "Q");
}

#[test]
fn matching_requires_all_four_persisted_modifiers_exactly() {
    let shortcut = KeyboardShortcut {
        key: "S".into(),
        modifiers: mods(true, true, false, false),
    };
    assert!(shortcut_matches(&shortcut, "s", mods(true, true, false, false)));
    assert!(!shortcut_matches(&shortcut, "s", mods(false, true, false, false)));
}

#[test]
fn matching_ignores_layout_dependent_character_output() {
    let shortcut = KeyboardShortcut {
        key: "A".into(),
        modifiers: KeyboardShortcutModifiers::default(),
    };
    assert!(!shortcut_matches(&shortcut, "q", KeyboardShortcutModifiers::default()));
}

#[test]
fn capture_preempts_actions_and_waits_for_modifier_only_keys() {
    let mut capture = ShortcutCapture::default();
    capture.start("go".to_string());
    assert_eq!(
        capture.route("shift", mods(true, false, false, false)),
        CaptureResult::Pending
    );
    assert_eq!(capture.active_id(), Some("go"));
    assert!(matches!(
        capture.route("enter", KeyboardShortcutModifiers::default()),
        CaptureResult::Captured(_)
    ));
    assert_eq!(capture.active_id(), None);
}

#[test]
fn modal_and_editable_states_suppress_go_and_cue() {
    let shortcuts = KeyboardShortcuts::default();
    let none = KeyboardShortcutModifiers::default();
    assert_eq!(
        route_action("space", none, false, InteractionState::default(), &shortcuts.go, &shortcuts.cue),
        Some(RoutedAction::Go)
    );
    assert_eq!(
        route_action(
            "space",
            none,
            false,
            InteractionState {
                modal_open: true,
                editable_focused: false
            },
            &shortcuts.go,
            &shortcuts.cue
        ),
        None
    );
    assert_eq!(
        route_action("space", none, true, InteractionState::default(), &shortcuts.go, &shortcuts.cue),
        None
    );
}

#[test]
fn captured_events_produce_complete_shortcuts() {
    let shortcut = shortcut_from_event("q", mods(false, true, false, false));
    assert_eq!(shortcut.key, "Q");
    assert!(shortcut.modifiers.control);
    assert!(!shortcut.modifiers.shift);
}

#[test]
fn escape_cancels_an_active_capture() {
    let mut capture = ShortcutCapture::default();
    assert_eq!(
        capture.route("escape", KeyboardShortcutModifiers::default()),
        CaptureResult::Inactive
    );
    capture.start("cue".to_string());
    assert_eq!(
        capture.route("esc", KeyboardShortcutModifiers::default()),
        CaptureResult::Cancelled
    );
    assert_eq!(capture.active_id(), None);
}

#[test]
fn cue_routes_when_go_does_not_match() {
    let shortcuts = KeyboardShortcuts::default();
    assert_eq!(
        route_action(
            "c",
            KeyboardShortcutModifiers::default(),
            false,
            InteractionState::default(),
            &shortcuts.go,
            &shortcuts.cue
        ),
        Some(RoutedAction::Cue)
    );
    assert_eq!(
        route_action(
            "c",
            KeyboardShortcutModifiers::default(),
            false,
            InteractionState {
                modal_open: false,
                editable_focused: true
            },
            &shortcuts.go,
            &shortcuts.cue
        ),
        None
    );
}

#[test]
fn key_comparison_is_case_insensitive_and_labels_are_stable() {
    assert!(shortcut_keys_equal("enter", "ENTER"));
    assert!(!shortcut_keys_equal("a", "b"));
    assert_eq!(normalized_physical_key("return"), "Enter");
    assert_eq!(normalized_physical_key("arrowleft"), "ArrowLeft");
    assert_eq!(normalized_physical_key("f5"), "f5");
    assert!(is_modifier_only("cmd"));
    assert!(!is_modifier_only("a"));
    let a = KeyboardShortcut { key: "x".into(), modifiers: mods(false, false, true, false) };
    let b = KeyboardShortcut { key: "X".into(), modifiers: mods(false, false, true, false) };
    assert!(shortcuts_equal(&a, &b));
}
