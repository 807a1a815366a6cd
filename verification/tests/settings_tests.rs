use advanced_show_control::keyboard::{KeyboardShortcut, KeyboardShortcutModifiers, KeyboardShortcuts};
use advanced_show_control::settings::{
    fixed_file_shortcut, fixed_macos_shortcut, fixed_quit_shortcut, fixed_shortcut_conflicts,
    format_shortcut, format_threshold_ms, menu_new_shortcut, menu_open_shortcut,
    menu_save_as_shortcut, menu_save_shortcut, normalize_sensitivity, normalize_threshold_ms,
    parse_clamped_unsigned, shortcut_conflict_label, stepped_sensitivity, stepped_threshold_ms,
    ShortcutAction,
};

#[test]
fn numeric_settings_accept_typed_units_and_clamp_to_domain_ranges() {
    assert_eq!(normalize_sensitivity(" 4 "), Some(4));
    assert_eq!(normalize_sensitivity("0"), Some(1));
    assert_eq!(normalize_sensitivity("99"), Some(10));
    assert_eq!(normalize_sensitivity("999"), Some(10));
    assert_eq!(normalize_sensitivity("999999999999999999999999"), Some(10));
    assert_eq!(normalize_sensitivity("2.5"), None);
    assert_eq!(normalize_sensitivity("-1"), None);

    assert_eq!(normalize_threshold_ms(" 1200 ms "), Some(1_200));
    assert_eq!(normalize_threshold_ms("750MS"), Some(750));
    assert_eq!(normalize_threshold_ms("9999"), Some(5_000));
    assert_eq!(
        normalize_threshold_ms("999999999999999999999999 ms"),
        Some(5_000)
    );
    assert_eq!(normalize_threshold_ms("1.5 ms"), None);
    assert_eq!(normalize_threshold_ms("-100"), None);
}

#[test]
fn numeric_setting_steps_use_the_typed_draft_or_current_value() {
    assert_eq!(stepped_sensitivity("4", 9, 1), 5);
    assert_eq!(stepped_sensitivity("invalid", 9, -1), 8);
    assert_eq!(stepped_sensitivity("10", 9, 1), 10);

    assert_eq!(stepped_threshold_ms("1200 ms", 500, 1), 1_300);
    assert_eq!(stepped_threshold_ms("invalid", 500, -1), 400);
    assert_eq!(stepped_threshold_ms("0", 500, -1), 0);
}

#[test]
fn conflicts_require_key_case_equivalence_and_exact_modifiers() {
    let shortcuts = KeyboardShortcuts::default();
    let mut cue = shortcuts.cue.clone();
    cue.key = "c".into();
    assert_eq!(
        shortcut_conflict_label(ShortcutAction::Go, &cue, &shortcuts, false),
        Some("Cue")
    );
    cue.modifiers.shift = true;
    assert_eq!(
        shortcut_conflict_label(ShortcutAction::Go, &cue, &shortcuts, false),
        None
    );
}

#[test]
fn file_conflicts_follow_the_platform_primary_modifier() {
    for macos in [false, true] {
        let save = fixed_file_shortcut("S", false, macos);
        assert_eq!(
            shortcut_conflict_label(ShortcutAction::Go, &save, &KeyboardShortcuts::default(), macos),
            Some("Save Session")
        );
        assert_eq!(save.modifiers.meta, macos);
        assert_eq!(save.modifiers.control, !macos);
    }
}

#[test]
fn non_macos_quit_shortcut_is_reserved() {
    assert_eq!(
        shortcut_conflict_label(
            ShortcutAction::Go,
            &fixed_quit_shortcut(false),
            &KeyboardShortcuts::default(),
            false
        ),
        Some("Quit Advanced Show Control")
    );
}

#[test]
fn macos_application_shortcuts_are_reserved() {
    for (shortcut, label) in [
        (fixed_macos_shortcut("H", false), "Hide Advanced Show Control"),
        (fixed_macos_shortcut("H", true), "Hide Others"),
        (fixed_macos_shortcut("Q", false), "Quit Advanced Show Control"),
    ] {
        assert_eq!(
            shortcut_conflict_label(ShortcutAction::Go, &shortcut, &KeyboardShortcuts::default(), true),
            Some(label)
        );
    }
}

#[test]
fn shortcut_display_includes_every_modifier() {
    let shortcut = KeyboardShortcut {
        key: "Enter".into(),
        modifiers: KeyboardShortcutModifiers {
            shift: true,
            control: true,
            alt: true,
            meta: false,
        },
    };
    assert_eq!(format_shortcut(&shortcut, false), "Ctrl+Alt+Shift+Enter");
}

#[test]
fn menu_shortcuts_use_native_primary_modifier() {
    assert_eq!(menu_save_shortcut(false), "ctrl-s");
    assert_eq!(menu_save_shortcut(true), "cmd-s");
}

#[test]
fn every_file_menu_binding_uses_the_primary_modifier() {
    assert_eq!(menu_new_shortcut(false), "ctrl-n");
    assert_eq!(menu_new_shortcut(true), "cmd-n");
    assert_eq!(menu_open_shortcut(false), "ctrl-o");
    assert_eq!(menu_open_shortcut(true), "cmd-o");
    assert_eq!(menu_save_as_shortcut(false), "ctrl-shift-s");
    assert_eq!(menu_save_as_shortcut(true), "cmd-shift-s");
}

#[test]
fn the_command_modifier_shows_as_a_symbol_on_macos() {
    let shortcut = KeyboardShortcut {
        key: "G".into(),
        modifiers: KeyboardShortcutModifiers {
            shift: false,
            control: false,
            alt: false,
            meta: true,
        },
    };
    assert_eq!(format_shortcut(&shortcut, true), "⌘G");
    assert_eq!(format_shortcut(&shortcut, false), "Meta+G");
}

#[test]
fn reserved_shortcuts_differ_by_platform() {
    let windows = fixed_shortcut_conflicts(false);
    let macos = fixed_shortcut_conflicts(true);
    assert_eq!(windows.len(), 5);
    assert_eq!(macos.len(), 7);
    assert_eq!(windows[4].1.key, "F4");
    assert!(windows[4].1.modifiers.alt);
    assert_eq!(macos[4].1.key, "Q");
    assert!(macos[4].1.modifiers.meta);
    assert_eq!(macos[6].0, "Hide Others");
    assert_eq!(
        shortcut_conflict_label(
            ShortcutAction::Go,
            &fixed_macos_shortcut("H", false),
            &KeyboardShortcuts::default(),
            false
        ),
        None
    );
}

#[test]
fn the_cue_shortcut_may_not_take_the_go_shortcut() {
    let shortcuts = KeyboardShortcuts::default();
    let space = KeyboardShortcut { key: "SPACE".into(), modifiers: KeyboardShortcutModifiers::default() };
    assert_eq!(
        shortcut_conflict_label(ShortcutAction::Cue, &space, &shortcuts, false),
        Some("GO")
    );
    assert_eq!(
        shortcut_conflict_label(ShortcutAction::Go, &space, &shortcuts, false),
        None
    );
}

#[test]
fn numeric_drafts_saturate_and_clamp() {
    assert_eq!(parse_clamped_unsigned("18446744073709551615", 0, u64::MAX), Some(u64::MAX));
    assert_eq!(parse_clamped_unsigned("18446744073709551616", 0, u64::MAX), Some(u64::MAX));
    assert_eq!(parse_clamped_unsigned(" 42 ", 50, 60), Some(50));
    assert_eq!(parse_clamped_unsigned("", 0, 1), None);
    assert_eq!(parse_clamped_unsigned("4 2", 0, 100), None);
    assert_eq!(format_threshold_ms(1_200), "1200 ms");
    assert_eq!(normalize_threshold_ms("ms"), None);
    assert_eq!(stepped_threshold_ms("4950", 0, 1), 5_000);
    assert_eq!(stepped_sensitivity("1", 5, -1), 1);
}

use advanced_show_control::settings::{
    assign_shortcut, commit_numeric, numeric_text, step_buttons, step_numeric, AppSettings,
    NumericSetting, NumericValues, SettingsChange, SettingsDraft, StepButtons, TimeDisplayFormat,
};

#[test]
fn committing_numeric_drafts_normalizes_or_discards() {
    let current = NumericValues { sensitivity: 5, threshold_ms: 500 };
    let edit = commit_numeric(NumericSetting::SameSceneThreshold, " 1200MS ", current);
    assert_eq!(edit.text, "1200 ms");
    assert_eq!(edit.values, NumericValues { sensitivity: 5, threshold_ms: 1_200 });
    assert!(edit.changed);

    let edit = commit_numeric(NumericSetting::Sensitivity, "abc", current);
    assert_eq!(edit.text, "5");
    assert_eq!(edit.values, current);
    assert!(!edit.changed);

    let edit = commit_numeric(NumericSetting::Sensitivity, "5", current);
    assert!(!edit.changed);
}

#[test]
fn stepping_numeric_fields_saves_only_changes() {
    let current = NumericValues { sensitivity: 10, threshold_ms: 5_000 };
    let edit = step_numeric(NumericSetting::Sensitivity, "10", current, 1);
    assert_eq!(edit.text, "10");
    assert!(!edit.changed);
    let edit = step_numeric(NumericSetting::SameSceneThreshold, "", current, -1);
    assert_eq!(edit.text, "4900 ms");
    assert_eq!(edit.values.threshold_ms, 4_900);
    assert!(edit.changed);
    assert_eq!(numeric_text(NumericSetting::Sensitivity, current), "10");
}

#[test]
fn assigning_a_taken_shortcut_is_refused_with_its_owner() {
    let shortcuts = KeyboardShortcuts::default();
    let taken = KeyboardShortcut { key: "c".into(), modifiers: KeyboardShortcutModifiers::default() };
    assert_eq!(
        assign_shortcut(ShortcutAction::Go, taken, &shortcuts, false),
        Err("Already assigned to Cue".to_string())
    );
    let save = fixed_file_shortcut("S", false, true);
    assert_eq!(
        assign_shortcut(ShortcutAction::Cue, save, &shortcuts, true),
        Err("Already assigned to Save Session".to_string())
    );
    let free = KeyboardShortcut { key: "G".into(), modifiers: KeyboardShortcutModifiers::default() };
    let updated = assign_shortcut(ShortcutAction::Go, free.clone(), &shortcuts, false).unwrap();
    assert_eq!(updated.go, free);
    assert_eq!(updated.cue, shortcuts.cue);
}

#[test]
fn step_buttons_follow_the_draft_or_the_saved_value_within_the_bounds() {
    let current = NumericValues { sensitivity: 1, threshold_ms: 5_000 };
    assert_eq!(
        step_buttons(NumericSetting::Sensitivity, "", current),
        StepButtons { decrement: false, increment: true }
    );
    assert_eq!(
        step_buttons(NumericSetting::Sensitivity, "10", current),
        StepButtons { decrement: true, increment: false }
    );
    assert_eq!(
        step_buttons(NumericSetting::SameSceneThreshold, "abc", current),
        StepButtons { decrement: true, increment: false }
    );
    assert_eq!(
        step_buttons(NumericSetting::SameSceneThreshold, "0", current),
        StepButtons { decrement: false, increment: true }
    );
}

fn saved_settings() -> AppSettings {
    AppSettings {
        auto_load_last_show_file: false,
        auto_save_sessions: false,
        time_display: TimeDisplayFormat::TwentyFourHour,
        fader_override_sensitivity: 5,
        same_scene_recall_enabled: true,
        same_scene_recall_threshold_ms: 500,
        enable_extensive_diagnostics: false,
        keyboard_shortcuts: KeyboardShortcuts::default(),
    }
}

#[test]
fn a_settings_draft_is_shown_until_its_replace_command_fails() {
    let saved = saved_settings();
    let mut draft = SettingsDraft::new();
    assert_eq!(draft.shown(&saved), &saved);

    let sent = draft.change(&saved, SettingsChange::TimeDisplay(TimeDisplayFormat::TwelveHour));
    assert_eq!(sent.time_display, TimeDisplayFormat::TwelveHour);
    assert_eq!(sent.fader_override_sensitivity, 5);
    draft.replace_started(3);
    let sent = draft.change(
        &saved,
        SettingsChange::Numeric(NumericValues { sensitivity: 7, threshold_ms: 900 }),
    );
    assert_eq!(sent.time_display, TimeDisplayFormat::TwelveHour);
    assert_eq!(sent.numeric_values(), NumericValues { sensitivity: 7, threshold_ms: 900 });
    draft.replace_started(4);
    assert_eq!(draft.shown(&saved), &sent);

    assert!(!draft.command_finished(3, true));
    assert!(!draft.command_finished(4, false));
    assert_eq!(draft.shown(&saved), &sent);
    assert!(draft.command_finished(4, true));
    assert_eq!(draft.shown(&saved), &saved);
}
