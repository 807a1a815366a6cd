use advanced_show_control::cues::{
    cue_entry_row, cued_scene_id, EntryBorder, EntryTone, manager_controls_inert, reordered_ids, valid_cued_entry, ManageCommand,
    NameEditor,
};
use advanced_show_control::ids::id_matches;
use advanced_show_control::scenes::format_scene_number;
use advanced_show_control::view_state::{AppViewState, CueEntry, CueList, SceneConfig, SceneSummary, SceneScopeToggles};

fn id(value: u128) -> u128 {
    value
}

fn entry(entry: u128, scene: u128) -> CueEntry {
    CueEntry {
        id: id(entry),
        scene_internal_id: id(scene),
    }
}

#[test]
fn reorder_is_a_complete_stable_permutation() {
    let entries = vec![entry(1, 11), entry(2, 12), entry(3, 13)];
    assert_eq!(
        reordered_ids(&entries, id(1), id(3)),
        Some(vec![id(2), id(3), id(1)])
    );
    assert_eq!(reordered_ids(&entries, id(2), id(2)), None);
    assert_eq!(reordered_ids(&entries, id(99), id(2)), None);
    assert_eq!(reordered_ids(&entries, id(1), id(99)), None);
}

#[test]
fn active_and_cued_lookup_requires_exact_nested_ids_and_a_scene_config() {
    let list_id = id(1);
    let cue = entry(2, 3);
    let mut snapshot = AppViewState {
        cue_lists: vec![CueList {
            id: list_id,
            name: "Main".into(),
            entries: vec![cue],
        }],
        active_cue_list_id: Some(uuid::Uuid::from_u128(list_id).to_string()),
        cued_cue_entry_id: Some(uuid::Uuid::from_u128(cue.id).to_string()),
        ..Default::default()
    };
    assert!(valid_cued_entry(&snapshot).is_none());
    snapshot.scene_configs.push(SceneConfig {
        internal_scene_id: cue.scene_internal_id,
        scene_index: Some(0),
        scene_name: "Opening".into(),
        duration_ms: 0,
        channel_configs: vec![],
        scoped_channels: vec![],
        scope_toggles: SceneScopeToggles { faders: true, pan: true },
    });
    assert_eq!(valid_cued_entry(&snapshot).map(|entry| entry.id), Some(cue.id));
    assert_eq!(cued_scene_id(&snapshot), Some(cue.scene_internal_id));
    snapshot.active_cue_list_id = Some(uuid::Uuid::from_u128(id(99)).to_string());
    assert!(valid_cued_entry(&snapshot).is_none());
}

#[test]
fn manager_controls_are_inert_for_nested_ui_or_pending_commands() {
    assert!(!manager_controls_inert(None, None, None));
    assert!(manager_controls_inert(Some(NameEditor::Create), None, None));
    assert!(manager_controls_inert(None, Some(id(1)), None));
    assert!(manager_controls_inert(
        None,
        None,
        Some((7, ManageCommand::Delete(id(1))))
    ));
}

#[test]
fn scene_numbers_match_console_one_based_format() {
    assert_eq!(format_scene_number(None), "---");
    assert_eq!(format_scene_number(Some(0)), "001");
    assert_eq!(format_scene_number(Some(11)), "012");
}

#[test]
fn scene_numbers_beyond_three_digits_and_below_zero_keep_their_sign_and_digits() {
    assert_eq!(format_scene_number(Some(1233)), "1234");
    assert_eq!(format_scene_number(Some(-6)), "-05");
}

#[test]
fn identifiers_match_only_their_lowercase_hyphenated_text() {
    assert!(id_matches(1, &"00000000-0000-0000-0000-000000000001".to_string()));
    assert!(id_matches(
        0x0123_4567_89ab_cdef_0123_4567_89ab_cdef,
        &"01234567-89ab-cdef-0123-456789abcdef".to_string()
    ));
    assert!(!id_matches(
        0x0123_4567_89ab_cdef_0123_4567_89ab_cdef,
        &"01234567-89AB-CDEF-0123-456789ABCDEF".to_string()
    ));
    assert!(!id_matches(1, &"1".to_string()));
}

#[test]
fn reordering_moves_the_dragged_item_onto_the_target_position() {
    let entries = vec![entry(1, 11), entry(2, 12), entry(3, 13), entry(4, 14)];
    assert_eq!(
        reordered_ids(&entries, id(4), id(2)),
        Some(vec![id(1), id(4), id(2), id(3)])
    );
    let lists = vec![
        CueList { id: 7, name: "A".into(), entries: vec![] },
        CueList { id: 8, name: "B".into(), entries: vec![] },
    ];
    assert_eq!(reordered_ids(&lists, 7, 8), Some(vec![8, 7]));
}

#[test]
fn cue_entry_rows_mark_current_cued_selected_and_missing_scenes_by_precedence() {
    let opening = SceneConfig {
        internal_scene_id: id(3),
        scene_index: Some(4),
        scene_name: "Opening".into(),
        duration_ms: 0,
        channel_configs: vec![],
        scoped_channels: vec![],
        scope_toggles: SceneScopeToggles { faders: true, pan: true },
    };
    let cue = entry(2, 3);
    let lost = entry(5, 99);
    let snapshot = AppViewState {
        scene_configs: vec![opening],
        cued_cue_entry_id: Some(uuid::Uuid::from_u128(cue.id).to_string()),
        ..Default::default()
    };
    let current = SceneSummary {
        index: 4,
        name: "Opening".into(),
    };

    let row = cue_entry_row(&snapshot, &cue, 0, Some(&current), Some(cue.id));
    assert_eq!(row.display_name, "Opening");
    assert!(row.current && row.cued && row.selected && !row.missing);
    assert_eq!(row.tone, EntryTone::Current);
    assert_eq!(row.border, EntryBorder::Current);
    assert!(row.marked);
    assert_eq!(row.select_label, "Select cue 1: Opening");
    assert_eq!(row.remove_label, "Remove cue 1: Opening");

    let row = cue_entry_row(&snapshot, &cue, 0, None, None);
    assert_eq!(row.tone, EntryTone::Cued);
    assert_eq!(row.border, EntryBorder::Cued);

    let row = cue_entry_row(&snapshot, &lost, 11, None, Some(lost.id));
    assert_eq!(row.display_name, "Missing scene");
    assert!(row.missing && row.selected && !row.cued && !row.current);
    assert_eq!(row.tone, EntryTone::Warning);
    assert_eq!(row.border, EntryBorder::Selected);
    assert_eq!(row.remove_label, "Remove cue 12: Missing scene");

    let plain = AppViewState {
        scene_configs: snapshot.scene_configs.clone(),
        ..Default::default()
    };
    let row = cue_entry_row(&plain, &cue, 2, None, None);
    assert_eq!(row.tone, EntryTone::Primary);
    assert_eq!(row.border, EntryBorder::Plain);
    assert!(!row.marked);
}
