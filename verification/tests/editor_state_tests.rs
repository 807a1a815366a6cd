use advanced_show_control::cue_manager::{entry_in_active_list, CueManagerState, ListClick, ManagerFocus};
use advanced_show_control::cues::{ManageCommand, NameEditor};
use advanced_show_control::scene_editor::{
    DurationCommit, DurationStep, LinkDispatch, LinkRequest, PendingOverwrite, SceneEditorState,
};
use advanced_show_control::view_state::{AppViewState, CueEntry, CueList, SceneConfig, SceneSummary, SceneScopeToggles};

fn uuid_text(value: u128) -> String {
    uuid::Uuid::from_u128(value).to_string()
}

fn snapshot_with_lists() -> AppViewState {
    AppViewState {
        cue_lists: vec![
            CueList {
                id: 1,
                name: "Main".into(),
                entries: vec![CueEntry { id: 10, scene_internal_id: 100 }],
            },
            CueList { id: 2, name: "Spare".into(), entries: vec![] },
        ],
        active_cue_list_id: Some(uuid_text(1)),
        ..Default::default()
    }
}

fn config(id: u128, index: Option<i32>, name: &str, duration_ms: u64) -> SceneConfig {
    SceneConfig {
        internal_scene_id: id,
        scene_index: index,
        scene_name: name.into(),
        duration_ms,
        channel_configs: vec![],
        scoped_channels: vec![],
        scope_toggles: SceneScopeToggles { faders: true, pan: true },
    }
}

fn scenes_snapshot(selected: u128) -> AppViewState {
    AppViewState {
        scenes: vec![
            SceneSummary { index: 0, name: "Intro".into() },
            SceneSummary { index: 1, name: "Verse".into() },
        ],
        scene_configs: vec![config(7, Some(0), "Intro", 1_000), config(8, None, "Draft", 2_000)],
        selected_scene_internal_id: Some(uuid_text(selected)),
        ..Default::default()
    }
}

#[test]
fn escape_closes_the_delete_confirmation_before_the_editor_and_the_manager() {
    let mut state = CueManagerState::new();
    assert_eq!(state.dismiss_modal(), (false, ManagerFocus::Unchanged));
    state.manage_open = true;
    state.pending_delete = Some(2);
    state.name_editor = Some(NameEditor::Create);
    assert_eq!(state.dismiss_modal(), (true, ManagerFocus::FocusManager));
    assert_eq!(state.pending_delete, None);
    assert_eq!(state.name_editor, Some(NameEditor::Create));
    assert_eq!(state.dismiss_modal(), (true, ManagerFocus::FocusManager));
    assert_eq!(state.name_editor, None);
    assert_eq!(state.dismiss_modal(), (true, ManagerFocus::CloseManager));
    assert!(!state.manage_open);
}

#[test]
fn a_pending_manager_command_keeps_escape_from_closing_anything() {
    let mut state = CueManagerState::new();
    state.manage_open = true;
    state.name_editor = Some(NameEditor::Rename(1));
    assert_eq!(state.name_submission(), Some(NameEditor::Rename(1)));
    state.manage_command_started(5, ManageCommand::Name(NameEditor::Rename(1)));
    assert_eq!(state.name_submission(), None);
    assert_eq!(state.dismiss_modal(), (true, ManagerFocus::Unchanged));
    assert_eq!(state.command_finished(4, false), ManagerFocus::Unchanged);
    assert!(state.pending_manage_command.is_some());
    assert_eq!(state.command_finished(5, false), ManagerFocus::FocusManager);
    assert_eq!(state.name_editor, None);
    assert!(state.pending_manage_command.is_none());
}

#[test]
fn activating_a_list_closes_the_manager_and_failures_keep_editors() {
    let mut state = CueManagerState::new();
    state.manage_open = true;
    state.manage_command_started(1, ManageCommand::Activate);
    assert_eq!(state.command_finished(1, false), ManagerFocus::CloseManager);
    assert!(!state.manage_open);

    state.manage_open = true;
    state.pending_delete = Some(2);
    state.manage_command_started(2, ManageCommand::Delete(2));
    assert_eq!(state.command_finished(2, true), ManagerFocus::Unchanged);
    assert_eq!(state.pending_delete, Some(2));
}

#[test]
fn snapshots_drop_stale_selection_and_nested_editors() {
    let snapshot = snapshot_with_lists();
    let mut state = CueManagerState::new();
    state.manage_open = true;
    state.selected_entry_id = Some(10);
    state.pending_delete = Some(3);
    assert!(state.set_snapshot(&snapshot));
    assert_eq!(state.selected_entry_id, Some(10));
    assert_eq!(state.pending_delete, None);

    state.name_editor = Some(NameEditor::Rename(2));
    state.selected_entry_id = Some(11);
    assert!(!state.set_snapshot(&snapshot));
    assert_eq!(state.name_editor, Some(NameEditor::Rename(2)));
    assert_eq!(state.selected_entry_id, None);
}

#[test]
fn cue_uses_only_entries_of_the_active_list() {
    let snapshot = snapshot_with_lists();
    assert!(entry_in_active_list(&snapshot, 10));
    assert!(!entry_in_active_list(&snapshot, 11));
    let mut state = CueManagerState::new();
    assert_eq!(state.cue_selected(&snapshot), None);
    state.selected_entry_id = Some(11);
    assert_eq!(state.cue_selected(&snapshot), None);
    assert_eq!(state.selected_entry_id, None);
    state.selected_entry_id = Some(10);
    assert_eq!(state.cue_selected(&snapshot), Some(10));
    assert!(!state.cue(&snapshot, 99));
    assert!(state.cue(&snapshot, 10));
}

#[test]
fn the_scene_editor_starts_from_the_selected_scene() {
    let snapshot = scenes_snapshot(7);
    let editor = SceneEditorState::new(&snapshot);
    assert_eq!(editor.duration_identity, Some((7, 1_000)));
    assert_eq!(editor.selected_link_target, Some(1));
    assert!(!editor.modal_open());
}

#[test]
fn committing_a_duration_dispatches_only_a_change() {
    let snapshot = scenes_snapshot(7);
    let mut editor = SceneEditorState::new(&snapshot);
    assert_eq!(editor.commit_duration(&snapshot, None), DurationCommit::Reset(1_000));
    assert_eq!(editor.commit_duration(&snapshot, Some(1_000)), DurationCommit::Reset(1_000));
    assert_eq!(
        editor.commit_duration(&snapshot, Some(2_500)),
        DurationCommit::Dispatch { scene_id: 7, duration_ms: 2_500 }
    );
    editor.duration_dispatched(3, 7, 2_500);
    assert_eq!(
        editor.commit_duration(&snapshot, Some(1_000)),
        DurationCommit::Dispatch { scene_id: 7, duration_ms: 1_000 }
    );
    assert_eq!(editor.command_finished(&snapshot, 4, true), None);
    assert_eq!(editor.command_finished(&snapshot, 3, true), Some(1_000));
    assert_eq!(editor.pending_duration_command, None);
    assert_eq!(
        editor.commit_duration(&AppViewState::default(), Some(1)),
        DurationCommit::NoScene
    );
}

#[test]
fn duration_steps_count_as_edits_and_dispatch_changes() {
    let snapshot = scenes_snapshot(7);
    let mut editor = SceneEditorState::new(&snapshot);
    assert_eq!(
        editor.step_duration(&snapshot, None, 1),
        Some(DurationStep { scene_id: 7, next_ms: 2_000, dispatch: true })
    );
    assert_eq!(editor.duration_edit_revision, 1);
    assert_eq!(
        editor.step_duration(&snapshot, Some(500), 1),
        Some(DurationStep { scene_id: 7, next_ms: 1_500, dispatch: true })
    );
    assert_eq!(
        editor.step_duration(&snapshot, Some(0), 1),
        Some(DurationStep { scene_id: 7, next_ms: 1_000, dispatch: false })
    );
}

#[test]
fn a_projected_duration_result_ends_the_pending_command() {
    let snapshot = scenes_snapshot(7);
    let mut editor = SceneEditorState::new(&snapshot);
    editor.duration_dispatched(3, 7, 2_500);
    let mut updated = snapshot.clone();
    updated.scene_configs[0].duration_ms = 2_000;
    let effects = editor.set_snapshot(&updated);
    assert_eq!(effects.reset_duration_to, None);
    assert!(editor.pending_duration_command.is_some());
    updated.scene_configs[0].duration_ms = 2_500;
    let effects = editor.set_snapshot(&updated);
    assert_eq!(effects.reset_duration_to, Some(2_500));
    assert_eq!(editor.pending_duration_command, None);
    let effects = editor.set_snapshot(&scenes_snapshot(8));
    assert_eq!(effects.reset_duration_to, Some(2_000));
    assert_eq!(editor.duration_identity, Some((8, 2_000)));
}

#[test]
fn linking_onto_linked_settings_asks_first() {
    let snapshot = scenes_snapshot(8);
    let mut editor = SceneEditorState::new(&snapshot);
    assert_eq!(
        editor.request_link(&snapshot),
        LinkRequest::Dispatch { source_id: 8, target_index: 1 }
    );
    editor.selected_link_target = Some(0);
    assert_eq!(editor.request_link(&snapshot), LinkRequest::ConfirmOverwrite);
    assert_eq!(
        editor.pending_overwrite,
        Some(PendingOverwrite { source_id: 8, target_index: 0, target_name: "Intro".into() })
    );
    assert_eq!(
        editor.confirm_overwrite(&snapshot),
        (Some(LinkDispatch { source_id: 8, target_index: 0, overwrite: true }), true)
    );
    assert_eq!(editor.confirm_overwrite(&snapshot), (None, false));
}

#[test]
fn a_stale_overwrite_confirmation_is_dropped() {
    let snapshot = scenes_snapshot(8);
    let mut editor = SceneEditorState::new(&snapshot);
    editor.selected_link_target = Some(0);
    editor.request_link(&snapshot);
    let mut renamed = snapshot.clone();
    renamed.scenes[0].name = "Opening".into();
    let effects = editor.set_snapshot(&renamed);
    assert!(effects.restore_overwrite_focus);
    assert!(!editor.modal_open());
    editor.selected_link_target = Some(0);
    editor.request_link(&snapshot);
    assert!(editor.dismiss_modal());
    assert!(!editor.dismiss_modal());
}

#[test]
fn manager_rows_activate_rename_and_delete_only_while_the_manager_is_idle() {
    let snapshot = AppViewState {
        cue_lists: vec![
            CueList { id: 1, name: "Main".into(), entries: vec![] },
            CueList { id: 2, name: "Encore".into(), entries: vec![] },
        ],
        active_cue_list_id: Some(uuid_text(1)),
        ..Default::default()
    };
    let mut state = CueManagerState::new();
    state.manage_open = true;

    assert_eq!(state.click_list(&snapshot, 2), ListClick::Activate);
    assert!(state.manage_open);
    assert_eq!(state.start_rename(&snapshot, 2), Some("Encore".to_string()));
    assert_eq!(state.name_editor, Some(NameEditor::Rename(2)));
    assert_eq!(state.click_list(&snapshot, 1), ListClick::Ignored);
    assert!(!state.start_delete(1));
    assert!(!state.start_create());
    assert!(!state.close_button());

    state.name_editor = None;
    assert!(state.start_delete(2));
    assert_eq!(state.pending_delete, Some(2));
    assert_eq!(state.start_rename(&snapshot, 2), None);

    state.pending_delete = None;
    assert!(state.start_create());
    assert_eq!(state.name_editor, Some(NameEditor::Create));

    state.name_editor = None;
    assert_eq!(state.click_list(&snapshot, 1), ListClick::Close);
    assert!(!state.manage_open);
    state.manage_open = true;
    assert!(state.close_button());
    assert!(!state.manage_open);
}
