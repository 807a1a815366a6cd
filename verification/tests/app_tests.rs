use std::path::PathBuf;

use advanced_show_control::errors::{cue_lists_unavailable, map_app_command_error, AppCommandError};
use advanced_show_control::show_session::{
    about_detail, cue_completion_matches_session, ensure_show_file_extension,
    is_show_file_extension, is_show_file_path, modal_surface_active, session_query_is_stale,
    picked_file_command, save_destination, suggested_save_file_name, PickedFileOperation,
    EditEpoch, ShowFileCommand, ShowSessionState,
};
use advanced_show_control::view_state::AppViewState;

#[test]
fn owner_revision_change_makes_successful_query_stale() {
    let result = Ok(ShowSessionState {
        show_file_path: None,
        show_file_dirty: false,
        persisted_session_revision: 4,
    });

    assert!(!session_query_is_stale(2, 2, &result, 4));
    assert!(session_query_is_stale(2, 2, &result, 5));
    assert!(session_query_is_stale(2, 3, &result, 4));
}

#[test]
fn a_failed_query_is_stale_only_by_its_edit_epoch() {
    let failed: Result<ShowSessionState, String> = Err("show unavailable".to_string());
    assert!(!session_query_is_stale(2, 2, &failed, 5));
    assert!(session_query_is_stale(1, 2, &failed, 5));
}

#[test]
fn close_request_is_blocked_while_any_modal_surface_is_active() {
    assert!(!modal_surface_active(false, false, false));
    assert!(modal_surface_active(true, false, false));
    assert!(modal_surface_active(false, true, false));
    assert!(modal_surface_active(false, false, true));
}

#[test]
fn stale_cue_completion_cannot_invalidate_a_new_session() {
    let snapshot = AppViewState {
        session_revision: 2,
        ..Default::default()
    };

    assert!(!cue_completion_matches_session(1, &snapshot));
    assert!(cue_completion_matches_session(2, &snapshot));
}

#[test]
fn show_file_paths_require_the_session_extension_case_insensitively() {
    assert!(is_show_file_path(&PathBuf::from("show.ascs")));
    assert!(is_show_file_path(&PathBuf::from("show.ASCS")));
    assert!(!is_show_file_path(&PathBuf::from("show.json")));
    assert!(!is_show_file_path(&PathBuf::from("show")));
}

#[test]
fn save_paths_gain_the_session_extension_only_when_missing() {
    assert_eq!(
        ensure_show_file_extension(PathBuf::from("show")),
        PathBuf::from("show.ascs")
    );
    assert_eq!(
        ensure_show_file_extension(PathBuf::from("show.txt")),
        PathBuf::from("show.ascs")
    );
}

#[test]
fn a_session_path_keeps_its_own_extension_case() {
    assert_eq!(
        ensure_show_file_extension(PathBuf::from("show.AsCs")),
        PathBuf::from("show.AsCs")
    );
    assert!(is_show_file_extension(Some("ASCS")));
    assert!(!is_show_file_extension(Some("ascs ")));
    assert!(!is_show_file_extension(None));
}

#[test]
fn ordinary_save_uses_an_untitled_suggestion_when_the_authoritative_path_is_empty() {
    let stale_snapshot = AppViewState {
        show_file_name: "Source Template.ascs".to_string(),
        ..Default::default()
    };

    assert_eq!(
        suggested_save_file_name(&stale_snapshot, false),
        "Untitled Session.ascs"
    );
    assert_eq!(
        suggested_save_file_name(&stale_snapshot, true),
        "Source Template.ascs"
    );
}

#[test]
fn save_as_adds_the_extension_to_a_bare_session_name() {
    let snapshot = AppViewState {
        show_file_name: "Matinee".to_string(),
        ..Default::default()
    };
    assert_eq!(suggested_save_file_name(&snapshot, true), "Matinee.ascs");
}

#[test]
fn about_detail_identifies_the_project_and_license() {
    assert_eq!(
        about_detail("0.1.0"),
        "Version 0.1.0\n\nGPUI Kit desktop control for Waves eMotion LV1 scene fades.\n\nGPL-3.0-or-later\nhttps://mitchel.me/advanced-show-control/"
    );
}

#[test]
fn command_failed_preserves_its_frontend_safe_message() {
    assert_eq!(
        map_app_command_error(AppCommandError::CommandFailed(
            "specific failure".to_string()
        )),
        "specific failure"
    );
    assert_eq!(
        map_app_command_error(AppCommandError::ScenesUnavailable),
        "scene state is unavailable"
    );
}

#[test]
fn unavailable_cue_lists_are_reported_verbatim() {
    assert_eq!(cue_lists_unavailable(), "cue lists are unavailable");
    assert_eq!(
        map_app_command_error(AppCommandError::StaleGeneration),
        AppCommandError::StaleGeneration.message()
    );
}

use advanced_show_control::ui_event::{cue_recall_finished, CueRecallResult, UiEvent};

#[test]
fn a_recall_canceled_by_a_replaced_session_is_marked_as_such() {
    let event = cue_recall_finished(
        4,
        9,
        Err(AppCommandError::RecallCanceled("session was replaced".to_string())),
    );
    assert!(matches!(
        event,
        UiEvent::CueRecallFinished {
            command_id: 4,
            session_revision: 9,
            canceled_by_session_replacement: true,
            result: Err(ref message),
        } if message == "recall canceled: session was replaced"
    ));

    let event = cue_recall_finished(5, 9, Err(AppCommandError::RecallCanceled("aborted".to_string())));
    assert!(matches!(
        event,
        UiEvent::CueRecallFinished { canceled_by_session_replacement: false, .. }
    ));

    let event = cue_recall_finished(6, 2, Ok(CueRecallResult { recalled_entry_id: 77 }));
    assert!(matches!(
        event,
        UiEvent::CueRecallFinished {
            canceled_by_session_replacement: false,
            result: Ok(CueRecallResult { recalled_entry_id: 77 }),
            ..
        }
    ));

    let event = cue_recall_finished(
        7,
        2,
        Err(AppCommandError::CommandFailed("no cued cue".to_string())),
    );
    assert!(matches!(
        event,
        UiEvent::CueRecallFinished { result: Err(ref message), .. } if message == "no cued cue"
    ));
}

#[test]
fn dialog_paths_gain_the_extension_in_their_last_component_only() {
    assert!(is_show_file_path(&PathBuf::from("/Users/me/Shows/show.ASCS")));
    assert!(!is_show_file_path(&PathBuf::from("/Users/me/show.d/show")));
    assert_eq!(
        ensure_show_file_extension(PathBuf::from("/Users/me/show.d/show")),
        PathBuf::from("/Users/me/show.d/show.ascs")
    );
    assert_eq!(
        ensure_show_file_extension(PathBuf::from("/Users/me/Shows/show.txt")),
        PathBuf::from("/Users/me/Shows/show.ascs")
    );
    assert_eq!(
        ensure_show_file_extension(PathBuf::from("/Users/me/Shows/show.Ascs")),
        PathBuf::from("/Users/me/Shows/show.Ascs")
    );
}

#[test]
fn cancelled_file_operations_do_not_dispatch_show_commands() {
    assert_eq!(picked_file_command(PickedFileOperation::Open, None), None);
    assert_eq!(picked_file_command(PickedFileOperation::NewFromTemplate, None), None);
    assert_eq!(picked_file_command(PickedFileOperation::SaveAs, None), None);
}

#[test]
fn new_from_template_dispatches_the_selected_path() {
    let template = PathBuf::from("template.ascs");
    assert_eq!(
        picked_file_command(PickedFileOperation::NewFromTemplate, Some(template.clone())),
        Some(ShowFileCommand::NewFromTemplate(template))
    );
    assert_eq!(
        picked_file_command(PickedFileOperation::Open, Some(PathBuf::from("a.ascs"))),
        Some(ShowFileCommand::LoadFromPath(PathBuf::from("a.ascs")))
    );
}

#[test]
fn save_without_an_authoritative_current_path_requests_a_destination() {
    assert_eq!(save_destination(None, None), None);
    assert_eq!(
        save_destination(None, Some(PathBuf::from("/tmp/b.ascs"))),
        Some(ShowFileCommand::SaveTo(PathBuf::from("/tmp/b.ascs")))
    );
    assert_eq!(
        save_destination(Some(PathBuf::from("/tmp/a.ascs")), Some(PathBuf::from("/tmp/b.ascs"))),
        Some(ShowFileCommand::SaveTo(PathBuf::from("/tmp/a.ascs")))
    );
}

#[test]
fn a_persisted_edit_after_a_query_makes_its_answer_stale() {
    let mut epoch = EditEpoch::new();
    let captured = epoch.value;
    epoch.record_persisted_edit();
    let answer: Result<ShowSessionState, String> = Err("unavailable".to_string());
    assert!(session_query_is_stale(captured, epoch.value, &answer, 0));
    assert!(!session_query_is_stale(epoch.value, epoch.value, &answer, 0));
    let mut edge = EditEpoch { value: u64::MAX };
    edge.record_persisted_edit();
    assert_eq!(edge.value, 0);
}
