use std::path::PathBuf;

use advanced_show_control::session_guard::{
    guarded_quit, GuardChoice, GuardEffect, GuardedQuit, SessionAction, SessionGuard,
    SessionStatus,
};

fn status(dirty: bool, titled: bool) -> SessionStatus {
    SessionStatus {
        dirty,
        path: if titled { Some(PathBuf::from("show.ascs")) } else { None },
        name: if titled { "Show.ascs" } else { "Untitled Session" }.to_string(),
        persisted_session_revision: 9,
    }
}

#[test]
fn every_request_enters_correlated_preflight() {
    let mut guard = SessionGuard::default();

    assert_eq!(guard.request(SessionAction::New), GuardEffect::QueryState);
    guard.query_started(10);
    assert_eq!(
        guard.state_query_finished(9, Ok(status(false, false))),
        GuardEffect::NoOp
    );
    assert!(guard.is_pending());
    assert_eq!(
        guard.state_query_finished(10, Ok(status(false, false))),
        GuardEffect::Continue {
            action: SessionAction::New,
            expected_persisted_revision: Some(9),
        }
    );
    assert!(!guard.is_pending());
}

#[test]
fn close_is_vetoed_through_preflight_prompt_and_save() {
    let mut guard = SessionGuard::default();

    assert_eq!(guard.request_close(), (false, GuardEffect::QueryState));
    guard.query_started(1);
    assert_eq!(
        guard.state_query_finished(1, Ok(status(true, true))),
        GuardEffect::Prompt("Show.ascs".to_string())
    );
    assert_eq!(guard.request_close(), (false, GuardEffect::NoOp));
    assert_eq!(guard.choose_response(GuardChoice::Save), GuardEffect::SaveCurrent);
    guard.save_started(2);
    assert_eq!(guard.request_close(), (false, GuardEffect::NoOp));
    assert_eq!(guard.command_finished(2, true), GuardEffect::QueryState);
    guard.query_started(3);
    assert_eq!(guard.request_close(), (false, GuardEffect::NoOp));
    assert_eq!(
        guard.state_query_finished(3, Ok(status(false, true))),
        GuardEffect::Continue {
            action: SessionAction::Quit,
            expected_persisted_revision: Some(9),
        }
    );
}

#[test]
fn authoritative_preflight_path_selects_save_or_save_as() {
    let mut titled = SessionGuard::default();
    titled.request(SessionAction::Open);
    titled.query_started(1);
    assert_eq!(
        titled.state_query_finished(1, Ok(status(true, true))),
        GuardEffect::Prompt("Show.ascs".to_string())
    );
    assert_eq!(titled.choose_response(GuardChoice::Save), GuardEffect::SaveCurrent);

    let mut untitled = SessionGuard::default();
    untitled.request(SessionAction::Open);
    untitled.query_started(2);
    assert_eq!(
        untitled.state_query_finished(2, Ok(status(true, false))),
        GuardEffect::Prompt("Untitled Session".to_string())
    );
    assert_eq!(
        untitled.choose_response(GuardChoice::Save),
        GuardEffect::ChooseSaveDestination
    );
}

#[test]
fn save_success_rechecks_and_aborts_if_session_remains_dirty() {
    let mut guard = SessionGuard::default();
    guard.request(SessionAction::NewFromTemplate);
    guard.query_started(1);
    guard.state_query_finished(1, Ok(status(true, false)));
    guard.choose_response(GuardChoice::Save);
    guard.save_destination(Some(PathBuf::from("saved.ascs")));
    guard.save_started(2);

    assert_eq!(guard.command_finished(2, true), GuardEffect::QueryState);
    guard.query_started(3);
    assert_eq!(
        guard.state_query_finished(3, Ok(status(true, true))),
        GuardEffect::Error(
            "The session changed while it was being saved. The requested action was cancelled."
                .to_string()
        )
    );
    assert!(!guard.is_pending());
}

#[test]
fn current_path_save_also_aborts_if_session_remains_dirty() {
    let mut guard = SessionGuard::default();
    guard.request(SessionAction::Open);
    guard.query_started(1);
    guard.state_query_finished(1, Ok(status(true, true)));
    assert_eq!(guard.choose_response(GuardChoice::Save), GuardEffect::SaveCurrent);
    guard.save_started(2);

    assert_eq!(guard.command_finished(2, true), GuardEffect::QueryState);
    guard.query_started(3);
    assert!(matches!(
        guard.state_query_finished(3, Ok(status(true, true))),
        GuardEffect::Error(_)
    ));
    assert!(!guard.is_pending());
}

#[test]
fn stale_post_save_query_is_ignored() {
    let mut guard = SessionGuard::default();
    guard.request(SessionAction::Quit);
    guard.query_started(4);
    guard.state_query_finished(4, Ok(status(true, true)));
    guard.choose_response(GuardChoice::Save);
    guard.save_started(5);
    guard.command_finished(5, true);
    guard.query_started(6);

    assert_eq!(
        guard.state_query_finished(4, Ok(status(false, true))),
        GuardEffect::NoOp
    );
    assert!(guard.is_pending());
}

#[test]
fn stale_preflight_query_retries_without_losing_the_action() {
    let mut guard = SessionGuard::default();
    guard.request(SessionAction::Open);
    guard.query_started(10);

    assert_eq!(guard.state_query_stale(10), GuardEffect::QueryState);
    assert!(guard.is_pending());
    guard.query_started(11);
    assert_eq!(
        guard.state_query_finished(11, Ok(status(false, true))),
        GuardEffect::Continue {
            action: SessionAction::Open,
            expected_persisted_revision: Some(9),
        }
    );
}

#[test]
fn stale_post_save_query_retries_without_losing_the_phase() {
    let mut guard = SessionGuard::default();
    guard.request(SessionAction::Quit);
    guard.query_started(1);
    guard.state_query_finished(1, Ok(status(true, true)));
    guard.choose_response(GuardChoice::Save);
    guard.save_started(2);
    assert_eq!(guard.command_finished(2, true), GuardEffect::QueryState);
    guard.query_started(3);

    assert_eq!(guard.state_query_stale(3), GuardEffect::QueryState);
    guard.query_started(4);
    assert_eq!(
        guard.state_query_finished(4, Ok(status(false, true))),
        GuardEffect::Continue {
            action: SessionAction::Quit,
            expected_persisted_revision: Some(9),
        }
    );
}

#[test]
fn modal_cancellation_clears_pending_action() {
    let mut guard = SessionGuard::default();
    guard.request(SessionAction::New);
    guard.query_started(5);

    assert!(guard.cancel_pending());
    assert!(!guard.is_pending());
    assert_eq!(
        guard.state_query_finished(5, Ok(status(false, false))),
        GuardEffect::NoOp
    );
}

#[test]
fn matching_generic_query_failure_clears_pending_intent() {
    let mut guard = SessionGuard::default();
    guard.request(SessionAction::New);
    guard.query_started(17);

    assert_eq!(guard.command_finished(17, false), GuardEffect::NoOp);
    assert!(!guard.is_pending());
}

#[test]
fn discard_continues_and_cancel_or_failures_clear_intent() {
    let mut guard = SessionGuard::default();
    guard.request(SessionAction::Open);
    guard.query_started(1);
    guard.state_query_finished(1, Ok(status(true, true)));
    assert_eq!(
        guard.choose_response(GuardChoice::Discard),
        GuardEffect::Continue {
            action: SessionAction::Open,
            expected_persisted_revision: None,
        }
    );

    guard.request(SessionAction::Quit);
    guard.query_started(2);
    guard.state_query_finished(2, Ok(status(true, true)));
    assert_eq!(guard.choose_response(GuardChoice::Cancel), GuardEffect::NoOp);
    assert!(!guard.is_pending());

    guard.request(SessionAction::New);
    guard.query_started(3);
    assert!(matches!(
        guard.state_query_finished(3, Err("show unavailable".to_string())),
        GuardEffect::Error(_)
    ));
    assert!(!guard.is_pending());
}

#[test]
fn a_second_request_while_pending_is_ignored() {
    let mut guard = SessionGuard::default();
    assert_eq!(guard.request(SessionAction::Open), GuardEffect::QueryState);
    assert_eq!(guard.request(SessionAction::New), GuardEffect::NoOp);
    guard.query_started(1);
    assert_eq!(
        guard.state_query_finished(1, Ok(status(false, true))),
        GuardEffect::Continue {
            action: SessionAction::Open,
            expected_persisted_revision: Some(9),
        }
    );
}

#[test]
fn save_destination_hands_the_chosen_path_to_the_save() {
    let mut guard = SessionGuard::default();
    guard.request(SessionAction::New);
    guard.query_started(1);
    guard.state_query_finished(1, Ok(status(true, false)));
    assert_eq!(
        guard.choose_response(GuardChoice::Save),
        GuardEffect::ChooseSaveDestination
    );
    assert_eq!(
        guard.save_destination(Some(PathBuf::from("saved.ascs"))),
        GuardEffect::SaveTo(PathBuf::from("saved.ascs"))
    );
}

#[test]
fn failed_save_clears_the_pending_action() {
    let mut guard = SessionGuard::default();
    guard.request(SessionAction::Quit);
    guard.query_started(1);
    guard.state_query_finished(1, Ok(status(true, true)));
    guard.choose_response(GuardChoice::Save);
    guard.save_started(2);
    assert_eq!(guard.command_finished(3, false), GuardEffect::NoOp);
    assert!(guard.is_pending());
    assert_eq!(guard.command_finished(2, false), GuardEffect::NoOp);
    assert!(!guard.is_pending());
}

use advanced_show_control::session_guard::{session_state_query_finished, SessionQueryOutcome};

#[test]
fn a_modal_cancels_the_pending_action_when_its_query_finishes() {
    let mut guard = SessionGuard::default();
    guard.request(SessionAction::Open);
    guard.query_started(3);
    assert_eq!(
        session_state_query_finished(&mut guard, 3, true, 1, 1, Ok(status(false, true)), 9),
        SessionQueryOutcome::Cancelled { notify: true }
    );
    assert!(!guard.is_pending());
    assert_eq!(
        session_state_query_finished(&mut guard, 3, true, 1, 1, Ok(status(false, true)), 9),
        SessionQueryOutcome::Cancelled { notify: false }
    );
}

#[test]
fn a_stale_query_answer_retries_and_a_fresh_one_continues() {
    let mut guard = SessionGuard::default();
    guard.request(SessionAction::New);
    guard.query_started(3);
    assert_eq!(
        session_state_query_finished(&mut guard, 3, false, 1, 2, Ok(status(false, true)), 9),
        SessionQueryOutcome::Effect(GuardEffect::QueryState)
    );
    guard.query_started(4);
    assert_eq!(
        session_state_query_finished(&mut guard, 4, false, 2, 2, Ok(status(false, true)), 10),
        SessionQueryOutcome::Effect(GuardEffect::QueryState)
    );
    guard.query_started(5);
    assert_eq!(
        session_state_query_finished(&mut guard, 5, false, 2, 2, Ok(status(false, true)), 9),
        SessionQueryOutcome::Effect(GuardEffect::Continue {
            action: SessionAction::New,
            expected_persisted_revision: Some(9),
        })
    );
}

#[test]
fn a_guarded_quit_runs_only_for_the_authorized_revision() {
    let mut guard = SessionGuard::default();
    assert!(matches!(guarded_quit(&mut guard, 4, 4), GuardedQuit::Quit));
    assert!(!guard.is_pending());
    match guarded_quit(&mut guard, 4, 5) {
        GuardedQuit::Restart(effect) => assert_eq!(effect, GuardEffect::QueryState),
        GuardedQuit::Quit => panic!("a changed revision must not quit"),
    }
    assert!(guard.is_pending());
}
