use advanced_show_control::errors::AppCommandError;
use advanced_show_control::fade::{FadeParameter, FadeSceneIdentity, FadeTargetKey};
use advanced_show_control::fade_engine::{
    installs_readiness, recall_admission, recall_path, start_value_source, tick_failure_reason, write_failure_event, ActiveFades,
    FadeEvent, RecallAdmission, RecallPath, RecallReadinessCancellation, RecallSceneFadeOutcome,
    SameSceneRecallBehavior, StartSource,
};

fn scene(index: i32, name: &str) -> FadeSceneIdentity {
    FadeSceneIdentity { index, name: name.to_string() }
}

fn key(group: i32, channel: i32, parameter: FadeParameter) -> FadeTargetKey {
    FadeTargetKey { group, channel, parameter }
}

fn keys_of(fades: &ActiveFades) -> Vec<FadeTargetKey> {
    fades.targets().iter().map(|slot| slot.key).collect()
}

#[test]
fn a_recall_starts_ticking_and_announces_the_fade() {
    let mut fades = ActiveFades::new();
    let outcome = fades.recall(
        &scene(1, "Intro"),
        &vec![key(0, 1, FadeParameter::FaderDb), key(0, 1, FadeParameter::Pan)],
        SameSceneRecallBehavior::FinishActiveTargets,
    );
    assert_eq!(outcome, RecallSceneFadeOutcome::Started);
    assert_eq!(fades.after_recall(true), vec![FadeEvent::FadeStarted]);
    assert!(fades.is_ticking());
    assert_eq!(keys_of(&fades).len(), 2);
}

#[test]
fn repeating_the_owning_scene_finishes_its_targets_without_installing() {
    let mut fades = ActiveFades::new();
    fades.recall(&scene(17, "Verse"), &vec![key(0, 1, FadeParameter::FaderDb)], SameSceneRecallBehavior::FinishActiveTargets);
    fades.recall(&scene(18, "Chorus"), &vec![key(0, 2, FadeParameter::FaderDb)], SameSceneRecallBehavior::FinishActiveTargets);
    let outcome = fades.recall(
        &scene(17, "Verse"),
        &vec![key(0, 3, FadeParameter::FaderDb)],
        SameSceneRecallBehavior::FinishActiveTargets,
    );
    assert_eq!(outcome, RecallSceneFadeOutcome::Finishing { target_count: 1 });
    assert_eq!(
        keys_of(&fades),
        vec![key(0, 1, FadeParameter::FaderDb), key(0, 2, FadeParameter::FaderDb)]
    );
}

#[test]
fn overriding_a_scene_restarts_only_the_matching_keys() {
    let mut fades = ActiveFades::new();
    fades.recall(
        &scene(17, "Verse"),
        &vec![key(0, 1, FadeParameter::FaderDb), key(0, 2, FadeParameter::FaderDb)],
        SameSceneRecallBehavior::OverrideMatchingTargets,
    );
    let outcome = fades.recall(
        &scene(17, "Verse"),
        &vec![key(0, 1, FadeParameter::FaderDb)],
        SameSceneRecallBehavior::OverrideMatchingTargets,
    );
    assert_eq!(outcome, RecallSceneFadeOutcome::Overriding { target_count: 1 });
    assert_eq!(
        keys_of(&fades),
        vec![key(0, 2, FadeParameter::FaderDb), key(0, 1, FadeParameter::FaderDb)]
    );
}

#[test]
fn a_different_scene_replaces_overlapping_keys() {
    let mut fades = ActiveFades::new();
    fades.recall(&scene(1, "A"), &vec![key(0, 1, FadeParameter::FaderDb)], SameSceneRecallBehavior::FinishActiveTargets);
    let outcome = fades.recall(
        &scene(2, "B"),
        &vec![key(0, 1, FadeParameter::FaderDb)],
        SameSceneRecallBehavior::FinishActiveTargets,
    );
    assert_eq!(outcome, RecallSceneFadeOutcome::Started);
    assert_eq!(fades.targets().len(), 1);
    assert_eq!(fades.targets()[0].scene, scene(2, "B"));
}

#[test]
fn a_fader_override_cancels_only_that_fader_and_completes_when_empty() {
    let mut fades = ActiveFades::new();
    fades.recall(
        &scene(1, "A"),
        &vec![key(0, 1, FadeParameter::FaderDb), key(0, 2, FadeParameter::FaderDb)],
        SameSceneRecallBehavior::FinishActiveTargets,
    );
    fades.after_recall(false);
    assert!(fades.fader_report(0, 1, false).is_empty());
    assert!(fades.fader_report(0, 9, true).is_empty());
    assert_eq!(
        fades.fader_report(0, 1, true),
        vec![
            FadeEvent::ChannelOverride { group: 0, channel: 1, parameter: FadeParameter::FaderDb },
            FadeEvent::ChannelCancelled { group: 0, channel: 1, parameter: FadeParameter::FaderDb },
        ]
    );
    assert_eq!(
        fades.fader_report(0, 2, true),
        vec![
            FadeEvent::ChannelOverride { group: 0, channel: 2, parameter: FadeParameter::FaderDb },
            FadeEvent::ChannelCancelled { group: 0, channel: 2, parameter: FadeParameter::FaderDb },
            FadeEvent::FadeCompleted,
        ]
    );
    assert!(!fades.is_active());
    assert!(!fades.is_ticking());
}

#[test]
fn pan_report_cancelling_balance_and_width_completes_the_fade() {
    let mut fades = ActiveFades::new();
    fades.recall(
        &scene(1, "Intro"),
        &vec![key(0, 0, FadeParameter::Balance), key(0, 0, FadeParameter::Width)],
        SameSceneRecallBehavior::FinishActiveTargets,
    );
    fades.after_recall(false);
    let events = fades.pan_report(0, 0, false);
    assert_eq!(
        events,
        vec![
            FadeEvent::ChannelOverride { group: 0, channel: 0, parameter: FadeParameter::Pan },
            FadeEvent::ChannelCancelled { group: 0, channel: 0, parameter: FadeParameter::Balance },
            FadeEvent::ChannelCancelled { group: 0, channel: 0, parameter: FadeParameter::Width },
            FadeEvent::FadeCompleted,
        ]
    );
}

#[test]
fn a_pan_target_needs_confirmation_and_the_fader_keeps_running() {
    let mut fades = ActiveFades::new();
    fades.recall(
        &scene(1, "Intro"),
        &vec![
            key(0, 0, FadeParameter::FaderDb),
            key(0, 0, FadeParameter::Pan),
            key(0, 0, FadeParameter::Width),
        ],
        SameSceneRecallBehavior::FinishActiveTargets,
    );
    assert!(fades.pan_report(0, 0, false).is_empty());
    assert_eq!(fades.targets().len(), 3);
    let events = fades.pan_report(0, 0, true);
    assert_eq!(events.len(), 3);
    assert_eq!(keys_of(&fades), vec![key(0, 0, FadeParameter::FaderDb)]);
}

#[test]
fn a_failed_tick_cancels_every_target_then_aborts() {
    let mut fades = ActiveFades::new();
    fades.recall(
        &scene(1, "A"),
        &vec![key(0, 1, FadeParameter::FaderDb), key(1, 2, FadeParameter::Pan)],
        SameSceneRecallBehavior::FinishActiveTargets,
    );
    fades.after_recall(false);
    assert_eq!(
        fades.tick_failed(),
        vec![
            FadeEvent::ChannelCancelled { group: 0, channel: 1, parameter: FadeParameter::FaderDb },
            FadeEvent::ChannelCancelled { group: 1, channel: 2, parameter: FadeParameter::Pan },
            FadeEvent::FadeAborted,
        ]
    );
    assert!(!fades.is_active());
    assert!(!fades.is_ticking());
}

#[test]
fn a_successful_tick_reports_finished_targets_and_one_completion() {
    let mut fades = ActiveFades::new();
    fades.recall(
        &scene(1, "A"),
        &vec![key(0, 1, FadeParameter::FaderDb), key(0, 2, FadeParameter::FaderDb)],
        SameSceneRecallBehavior::FinishActiveTargets,
    );
    fades.after_recall(false);
    assert!(fades.tick_succeeded(&vec![], true).is_empty());
    assert!(fades.tick_succeeded(&vec![key(0, 1, FadeParameter::FaderDb)], false).is_empty());
    assert_eq!(
        fades.tick_succeeded(&vec![key(0, 1, FadeParameter::FaderDb)], true),
        vec![FadeEvent::ChannelCompleted { group: 0, channel: 1, parameter: FadeParameter::FaderDb }]
    );
    assert_eq!(
        fades.tick_succeeded(&vec![key(0, 2, FadeParameter::FaderDb)], true),
        vec![
            FadeEvent::ChannelCompleted { group: 0, channel: 2, parameter: FadeParameter::FaderDb },
            FadeEvent::FadeCompleted,
        ]
    );
    assert!(fades.tick_succeeded(&vec![], true).is_empty());
}

#[test]
fn a_zero_duration_recall_completes_its_keys_immediately() {
    let mut fades = ActiveFades::new();
    fades.recall(&scene(1, "A"), &vec![key(0, 1, FadeParameter::FaderDb)], SameSceneRecallBehavior::FinishActiveTargets);
    let events = fades.recall_immediate(&vec![key(0, 1, FadeParameter::FaderDb), key(0, 5, FadeParameter::Pan)]);
    assert_eq!(
        events,
        vec![
            FadeEvent::ChannelCompleted { group: 0, channel: 1, parameter: FadeParameter::FaderDb },
            FadeEvent::ChannelCompleted { group: 0, channel: 5, parameter: FadeParameter::Pan },
        ]
    );
    assert!(!fades.is_active());
}

#[test]
fn an_empty_recall_waiting_for_readiness_defers_completion() {
    let mut fades = ActiveFades::new();
    assert!(fades.after_recall(true).is_empty());
    assert_eq!(fades.after_recall(false), vec![FadeEvent::FadeCompleted]);
    assert!(fades.after_recall(false).is_empty());
}

#[test]
fn disconnects_abort_running_or_waiting_work_only() {
    let mut fades = ActiveFades::new();
    assert!(fades.stop(false).is_empty());
    assert_eq!(fades.stop(true), vec![FadeEvent::FadeAborted]);
    fades.recall(&scene(1, "A"), &vec![key(0, 1, FadeParameter::FaderDb)], SameSceneRecallBehavior::FinishActiveTargets);
    assert_eq!(fades.actor_stopped(false), vec![FadeEvent::FadeAborted]);
    assert!(!fades.is_active());
    assert_eq!(fades.abort_all(), vec![FadeEvent::FadeAborted]);
}

#[test]
fn write_failures_are_reported_unless_stale() {
    assert_eq!(write_failure_event(&AppCommandError::StaleGeneration, true), None);
    assert_eq!(write_failure_event(&AppCommandError::Lv1Unavailable, false), None);
    assert_eq!(
        write_failure_event(&AppCommandError::Lv1Unavailable, true),
        Some(FadeEvent::WriteFailed { reason: "LV1 is unavailable".to_string() })
    );
    assert_eq!(
        tick_failure_reason(&AppCommandError::StaleGeneration),
        RecallReadinessCancellation::GenerationChanged
    );
    assert_eq!(
        tick_failure_reason(&AppCommandError::ReplyChannelClosed),
        RecallReadinessCancellation::Disconnected
    );
}

use advanced_show_control::fade_engine::EngineFeedback;

#[test]
fn feedback_of_another_generation_changes_nothing() {
    let mut fades = ActiveFades::new();
    fades.recall(&scene(1, "A"), &vec![key(0, 1, FadeParameter::FaderDb), key(0, 1, FadeParameter::Pan)], SameSceneRecallBehavior::FinishActiveTargets);
    fades.after_recall(false);
    let other = [
        EngineFeedback::Fader { generation: 8, group: 0, channel: 1, out_of_threshold: true },
        EngineFeedback::Pan { generation: 8, group: 0, channel: 1, pan_target_confirms: true },
        EngineFeedback::Disconnected { generation: 8 },
        EngineFeedback::ActiveGenerationChanged { generation: 7 },
    ];
    for feedback in other {
        assert!(fades.feedback(7, feedback, true).is_empty());
        assert_eq!(fades.targets().len(), 2);
        assert!(fades.is_ticking());
    }
    assert_eq!(
        fades.feedback(7, EngineFeedback::Fader { generation: 7, group: 0, channel: 1, out_of_threshold: true }, false),
        vec![
            FadeEvent::ChannelOverride { group: 0, channel: 1, parameter: FadeParameter::FaderDb },
            FadeEvent::ChannelCancelled { group: 0, channel: 1, parameter: FadeParameter::FaderDb },
        ]
    );
    assert_eq!(
        fades.feedback(7, EngineFeedback::ActiveGenerationChanged { generation: 8 }, false),
        vec![FadeEvent::FadeAborted]
    );
    assert!(!fades.is_active());
}

#[test]
fn a_repeated_scene_recall_finishes_its_targets_on_the_next_tick() {
    let mut fades = ActiveFades::new();
    fades.recall(&scene(17, "Verse"), &vec![key(0, 1, FadeParameter::FaderDb)], SameSceneRecallBehavior::FinishActiveTargets);
    fades.recall(&scene(18, "Chorus"), &vec![key(0, 2, FadeParameter::FaderDb)], SameSceneRecallBehavior::FinishActiveTargets);
    fades.after_recall(false);
    assert!(fades.due_keys(&vec![false, false]).is_empty());
    let outcome = fades.recall(&scene(17, "Verse"), &vec![], SameSceneRecallBehavior::FinishActiveTargets);
    assert_eq!(outcome, RecallSceneFadeOutcome::Finishing { target_count: 1 });
    assert!(fades.targets()[0].finishing);
    assert!(!fades.targets()[1].finishing);
    let due = fades.due_keys(&vec![false, false]);
    assert_eq!(due, vec![key(0, 1, FadeParameter::FaderDb)]);
    assert_eq!(
        fades.tick_succeeded(&due, true),
        vec![FadeEvent::ChannelCompleted { group: 0, channel: 1, parameter: FadeParameter::FaderDb }]
    );
    assert_eq!(fades.due_keys(&vec![true]), vec![key(0, 2, FadeParameter::FaderDb)]);
}

#[test]
fn a_recall_is_admitted_only_for_the_current_generation_and_a_connected_console() {
    assert_eq!(
        recall_admission(Err(AppCommandError::StaleGeneration), true, true),
        Err(AppCommandError::StaleGeneration)
    );
    assert_eq!(
        recall_admission(Ok(()), false, false),
        Ok(RecallAdmission::NothingToDo)
    );
    assert_eq!(
        recall_admission(Ok(()), false, true),
        Ok(RecallAdmission::NeedsSnapshot)
    );
    assert_eq!(
        recall_admission(Ok(()), true, false),
        Ok(RecallAdmission::NeedsSnapshot)
    );
    assert_eq!(
        recall_path(false, true, 500),
        Err(AppCommandError::Lv1Unavailable)
    );
    assert_eq!(recall_path(true, false, 500), Ok(RecallPath::ReadinessOnly));
    assert_eq!(recall_path(true, true, 0), Ok(RecallPath::Immediate));
    assert_eq!(recall_path(true, true, 500), Ok(RecallPath::Fade));
}

#[test]
fn a_restarted_target_prefers_the_live_value_only_while_readiness_is_pending() {
    assert_eq!(start_value_source(true, true, true), StartSource::Snapshot);
    assert_eq!(start_value_source(true, true, false), StartSource::Active);
    assert_eq!(start_value_source(false, true, true), StartSource::Active);
    assert_eq!(start_value_source(false, false, true), StartSource::Snapshot);
    assert_eq!(start_value_source(false, false, false), StartSource::Target);
    assert_eq!(start_value_source(true, false, false), StartSource::Target);
}

#[test]
fn readiness_is_installed_for_owned_completions_and_fades() {
    assert!(installs_readiness(RecallPath::ReadinessOnly, true));
    assert!(installs_readiness(RecallPath::Immediate, true));
    assert!(!installs_readiness(RecallPath::Immediate, false));
    assert!(installs_readiness(RecallPath::Fade, false));
}
