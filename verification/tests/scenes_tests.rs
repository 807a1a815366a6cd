use advanced_show_control::scenes::{
    channel_group, channel_label, default_link_target, duplicate_scene_names,
    duration_seconds_text, duration_step_requires_dispatch, format_scene_number, grouped_channels,
    is_current, preserve_pending_duration_draft, row_color, row_state, selected_scene,
    step_duration, stepped_duration, RowTone,
};
use advanced_show_control::scenes::{
    channel_scoped, scope_command, scope_panel, unstored_scope_message, ScopeCommand, ScopeControl,
    ScopePanel,
};
use advanced_show_control::view_state::{AppViewState, ChannelRef, SceneConfig, SceneSummary, SceneScopeToggles};

fn scene(id: u128, index: Option<i32>, name: &str) -> SceneConfig {
    SceneConfig {
        internal_scene_id: id,
        scene_index: index,
        scene_name: name.to_owned(),
        duration_ms: 1000,
        channel_configs: vec![],
        scoped_channels: vec![],
        scope_toggles: SceneScopeToggles { faders: true, pan: true },
    }
}

#[test]
fn intermediate_duration_projection_preserves_the_latest_pending_draft() {
    let scene_id = 0x11u128;
    let other_scene_id = 0x22u128;

    assert!(preserve_pending_duration_draft(
        Some((scene_id, 3_000)),
        Some((scene_id, 2_000)),
    ));
    assert!(!preserve_pending_duration_draft(
        Some((scene_id, 3_000)),
        Some((scene_id, 3_000)),
    ));
    assert!(!preserve_pending_duration_draft(
        Some((scene_id, 3_000)),
        Some((other_scene_id, 2_000)),
    ));
}

#[test]
fn current_scene_requires_exact_index_and_name() {
    let config = scene(7, Some(3), "Verse");
    assert!(is_current(
        &config,
        Some(&SceneSummary {
            index: 3,
            name: "Verse".into()
        })
    ));
    assert!(!is_current(
        &config,
        Some(&SceneSummary {
            index: 3,
            name: "Chorus".into()
        })
    ));
}

#[test]
fn duplicate_names_are_case_sensitive_unique_and_sorted() {
    let scenes = vec![
        scene(1, Some(0), "Zulu"),
        scene(2, Some(1), "Alpha"),
        scene(3, Some(2), "Zulu"),
        scene(4, Some(3), "Alpha"),
        scene(5, Some(4), "alpha"),
    ];
    assert_eq!(duplicate_scene_names(&scenes), ["Alpha", "Zulu"]);
}

#[test]
fn grouped_channels_are_sorted_by_group_then_channel() {
    let channels = vec![
        ChannelRef { group: 1, channel: 4 },
        ChannelRef { group: 0, channel: 3 },
        ChannelRef { group: 1, channel: 1 },
        ChannelRef { group: 0, channel: 2 },
    ];

    let ordered: Vec<(i32, i32)> = grouped_channels(&channels)
        .into_iter()
        .flat_map(|(_, positions)| positions.into_iter().map(|p| (channels[p].group, channels[p].channel)))
        .collect();

    assert_eq!(ordered, [(0, 2), (0, 3), (1, 1), (1, 4)]);
}

#[test]
fn grouped_channels_name_each_nonempty_section_in_display_order() {
    let channels = vec![
        ChannelRef { group: 6, channel: 0 },
        ChannelRef { group: 2, channel: 1 },
        ChannelRef { group: 0, channel: 0 },
        ChannelRef { group: 2, channel: 0 },
    ];
    let sections: Vec<(&str, Vec<usize>)> = grouped_channels(&channels);
    assert_eq!(sections.len(), 3);
    assert_eq!(sections[0].0, "Inputs");
    assert_eq!(sections[0].1, vec![2]);
    assert_eq!(sections[1].0, "Aux");
    assert_eq!(sections[1].1, vec![3, 1]);
    assert_eq!(sections[2].0, channel_group(6));
}

#[test]
fn channel_sections_and_labels_follow_the_console_groups() {
    assert_eq!(channel_group(0), "Inputs");
    assert_eq!(channel_group(1), "Groups");
    assert_eq!(channel_label(3, 0), "LR");
    assert_eq!(channel_label(7, 2), "Cue");
    assert_eq!(channel_label(0, 4), "5");
    assert_eq!(channel_label(0, -3), "-2");
}

#[test]
fn duration_steps_are_whole_seconds_clamped_to_the_editor_range() {
    assert_eq!(step_duration(1_000, 1), 2_000);
    assert_eq!(step_duration(1_000, -1), 0);
    assert_eq!(step_duration(500, -1), 0);
    assert_eq!(step_duration(0, 1), 1_000);
    assert_eq!(step_duration(1_500, -1), 500);
    assert_eq!(step_duration(119_500, 1), 120_000);
    assert_eq!(step_duration(50, 0), 100);
}

#[test]
fn duration_steps_start_from_the_normalized_draft_or_the_projection() {
    assert_eq!(stepped_duration(Some(1_000), 1_000, 1), 2_000);
    assert_eq!(stepped_duration(Some(2_000), 1_000, 1), 3_000);
    assert_eq!(stepped_duration(None, 1_000, -1), 0);
    assert!(duration_step_requires_dispatch(1_000, 1_000, true));
    assert!(!duration_step_requires_dispatch(1_000, 1_000, false));
    assert!(duration_step_requires_dispatch(2_000, 1_000, false));
}

#[test]
fn duration_drafts_drop_whitespace_and_second_units() {
    assert_eq!(duration_seconds_text(" 1.5s "), Some("1.5".to_string()));
    assert_eq!(duration_seconds_text("2SS"), Some("2".to_string()));
    assert_eq!(duration_seconds_text(" s "), None);
    assert_eq!(duration_seconds_text(""), None);
}

#[test]
fn unlinked_rows_warn_before_any_other_marking() {
    let linked = scene(1, Some(0), "Verse");
    let unlinked = scene(2, None, "Verse");
    let current = SceneSummary { index: 0, name: "Verse".into() };
    let state = row_state(&linked, Some(&current), Some(1), None);
    assert!(state.current && state.cued && !state.selected && !state.unlinked);
    assert_eq!(row_color(state), RowTone::Current);
    let state = row_state(&unlinked, Some(&current), None, Some(2));
    assert_eq!(row_color(state), RowTone::Warning);
    let state = row_state(&linked, None, Some(1), Some(1));
    assert_eq!(row_color(state), RowTone::Cued);
}

#[test]
fn link_target_prefers_the_first_unlinked_console_scene() {
    let mut snapshot = AppViewState::default();
    assert_eq!(default_link_target(&snapshot), None);
    snapshot.scenes = vec![
        SceneSummary { index: 0, name: "A".into() },
        SceneSummary { index: 1, name: "B".into() },
    ];
    snapshot.scene_configs = vec![scene(1, Some(0), "A")];
    assert_eq!(default_link_target(&snapshot), Some(1));
    snapshot.scene_configs.push(scene(2, Some(1), "B"));
    assert_eq!(default_link_target(&snapshot), Some(0));
}

#[test]
fn the_selected_scene_is_found_by_its_identifier_text() {
    let mut snapshot = AppViewState::default();
    snapshot.scene_configs = vec![scene(5, Some(0), "A"), scene(6, Some(1), "B")];
    snapshot.selected_scene_internal_id = Some(uuid::Uuid::from_u128(6).to_string());
    assert_eq!(selected_scene(&snapshot).map(|s| s.internal_scene_id), Some(6));
    snapshot.selected_scene_internal_id = Some("not an id".to_string());
    assert!(selected_scene(&snapshot).is_none());
    assert_eq!(format_scene_number(Some(0)), "001");
}

#[test]
fn the_scope_panel_reports_its_toggles_and_flips_what_is_clicked() {
    let mut config = scene(1, Some(0), "Opening");
    assert_eq!(scope_panel(&config), ScopePanel::Unstored);
    assert!(unstored_scope_message().starts_with("Store this scene"));

    let a = ChannelRef { group: 0, channel: 1 };
    let b = ChannelRef { group: 1, channel: 2 };
    config.channel_configs = vec![a, b];
    config.scope_toggles = SceneScopeToggles { faders: true, pan: false };
    assert_eq!(
        scope_panel(&config),
        ScopePanel::Editor { faders: true, pan: false, all_scoped: false, none_scoped: true }
    );
    config.scoped_channels = vec![a];
    assert!(channel_scoped(&config, 0, 1));
    assert!(!channel_scoped(&config, 1, 2));
    assert_eq!(
        scope_panel(&config),
        ScopePanel::Editor { faders: true, pan: false, all_scoped: false, none_scoped: false }
    );
    config.scoped_channels = vec![b, a];
    assert_eq!(
        scope_panel(&config),
        ScopePanel::Editor { faders: true, pan: false, all_scoped: true, none_scoped: false }
    );

    assert_eq!(scope_command(&config, ScopeControl::Faders), ScopeCommand::SetFadersEnabled(false));
    assert_eq!(scope_command(&config, ScopeControl::Pan), ScopeCommand::SetPanEnabled(true));
    assert_eq!(scope_command(&config, ScopeControl::All), ScopeCommand::SetAllChannelsScoped(true));
    assert_eq!(
        scope_command(&config, ScopeControl::NoChannels),
        ScopeCommand::SetAllChannelsScoped(false)
    );
    assert_eq!(
        scope_command(&config, ScopeControl::Channel { group: 1, channel: 2 }),
        ScopeCommand::SetChannelScoped { group: 1, channel: 2, scoped: false }
    );
    assert_eq!(
        scope_command(&config, ScopeControl::Channel { group: 2, channel: 0 }),
        ScopeCommand::SetChannelScoped { group: 2, channel: 0, scoped: true }
    );
}
