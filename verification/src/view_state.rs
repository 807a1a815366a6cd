//! The projected application state that the presentation logic reads: scenes,
//! cue lists, the console connection and the session file.
use vstd::prelude::*;
use crate::connection::{DiscoveredLv1System, Lv1SystemIdentity};
use crate::keyboard::{KeyboardShortcutModifiers, KeyboardShortcuts};

verus! {

/// The console connection as projected for the presentation.
#[derive(Debug, Clone, Copy, PartialEq, Eq, Structural)]
pub enum AppConnectionState {
    Disconnected,
    Connecting,
    Connected,
}

/// A scene known to the console: its zero-based index and its name.
#[derive(Debug, Clone, PartialEq, Eq)]
pub struct SceneSummary {
    pub index: i32,
    pub name: String,
}

/// A console channel, addressed by group and channel number.
#[derive(Debug, Clone, Copy, PartialEq, Eq, Structural)]
pub struct ChannelRef {
    pub group: i32,
    pub channel: i32,
}

/// Which parameter families a scene's recall fades.
#[derive(Debug, Clone, Copy, PartialEq, Eq, Structural)]
pub struct SceneScopeToggles {
    pub faders: bool,
    pub pan: bool,
}

/// A stored scene configuration. Identifiers are the 128-bit values of UUIDs.
/// `channel_configs` lists the channels whose state was stored with the scene
/// (the stored levels themselves are presentation data kept by the app).
#[derive(Debug, Clone, PartialEq, Eq)]
pub struct SceneConfig {
    pub internal_scene_id: u128,
    pub scene_index: Option<i32>,
    pub scene_name: String,
    pub duration_ms: u64,
    pub channel_configs: Vec<ChannelRef>,
    pub scoped_channels: Vec<ChannelRef>,
    pub scope_toggles: SceneScopeToggles,
}

/// One entry of a cue list: a reference to a scene configuration.
#[derive(Debug, Clone, Copy, PartialEq, Eq, Structural)]
pub struct CueEntry {
    pub id: u128,
    pub scene_internal_id: u128,
}

/// A named, ordered list of cues.
#[derive(Debug, Clone, PartialEq, Eq)]
pub struct CueList {
    pub id: u128,
    pub name: String,
    pub entries: Vec<CueEntry>,
}

/// The persisted cue-list document.
#[derive(Debug, Clone, PartialEq, Eq)]
pub struct CueListDocument {
    pub cue_lists: Vec<CueList>,
    pub active_cue_list_id: Option<u128>,
    pub cued_cue_entry_id: Option<u128>,
}

/// Severity of a projected log line.
#[derive(Debug, Clone, Copy, PartialEq, Eq, Structural)]
pub enum LogSeverity {
    Info,
    Warning,
    Error,
}

/// A projected log line.
#[derive(Debug, Clone, PartialEq, Eq)]
pub struct LogEntry {
    pub timestamp: String,
    pub severity: LogSeverity,
    pub message: String,
}

/// The projected state that the views render. Identifier strings hold the
/// hyphenated text of UUIDs.
#[derive(Debug, Clone, PartialEq, Eq)]
pub struct AppViewState {
    pub connection: AppConnectionState,
    pub connected_lv1_identity: Option<Lv1SystemIdentity>,
    pub discovered_lv1_systems: Vec<DiscoveredLv1System>,
    pub scenes: Vec<SceneSummary>,
    pub scene_configs: Vec<SceneConfig>,
    pub selected_scene_internal_id: Option<String>,
    pub cue_lists: Vec<CueList>,
    pub active_cue_list_id: Option<String>,
    pub cued_cue_entry_id: Option<String>,
    pub session_revision: u64,
    pub show_file_name: String,
    pub keyboard_shortcuts: KeyboardShortcuts,
    pub logs: Vec<LogEntry>,
}

impl Default for AppViewState {
    /// A disconnected, empty projection with the default shortcuts.
    fn default() -> (s: Self)
        ensures
            s.connection == AppConnectionState::Disconnected,
            s.connected_lv1_identity is None,
            s.discovered_lv1_systems@.len() == 0,
            s.scenes@.len() == 0,
            s.scene_configs@.len() == 0,
            s.selected_scene_internal_id is None,
            s.cue_lists@.len() == 0,
            s.active_cue_list_id is None,
            s.cued_cue_entry_id is None,
            s.session_revision == 0,
            s.show_file_name@.len() == 0,
            s.keyboard_shortcuts.go.key@ == "Space"@,
            s.keyboard_shortcuts.cue.key@ == "C"@,
            s.keyboard_shortcuts.go.modifiers == (KeyboardShortcutModifiers { shift: false, control: false, alt: false, meta: false }),
            s.keyboard_shortcuts.cue.modifiers == (KeyboardShortcutModifiers { shift: false, control: false, alt: false, meta: false }),
            s.logs@.len() == 0,
    {
        AppViewState {
            connection: AppConnectionState::Disconnected,
            connected_lv1_identity: None,
            discovered_lv1_systems: Vec::new(),
            scenes: Vec::new(),
            scene_configs: Vec::new(),
            selected_scene_internal_id: None,
            cue_lists: Vec::new(),
            active_cue_list_id: None,
            cued_cue_entry_id: None,
            session_revision: 0,
            show_file_name: String::new(),
            keyboard_shortcuts: KeyboardShortcuts::default(),
            logs: Vec::new(),
        }
    }
}

/// The logs view keeps the latest projected state.
pub struct LogsView {
    pub snapshot: AppViewState,
}

impl LogsView {
    pub fn new(snapshot: AppViewState) -> (view: Self)
        ensures
            view.snapshot == snapshot,
    {
        LogsView { snapshot }
    }
}

} // verus!
