//! Verified core of Advanced Show Control, a desktop controller for LV1 scene
//! fades: the fade engine's target bookkeeping, the runtime generation fence
//! and connection transaction, the destructive-session guard, the connection
//! chooser and its latency probes, keyboard shortcuts and settings editing, and
//! the presentation rules of the scene and cue-list views.

pub mod text;
pub mod lookup;
pub mod ordering_text;
pub mod ids;
pub mod keyed;
pub mod errors;

pub mod fade;
pub mod fade_engine;
pub mod lifecycle;

pub mod keyboard;
pub mod settings;
pub mod connection;
pub mod view_state;
pub mod ui_event;
pub mod session_guard;
pub mod show_session;

pub mod cues;
pub mod cue_manager;
pub mod scenes;
pub mod scene_editor;
