//! The events that the command runtime hands to the presentation.
use vstd::prelude::*;
use crate::connection::{Lv1SystemIdentity, TcpConnectProbeResult};
use crate::errors::{error_message, map_app_command_error, AppCommandError};
use crate::text::text_eq;
use crate::show_session::ShowSessionState;
use crate::view_state::AppViewState;

verus! {

/// The outcome of recalling the cued cue: the entry that was recalled.
#[derive(Debug, Clone, Copy, PartialEq, Eq, Structural)]
pub struct CueRecallResult {
    pub recalled_entry_id: u128,
}

/// What the presentation learns from the runtime, in order.
#[derive(Debug)]
pub enum UiEvent {
    Snapshot(Box<AppViewState>),
    CommandStarted { command_id: u64 },
    CommandFinished { command_id: u64, result: Result<(), String> },
    CueRecallFinished {
        command_id: u64,
        session_revision: u64,
        canceled_by_session_replacement: bool,
        result: Result<CueRecallResult, String>,
    },
    SaveDestinationRequired { command_id: u64 },
    SessionStateQueryFinished {
        query_id: u64,
        persisted_edit_epoch: u64,
        result: Result<ShowSessionState, String>,
    },
    LatencyMeasured {
        session_id: u64,
        identity: Lv1SystemIdentity,
        result: Result<TcpConnectProbeResult, String>,
    },
}

/// The reason with which a replaced session cancels a queued recall.
pub open spec fn session_replaced_reason() -> Seq<char> {
    "session was replaced"@
}

/// The event that reports a cued-cue recall: a recall canceled because the
/// session was replaced is marked as such, and an error is reported by its
/// message.
pub fn cue_recall_finished(
    command_id: u64,
    session_revision: u64,
    result: Result<CueRecallResult, AppCommandError>,
) -> (event: UiEvent)
    ensures
        event matches UiEvent::CueRecallFinished {
            command_id: c,
            session_revision: r,
            canceled_by_session_replacement,
            result: reported,
        } && c == command_id && r == session_revision && canceled_by_session_replacement == (
        result matches Err(AppCommandError::RecallCanceled(reason)) && reason@
            == session_replaced_reason()) && match result {
            Ok(value) => reported == Ok::<CueRecallResult, String>(value),
            Err(error) => reported matches Err(message) && message@ == error_message(error),
        },
{
    let canceled = match &result {
        Err(AppCommandError::RecallCanceled(reason)) => text_eq(reason.as_str(), "session was replaced"),
        _ => false,
    };
    let reported = match result {
        Ok(value) => Ok(value),
        Err(error) => Err(map_app_command_error(error)),
    };
    UiEvent::CueRecallFinished {
        command_id,
        session_revision,
        canceled_by_session_replacement: canceled,
        result: reported,
    }
}

} // verus!
