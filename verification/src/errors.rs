//! Command errors and the text the presentation shows for them.
use vstd::prelude::*;
use crate::text::string_of;

verus! {

/// Why an application command did not complete.
#[derive(Clone, Debug, PartialEq, Eq)]
pub enum AppCommandError {
    /// A command failed with a message that is already fit for the user.
    CommandFailed(String),
    Lv1Unavailable,
    FadeUnavailable,
    ScenesUnavailable,
    ShowUnavailable,
    ReplyChannelClosed,
    /// A cue recall was canceled, with the reason.
    RecallCanceled(String),
    StaleGeneration,
}

/// The user-facing text of an error.
pub open spec fn error_message(error: AppCommandError) -> Seq<char> {
    match error {
        AppCommandError::CommandFailed(message) => message@,
        AppCommandError::Lv1Unavailable => "LV1 is unavailable"@,
        AppCommandError::FadeUnavailable => "fade engine is unavailable"@,
        AppCommandError::ScenesUnavailable => "scene state is unavailable"@,
        AppCommandError::ShowUnavailable => "show state is unavailable"@,
        AppCommandError::ReplyChannelClosed => "reply channel is closed"@,
        AppCommandError::RecallCanceled(reason) => "recall canceled: "@ + reason@,
        AppCommandError::StaleGeneration => "generation is stale"@,
    }
}

impl AppCommandError {
    /// The user-facing text of this error.
    pub fn message(&self) -> (s: String)
        ensures
            s@ == error_message(*self),
    {
        match self {
            AppCommandError::CommandFailed(message) => message.clone(),
            AppCommandError::Lv1Unavailable => string_of("LV1 is unavailable"),
            AppCommandError::FadeUnavailable => string_of("fade engine is unavailable"),
            AppCommandError::ScenesUnavailable => string_of("scene state is unavailable"),
            AppCommandError::ShowUnavailable => string_of("show state is unavailable"),
            AppCommandError::ReplyChannelClosed => string_of("reply channel is closed"),
            AppCommandError::RecallCanceled(reason) => {
                let mut text = string_of("recall canceled: ");
                text.append(reason.as_str());
                text
            },
            AppCommandError::StaleGeneration => string_of("generation is stale"),
        }
    }
}

/// The message handed to the presentation: a failed command keeps its own
/// message, every other error is described by its text.
pub fn map_app_command_error(error: AppCommandError) -> (s: String)
    ensures
        s@ == error_message(error),
        error matches AppCommandError::CommandFailed(m) ==> s@ == m@,
{
    match error {
        AppCommandError::CommandFailed(message) => message,
        other => other.message(),
    }
}

/// The message for a cue-list command whose owner is gone.
pub fn cue_lists_unavailable() -> (s: String)
    ensures
        s@ == "cue lists are unavailable"@,
{
    map_app_command_error(AppCommandError::CommandFailed(string_of("cue lists are unavailable")))
}

} // verus!
