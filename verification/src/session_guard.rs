//! The destructive-session guard: New, New from Template, Open and Quit may
//! replace or close a session with unsaved changes, so each of them first
//! obtains an authoritative session-state result and continues only when the
//! session is clean, the user chose Discard, or a save was confirmed clean.
use std::path::PathBuf;
use vstd::prelude::*;
use vstd::string::*;

verus! {

#[verifier::external_type_specification]
#[verifier::external_body]
pub struct ExPathBuf(PathBuf);

/// A session action that can discard unsaved work.
#[derive(Clone, Copy, Debug, Eq, PartialEq, Structural)]
pub enum SessionAction {
    New,
    NewFromTemplate,
    Open,
    Quit,
}

/// The user's answer to the "Save changes before continuing?" prompt.
#[derive(Clone, Copy, Debug, Eq, PartialEq, Structural)]
pub enum GuardChoice {
    Save,
    Discard,
    Cancel,
}

/// The authoritative session state reported by the show owner.
#[derive(Debug, Eq, PartialEq)]
pub struct SessionStatus {
    pub path: Option<PathBuf>,
    pub name: String,
    pub dirty: bool,
    pub persisted_session_revision: u64,
}

/// What a session status says to the guard.
pub struct SessionStatusView {
    pub path: Option<PathBuf>,
    pub name: Seq<char>,
    pub dirty: bool,
    pub revision: u64,
}

impl View for SessionStatus {
    type V = SessionStatusView;

    open spec fn view(&self) -> SessionStatusView {
        SessionStatusView {
            path: self.path,
            name: self.name@,
            dirty: self.dirty,
            revision: self.persisted_session_revision,
        }
    }
}

/// The view of a status query result: a status or an error message.
pub open spec fn status_result_view(result: Result<SessionStatus, String>) -> Result<
    SessionStatusView,
    Seq<char>,
> {
    match result {
        Ok(status) => Ok(status@),
        Err(error) => Err(error@),
    }
}

/// What the host must do after a guard transition.
#[derive(Debug, Eq, PartialEq)]
pub enum GuardEffect {
    NoOp,
    QueryState,
    Prompt(String),
    ChooseSaveDestination,
    SaveCurrent,
    SaveTo(PathBuf),
    Continue { action: SessionAction, expected_persisted_revision: Option<u64> },
    Error(String),
}

/// The mathematical content of an effect.
pub enum EffectView {
    NoOp,
    QueryState,
    Prompt(Seq<char>),
    ChooseSaveDestination,
    SaveCurrent,
    SaveTo(PathBuf),
    Continue { action: SessionAction, expected_persisted_revision: Option<u64> },
    Error(Seq<char>),
}

impl View for GuardEffect {
    type V = EffectView;

    open spec fn view(&self) -> EffectView {
        match self {
            GuardEffect::NoOp => EffectView::NoOp,
            GuardEffect::QueryState => EffectView::QueryState,
            GuardEffect::Prompt(name) => EffectView::Prompt(name@),
            GuardEffect::ChooseSaveDestination => EffectView::ChooseSaveDestination,
            GuardEffect::SaveCurrent => EffectView::SaveCurrent,
            GuardEffect::SaveTo(path) => EffectView::SaveTo(*path),
            GuardEffect::Continue { action, expected_persisted_revision } => EffectView::Continue {
                action: *action,
                expected_persisted_revision: *expected_persisted_revision,
            },
            GuardEffect::Error(message) => EffectView::Error(message@),
        }
    }
}

/// The abstract state of the guard: idle, or one pending action in one phase.
/// `post_save` distinguishes the recheck after a save from the first preflight.
pub enum GuardState {
    Idle,
    Querying { action: SessionAction, post_save: bool, query_id: Option<u64> },
    AwaitingChoice { action: SessionAction, titled: bool },
    AwaitingSaveDestination { action: SessionAction },
    Saving { action: SessionAction, command_id: Option<u64> },
}

impl GuardState {
    /// The pending action, if any.
    pub open spec fn action(self) -> Option<SessionAction> {
        match self {
            GuardState::Idle => None,
            GuardState::Querying { action, .. } => Some(action),
            GuardState::AwaitingChoice { action, .. } => Some(action),
            GuardState::AwaitingSaveDestination { action } => Some(action),
            GuardState::Saving { action, .. } => Some(action),
        }
    }
}

pub open spec fn query_failed_message(error: Seq<char>) -> Seq<char> {
    "Could not check the current session before continuing: "@ + error
}

pub open spec fn changed_while_saving_message() -> Seq<char> {
    "The session changed while it was being saved. The requested action was cancelled."@
}

/// `request`: only an idle guard accepts a new action, which enters a preflight query.
pub open spec fn spec_request(s: GuardState, action: SessionAction) -> (GuardState, EffectView) {
    match s {
        GuardState::Idle => (
            GuardState::Querying { action, post_save: false, query_id: None },
            EffectView::QueryState,
        ),
        _ => (s, EffectView::NoOp),
    }
}

/// `query_started`: a query phase without an identifier adopts the given one.
pub open spec fn spec_query_started(s: GuardState, query_id: u64) -> GuardState {
    match s {
        GuardState::Querying { action, post_save, query_id: None } => GuardState::Querying {
            action,
            post_save,
            query_id: Some(query_id),
        },
        _ => s,
    }
}

/// `state_query_stale`: the matching query is forgotten and a new one is requested,
/// keeping the preflight or post-save phase.
pub open spec fn spec_state_query_stale(s: GuardState, query_id: u64) -> (GuardState, EffectView) {
    match s {
        GuardState::Querying { action, post_save, query_id: Some(expected) } => if expected
            == query_id {
            (GuardState::Querying { action, post_save, query_id: None }, EffectView::QueryState)
        } else {
            (s, EffectView::NoOp)
        },
        _ => (s, EffectView::NoOp),
    }
}

/// `state_query_finished`: only the result of the query in flight counts.
pub open spec fn spec_state_query_finished(
    s: GuardState,
    query_id: u64,
    result: Result<SessionStatusView, Seq<char>>,
) -> (GuardState, EffectView) {
    match s {
        GuardState::Querying { action, post_save, query_id: Some(expected) } => if expected
            != query_id {
            (s, EffectView::NoOp)
        } else {
            match result {
                Err(error) => (GuardState::Idle, EffectView::Error(query_failed_message(error))),
                Ok(status) => if !status.dirty {
                    (
                        GuardState::Idle,
                        EffectView::Continue {
                            action,
                            expected_persisted_revision: Some(status.revision),
                        },
                    )
                } else if !post_save {
                    (
                        GuardState::AwaitingChoice { action, titled: status.path is Some },
                        EffectView::Prompt(status.name),
                    )
                } else {
                    (GuardState::Idle, EffectView::Error(changed_while_saving_message()))
                },
            }
        },
        _ => (s, EffectView::NoOp),
    }
}

/// `choose_response`: the prompt's answer.
pub open spec fn spec_choose(s: GuardState, choice: GuardChoice) -> (GuardState, EffectView) {
    match s {
        GuardState::AwaitingChoice { action, titled } => match choice {
            GuardChoice::Save => if titled {
                (GuardState::Saving { action, command_id: None }, EffectView::SaveCurrent)
            } else {
                (GuardState::AwaitingSaveDestination { action }, EffectView::ChooseSaveDestination)
            },
            GuardChoice::Discard => (
                GuardState::Idle,
                EffectView::Continue { action, expected_persisted_revision: None },
            ),
            GuardChoice::Cancel => (GuardState::Idle, EffectView::NoOp),
        },
        _ => (s, EffectView::NoOp),
    }
}

/// `save_destination`: a chosen path starts saving; no path abandons the action.
pub open spec fn spec_save_destination(s: GuardState, path: Option<PathBuf>) -> (
    GuardState,
    EffectView,
) {
    match s {
        GuardState::AwaitingSaveDestination { action } => match path {
            Some(p) => (GuardState::Saving { action, command_id: None }, EffectView::SaveTo(p)),
            None => (GuardState::Idle, EffectView::NoOp),
        },
        _ => (s, EffectView::NoOp),
    }
}

/// `save_started`: a save phase without a command identifier adopts the given one.
pub open spec fn spec_save_started(s: GuardState, command_id: u64) -> GuardState {
    match s {
        GuardState::Saving { action, command_id: None } => GuardState::Saving {
            action,
            command_id: Some(command_id),
        },
        _ => s,
    }
}

/// `command_finished`: a failed query in flight, or the save in flight, settles here.
pub open spec fn spec_command_finished(s: GuardState, command_id: u64, succeeded: bool) -> (
    GuardState,
    EffectView,
) {
    match s {
        GuardState::Querying { query_id: Some(expected), .. } => if expected == command_id
            && !succeeded {
            (GuardState::Idle, EffectView::NoOp)
        } else {
            (s, EffectView::NoOp)
        },
        GuardState::Saving { action, command_id: Some(expected) } => if expected != command_id {
            (s, EffectView::NoOp)
        } else if !succeeded {
            (GuardState::Idle, EffectView::NoOp)
        } else {
            (GuardState::Querying { action, post_save: true, query_id: None }, EffectView::QueryState)
        },
        _ => (s, EffectView::NoOp),
    }
}


/// Whether an effect lets the pending action go ahead.
pub open spec fn is_continue(e: EffectView) -> bool {
    e is Continue
}

/// A destructive action continues only after authorization: either the query in
/// flight reported a clean session, and the continuation carries exactly the
/// revision that it validated; or the user explicitly chose Discard at the prompt,
/// and the continuation carries no revision. No other transition continues.
/// Either way the continued action is the pending one.
pub proof fn law_continuation_requires_authorization(
    s: GuardState,
    action: SessionAction,
    id: u64,
    result: Result<SessionStatusView, Seq<char>>,
    choice: GuardChoice,
    path: Option<PathBuf>,
    succeeded: bool,
)
    ensures
        !is_continue(spec_request(s, action).1),
        !is_continue(spec_state_query_stale(s, id).1),
        !is_continue(spec_save_destination(s, path).1),
        !is_continue(spec_command_finished(s, id, succeeded).1),
        spec_state_query_finished(s, id, result).1 matches EffectView::Continue {
            action: a,
            expected_persisted_revision: rev,
        } ==> {
            &&& s matches GuardState::Querying { action: pending, query_id: Some(expected), .. }
            &&& expected == id
            &&& a == pending
            &&& result matches Ok(status)
            &&& !status.dirty
            &&& rev == Some(status.revision)
        },
        spec_choose(s, choice).1 matches EffectView::Continue {
            action: a,
            expected_persisted_revision: rev,
        } ==> {
            &&& s matches GuardState::AwaitingChoice { action: pending, .. }
            &&& a == pending
            &&& choice == GuardChoice::Discard
            &&& rev is None
        },
{
}

/// Once an action is pending, no transition swaps it for another one: a request
/// made while an action is pending is refused, and every other transition keeps
/// the pending action or returns to idle. From idle, only a request starts one.
pub proof fn law_pending_action_is_stable(
    s: GuardState,
    action: SessionAction,
    id: u64,
    result: Result<SessionStatusView, Seq<char>>,
    choice: GuardChoice,
    path: Option<PathBuf>,
    succeeded: bool,
)
    ensures
        !(s is Idle) ==> spec_request(s, action) == (s, EffectView::NoOp),
        s is Idle ==> spec_request(s, action).0.action() == Some(action),
        spec_query_started(s, id).action() == s.action(),
        spec_save_started(s, id).action() == s.action(),
        spec_state_query_stale(s, id).0.action() == s.action(),
        spec_state_query_finished(s, id, result).0 is Idle
            || spec_state_query_finished(s, id, result).0.action() == s.action(),
        spec_choose(s, choice).0 is Idle || spec_choose(s, choice).0.action() == s.action(),
        spec_save_destination(s, path).0 is Idle || spec_save_destination(s, path).0.action()
            == s.action(),
        spec_command_finished(s, id, succeeded).0 is Idle || spec_command_finished(
            s,
            id,
            succeeded,
        ).0.action() == s.action(),
{
}

/// Whether `id` names the session-state query in flight.
pub open spec fn query_in_flight(s: GuardState, id: u64) -> bool {
    match s {
        GuardState::Querying { query_id: Some(expected), .. } => expected == id,
        _ => false,
    }
}

/// Whether `id` names the save command in flight.
pub open spec fn save_in_flight(s: GuardState, id: u64) -> bool {
    match s {
        GuardState::Saving { command_id: Some(expected), .. } => expected == id,
        _ => false,
    }
}

/// Whether the guard is rechecking the session after a save.
pub open spec fn is_post_save(s: GuardState) -> bool {
    match s {
        GuardState::Querying { post_save, .. } => post_save,
        _ => false,
    }
}

/// Whether a query result reports a dirty session.
pub open spec fn reports_dirty(result: Result<SessionStatusView, Seq<char>>) -> bool {
    match result {
        Ok(status) => status.dirty,
        Err(_) => false,
    }
}

/// Results that do not belong to the query or save in flight change nothing.
pub proof fn law_uncorrelated_results_are_ignored(
    s: GuardState,
    id: u64,
    result: Result<SessionStatusView, Seq<char>>,
    succeeded: bool,
)
    ensures
        !query_in_flight(s, id) ==> spec_state_query_finished(s, id, result) == (
            s,
            EffectView::NoOp,
        ) && spec_state_query_stale(s, id) == (s, EffectView::NoOp),
        !query_in_flight(s, id) && !save_in_flight(s, id) ==> spec_command_finished(
            s,
            id,
            succeeded,
        ) == (s, EffectView::NoOp),
{
}

/// A matching stale query keeps both the pending action and its preflight or
/// post-save phase, and asks for a new query.
pub proof fn law_stale_query_retries_in_place(s: GuardState, id: u64)
    requires
        query_in_flight(s, id),
    ensures
        spec_state_query_stale(s, id).1 == EffectView::QueryState,
        spec_state_query_stale(s, id).0.action() == s.action(),
        is_post_save(spec_state_query_stale(s, id).0) == is_post_save(s),
        spec_state_query_stale(s, id).0 matches GuardState::Querying { query_id: None, .. },
{
}

/// A recheck after a save that still finds the session dirty cancels the action
/// with an error; a failed query cancels it with an error; a failed host command
/// for the query or save in flight cancels it without one.
pub proof fn law_failures_cancel_the_action(
    s: GuardState,
    id: u64,
    result: Result<SessionStatusView, Seq<char>>,
)
    ensures
        query_in_flight(s, id) && is_post_save(s) && reports_dirty(result)
            ==> spec_state_query_finished(s, id, result) == (
            GuardState::Idle,
            EffectView::Error(changed_while_saving_message()),
        ),
        query_in_flight(s, id) && result is Err ==> spec_state_query_finished(s, id, result).0 is Idle
            && spec_state_query_finished(s, id, result).1 is Error,
        query_in_flight(s, id) ==> spec_command_finished(s, id, false) == (
            GuardState::Idle,
            EffectView::NoOp,
        ),
        save_in_flight(s, id) ==> spec_command_finished(s, id, false) == (
            GuardState::Idle,
            EffectView::NoOp,
        ),
{
}

#[derive(Clone, Copy)]
enum QueryKind {
    Preflight,
    PostSave,
}

#[derive(Clone, Copy)]
enum GuardPhase {
    Querying { kind: QueryKind, query_id: Option<u64> },
    AwaitingChoice { titled: bool },
    AwaitingSaveDestination,
    Saving { command_id: Option<u64> },
}

#[derive(Clone, Copy)]
struct PendingAction {
    action: SessionAction,
    phase: GuardPhase,
}

/// Tracks at most one pending destructive session action.
pub struct SessionGuard {
    pending: Option<PendingAction>,
}

impl View for SessionGuard {
    type V = GuardState;

    closed spec fn view(&self) -> GuardState {
        match self.pending {
            None => GuardState::Idle,
            Some(p) => match p.phase {
                GuardPhase::Querying { kind, query_id } => GuardState::Querying {
                    action: p.action,
                    post_save: kind is PostSave,
                    query_id,
                },
                GuardPhase::AwaitingChoice { titled } => GuardState::AwaitingChoice {
                    action: p.action,
                    titled,
                },
                GuardPhase::AwaitingSaveDestination => GuardState::AwaitingSaveDestination {
                    action: p.action,
                },
                GuardPhase::Saving { command_id } => GuardState::Saving {
                    action: p.action,
                    command_id,
                },
            },
        }
    }
}

impl Default for SessionGuard {
    fn default() -> (guard: Self)
        ensures
            guard@ == GuardState::Idle,
    {
        SessionGuard { pending: None }
    }
}

impl SessionGuard {
    fn set(&mut self, action: SessionAction, phase: GuardPhase)
        ensures
            final(self).pending == Some(PendingAction { action, phase }),
    {
        self.pending = Some(PendingAction { action, phase });
    }

    /// Starts the authoritative preflight for `action` unless another action is pending.
    pub fn request(&mut self, action: SessionAction) -> (effect: GuardEffect)
        ensures
            (final(self)@, effect@) == spec_request(old(self)@, action),
    {
        if self.pending.is_some() {
            return GuardEffect::NoOp;
        }
        self.set(action, GuardPhase::Querying { kind: QueryKind::Preflight, query_id: None });
        GuardEffect::QueryState
    }

    /// A platform close request is always vetoed; the first one starts the Quit preflight.
    pub fn request_close(&mut self) -> (r: (bool, GuardEffect))
        ensures
            r.0 == false,
            (final(self)@, r.1@) == spec_request(old(self)@, SessionAction::Quit),
    {
        (false, self.request(SessionAction::Quit))
    }

    /// Records the identifier of the query that the host submitted.
    pub fn query_started(&mut self, query_id: u64)
        ensures
            final(self)@ == spec_query_started(old(self)@, query_id),
    {
        match self.pending {
            Some(PendingAction { action, phase: GuardPhase::Querying { kind, query_id: None } }) => {
                self.set(action, GuardPhase::Querying { kind, query_id: Some(query_id) });
            },
            _ => {},
        }
    }

    /// A matching query whose result is stale asks for another query in the same phase.
    pub fn state_query_stale(&mut self, query_id: u64) -> (effect: GuardEffect)
        ensures
            (final(self)@, effect@) == spec_state_query_stale(old(self)@, query_id),
    {
        match self.pending {
            Some(PendingAction { action, phase: GuardPhase::Querying { kind, query_id: slot } }) => {
                if slot != Some(query_id) {
                    return GuardEffect::NoOp;
                }
                self.set(action, GuardPhase::Querying { kind, query_id: None });
                GuardEffect::QueryState
            },
            _ => GuardEffect::NoOp,
        }
    }

    /// Drops the pending action; reports whether there was one.
    pub fn cancel_pending(&mut self) -> (had_pending: bool)
        ensures
            had_pending == !(old(self)@ is Idle),
            final(self)@ == GuardState::Idle,
    {
        self.pending.take().is_some()
    }

    pub fn is_pending(&self) -> (r: bool)
        ensures
            r == !(self@ is Idle),
    {
        self.pending.is_some()
    }

    /// Applies the result of the session-state query in flight.
    pub fn state_query_finished(&mut self, query_id: u64, result: Result<SessionStatus, String>) -> (effect: GuardEffect)
        ensures
            (final(self)@, effect@) == spec_state_query_finished(
                old(self)@,
                query_id,
                status_result_view(result),
            ),
    {
        let (action, kind) = match self.pending {
            Some(
                PendingAction { action, phase: GuardPhase::Querying { kind, query_id: Some(expected) } },
            ) => {
                if expected != query_id {
                    return GuardEffect::NoOp;
                }
                (action, kind)
            },
            _ => {
                return GuardEffect::NoOp;
            },
        };
        let status = match result {
            Ok(status) => status,
            Err(error) => {
                self.pending = None;
                let mut message = String::from_str(
                    "Could not check the current session before continuing: ",
                );
                message.append(error.as_str());
                return GuardEffect::Error(message);
            },
        };
        if !status.dirty {
            self.pending = None;
            return GuardEffect::Continue {
                action,
                expected_persisted_revision: Some(status.persisted_session_revision),
            };
        }
        match kind {
            QueryKind::Preflight => {
                self.set(action, GuardPhase::AwaitingChoice { titled: status.path.is_some() });
                GuardEffect::Prompt(status.name)
            },
            QueryKind::PostSave => {
                self.pending = None;
                GuardEffect::Error(
                    String::from_str(
                        "The session changed while it was being saved. The requested action was cancelled.",
                    ),
                )
            },
        }
    }

    /// Applies the user's answer to the dirty-session prompt.
    pub fn choose_response(&mut self, choice: GuardChoice) -> (effect: GuardEffect)
        ensures
            (final(self)@, effect@) == spec_choose(old(self)@, choice),
    {
        let (action, titled) = match self.pending {
            Some(PendingAction { action, phase: GuardPhase::AwaitingChoice { titled } }) => (
                action,
                titled,
            ),
            _ => {
                return GuardEffect::NoOp;
            },
        };
        match choice {
            GuardChoice::Save => {
                if titled {
                    self.set(action, GuardPhase::Saving { command_id: None });
                    GuardEffect::SaveCurrent
                } else {
                    self.set(action, GuardPhase::AwaitingSaveDestination);
                    GuardEffect::ChooseSaveDestination
                }
            },
            GuardChoice::Discard => {
                self.pending = None;
                GuardEffect::Continue { action, expected_persisted_revision: None }
            },
            GuardChoice::Cancel => {
                self.pending = None;
                GuardEffect::NoOp
            },
        }
    }

    /// Applies the result of the save-destination picker.
    pub fn save_destination(&mut self, path: Option<PathBuf>) -> (effect: GuardEffect)
        ensures
            (final(self)@, effect@) == spec_save_destination(old(self)@, path),
    {
        let action = match self.pending {
            Some(PendingAction { action, phase: GuardPhase::AwaitingSaveDestination }) => action,
            _ => {
                return GuardEffect::NoOp;
            },
        };
        match path {
            Some(path) => {
                self.set(action, GuardPhase::Saving { command_id: None });
                GuardEffect::SaveTo(path)
            },
            None => {
                self.pending = None;
                GuardEffect::NoOp
            },
        }
    }

    /// Records the identifier of the save command that the host submitted.
    pub fn save_started(&mut self, command_id: u64)
        ensures
            final(self)@ == spec_save_started(old(self)@, command_id),
    {
        match self.pending {
            Some(PendingAction { action, phase: GuardPhase::Saving { command_id: None } }) => {
                self.set(action, GuardPhase::Saving { command_id: Some(command_id) });
            },
            _ => {},
        }
    }

    /// Settles a finished host command: a failed query in flight or the save in flight.
    pub fn command_finished(&mut self, command_id: u64, succeeded: bool) -> (effect: GuardEffect)
        ensures
            (final(self)@, effect@) == spec_command_finished(old(self)@, command_id, succeeded),
    {
        match self.pending {
            Some(PendingAction { action, phase: GuardPhase::Querying { query_id: Some(expected), .. } }) => {
                if expected == command_id && !succeeded {
                    self.pending = None;
                }
                GuardEffect::NoOp
            },
            Some(PendingAction { action, phase: GuardPhase::Saving { command_id: Some(expected) } }) => {
                if expected != command_id {
                    return GuardEffect::NoOp;
                }
                if !succeeded {
                    self.pending = None;
                    return GuardEffect::NoOp;
                }
                self.set(action, GuardPhase::Querying { kind: QueryKind::PostSave, query_id: None });
                GuardEffect::QueryState
            },
            _ => GuardEffect::NoOp,
        }
    }
}


/// What the window does with a finished session-state query.
#[derive(Debug, Eq, PartialEq)]
pub enum SessionQueryOutcome {
    /// A modal surface opened meanwhile: the pending action was dropped;
    /// `notify` says whether there was one to report as cancelled.
    Cancelled { notify: bool },
    /// Apply this guard effect.
    Effect(GuardEffect),
}

/// A session-state answer is stale when persisted edits were submitted after
/// the query was issued, or when the owner's persisted revision has moved on.
pub open spec fn status_is_stale(
    query_edit_epoch: u64,
    current_edit_epoch: u64,
    result: Result<SessionStatus, String>,
    current_persisted_revision: u64,
) -> bool {
    query_edit_epoch != current_edit_epoch || (result matches Ok(status)
        && status.persisted_session_revision != current_persisted_revision)
}

/// A finished session-state query, checked and applied in one step: while a
/// prompt, dialog or in-window modal is showing, the pending action is
/// cancelled; a stale answer retries the query in the same phase; otherwise the
/// answer goes to the guard.
pub fn session_state_query_finished(
    guard: &mut SessionGuard,
    query_id: u64,
    modal_active: bool,
    query_edit_epoch: u64,
    current_edit_epoch: u64,
    result: Result<SessionStatus, String>,
    current_persisted_revision: u64,
) -> (r: SessionQueryOutcome)
    ensures
        modal_active ==> r == (SessionQueryOutcome::Cancelled { notify: !(old(guard)@ is Idle) })
            && final(guard)@ is Idle,
        !modal_active && status_is_stale(
            query_edit_epoch,
            current_edit_epoch,
            result,
            current_persisted_revision,
        ) ==> (r matches SessionQueryOutcome::Effect(e) && (final(guard)@, e@)
            == spec_state_query_stale(old(guard)@, query_id)),
        !modal_active && !status_is_stale(
            query_edit_epoch,
            current_edit_epoch,
            result,
            current_persisted_revision,
        ) ==> (r matches SessionQueryOutcome::Effect(e) && (final(guard)@, e@)
            == spec_state_query_finished(old(guard)@, query_id, status_result_view(result))),
{
    if modal_active {
        let notify = guard.cancel_pending();
        return SessionQueryOutcome::Cancelled { notify };
    }
    let stale = query_edit_epoch != current_edit_epoch || match &result {
        Ok(status) => status.persisted_session_revision != current_persisted_revision,
        Err(_) => false,
    };
    if stale {
        SessionQueryOutcome::Effect(guard.state_query_stale(query_id))
    } else {
        SessionQueryOutcome::Effect(guard.state_query_finished(query_id, result))
    }
}

/// What a guarded quit does once the guard has allowed it.
pub enum GuardedQuit {
    /// The persisted revision is still the one the guard checked: quit now.
    Quit,
    /// The session changed since: the quit preflight starts again with this effect.
    Restart(GuardEffect),
}

/// Quit is admitted only when the persisted session revision is exactly the
/// one the guard authorized; otherwise the guard is asked for Quit again.
pub fn guarded_quit(guard: &mut SessionGuard, expected_revision: u64, persisted_revision: u64) -> (r:
    GuardedQuit)
    ensures
        expected_revision == persisted_revision ==> r is Quit && final(guard)@ == old(guard)@,
        expected_revision != persisted_revision ==> (r matches GuardedQuit::Restart(e) && (
        final(guard)@,
        e@,
        ) == spec_request(old(guard)@, SessionAction::Quit)),
{
    if expected_revision == persisted_revision {
        GuardedQuit::Quit
    } else {
        GuardedQuit::Restart(guard.request(SessionAction::Quit))
    }
}

} // verus!
