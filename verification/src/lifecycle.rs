//! The runtime generation fence. Each connection attempt runs under a new
//! generation; a console runtime (its LV1 and fade endpoints, one value) is
//! installed, used and cleared only while its generation is the active one, so
//! work of a superseded connection can never act on a newer one.
use vstd::prelude::*;
use crate::errors::{error_message, AppCommandError};
use crate::text::string_of;

verus! {

/// A console runtime bound to the generation it was built for.
pub struct InstalledRuntime<R> {
    pub generation: u64,
    pub endpoints: R,
}

/// The result of clearing the active runtime.
#[derive(Debug, Clone, Copy, PartialEq, Eq, Structural)]
pub struct RuntimeClearTransaction {
    pub cleared_generation: u64,
    pub active_generation: u64,
}

/// What a disconnect request for a generation amounted to.
#[derive(Debug, Clone, Copy, PartialEq, Eq, Structural)]
pub enum DisconnectOutcome {
    /// A newer generation owns the connection; nothing was changed.
    Superseded,
    /// The requested generation was active and has been cleared.
    Disconnected(RuntimeClearTransaction),
}

/// The abstract lifecycle: the active generation, whether a connection is being
/// established, and the generation of the installed runtime.
pub struct LifecycleView {
    pub generation: u64,
    pub connecting: bool,
    pub runtime_generation: Option<u64>,
}

pub open spec fn spec_begin_connecting(s: LifecycleView) -> LifecycleView {
    LifecycleView { generation: (s.generation + 1) as u64, connecting: true, ..s }
}

pub open spec fn spec_install(s: LifecycleView, candidate: u64) -> (LifecycleView, bool) {
    if candidate == s.generation {
        (
            LifecycleView {
                generation: s.generation,
                connecting: false,
                runtime_generation: Some(candidate),
            },
            true,
        )
    } else {
        (s, false)
    }
}

pub open spec fn spec_clear_if_current(s: LifecycleView, expected: u64) -> (
    LifecycleView,
    Option<RuntimeClearTransaction>,
) {
    if expected == s.generation {
        let next = (s.generation + 1) as u64;
        (
            LifecycleView { generation: next, connecting: false, runtime_generation: None },
            Some(RuntimeClearTransaction { cleared_generation: expected, active_generation: next }),
        )
    } else {
        (s, None)
    }
}

pub open spec fn spec_abort_rejected(s: LifecycleView, candidate: u64) -> (LifecycleView, bool) {
    if s.runtime_generation == Some(candidate) {
        (LifecycleView { runtime_generation: None, ..s }, true)
    } else {
        (s, false)
    }
}

pub open spec fn spec_finish_disconnect(
    s: LifecycleView,
    generation: u64,
    metadata_cleared: bool,
) -> (LifecycleView, DisconnectOutcome) {
    if !metadata_cleared {
        (s, DisconnectOutcome::Superseded)
    } else {
        match spec_clear_if_current(s, generation) {
            (s2, Some(t)) => (s2, DisconnectOutcome::Disconnected(t)),
            (s2, None) => (s2, DisconnectOutcome::Superseded),
        }
    }
}

/// A runtime is visible to consumers only when it belongs to the active generation.
pub open spec fn spec_connected(s: LifecycleView) -> Option<u64> {
    match s.runtime_generation {
        Some(g) => if g == s.generation {
            Some(g)
        } else {
            None
        },
        None => None,
    }
}

/// Lifecycle state shared by the connection transitions.
pub struct LifecycleInner<R> {
    generation: u64,
    connecting: bool,
    runtime: Option<InstalledRuntime<R>>,
}

impl<R> LifecycleInner<R> {
    pub closed spec fn view(&self) -> LifecycleView {
        LifecycleView {
            generation: self.generation,
            connecting: self.connecting,
            runtime_generation: match self.runtime {
                Some(r) => Some(r.generation),
                None => None,
            },
        }
    }

    /// No runtime is installed and nothing is connecting.
    pub fn new(generation: u64) -> (s: Self)
        ensures
            s.view() == (LifecycleView { generation, connecting: false, runtime_generation: None }),
    {
        LifecycleInner { generation, connecting: false, runtime: None }
    }

    pub fn active_generation(&self) -> (g: u64)
        ensures
            g == self.view().generation,
    {
        self.generation
    }

    pub fn is_connecting(&self) -> (c: bool)
        ensures
            c == self.view().connecting,
    {
        self.connecting
    }

    /// Advances the active generation before marking the connection pending, and
    /// returns the new generation.
    pub fn begin_connecting(&mut self) -> (g: u64)
        requires
            old(self).view().generation < u64::MAX,
        ensures
            final(self).view() == spec_begin_connecting(old(self).view()),
            g == final(self).view().generation,
    {
        self.generation = self.generation + 1;
        self.connecting = true;
        self.generation
    }

    /// Accepts a candidate runtime only for the exact active generation; a
    /// rejected candidate is handed back and nothing changes.
    pub fn install_runtime_transaction(&mut self, runtime: InstalledRuntime<R>) -> (r: Result<
        (),
        InstalledRuntime<R>,
    >)
        ensures
            (final(self).view(), r is Ok) == spec_install(old(self).view(), runtime.generation),
            r matches Err(back) ==> back == runtime,
            r is Ok ==> final(self).current_endpoints() == Some(runtime.endpoints),
    {
        if self.generation != runtime.generation {
            return Err(runtime);
        }
        self.runtime = Some(runtime);
        self.connecting = false;
        Ok(())
    }

    /// The endpoints of the installed runtime, whatever its generation.
    pub closed spec fn current_endpoints(&self) -> Option<R> {
        match self.runtime {
            Some(r) => Some(r.endpoints),
            None => None,
        }
    }

    pub fn current_runtime(&self) -> (r: Option<&R>)
        ensures
            match r {
                Some(e) => self.current_endpoints() == Some(*e),
                None => self.current_endpoints() is None,
            },
    {
        match &self.runtime {
            Some(runtime) => Some(&runtime.endpoints),
            None => None,
        }
    }

    /// The installed runtime and its generation, only when that generation is
    /// the active one.
    pub fn connected_runtime(&self) -> (r: Option<(u64, &R)>)
        ensures
            match r {
                Some((g, e)) => spec_connected(self.view()) == Some(g) && self.current_endpoints()
                    == Some(*e),
                None => spec_connected(self.view()) is None,
            },
    {
        match &self.runtime {
            Some(runtime) => {
                if runtime.generation == self.generation {
                    Some((self.generation, &runtime.endpoints))
                } else {
                    None
                }
            },
            None => None,
        }
    }

    /// The endpoints from which scene peers may be installed for `generation`:
    /// only when it is active and the installed runtime belongs to it.
    pub fn scene_peer_endpoints(&self, generation: u64) -> (r: Option<&R>)
        ensures
            match r {
                Some(e) => spec_connected(self.view()) == Some(generation) && self.current_endpoints()
                    == Some(*e),
                None => spec_connected(self.view()) != Some(generation),
            },
    {
        if self.generation != generation {
            return None;
        }
        match &self.runtime {
            Some(runtime) => {
                if runtime.generation == generation {
                    Some(&runtime.endpoints)
                } else {
                    None
                }
            },
            None => None,
        }
    }

    /// Compare-and-advance: when `expected_generation` is active, advances the
    /// generation, removes the runtime and clears connecting; otherwise changes
    /// nothing.
    pub fn clear_runtime_if_current(&mut self, expected_generation: u64) -> (r: Option<
        RuntimeClearTransaction,
    >)
        requires
            old(self).view().generation == expected_generation ==> old(self).view().generation
                < u64::MAX,
        ensures
            (final(self).view(), r) == spec_clear_if_current(old(self).view(), expected_generation),
            r is None ==> final(self).current_endpoints() == old(self).current_endpoints(),
    {
        if self.generation != expected_generation {
            return None;
        }
        self.generation = self.generation + 1;
        self.runtime = None;
        self.connecting = false;
        Some(
            RuntimeClearTransaction {
                cleared_generation: expected_generation,
                active_generation: self.generation,
            },
        )
    }

    /// Removes the installed runtime only if it still belongs to the rejected
    /// candidate's generation; reports whether it did.
    pub fn abort_rejected_connection_transaction(&mut self, candidate_generation: u64) -> (r: bool)
        ensures
            (final(self).view(), r) == spec_abort_rejected(old(self).view(), candidate_generation),
            !r ==> final(self).current_endpoints() == old(self).current_endpoints(),
    {
        let matches = match &self.runtime {
            Some(runtime) => runtime.generation == candidate_generation,
            None => false,
        };
        if matches {
            self.runtime = None;
        }
        matches
    }

    /// Invalidates whatever runtime is active: the active generation advances
    /// and its runtime is removed (see `clear_runtime_if_current`).
    pub fn abort_current_runtime(&mut self) -> (r: RuntimeClearTransaction)
        requires
            old(self).view().generation < u64::MAX,
        ensures
            (final(self).view(), Some(r)) == spec_clear_if_current(
                old(self).view(),
                old(self).view().generation,
            ),
    {
        let generation = self.generation;
        match self.clear_runtime_if_current(generation) {
            Some(t) => t,
            None => RuntimeClearTransaction { cleared_generation: generation, active_generation: generation },
        }
    }

    /// Shutdown after its disconnect request: when the disconnect failed, the
    /// active generation is still invalidated and its runtime removed, and the
    /// shutdown reports failure (`false`); a successful disconnect changes
    /// nothing more.
    pub fn finish_shutdown(&mut self, disconnect_succeeded: bool) -> (clean: bool)
        requires
            !disconnect_succeeded ==> old(self).view().generation < u64::MAX,
        ensures
            clean == disconnect_succeeded,
            disconnect_succeeded ==> final(self).view() == old(self).view(),
            !disconnect_succeeded ==> final(self).view() == spec_clear_if_current(
                old(self).view(),
                old(self).view().generation,
            ).0,
    {
        if !disconnect_succeeded {
            let _ = self.abort_current_runtime();
        }
        disconnect_succeeded
    }

    /// Decides a disconnect of `generation` once the show owner has answered
    /// whether it cleared the connection metadata for that generation.
    pub fn finish_disconnect(&mut self, generation: u64, metadata_cleared: bool) -> (r:
        DisconnectOutcome)
        requires
            metadata_cleared && old(self).view().generation == generation ==> old(
                self,
            ).view().generation < u64::MAX,
        ensures
            (final(self).view(), r) == spec_finish_disconnect(
                old(self).view(),
                generation,
                metadata_cleared,
            ),
    {
        if !metadata_cleared {
            return DisconnectOutcome::Superseded;
        }
        match self.clear_runtime_if_current(generation) {
            Some(transaction) => DisconnectOutcome::Disconnected(transaction),
            None => DisconnectOutcome::Superseded,
        }
    }
}

/// The effective discovery timeout: 1000 ms by default, clamped to 100–6000 ms.
pub fn discovery_timeout_ms(timeout_ms: Option<u64>) -> (t: u64)
    ensures
        t == match timeout_ms {
            None => 1000,
            Some(v) => if v < 100 {
                100
            } else if v > 6000 {
                6000
            } else {
                v
            },
        },
{
    let v = match timeout_ms {
        Some(v) => v,
        None => 1000,
    };
    if v < 100 {
        100
    } else if v > 6000 {
        6000
    } else {
        v
    }
}

/// The active generation never decreases; every transition that changes the
/// runtime does so only for the exact active generation; a stale clear or
/// disconnect has no effect at all; and a runtime is exposed to consumers only
/// for the active generation.
pub proof fn law_generation_fence(
    s: LifecycleView,
    candidate: u64,
    expected: u64,
    metadata_cleared: bool,
)
    requires
        s.generation < u64::MAX,
    ensures
        spec_begin_connecting(s).generation > s.generation,
        spec_install(s, candidate).0.generation == s.generation,
        spec_clear_if_current(s, expected).0.generation >= s.generation,
        spec_abort_rejected(s, candidate).0.generation == s.generation,
        spec_finish_disconnect(s, expected, metadata_cleared).0.generation >= s.generation,
        spec_install(s, candidate).1 <==> candidate == s.generation,
        spec_install(s, candidate).1 ==> spec_connected(spec_install(s, candidate).0) == Some(
            candidate,
        ),
        expected != s.generation ==> spec_clear_if_current(s, expected) == (s, None::<RuntimeClearTransaction>),
        expected != s.generation ==> spec_finish_disconnect(s, expected, metadata_cleared) == (
            s,
            DisconnectOutcome::Superseded,
        ),
        !metadata_cleared ==> spec_finish_disconnect(s, expected, metadata_cleared) == (
            s,
            DisconnectOutcome::Superseded,
        ),
        spec_connected(spec_begin_connecting(s)) is None || s.runtime_generation == Some(
            (s.generation + 1) as u64,
        ),
        spec_connected(s) matches Some(g) ==> g == s.generation,
        spec_clear_if_current(s, s.generation).0.runtime_generation is None,
{
}

/// A runtime that was installed is superseded by the next connection: after
/// `begin_connecting` it is no longer exposed, and no later clear or install for
/// its generation is accepted.
pub proof fn law_superseded_runtime_is_fenced(s: LifecycleView, old_generation: u64)
    requires
        s.generation < u64::MAX,
        old_generation <= s.generation,
    ensures
        ({
            let t = spec_begin_connecting(s);
            &&& spec_connected(t) != Some(old_generation)
            &&& !spec_install(t, old_generation).1
            &&& spec_clear_if_current(t, old_generation).1 is None
        }),
{
}

/// Where a connection transaction stands: the reply it waits for next. The
/// show owner's `changed` flag travels from the metadata stage to the result.
#[derive(Debug, Clone, Copy, PartialEq, Eq, Structural)]
pub enum ConnectStage {
    InitialState,
    Metadata,
    ScenePeers { changed: bool },
    PeersReady { changed: bool },
    Remember { changed: bool },
    Confirm { changed: bool },
    Finished,
}

/// What the outside work of the current stage reported.
#[derive(Debug, PartialEq, Eq)]
pub enum ConnectReply {
    /// The initial-state request could not be sent to the console actor.
    InitialStateUnsent(String),
    /// The console actor dropped the reply.
    InitialStateClosed,
    /// The console's initial state.
    InitialState { connected: bool },
    /// The show owner's answer to recording the connected identity:
    /// `(accepted, changed)`, or why it could not answer.
    Metadata(Result<(bool, bool), AppCommandError>),
    /// Whether scene peers were installed for the generation.
    ScenePeersInstalled(bool),
    /// Whether the scene owner accepted the ready notification.
    PeersReady(bool),
    /// Whether remembering the identity for the next start succeeded.
    Remembered(bool),
    /// Whether the generation is still the active one.
    StillCurrent(bool),
}

/// What the connection transaction does next.
#[derive(Debug, Clone, PartialEq, Eq)]
pub enum ConnectAction {
    RecordMetadata,
    InstallScenePeers,
    NotifyPeersReady,
    RememberIdentity,
    /// Remembering failed: log it while the generation is current, then confirm.
    LogRememberFailure,
    ConfirmCurrent,
    /// Clear the candidate's metadata and runtime transaction, and fail.
    FailConnection(String),
    /// Remove the candidate's runtime, and fail.
    AbortCandidate(String),
    /// The connection is established.
    Succeed { changed: bool },
    /// A reply that the stage does not expect changes nothing.
    Ignore,
}

pub enum ConnectActionView {
    RecordMetadata,
    InstallScenePeers,
    NotifyPeersReady,
    RememberIdentity,
    LogRememberFailure,
    ConfirmCurrent,
    FailConnection(Seq<char>),
    AbortCandidate(Seq<char>),
    Succeed { changed: bool },
    Ignore,
}

impl View for ConnectAction {
    type V = ConnectActionView;

    open spec fn view(&self) -> ConnectActionView {
        match self {
            ConnectAction::RecordMetadata => ConnectActionView::RecordMetadata,
            ConnectAction::InstallScenePeers => ConnectActionView::InstallScenePeers,
            ConnectAction::NotifyPeersReady => ConnectActionView::NotifyPeersReady,
            ConnectAction::RememberIdentity => ConnectActionView::RememberIdentity,
            ConnectAction::LogRememberFailure => ConnectActionView::LogRememberFailure,
            ConnectAction::ConfirmCurrent => ConnectActionView::ConfirmCurrent,
            ConnectAction::FailConnection(m) => ConnectActionView::FailConnection(m@),
            ConnectAction::AbortCandidate(m) => ConnectActionView::AbortCandidate(m@),
            ConnectAction::Succeed { changed } => ConnectActionView::Succeed { changed: *changed },
            ConnectAction::Ignore => ConnectActionView::Ignore,
        }
    }
}

/// The decision table of a connection transaction: the initial console state,
/// then the show owner's acceptance, then scene peers, then the ready
/// notification, then remembering the identity, then a final generation check.
/// A failure before acceptance clears the candidate's metadata; a later one
/// removes the candidate's runtime; either ends the transaction with its message.
pub open spec fn spec_connect_step(stage: ConnectStage, reply: ConnectReply) -> (
    ConnectStage,
    ConnectActionView,
) {
    match stage {
        ConnectStage::InitialState => match reply {
            ConnectReply::InitialStateUnsent(error) => (
                ConnectStage::Finished,
                ConnectActionView::FailConnection("Failed to request initial LV1 state: "@ + error@),
            ),
            ConnectReply::InitialStateClosed => (
                ConnectStage::Finished,
                ConnectActionView::FailConnection(error_message(AppCommandError::ReplyChannelClosed)),
            ),
            ConnectReply::InitialState { connected } => if connected {
                (ConnectStage::Metadata, ConnectActionView::RecordMetadata)
            } else {
                (ConnectStage::Finished, ConnectActionView::FailConnection("LV1 did not connect"@))
            },
            _ => (stage, ConnectActionView::Ignore),
        },
        ConnectStage::Metadata => match reply {
            ConnectReply::Metadata(Err(error)) => (
                ConnectStage::Finished,
                ConnectActionView::AbortCandidate(error_message(error)),
            ),
            ConnectReply::Metadata(Ok((accepted, changed))) => if accepted {
                (ConnectStage::ScenePeers { changed }, ConnectActionView::InstallScenePeers)
            } else {
                (
                    ConnectStage::Finished,
                    ConnectActionView::AbortCandidate("LV1 connection was superseded"@),
                )
            },
            _ => (stage, ConnectActionView::Ignore),
        },
        ConnectStage::ScenePeers { changed } => match reply {
            ConnectReply::ScenePeersInstalled(installed) => if installed {
                (ConnectStage::PeersReady { changed }, ConnectActionView::NotifyPeersReady)
            } else {
                (ConnectStage::Finished, ConnectActionView::AbortCandidate("generation is stale"@))
            },
            _ => (stage, ConnectActionView::Ignore),
        },
        ConnectStage::PeersReady { changed } => match reply {
            ConnectReply::PeersReady(ready) => if ready {
                (ConnectStage::Remember { changed }, ConnectActionView::RememberIdentity)
            } else {
                (
                    ConnectStage::Finished,
                    ConnectActionView::AbortCandidate("scene actor is unavailable"@),
                )
            },
            _ => (stage, ConnectActionView::Ignore),
        },
        ConnectStage::Remember { changed } => match reply {
            ConnectReply::Remembered(saved) => (
                ConnectStage::Confirm { changed },
                if saved {
                    ConnectActionView::ConfirmCurrent
                } else {
                    ConnectActionView::LogRememberFailure
                },
            ),
            _ => (stage, ConnectActionView::Ignore),
        },
        ConnectStage::Confirm { changed } => match reply {
            ConnectReply::StillCurrent(current) => if current {
                (ConnectStage::Finished, ConnectActionView::Succeed { changed })
            } else {
                (
                    ConnectStage::Finished,
                    ConnectActionView::AbortCandidate("LV1 connection was superseded"@),
                )
            },
            _ => (stage, ConnectActionView::Ignore),
        },
        ConnectStage::Finished => (stage, ConnectActionView::Ignore),
    }
}

pub fn connect_step(stage: ConnectStage, reply: ConnectReply) -> (r: (ConnectStage, ConnectAction))
    ensures
        (r.0, r.1@) == spec_connect_step(stage, reply),
{
    match stage {
        ConnectStage::InitialState => match reply {
            ConnectReply::InitialStateUnsent(error) => {
                let mut message = string_of("Failed to request initial LV1 state: ");
                message.append(error.as_str());
                (ConnectStage::Finished, ConnectAction::FailConnection(message))
            },
            ConnectReply::InitialStateClosed => (
                ConnectStage::Finished,
                ConnectAction::FailConnection(AppCommandError::ReplyChannelClosed.message()),
            ),
            ConnectReply::InitialState { connected } => if connected {
                (ConnectStage::Metadata, ConnectAction::RecordMetadata)
            } else {
                (ConnectStage::Finished, ConnectAction::FailConnection(string_of("LV1 did not connect")))
            },
            _ => (stage, ConnectAction::Ignore),
        },
        ConnectStage::Metadata => match reply {
            ConnectReply::Metadata(Err(error)) => (
                ConnectStage::Finished,
                ConnectAction::AbortCandidate(error.message()),
            ),
            ConnectReply::Metadata(Ok((accepted, changed))) => if accepted {
                (ConnectStage::ScenePeers { changed }, ConnectAction::InstallScenePeers)
            } else {
                (
                    ConnectStage::Finished,
                    ConnectAction::AbortCandidate(string_of("LV1 connection was superseded")),
                )
            },
            _ => (stage, ConnectAction::Ignore),
        },
        ConnectStage::ScenePeers { changed } => match reply {
            ConnectReply::ScenePeersInstalled(installed) => if installed {
                (ConnectStage::PeersReady { changed }, ConnectAction::NotifyPeersReady)
            } else {
                (ConnectStage::Finished, ConnectAction::AbortCandidate(string_of("generation is stale")))
            },
            _ => (stage, ConnectAction::Ignore),
        },
        ConnectStage::PeersReady { changed } => match reply {
            ConnectReply::PeersReady(ready) => if ready {
                (ConnectStage::Remember { changed }, ConnectAction::RememberIdentity)
            } else {
                (
                    ConnectStage::Finished,
                    ConnectAction::AbortCandidate(string_of("scene actor is unavailable")),
                )
            },
            _ => (stage, ConnectAction::Ignore),
        },
        ConnectStage::Remember { changed } => match reply {
            ConnectReply::Remembered(saved) => (
                ConnectStage::Confirm { changed },
                if saved {
                    ConnectAction::ConfirmCurrent
                } else {
                    ConnectAction::LogRememberFailure
                },
            ),
            _ => (stage, ConnectAction::Ignore),
        },
        ConnectStage::Confirm { changed } => match reply {
            ConnectReply::StillCurrent(current) => if current {
                (ConnectStage::Finished, ConnectAction::Succeed { changed })
            } else {
                (
                    ConnectStage::Finished,
                    ConnectAction::AbortCandidate(string_of("LV1 connection was superseded")),
                )
            },
            _ => (stage, ConnectAction::Ignore),
        },
        ConnectStage::Finished => (stage, ConnectAction::Ignore),
    }
}

/// The position of a stage in the transaction's order.
pub open spec fn stage_rank(stage: ConnectStage) -> int {
    match stage {
        ConnectStage::InitialState => 0,
        ConnectStage::Metadata => 1,
        ConnectStage::ScenePeers { .. } => 2,
        ConnectStage::PeersReady { .. } => 3,
        ConnectStage::Remember { .. } => 4,
        ConnectStage::Confirm { .. } => 5,
        ConnectStage::Finished => 6,
    }
}

/// A connection transaction only moves forward, one stage at a time or
/// straight to its end; every failure ends it with a message; success comes
/// only from the final generation check; and once finished, nothing more
/// happens.
pub proof fn law_connect_transaction_moves_forward(stage: ConnectStage, reply: ConnectReply)
    ensures
        ({
            let (next, action) = spec_connect_step(stage, reply);
            &&& (action is Ignore) <==> next == stage
            &&& !(action is Ignore) ==> (stage_rank(next) == stage_rank(stage) + 1 || next
                == ConnectStage::Finished)
            &&& (action is FailConnection || action is AbortCandidate) ==> next == ConnectStage::Finished
            &&& (action is FailConnection) ==> stage == ConnectStage::InitialState
            &&& (action is Succeed) ==> (stage is Confirm && reply == ConnectReply::StillCurrent(true)
                && next == ConnectStage::Finished)
            &&& stage == ConnectStage::Finished ==> action is Ignore
        }),
{
}

/// Why a discovery refresh produced no list.
#[derive(Debug, Clone, PartialEq, Eq)]
pub enum DiscoveryFailure {
    /// The blocking discovery worker itself failed.
    Worker(String),
    /// Discovery ran and reported an error.
    Discover(String),
}

pub open spec fn discovery_failure_text(failure: DiscoveryFailure) -> Seq<char> {
    match failure {
        DiscoveryFailure::Worker(e) => "LV1 discovery worker failed: "@ + e@,
        DiscoveryFailure::Discover(e) => "Failed to discover LV1 systems: "@ + e@,
    }
}

/// A discovery refresh hands its systems on as the replacement list; a failure
/// sends no replacement (the earlier results stay) and becomes the command's
/// error text.
pub fn discovery_replacement<T>(result: Result<Vec<T>, DiscoveryFailure>) -> (r: Result<
    Vec<T>,
    String,
>)
    ensures
        result matches Ok(systems) ==> r == Ok::<Vec<T>, String>(systems),
        result matches Err(failure) ==> (r matches Err(text) && text@ == discovery_failure_text(
            failure,
        )),
{
    match result {
        Ok(systems) => Ok(systems),
        Err(failure) => {
            let mut text = match &failure {
                DiscoveryFailure::Worker(_) => string_of("LV1 discovery worker failed: "),
                DiscoveryFailure::Discover(_) => string_of("Failed to discover LV1 systems: "),
            };
            match &failure {
                DiscoveryFailure::Worker(e) => text.append(e.as_str()),
                DiscoveryFailure::Discover(e) => text.append(e.as_str()),
            }
            Err(text)
        },
    }
}

/// The `changed` flag a transaction stage carries, if any.
pub open spec fn carried_changed(stage: ConnectStage) -> Option<bool> {
    match stage {
        ConnectStage::ScenePeers { changed } => Some(changed),
        ConnectStage::PeersReady { changed } => Some(changed),
        ConnectStage::Remember { changed } => Some(changed),
        ConnectStage::Confirm { changed } => Some(changed),
        _ => None,
    }
}

/// The connect result reports the show owner's `changed` flag: an accepted
/// metadata answer `(true, c)` moves on carrying `c`; every later stage either
/// ends the transaction or passes the same flag on; and a success reports the
/// flag that it carried. Walking the whole happy path from the metadata stage
/// therefore succeeds with exactly the metadata answer's flag, whether or not
/// remembering the identity succeeded.
pub proof fn law_connect_reports_the_metadata_change(
    stage: ConnectStage,
    reply: ConnectReply,
    changed: bool,
    remembered: bool,
)
    ensures
        spec_connect_step(ConnectStage::Metadata, ConnectReply::Metadata(Ok((true, changed)))).0
            == (ConnectStage::ScenePeers { changed }),
        carried_changed(stage) is Some ==> ({
            let (next, action) = spec_connect_step(stage, reply);
            &&& (next == ConnectStage::Finished || carried_changed(next) == carried_changed(stage))
            &&& (action matches ConnectActionView::Succeed { changed: c } ==> Some(c)
                == carried_changed(stage))
        }),
        ({
            let s1 = spec_connect_step(ConnectStage::Metadata, ConnectReply::Metadata(Ok((true, changed)))).0;
            let s2 = spec_connect_step(s1, ConnectReply::ScenePeersInstalled(true)).0;
            let s3 = spec_connect_step(s2, ConnectReply::PeersReady(true)).0;
            let s4 = spec_connect_step(s3, ConnectReply::Remembered(remembered)).0;
            spec_connect_step(s4, ConnectReply::StillCurrent(true)) == (
                ConnectStage::Finished,
                ConnectActionView::Succeed { changed },
            )
        }),
{
}

} // verus!
