//! The LV1 connection chooser: console identities, and the latency probes that
//! the chooser runs for each discovered console while it is open.
use vstd::prelude::*;
use crate::keyed::{KeyedVec, key_set};
use crate::text::{decimal, decimal_text, lemma_decimal_injective, push_str, string_from_chars};
use crate::view_state::{AppConnectionState, AppViewState};

verus! {

/// How a console is addressed: its UUID and host name when it announced them,
/// and its network endpoint.
#[derive(Debug, Clone, PartialEq, Eq)]
pub struct Lv1SystemIdentity {
    pub uuid: Option<String>,
    pub host: Option<String>,
    pub address: String,
    pub port: u16,
}

pub struct IdentityView {
    pub uuid: Option<Seq<char>>,
    pub host: Option<Seq<char>>,
    pub address: Seq<char>,
    pub port: u16,
}

pub open spec fn opt_text(o: Option<String>) -> Option<Seq<char>> {
    match o {
        Some(s) => Some(s@),
        None => None,
    }
}

impl View for Lv1SystemIdentity {
    type V = IdentityView;

    open spec fn view(&self) -> IdentityView {
        IdentityView {
            uuid: opt_text(self.uuid),
            host: opt_text(self.host),
            address: self.address@,
            port: self.port,
        }
    }
}

fn copy_opt_string(o: &Option<String>) -> (r: Option<String>)
    ensures
        r == *o,
{
    match o {
        Some(s) => Some(s.clone()),
        None => None,
    }
}

impl Lv1SystemIdentity {
    /// An equal copy.
    pub fn duplicate(&self) -> (r: Self)
        ensures
            r == *self,
    {
        Lv1SystemIdentity {
            uuid: copy_opt_string(&self.uuid),
            host: copy_opt_string(&self.host),
            address: self.address.clone(),
            port: self.port,
        }
    }
}

/// Whether a discovered console can be selected.
#[derive(Debug, Clone, Copy, PartialEq, Eq, Structural)]
pub enum DiscoveredLv1Status {
    Available,
    Unavailable,
}

/// A console found by discovery.
#[derive(Debug, Clone, PartialEq, Eq)]
pub struct DiscoveredLv1System {
    pub identity: Lv1SystemIdentity,
    pub status: DiscoveredLv1Status,
}

/// The result of a TCP connect-latency probe.
#[derive(Debug, Clone, Copy, PartialEq, Eq, Structural)]
pub struct TcpConnectProbeResult {
    pub tcp_connect_ms: u64,
}

/// Two identities name the same console when both carry a UUID and the UUIDs are
/// equal; otherwise host, address and port must all be equal.
pub open spec fn spec_identities_match(left: IdentityView, right: Option<IdentityView>) -> bool {
    match right {
        None => false,
        Some(right) => match (left.uuid, right.uuid) {
            (Some(l), Some(r)) => l == r,
            _ => left.host == right.host && left.address == right.address && left.port
                == right.port,
        },
    }
}

fn opt_string_eq(a: &Option<String>, b: &Option<String>) -> (r: bool)
    ensures
        r == (opt_text(*a) == opt_text(*b)),
{
    match (a, b) {
        (Some(x), Some(y)) => *x == *y,
        (None, None) => true,
        _ => false,
    }
}

pub fn identities_match(left: &Lv1SystemIdentity, right: Option<&Lv1SystemIdentity>) -> (r: bool)
    ensures
        r == spec_identities_match(
            left@,
            match right {
                Some(i) => Some(i@),
                None => None,
            },
        ),
{
    let right = match right {
        Some(right) => right,
        None => {
            return false;
        },
    };
    match (&left.uuid, &right.uuid) {
        (Some(l), Some(r)) => *l == *r,
        _ => opt_string_eq(&left.host, &right.host) && left.address == right.address && left.port
            == right.port,
    }
}

pub open spec fn text_or_empty(o: Option<Seq<char>>) -> Seq<char> {
    match o {
        Some(s) => s,
        None => Seq::empty(),
    }
}

/// The key under which latency is tracked: UUID, host, address and port joined
/// by NUL characters, an absent UUID or host contributing an empty field.
pub open spec fn spec_identity_key(identity: IdentityView) -> Seq<char> {
    text_or_empty(identity.uuid) + seq!['\0'] + text_or_empty(identity.host) + seq!['\0']
        + identity.address + seq!['\0'] + decimal(identity.port as nat)
}

pub fn identity_key(identity: &Lv1SystemIdentity) -> (key: String)
    ensures
        key@ == spec_identity_key(identity@),
{
    let mut out: Vec<char> = Vec::new();
    match &identity.uuid {
        Some(uuid) => push_str(&mut out, uuid.as_str()),
        None => {},
    }
    out.push('\0');
    match &identity.host {
        Some(host) => push_str(&mut out, host.as_str()),
        None => {},
    }
    out.push('\0');
    push_str(&mut out, identity.address.as_str());
    out.push('\0');
    crate::text::push_decimal(&mut out, identity.port as u64);
    assert(out@ =~= spec_identity_key(identity@));
    string_from_chars(out.as_slice())
}

/// Which way the chooser was opened.
#[derive(Debug, Clone, Copy, PartialEq, Eq, Structural)]
pub enum ConnectionDialogMode {
    Startup,
    Manual,
}

/// What the chooser shows in a console's latency column.
#[derive(Debug, Clone, PartialEq, Eq)]
pub enum LatencyState {
    Pending { attempt_id: u64 },
    Success(u64),
    Error(String),
}

/// The latency bookkeeping of the chooser. `open` is whether the chooser is
/// shown; `in_flight` maps an identity key to the probe attempt that owns it;
/// `latency` is what is displayed per identity key.
pub struct LatencyModel {
    pub open: bool,
    pub session_id: u64,
    pub next_attempt_id: nat,
    pub in_flight: Map<Seq<char>, u64>,
    pub latency: Map<Seq<char>, LatencyState>,
}

/// Opening or closing the chooser starts a new presentation session and forgets
/// all latency state.
pub open spec fn spec_new_session(m: LatencyModel, open: bool) -> LatencyModel {
    LatencyModel {
        open,
        session_id: (m.session_id + 1) as u64,
        next_attempt_id: m.next_attempt_id,
        in_flight: Map::empty(),
        latency: Map::empty(),
    }
}

/// A probe result counts only for the open session, for the attempt that owns
/// the identity, and only while that attempt is displayed as pending; a result
/// for the owning attempt always ends its ownership.
pub open spec fn spec_set_latency(
    m: LatencyModel,
    session_id: u64,
    attempt_id: u64,
    key: Seq<char>,
    result: Result<u64, String>,
) -> LatencyModel {
    if !m.open || session_id != m.session_id || !m.in_flight.contains_key(key)
        || m.in_flight[key] != attempt_id {
        m
    } else if !m.latency.contains_key(key) || m.latency[key] != (LatencyState::Pending {
        attempt_id,
    }) {
        LatencyModel { in_flight: m.in_flight.remove(key), ..m }
    } else {
        LatencyModel {
            in_flight: m.in_flight.remove(key),
            latency: m.latency.insert(
                key,
                match result {
                    Ok(ms) => LatencyState::Success(ms),
                    Err(error) => LatencyState::Error(error),
                },
            ),
            ..m
        }
    }
}

/// Starting a probe for an identity: nothing while closed or already displayed;
/// an attempt still in flight is displayed again without a new probe; otherwise
/// a fresh attempt is allocated, owned and displayed, and reported as
/// (session, attempt).
pub open spec fn spec_begin_latency(m: LatencyModel, key: Seq<char>) -> (
    LatencyModel,
    Option<(u64, u64)>,
) {
    if !m.open || m.latency.contains_key(key) {
        (m, None)
    } else if m.in_flight.contains_key(key) {
        (
            LatencyModel {
                latency: m.latency.insert(
                    key,
                    LatencyState::Pending { attempt_id: m.in_flight[key] },
                ),
                ..m
            },
            None,
        )
    } else {
        let attempt = m.next_attempt_id as u64;
        (
            LatencyModel {
                next_attempt_id: m.next_attempt_id + 1,
                in_flight: m.in_flight.insert(key, attempt),
                latency: m.latency.insert(key, LatencyState::Pending { attempt_id: attempt }),
                ..m
            },
            Some((m.session_id, attempt)),
        )
    }
}

/// Starting probes for `keys` in order; each started probe is reported with the
/// position of its key.
pub open spec fn spec_begin_all(m: LatencyModel, keys: Seq<Seq<char>>) -> (
    LatencyModel,
    Seq<(u64, u64, int)>,
)
    decreases keys.len(),
{
    if keys.len() == 0 {
        (m, Seq::empty())
    } else {
        let (m1, out1) = spec_begin_all(m, keys.drop_last());
        let (m2, started) = spec_begin_latency(m1, keys.last());
        (
            m2,
            match started {
                Some((session, attempt)) => out1.push((session, attempt, keys.len() - 1)),
                None => out1,
            },
        )
    }
}

pub open spec fn seq_key_set(keys: Seq<Seq<char>>) -> Set<Seq<char>> {
    Set::new(|k: Seq<char>| exists|i: int| 0 <= i < keys.len() && keys[i] == k)
}

/// Reconciling with the discovered consoles: while closed, everything is
/// forgotten and nothing starts; while open, displayed latency of absent
/// consoles is dropped (their in-flight ownership stays) and probes start for
/// the discovered consoles in order.
pub open spec fn spec_reconcile(m: LatencyModel, keys: Seq<Seq<char>>) -> (
    LatencyModel,
    Seq<(u64, u64, int)>,
) {
    if !m.open {
        (LatencyModel { in_flight: Map::empty(), latency: Map::empty(), ..m }, Seq::empty())
    } else {
        spec_begin_all(LatencyModel { latency: m.latency.restrict(seq_key_set(keys)), ..m }, keys)
    }
}

/// The identity keys of discovered consoles, in order.
pub open spec fn system_keys(systems: Seq<DiscoveredLv1System>) -> Seq<Seq<char>> {
    systems.map_values(|s: DiscoveredLv1System| spec_identity_key(s.identity@))
}

pub open spec fn result_view(result: Result<TcpConnectProbeResult, String>) -> Result<
    u64,
    String,
> {
    match result {
        Ok(r) => Ok(r.tcp_connect_ms),
        Err(e) => Err(e),
    }
}

/// The latency probes of the chooser's current session: the session's number,
/// the next attempt number, which attempt owns each identity key, and what the
/// chooser shows for each key.
pub struct LatencyProbes {
    session_id: u64,
    next_attempt_id: u64,
    in_flight: KeyedVec<u64>,
    latency: KeyedVec<LatencyState>,
}

impl LatencyProbes {
    pub closed spec fn session_of(&self) -> u64 {
        self.session_id
    }

    pub closed spec fn next_attempt_of(&self) -> u64 {
        self.next_attempt_id
    }

    pub closed spec fn in_flight_of(&self) -> Map<Seq<char>, u64> {
        self.in_flight.view()
    }

    pub closed spec fn latency_of(&self) -> Map<Seq<char>, LatencyState> {
        self.latency.view()
    }

    /// The probes as a latency model, for a chooser that is open or not.
    pub open spec fn model(&self, open: bool) -> LatencyModel {
        LatencyModel {
            open,
            session_id: self.session_of(),
            next_attempt_id: self.next_attempt_of() as nat,
            in_flight: self.in_flight_of(),
            latency: self.latency_of(),
        }
    }

    /// The internal maps are well formed, and every attempt that owns an identity
    /// or is displayed as pending was allocated before the next one.
    pub closed spec fn wf(&self) -> bool {
        &&& self.in_flight.wf()
        &&& self.latency.wf()
        &&& attempts_below(self.model(true))
    }
}

/// The connection chooser's state.
pub struct ConnectionState {
    pub mode: Option<ConnectionDialogMode>,
    pub pending_identity: Option<Lv1SystemIdentity>,
    pub pending_command_id: Option<u64>,
    pub command_error: Option<String>,
    pub probes: LatencyProbes,
}

impl ConnectionState {
    pub open spec fn mode_of(&self) -> Option<ConnectionDialogMode> {
        self.mode
    }

    pub open spec fn pending_identity_of(&self) -> Option<Lv1SystemIdentity> {
        self.pending_identity
    }

    pub open spec fn pending_command_of(&self) -> Option<u64> {
        self.pending_command_id
    }

    pub open spec fn command_error_of(&self) -> Option<String> {
        self.command_error
    }

    /// The latency model's session is open exactly while the chooser has a mode.
    pub open spec fn model(&self) -> LatencyModel {
        self.probes.model(self.mode is Some)
    }

    /// The latency probes are well formed.
    pub open spec fn wf(&self) -> bool {
        self.probes.wf()
    }

    /// The latency model's session is open exactly while the chooser has a mode.
    pub proof fn lemma_open_iff_mode(&self)
        ensures
            self.model().open == (self.mode is Some),
    {
    }

    fn initial(mode: Option<ConnectionDialogMode>) -> (s: Self)
        ensures
            s.wf(),
            s.mode_of() == mode,
            s.pending_identity_of() is None,
            s.pending_command_of() is None,
            s.command_error_of() is None,
            s.model() == (LatencyModel {
                open: mode is Some,
                session_id: 0,
                next_attempt_id: 0,
                in_flight: Map::empty(),
                latency: Map::empty(),
            }),
    {
        ConnectionState {
            mode,
            pending_identity: None,
            pending_command_id: None,
            command_error: None,
            probes: LatencyProbes {
                session_id: 0,
                next_attempt_id: 0,
                in_flight: KeyedVec::new(),
                latency: KeyedVec::new(),
            },
        }
    }

    /// The chooser as shown at startup.
    pub fn startup() -> (s: Self)
        ensures
            s.wf(),
            s.mode_of() == Some(ConnectionDialogMode::Startup),
            s.pending_identity_of() is None,
            s.pending_command_of() is None,
            s.command_error_of() is None,
            s.model() == (LatencyModel {
                open: true,
                session_id: 0,
                next_attempt_id: 0,
                in_flight: Map::empty(),
                latency: Map::empty(),
            }),
    {
        Self::initial(Some(ConnectionDialogMode::Startup))
    }

    pub fn is_visible(&self) -> (r: bool)
        ensures
            r == self.mode_of() is Some,
    {
        self.mode.is_some()
    }

    /// The displayed latency for an identity key.
    pub fn latency_for(&self, key: &String) -> (r: Option<LatencyState>)
        requires
            self.wf(),
        ensures
            self.model().latency.contains_key(key@) ==> r == Some(self.model().latency[key@]),
            !self.model().latency.contains_key(key@) ==> r is None,
    {
        match self.probes.latency.get(key) {
            Some(LatencyState::Pending { attempt_id }) => Some(
                LatencyState::Pending { attempt_id: *attempt_id },
            ),
            Some(LatencyState::Success(ms)) => Some(LatencyState::Success(*ms)),
            Some(LatencyState::Error(error)) => Some(LatencyState::Error(error.clone())),
            None => None,
        }
    }

    /// Whether no latency is displayed.
    pub fn latency_is_empty(&self) -> (r: bool)
        requires
            self.wf(),
        ensures
            r == (self.model().latency.dom() == Set::<Seq<char>>::empty()),
    {
        self.probes.latency.is_empty()
    }

    fn invalidate_latency_session(&mut self)
        requires
            old(self).wf(),
            old(self).model().session_id < u64::MAX,
        ensures
            final(self).wf(),
            final(self).model() == spec_new_session(old(self).model(), old(self).mode_of() is Some),
            final(self).mode_of() == old(self).mode_of(),
            final(self).pending_identity_of() == old(self).pending_identity_of(),
            final(self).pending_command_of() == old(self).pending_command_of(),
            final(self).command_error_of() == old(self).command_error_of(),
    {
        self.probes.session_id = self.probes.session_id + 1;
        self.probes.latency.clear();
        self.probes.in_flight.clear();
    }

    /// Opens the chooser manually: a fresh latency session, and no stale error.
    pub fn open_manual(&mut self)
        requires
            old(self).wf(),
            old(self).model().session_id < u64::MAX,
        ensures
            final(self).wf(),
            final(self).model() == spec_new_session(old(self).model(), true),
            final(self).mode_of() == Some(ConnectionDialogMode::Manual),
            final(self).command_error_of() is None,
            final(self).pending_identity_of() == old(self).pending_identity_of(),
            final(self).pending_command_of() == old(self).pending_command_of(),
    {
        self.invalidate_latency_session();
        self.command_error = None;
        self.mode = Some(ConnectionDialogMode::Manual);
    }

    /// A click on a console starts connecting to it, unless a connection is
    /// already pending, in which case the click is ignored (`false`).
    pub fn begin_select(&mut self, identity: Lv1SystemIdentity) -> (started: bool)
        ensures
            started == (old(self).pending_identity_of() is None),
            started ==> final(self).pending_identity_of() == Some(identity),
            !started ==> final(self).pending_identity_of() == old(self).pending_identity_of(),
            final(self).pending_command_of() == old(self).pending_command_of(),
            final(self).model() == old(self).model(),
            final(self).mode_of() == old(self).mode_of(),
            final(self).command_error_of() == old(self).command_error_of(),
            final(self).wf() == old(self).wf(),
    {
        if self.pending_identity.is_some() {
            return false;
        }
        self.pending_identity = Some(identity);
        true
    }

    /// Records the command that connects to the pending console.
    pub fn record_connect_command(&mut self, command_id: u64)
        ensures
            final(self).pending_command_of() == Some(command_id),
            final(self).pending_identity_of() == old(self).pending_identity_of(),
            final(self).model() == old(self).model(),
            final(self).mode_of() == old(self).mode_of(),
            final(self).command_error_of() == old(self).command_error_of(),
            final(self).wf() == old(self).wf(),
    {
        self.pending_command_id = Some(command_id);
    }

    /// Only the command that is connecting releases the pending identity.
    pub fn finish_command(&mut self, command_id: u64)
        ensures
            final(self).model() == old(self).model(),
            final(self).mode_of() == old(self).mode_of(),
            final(self).command_error_of() == old(self).command_error_of(),
            old(self).pending_command_of() == Some(command_id) ==> final(self).pending_identity_of() is None
                && final(self).pending_command_of() is None,
            old(self).pending_command_of() != Some(command_id) ==> final(self).pending_identity_of()
                == old(self).pending_identity_of() && final(self).pending_command_of() == old(self).pending_command_of(),
            final(self).wf() == old(self).wf(),
    {
        if self.pending_command_id == Some(command_id) {
            self.pending_identity = None;
            self.pending_command_id = None;
        }
    }

    /// Closes the chooser and ends its latency session.
    pub fn close(&mut self)
        requires
            old(self).wf(),
            old(self).model().session_id < u64::MAX,
        ensures
            final(self).wf(),
            final(self).model() == spec_new_session(old(self).model(), false),
            final(self).mode_of() is None,
            final(self).command_error_of() == old(self).command_error_of(),
            final(self).pending_identity_of() == old(self).pending_identity_of(),
            final(self).pending_command_of() == old(self).pending_command_of(),
    {
        self.invalidate_latency_session();
        self.mode = None;
    }

    /// The startup chooser closes once the projection reports a connection.
    pub fn close_startup_if_connected(&mut self, snapshot: &AppViewState)
        requires
            old(self).wf(),
            old(self).mode_of() == Some(ConnectionDialogMode::Startup) && snapshot.connection
                == AppConnectionState::Connected ==> old(self).model().session_id < u64::MAX,
        ensures
            final(self).wf(),
            final(self).command_error_of() == old(self).command_error_of(),
            final(self).pending_identity_of() == old(self).pending_identity_of(),
            final(self).pending_command_of() == old(self).pending_command_of(),
            old(self).mode_of() == Some(ConnectionDialogMode::Startup) && snapshot.connection
                == AppConnectionState::Connected ==> final(self).mode_of() is None && final(self).model()
                == spec_new_session(old(self).model(), false),
            !(old(self).mode_of() == Some(ConnectionDialogMode::Startup) && snapshot.connection
                == AppConnectionState::Connected) ==> final(self).mode_of() == old(self).mode_of() && final(self).model() == old(self).model(),
    {
        if self.mode == Some(ConnectionDialogMode::Startup) && snapshot.connection
            == AppConnectionState::Connected {
            self.close();
        }
    }

    /// Applies a latency probe result (see `spec_set_latency`).
    pub fn set_latency(
        &mut self,
        session_id: u64,
        attempt_id: u64,
        identity: &Lv1SystemIdentity,
        result: Result<TcpConnectProbeResult, String>,
    )
        requires
            old(self).wf(),
        ensures
            final(self).wf(),
            final(self).model() == spec_set_latency(
                old(self).model(),
                session_id,
                attempt_id,
                spec_identity_key(identity@),
                result_view(result),
            ),
            final(self).mode_of() == old(self).mode_of(),
            final(self).command_error_of() == old(self).command_error_of(),
            final(self).pending_identity_of() == old(self).pending_identity_of(),
            final(self).pending_command_of() == old(self).pending_command_of(),
    {
        let key = identity_key(identity);
        if self.mode.is_none() || session_id != self.probes.session_id {
            return;
        }
        match self.probes.in_flight.get(&key) {
            Some(owner) => {
                if *owner != attempt_id {
                    return;
                }
            },
            None => {
                return;
            },
        }
        self.probes.in_flight.remove(&key);
        proof {
            let m = self.model();
            let m0 = old(self).model();
            assert(m.in_flight == m0.in_flight.remove(key@));
            assert(m.latency == m0.latency);
            assert forall|k: Seq<char>| #[trigger] m.in_flight.contains_key(k) implies m.in_flight[k]
                < m.next_attempt_id by {
                assert(m0.in_flight.contains_key(k));
            }
            assert forall|k: Seq<char>| #[trigger] m.latency.contains_key(k) && m.latency[k] is Pending implies m.latency[k]->attempt_id
                < m.next_attempt_id by {
                assert(m0.latency.contains_key(k));
            }
        }
        let displayed = match self.probes.latency.get(&key) {
            Some(LatencyState::Pending { attempt_id: shown }) => *shown == attempt_id,
            _ => false,
        };
        if !displayed {
            assert(attempts_below(self.model()));
            return;
        }
        let state = match result {
            Ok(result) => LatencyState::Success(result.tcp_connect_ms),
            Err(error) => LatencyState::Error(error),
        };
        self.probes.latency.insert(key, state);
    }

    /// Starts (or resumes displaying) a latency probe for `identity`
    /// (see `spec_begin_latency`).
    pub fn begin_latency(&mut self, identity: &Lv1SystemIdentity) -> (r: Option<(u64, u64)>)
        requires
            old(self).wf(),
            spec_begin_latency(old(self).model(), spec_identity_key(identity@)).0.next_attempt_id
                <= u64::MAX,
        ensures
            final(self).wf(),
            (final(self).model(), r) == spec_begin_latency(
                old(self).model(),
                spec_identity_key(identity@),
            ),
            final(self).mode_of() == old(self).mode_of(),
            final(self).command_error_of() == old(self).command_error_of(),
            final(self).pending_identity_of() == old(self).pending_identity_of(),
            final(self).pending_command_of() == old(self).pending_command_of(),
    {
        let key = identity_key(identity);
        self.begin_latency_key(key)
    }

    fn begin_latency_key(&mut self, key: String) -> (r: Option<(u64, u64)>)
        requires
            old(self).wf(),
            spec_begin_latency(old(self).model(), key@).0.next_attempt_id <= u64::MAX,
        ensures
            final(self).wf(),
            (final(self).model(), r) == spec_begin_latency(old(self).model(), key@),
            final(self).mode_of() == old(self).mode_of(),
            final(self).command_error_of() == old(self).command_error_of(),
            final(self).pending_identity_of() == old(self).pending_identity_of(),
            final(self).pending_command_of() == old(self).pending_command_of(),
    {
        if self.mode.is_none() || self.probes.latency.contains_key(&key) {
            return None;
        }
        let owner = match self.probes.in_flight.get(&key) {
            Some(owner) => Some(*owner),
            None => None,
        };
        if let Some(attempt_id) = owner {
            self.probes.latency.insert(key, LatencyState::Pending { attempt_id });
            return None;
        }
        let attempt_id = self.probes.next_attempt_id;
        self.probes.next_attempt_id = self.probes.next_attempt_id + 1;
        let key2 = key.clone();
        self.probes.in_flight.insert(key, attempt_id);
        self.probes.latency.insert(key2, LatencyState::Pending { attempt_id });
        Some((self.probes.session_id, attempt_id))
    }

    /// Reconciles latency probes with the discovered consoles
    /// (see `spec_reconcile`); returns the probes to dispatch as
    /// (session, attempt, identity).
    pub fn reconcile_latency_probes(&mut self, systems: &Vec<DiscoveredLv1System>) -> (r: Vec<
        (u64, u64, Lv1SystemIdentity),
    >)
        requires
            old(self).wf(),
            spec_reconcile(old(self).model(), system_keys(systems@)).0.next_attempt_id
                <= u64::MAX,
        ensures
            final(self).wf(),
            final(self).model() == spec_reconcile(old(self).model(), system_keys(systems@)).0,
            r@.len() == spec_reconcile(old(self).model(), system_keys(systems@)).1.len(),
            forall|j: int|
                #![trigger r@[j]]
                0 <= j < r@.len() ==> {
                    let started = spec_reconcile(old(self).model(), system_keys(systems@)).1[j];
                    &&& r@[j].0 == started.0
                    &&& r@[j].1 == started.1
                    &&& 0 <= started.2 < systems@.len()
                    &&& r@[j].2 == systems@[started.2].identity
                },
            final(self).mode_of() == old(self).mode_of(),
            final(self).command_error_of() == old(self).command_error_of(),
            final(self).pending_identity_of() == old(self).pending_identity_of(),
            final(self).pending_command_of() == old(self).pending_command_of(),
    {
        let ghost keys = system_keys(systems@);
        if self.mode.is_none() {
            self.probes.latency.clear();
            self.probes.in_flight.clear();
            return Vec::new();
        }
        let mut key_texts: Vec<String> = Vec::new();
        let mut i: usize = 0;
        while i < systems.len()
            invariant
                i <= systems@.len(),
                keys == system_keys(systems@),
                key_texts@.len() == i,
                forall|j: int| 0 <= j < i ==> #[trigger] key_texts@[j]@ == keys[j],
            decreases systems@.len() - i,
        {
            key_texts.push(identity_key(&systems[i].identity));
            i = i + 1;
        }
        proof {
            assert(key_set(key_texts@) =~= seq_key_set(keys)) by {
                assert forall|k: Seq<char>| seq_key_set(keys).contains(k) implies key_set(
                    key_texts@,
                ).contains(k) by {
                    let j = choose|j: int| 0 <= j < keys.len() && keys[j] == k;
                    assert(key_texts@[j]@ == k);
                }
            }
        }
        self.probes.latency.retain_keys(&key_texts);
        let ghost m0 = self.model();
        assert(m0 == (LatencyModel {
            latency: old(self).model().latency.restrict(seq_key_set(keys)),
            ..old(self).model()
        }));
        proof {
            lemma_begin_all_monotone(m0, keys, systems@.len() as int);
            assert(keys.take(keys.len() as int) =~= keys);
        }
        let mut out: Vec<(u64, u64, Lv1SystemIdentity)> = Vec::new();
        let mut i: usize = 0;
        while i < systems.len()
            invariant
                i <= systems@.len(),
                keys == system_keys(systems@),
                key_texts@.len() == systems@.len(),
                forall|j: int| 0 <= j < systems@.len() ==> #[trigger] key_texts@[j]@ == keys[j],
                self.wf(),
                self.model() == spec_begin_all(m0, keys.take(i as int)).0,
                spec_begin_all(m0, keys).0.next_attempt_id <= u64::MAX,
                forall|n: int|
                    0 <= n <= keys.len() ==> #[trigger] spec_begin_all(m0, keys.take(n)).0.next_attempt_id
                        <= spec_begin_all(m0, keys).0.next_attempt_id,
                out@.len() == spec_begin_all(m0, keys.take(i as int)).1.len(),
                forall|j: int|
                    #![trigger out@[j]]
                    0 <= j < out@.len() ==> {
                        let started = spec_begin_all(m0, keys.take(i as int)).1[j];
                        &&& out@[j].0 == started.0
                        &&& out@[j].1 == started.1
                        &&& 0 <= started.2 < i
                        &&& out@[j].2 == systems@[started.2].identity
                    },
                self.mode == old(self).mode_of(),
                self.command_error == old(self).command_error_of(),
                self.pending_identity == old(self).pending_identity_of(),
                self.pending_command_id == old(self).pending_command_of(),
            decreases systems@.len() - i,
        {
            let ghost prefix = keys.take(i as int);
            let ghost next_prefix = keys.take(i + 1);
            assert(next_prefix.drop_last() =~= prefix);
            assert(next_prefix.last() == keys[i as int]);
            let ghost before = spec_begin_all(m0, prefix);
            assert(spec_begin_all(m0, next_prefix).0 == spec_begin_latency(before.0, keys[i as int]).0);
            let started = self.begin_latency_key(key_texts[i].clone());
            match started {
                Some((session, attempt)) => {
                    let identity = systems[i].identity.duplicate();
                    out.push((session, attempt, identity));
                },
                None => {},
            }
            i = i + 1;
        }
        assert(keys.take(systems@.len() as int) =~= keys);
        out
    }
}

impl Default for ConnectionState {
    fn default() -> (s: Self)
        ensures
            s.wf(),
            s.mode_of() is None,
            s.pending_identity_of() is None,
            s.pending_command_of() is None,
            s.command_error_of() is None,
            s.model() == (LatencyModel {
                open: false,
                session_id: 0,
                next_attempt_id: 0,
                in_flight: Map::empty(),
                latency: Map::empty(),
            }),
    {
        Self::initial(None)
    }
}

/// Every attempt that owns an identity or is displayed as pending was allocated
/// before the next one.
pub open spec fn attempts_below(m: LatencyModel) -> bool {
    &&& forall|k: Seq<char>|
        #[trigger] m.in_flight.contains_key(k) ==> m.in_flight[k] < m.next_attempt_id
    &&& forall|k: Seq<char>|
        #[trigger] m.latency.contains_key(k) && m.latency[k] is Pending ==> m.latency[k]->attempt_id
            < m.next_attempt_id
}

proof fn lemma_begin_all_monotone(m: LatencyModel, keys: Seq<Seq<char>>, n: int)
    requires
        0 <= n <= keys.len(),
    ensures
        forall|a: int|
            0 <= a <= n ==> #[trigger] spec_begin_all(m, keys.take(a)).0.next_attempt_id
                <= spec_begin_all(m, keys.take(n)).0.next_attempt_id,
    decreases n,
{
    if n > 0 {
        lemma_begin_all_monotone(m, keys, n - 1);
        assert(keys.take(n).drop_last() =~= keys.take(n - 1));
    }
}

} // verus!

verus! {

/// Whether a probe result would be accepted: the chooser is open, the session is
/// current, and the attempt owns the identity.
pub open spec fn result_is_owned(m: LatencyModel, session_id: u64, attempt_id: u64, key: Seq<char>) -> bool {
    m.open && session_id == m.session_id && m.in_flight.contains_key(key) && m.in_flight[key]
        == attempt_id
}

/// A latency result changes presentation only for the open session, the attempt
/// that owns the identity, and while that attempt is displayed as pending; other
/// identities are never touched; a result that is not owned changes nothing; and
/// a duplicate of an accepted result changes nothing more.
pub proof fn law_latency_result_requires_active_pending(
    m: LatencyModel,
    session_id: u64,
    attempt_id: u64,
    key: Seq<char>,
    result: Result<u64, String>,
    again: Result<u64, String>,
    other: Seq<char>,
)
    ensures
        !result_is_owned(m, session_id, attempt_id, key) ==> spec_set_latency(
            m,
            session_id,
            attempt_id,
            key,
            result,
        ) == m,
        other != key ==> spec_set_latency(m, session_id, attempt_id, key, result).latency.contains_key(
            other,
        ) == m.latency.contains_key(other),
        other != key ==> spec_set_latency(m, session_id, attempt_id, key, result).latency[other]
            == m.latency[other],
        spec_set_latency(m, session_id, attempt_id, key, result).latency.contains_key(key)
            && spec_set_latency(m, session_id, attempt_id, key, result).latency[key] != m.latency[key]
            ==> result_is_owned(m, session_id, attempt_id, key) && m.latency[key] == (LatencyState::Pending { attempt_id }),
        spec_set_latency(
            spec_set_latency(m, session_id, attempt_id, key, result),
            session_id,
            attempt_id,
            key,
            again,
        ) == spec_set_latency(m, session_id, attempt_id, key, result),
{
}

/// Reopening or closing the chooser starts a session whose results cannot come
/// from the previous one: a result carrying the old session is ignored.
pub proof fn law_new_session_rejects_earlier_results(
    m: LatencyModel,
    open: bool,
    attempt_id: u64,
    key: Seq<char>,
    result: Result<u64, String>,
)
    requires
        m.session_id < u64::MAX,
    ensures
        spec_new_session(m, open).session_id != m.session_id,
        spec_set_latency(spec_new_session(m, open), m.session_id, attempt_id, key, result)
            == spec_new_session(m, open),
        spec_new_session(m, open).in_flight == Map::<Seq<char>, u64>::empty(),
        spec_new_session(m, open).latency == Map::<Seq<char>, LatencyState>::empty(),
{
}

/// A newly started probe gets an attempt identifier that no owned or displayed
/// attempt has, and every transition keeps identifiers below the next one.
pub proof fn law_attempt_ids_are_fresh(
    m: LatencyModel,
    key: Seq<char>,
    session_id: u64,
    attempt_id: u64,
    result: Result<u64, String>,
    open: bool,
)
    requires
        attempts_below(m),
        spec_begin_latency(m, key).0.next_attempt_id <= u64::MAX,
    ensures
        spec_begin_latency(m, key).1 matches Some((s, a)) ==> s == m.session_id && (forall|
            k: Seq<char>,
        | #[trigger] m.in_flight.contains_key(k) ==> m.in_flight[k] != a) && (forall|k: Seq<char>|
            #[trigger] m.latency.contains_key(k) && m.latency[k] is Pending ==> m.latency[k]->attempt_id
                != a),
        attempts_below(spec_begin_latency(m, key).0),
        attempts_below(spec_set_latency(m, session_id, attempt_id, key, result)),
        attempts_below(spec_new_session(m, open)),
{
    let m2 = spec_set_latency(m, session_id, attempt_id, key, result);
    assert forall|k: Seq<char>| #[trigger] m2.in_flight.contains_key(k) implies m2.in_flight[k]
        < m2.next_attempt_id by {
        assert(m.in_flight.contains_key(k));
    }
    assert forall|k: Seq<char>|
        #[trigger] m2.latency.contains_key(k) && m2.latency[k] is Pending implies m2.latency[k]->attempt_id
        < m2.next_attempt_id by {
        assert(m.latency.contains_key(k));
    }
}

proof fn lemma_begin_all_effects(m: LatencyModel, keys: Seq<Seq<char>>)
    ensures
        ({
            let (r, out) = spec_begin_all(m, keys);
            &&& r.open == m.open
            &&& r.session_id == m.session_id
            &&& forall|k: Seq<char>|
                #[trigger] m.in_flight.contains_key(k) ==> r.in_flight.contains_key(k)
                    && r.in_flight[k] == m.in_flight[k]
            &&& forall|k: Seq<char>|
                !seq_key_set(keys).contains(k) ==> (#[trigger] r.latency.contains_key(k)
                    == m.latency.contains_key(k)) && r.latency[k] == m.latency[k]
            &&& m.open ==> forall|i: int|
                0 <= i < keys.len() ==> #[trigger] r.latency.contains_key(keys[i])
            &&& forall|j: int|
                0 <= j < out.len() ==> 0 <= #[trigger] out[j].2 < keys.len() && !m.in_flight.contains_key(
                    keys[out[j].2],
                ) && !m.latency.contains_key(keys[out[j].2])
            &&& forall|k: Seq<char>|
                #[trigger] m.in_flight.contains_key(k) && !m.latency.contains_key(k)
                    && seq_key_set(keys).contains(k) && m.open ==> r.latency[k] == (
                    LatencyState::Pending { attempt_id: m.in_flight[k] })
        }),
    decreases keys.len(),
{
    if keys.len() > 0 {
        let init = keys.drop_last();
        lemma_begin_all_effects(m, init);
        let (m1, out1) = spec_begin_all(m, init);
        let k0 = keys.last();
        let (r, out) = spec_begin_all(m, keys);
        assert forall|k: Seq<char>| !seq_key_set(keys).contains(k) implies (#[trigger] r.latency.contains_key(
            k,
        ) == m.latency.contains_key(k)) && r.latency[k] == m.latency[k] by {
            if seq_key_set(init).contains(k) {
                let i = choose|i: int| 0 <= i < init.len() && init[i] == k;
                assert(keys[i] == k);
            }
            assert(k != keys[keys.len() - 1]);
        }
        if m.open {
            assert forall|i: int| 0 <= i < keys.len() implies #[trigger] r.latency.contains_key(
                keys[i],
            ) by {
                if i < keys.len() - 1 {
                    assert(init[i] == keys[i]);
                    assert(m1.latency.contains_key(init[i]));
                }
            }
        }
        assert forall|j: int| 0 <= j < out.len() implies 0 <= #[trigger] out[j].2 < keys.len()
            && !m.in_flight.contains_key(keys[out[j].2]) && !m.latency.contains_key(
            keys[out[j].2],
        ) by {
            if j < out1.len() {
                assert(out[j] == out1[j]);
                assert(init[out1[j].2] == keys[out1[j].2]);
            } else {
                assert(out[j].2 == keys.len() - 1);
                assert(!m1.in_flight.contains_key(k0));
                assert(!m1.latency.contains_key(k0));
                if m.in_flight.contains_key(k0) {
                    assert(m1.in_flight.contains_key(k0));
                }
                if m.latency.contains_key(k0) {
                    if seq_key_set(init).contains(k0) {
                        let i = choose|i: int| 0 <= i < init.len() && init[i] == k0;
                        if m.open {
                            assert(m1.latency.contains_key(init[i]));
                        }
                    }
                }
            }
        }
        assert forall|k: Seq<char>|
            #[trigger] m.in_flight.contains_key(k) && !m.latency.contains_key(k) && seq_key_set(
                keys,
            ).contains(k) && m.open implies r.latency[k] == (LatencyState::Pending {
            attempt_id: m.in_flight[k],
        }) by {
            if seq_key_set(init).contains(k) {
            } else {
                let i = choose|i: int| 0 <= i < keys.len() && keys[i] == k;
                if i < keys.len() - 1 {
                    assert(init[i] == k);
                    assert(seq_key_set(init).contains(k));
                }
                assert(k == k0);
                assert(m1.in_flight.contains_key(k0));
                assert(!m1.latency.contains_key(k0));
            }
        }
    }
}

/// Reconciliation while closed starts no probes and retains nothing. While open,
/// it retains every in-flight ownership, hides the latency of consoles that are
/// no longer discovered, displays every discovered console, restores the same
/// pending attempt for a console that reappears before its probe completed, and
/// starts probes only for consoles that neither own an attempt nor are displayed.
pub proof fn law_reconcile_prunes_display_and_keeps_ownership(
    m: LatencyModel,
    keys: Seq<Seq<char>>,
)
    ensures
        !m.open ==> spec_reconcile(m, keys).1.len() == 0 && spec_reconcile(m, keys).0.in_flight
            == Map::<Seq<char>, u64>::empty() && spec_reconcile(m, keys).0.latency == Map::<
            Seq<char>,
            LatencyState,
        >::empty(),
        m.open ==> forall|k: Seq<char>|
            #[trigger] m.in_flight.contains_key(k) ==> spec_reconcile(m, keys).0.in_flight.contains_key(
                k,
            ) && spec_reconcile(m, keys).0.in_flight[k] == m.in_flight[k],
        m.open ==> forall|k: Seq<char>|
            !seq_key_set(keys).contains(k) ==> !#[trigger] spec_reconcile(
                m,
                keys,
            ).0.latency.contains_key(k),
        m.open ==> forall|i: int|
            0 <= i < keys.len() ==> #[trigger] spec_reconcile(m, keys).0.latency.contains_key(
                keys[i],
            ),
        m.open ==> forall|k: Seq<char>|
            #[trigger] m.in_flight.contains_key(k) && !m.latency.contains_key(k)
                && seq_key_set(keys).contains(k) ==> spec_reconcile(m, keys).0.latency[k] == (
                LatencyState::Pending { attempt_id: m.in_flight[k] }),
        m.open ==> forall|j: int|
            0 <= j < spec_reconcile(m, keys).1.len() ==> !m.in_flight.contains_key(
                keys[#[trigger] spec_reconcile(m, keys).1[j].2],
            ),
{
    if m.open {
        let m0 = LatencyModel { latency: m.latency.restrict(seq_key_set(keys)), ..m };
        lemma_begin_all_effects(m0, keys);
        assert forall|k: Seq<char>| #[trigger] m.in_flight.contains_key(k) implies spec_reconcile(
            m,
            keys,
        ).0.in_flight.contains_key(k) && spec_reconcile(m, keys).0.in_flight[k] == m.in_flight[k] by {
            assert(m0.in_flight.contains_key(k));
        }
        assert forall|k: Seq<char>|
            #[trigger] m.in_flight.contains_key(k) && !m.latency.contains_key(k)
                && seq_key_set(keys).contains(k) implies spec_reconcile(m, keys).0.latency[k] == (
            LatencyState::Pending { attempt_id: m.in_flight[k] }) by {
            assert(m0.in_flight.contains_key(k));
            assert(!m0.latency.contains_key(k));
        }
    }
}

} // verus!

verus! {

/// The latency column text.
pub open spec fn spec_latency_text(latency: Option<LatencyState>) -> Seq<char> {
    match latency {
        None => "Testing…"@,
        Some(LatencyState::Pending { .. }) => "Testing…"@,
        Some(LatencyState::Success(ms)) => decimal(ms as nat) + " ms"@,
        Some(LatencyState::Error(error)) => "Failed: "@ + error@,
    }
}

pub fn latency_text(latency: Option<&LatencyState>) -> (text: String)
    ensures
        text@ == spec_latency_text(
            match latency {
                Some(l) => Some(*l),
                None => None,
            },
        ),
{
    match latency {
        None => String::from_str("Testing…"),
        Some(LatencyState::Pending { .. }) => String::from_str("Testing…"),
        Some(LatencyState::Success(ms)) => {
            let mut text = decimal_text(*ms);
            text.append(" ms");
            text
        },
        Some(LatencyState::Error(error)) => {
            let mut text = String::from_str("Failed: ");
            text.append(error.as_str());
            text
        },
    }
}

/// The accessible name of a console row: name, status, and latency.
pub fn system_accessibility_label(
    display_name: &str,
    connection_status: &str,
    latency: Option<&LatencyState>,
) -> (label: String)
    ensures
        label@ == display_name@ + ", "@ + connection_status@ + ", latency "@ + spec_latency_text(
            match latency {
                Some(l) => Some(*l),
                None => None,
            },
        ),
{
    let mut label = String::from_str(display_name);
    label.append(", ");
    label.append(connection_status);
    label.append(", latency ");
    let text = latency_text(latency);
    label.append(text.as_str());
    label
}


/// What a console's row in the chooser reports about it.
#[derive(Debug, Clone, Copy, PartialEq, Eq, Structural)]
pub enum SystemRowStatus {
    Unavailable,
    Connected,
    Connecting,
    Available,
}

/// How a console's status is coloured.
#[derive(Debug, Clone, Copy, PartialEq, Eq, Structural)]
pub enum SystemRowTone {
    Danger,
    Current,
    Cued,
}

/// What a click on a console's row does.
#[derive(Debug, Clone, Copy, PartialEq, Eq, Structural)]
pub enum SystemRowAction {
    /// Starts connecting to the console.
    Select,
    /// Closes the chooser and goes back to the connected console.
    Resume,
    /// Nothing: the row is disabled.
    Ignore,
}

/// Everything a console's row shows and does, apart from its latency column.
pub struct SystemRow {
    pub display_name: String,
    pub connected: bool,
    pub status: SystemRowStatus,
    pub tone: SystemRowTone,
    pub disabled: bool,
    pub action: SystemRowAction,
}

pub open spec fn opt_identity_view(o: Option<&Lv1SystemIdentity>) -> Option<IdentityView> {
    match o {
        Some(i) => Some(i@),
        None => None,
    }
}

/// The status shown: unavailability first, then the connection, then a
/// connection in progress to this console.
pub open spec fn spec_row_status(unavailable: bool, connected: bool, selecting: bool) -> SystemRowStatus {
    if unavailable {
        SystemRowStatus::Unavailable
    } else if connected {
        SystemRowStatus::Connected
    } else if selecting {
        SystemRowStatus::Connecting
    } else {
        SystemRowStatus::Available
    }
}

pub open spec fn spec_row_tone(unavailable: bool, connected: bool) -> SystemRowTone {
    if unavailable {
        SystemRowTone::Danger
    } else if connected {
        SystemRowTone::Current
    } else {
        SystemRowTone::Cued
    }
}

/// An unavailable console, and any other console while a connection is pending,
/// cannot be clicked; the connected console resumes, the others connect.
pub open spec fn spec_row_action(unavailable: bool, connected: bool, pending: bool) -> SystemRowAction {
    if unavailable || (!connected && pending) {
        SystemRowAction::Ignore
    } else if connected {
        SystemRowAction::Resume
    } else {
        SystemRowAction::Select
    }
}

/// The row of a discovered console, given the connected console and the one a
/// connection is pending for.
pub fn system_row(
    system: &DiscoveredLv1System,
    connected: Option<&Lv1SystemIdentity>,
    pending: Option<&Lv1SystemIdentity>,
) -> (row: SystemRow)
    ensures
        row.display_name@ == (match system.identity.host {
            Some(host) => host@,
            None => "LV1 Console"@,
        }),
        row.connected == spec_identities_match(system.identity@, opt_identity_view(connected)),
        row.status == spec_row_status(
            system.status == DiscoveredLv1Status::Unavailable,
            row.connected,
            spec_identities_match(system.identity@, opt_identity_view(pending)),
        ),
        row.tone == spec_row_tone(system.status == DiscoveredLv1Status::Unavailable, row.connected),
        row.disabled == (system.status == DiscoveredLv1Status::Unavailable || (!row.connected
            && pending is Some)),
        row.action == spec_row_action(
            system.status == DiscoveredLv1Status::Unavailable,
            row.connected,
            pending is Some,
        ),
{
    let display_name = match &system.identity.host {
        Some(host) => host.clone(),
        None => String::from_str("LV1 Console"),
    };
    let is_connected = identities_match(&system.identity, connected);
    let unavailable = match system.status {
        DiscoveredLv1Status::Unavailable => true,
        DiscoveredLv1Status::Available => false,
    };
    let selecting = identities_match(&system.identity, pending);
    let status = if unavailable {
        SystemRowStatus::Unavailable
    } else if is_connected {
        SystemRowStatus::Connected
    } else if selecting {
        SystemRowStatus::Connecting
    } else {
        SystemRowStatus::Available
    };
    let tone = if unavailable {
        SystemRowTone::Danger
    } else if is_connected {
        SystemRowTone::Current
    } else {
        SystemRowTone::Cued
    };
    let disabled = unavailable || (!is_connected && pending.is_some());
    let action = if disabled {
        SystemRowAction::Ignore
    } else if is_connected {
        SystemRowAction::Resume
    } else {
        SystemRowAction::Select
    };
    SystemRow { display_name, connected: is_connected, status, tone, disabled, action }
}

impl SystemRowStatus {
    /// The status as the row writes it.
    pub fn label(&self) -> (text: &'static str)
        ensures
            text@ == (match *self {
                SystemRowStatus::Unavailable => "Unavailable"@,
                SystemRowStatus::Connected => "Connected"@,
                SystemRowStatus::Connecting => "Connecting\u{2026}"@,
                SystemRowStatus::Available => "Available"@,
            }),
    {
        match self {
            SystemRowStatus::Unavailable => "Unavailable",
            SystemRowStatus::Connected => "Connected",
            SystemRowStatus::Connecting => "Connecting\u{2026}",
            SystemRowStatus::Available => "Available",
        }
    }
}

/// Text with no NUL character.
pub open spec fn nul_free(s: Seq<char>) -> bool {
    forall|i: int| 0 <= i < s.len() ==> #[trigger] s[i] != '\0'
}

/// An optional text that is absent, or present, non-empty and NUL-free.
pub open spec fn key_field_ok(o: Option<Seq<char>>) -> bool {
    match o {
        Some(s) => s.len() > 0 && nul_free(s),
        None => true,
    }
}

/// The identities for which the latency key is unambiguous.
pub open spec fn key_safe(identity: IdentityView) -> bool {
    key_field_ok(identity.uuid) && key_field_ok(identity.host) && nul_free(identity.address)
}

proof fn lemma_split_at_nul(a: Seq<char>, b: Seq<char>, c: Seq<char>, d: Seq<char>)
    requires
        nul_free(a),
        nul_free(c),
        a + seq!['\0'] + b == c + seq!['\0'] + d,
    ensures
        a == c,
        b == d,
{
    let l = a + seq!['\0'] + b;
    let r = c + seq!['\0'] + d;
    if a.len() < c.len() {
        assert(l[a.len() as int] == '\0');
        assert(r[a.len() as int] == c[a.len() as int]);
    } else if c.len() < a.len() {
        assert(r[c.len() as int] == '\0');
        assert(l[c.len() as int] == a[c.len() as int]);
    }
    assert(a =~= l.take(a.len() as int));
    assert(c =~= r.take(c.len() as int));
    assert(b =~= l.skip((a.len() + 1) as int));
    assert(d =~= r.skip((c.len() + 1) as int));
}

proof fn lemma_field_injective(x: Option<Seq<char>>, y: Option<Seq<char>>)
    requires
        key_field_ok(x),
        key_field_ok(y),
        text_or_empty(x) == text_or_empty(y),
    ensures
        x == y,
{
}

proof fn lemma_key_shape(identity: IdentityView)
    ensures
        spec_identity_key(identity) =~= text_or_empty(identity.uuid) + seq!['\0'] + (
        text_or_empty(identity.host) + seq!['\0'] + (identity.address + seq!['\0'] + decimal(
            identity.port as nat,
        ))),
{
}

proof fn lemma_equal_keys_equal_identities(x: IdentityView, y: IdentityView)
    requires
        key_safe(x),
        key_safe(y),
        spec_identity_key(x) == spec_identity_key(y),
    ensures
        x == y,
{
    lemma_key_shape(x);
    lemma_key_shape(y);
    let ax = x.address + seq!['\0'] + decimal(x.port as nat);
    let ay = y.address + seq!['\0'] + decimal(y.port as nat);
    let tx = text_or_empty(x.host) + seq!['\0'] + ax;
    let ty = text_or_empty(y.host) + seq!['\0'] + ay;
    lemma_split_at_nul(text_or_empty(x.uuid), tx, text_or_empty(y.uuid), ty);
    lemma_split_at_nul(text_or_empty(x.host), ax, text_or_empty(y.host), ay);
    lemma_split_at_nul(x.address, decimal(x.port as nat), y.address, decimal(y.port as nat));
    lemma_decimal_injective(x.port as nat, y.port as nat);
    lemma_field_injective(x.uuid, y.uuid);
    lemma_field_injective(x.host, y.host);
}

/// The latency key tells identities apart: for identities whose UUID and host
/// are absent or non-empty and whose texts hold no NUL, equal keys mean equal
/// identities (and equal identities always have equal keys).
pub proof fn law_identity_key_is_injective(x: IdentityView, y: IdentityView)
    requires
        key_safe(x),
        key_safe(y),
    ensures
        (spec_identity_key(x) == spec_identity_key(y)) <==> x == y,
{
    if spec_identity_key(x) == spec_identity_key(y) {
        lemma_equal_keys_equal_identities(x, y);
    }
}

/// Identity matching over all identities: two identities that both carry a
/// UUID match exactly when the UUIDs are equal; otherwise they match only when
/// host, address and port are all equal, so a different port, address or host
/// never matches. Matching is symmetric, and an identity matches itself.
pub proof fn law_identities_match(left: IdentityView, right: IdentityView)
    ensures
        (left.uuid is Some && right.uuid is Some) ==> (spec_identities_match(left, Some(right))
            <==> left.uuid == right.uuid),
        !(left.uuid is Some && right.uuid is Some) && left.port != right.port ==> !spec_identities_match(
            left,
            Some(right),
        ),
        !(left.uuid is Some && right.uuid is Some) && left.address != right.address
            ==> !spec_identities_match(left, Some(right)),
        !(left.uuid is Some && right.uuid is Some) && left.host != right.host ==> !spec_identities_match(
            left,
            Some(right),
        ),
        !(left.uuid is Some && right.uuid is Some) && left.host == right.host && left.address
            == right.address && left.port == right.port ==> spec_identities_match(left, Some(right)),
        spec_identities_match(left, Some(right)) == spec_identities_match(right, Some(left)),
        spec_identities_match(left, Some(left)),
        !spec_identities_match(left, None),
{
}

/// A console row over all states: an unavailable console is never clickable
/// and shows Unavailable in the danger tone; an available connected console
/// shows Connected and clicking it resumes; while a connection is pending,
/// every other available console is ignored (the one being connected shows
/// Connecting); otherwise an available console shows Available and selects.
pub proof fn law_system_row_rules(connected: bool, selecting: bool, pending: bool)
    ensures
        spec_row_action(true, connected, pending) == SystemRowAction::Ignore,
        spec_row_status(true, connected, selecting) == SystemRowStatus::Unavailable,
        spec_row_tone(true, connected) == SystemRowTone::Danger,
        spec_row_action(false, true, pending) == SystemRowAction::Resume,
        spec_row_status(false, true, selecting) == SystemRowStatus::Connected,
        spec_row_tone(false, true) == SystemRowTone::Current,
        spec_row_action(false, false, true) == SystemRowAction::Ignore,
        spec_row_status(false, false, true) == SystemRowStatus::Connecting,
        spec_row_action(false, false, false) == SystemRowAction::Select,
        spec_row_status(false, false, false) == SystemRowStatus::Available,
        spec_row_tone(false, false) == SystemRowTone::Cued,
{
}

} // verus!
