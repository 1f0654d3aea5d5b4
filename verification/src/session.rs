//! The centre's side of an agent WebSocket connection, as a state machine:
//! registration with a token, lookup of the server by the token's keyed
//! hash, acknowledgement, tracking in the connection registry, the message
//! loop, and marking the server offline when the connection ends. The caller
//! performs each action (socket, registry and database work) and feeds back
//! what happened as the next event.

use vstd::prelude::*;

use crate::api::ServerStatus;
use crate::crypto::{agent_token_hash, hash_agent_token};
use crate::protocol::strings_view;
use crate::text::str_equals;

verus! {

/// How waiting for the registration message ended.
pub enum RegisterOutcome {
    /// An `agent_register` message arrived with this token.
    Received { agent_token: String },
    /// The socket failed or closed first, or the message was malformed.
    Failed { reason: String },
    /// Nothing arrived within the registration timeout.
    TimedOut,
}

/// How looking the server up by token hash ended.
pub enum LookupOutcome {
    Found { server_id: u128 },
    NotFound,
    DatabaseError,
}

/// What the socket yielded when a frame was awaited.
pub enum FrameKind {
    Text,
    Ping,
    Close,
    Error,
    Ended,
    Other,
}

/// What happened since the last action.
pub enum SessionEvent {
    Register(RegisterOutcome),
    TokenLookup(LookupOutcome),
    /// The server row was updated as `RegisterAgent` asked and the agent's
    /// system info and executors were stored (failures there are only
    /// logged).
    AgentRegistered,
    AckSent { ok: bool },
    /// The connection was entered in the registry.
    ConnectionTracked,
    Frame(FrameKind),
    /// The text frame was handled; `heartbeat` tells whether it was a
    /// heartbeat whose system stats were stored.
    MessageHandled { heartbeat: bool },
    /// The connection's last heartbeat in the registry was moved to now.
    ConnectionRefreshed,
    PongSent { ok: bool },
    /// The connection was removed from the registry.
    ConnectionUntracked,
    OfflineMarked,
}

/// Errors reported to the agent before the connection is dropped.
pub enum SessionError {
    RegisterFailed { reason: String },
    Timeout,
    InvalidToken,
    DatabaseError,
}

/// What the caller must do next.
pub enum SessionAction {
    /// Send an `error` message with this error's code and message, then end.
    SendErrorAndClose(SessionError),
    /// Look the server up by this token hash.
    LookupToken { token_hash: String },
    /// Set the server's status to `status`, its agent id to `agent_id` and
    /// its agent version to the one registered; store its system info and
    /// executors.
    RegisterAgent { server_id: u128, agent_id: u128, status: ServerStatus },
    /// Send `agent_register_ack` with these ids, heartbeat interval and
    /// pending configurations.
    SendAck {
        server_id: u128,
        agent_id: u128,
        heartbeat_interval_ms: u64,
        pending_configs: Vec<String>,
    },
    /// Enter the connection in the registry, connected and heartbeating now.
    TrackConnection { server_id: u128, agent_id: u128 },
    /// Wait for the next frame.
    ReceiveFrame,
    /// Handle the text frame just received as an agent message.
    HandleText { server_id: u128 },
    /// Move the connection's last heartbeat in the registry to now.
    RefreshConnection { server_id: u128 },
    /// Answer the ping just received with a pong carrying its data.
    SendPong,
    /// Remove the connection from the registry.
    UntrackConnection { server_id: u128 },
    /// Set the server's status to `status` (offline).
    MarkOffline { server_id: u128, status: ServerStatus },
    /// The connection is over.
    Close,
    /// The event does not fit the current state; nothing to do.
    Ignore,
}

/// Where the session stands.
#[derive(Clone, Copy, Debug, PartialEq, Eq, Structural)]
pub enum SessionState {
    AwaitingRegister,
    AwaitingLookup,
    Registering { server_id: u128, agent_id: u128 },
    SendingAck { server_id: u128, agent_id: u128 },
    Tracking { server_id: u128, agent_id: u128 },
    Active { server_id: u128, agent_id: u128 },
    HandlingMessage { server_id: u128, agent_id: u128 },
    Refreshing { server_id: u128, agent_id: u128 },
    SendingPong { server_id: u128, agent_id: u128 },
    Untracking { server_id: u128 },
    Closing { server_id: u128 },
    Closed,
}

/// Events, with text as character sequences.
pub enum RegisterOutcomeView {
    Received { agent_token: Seq<char> },
    Failed { reason: Seq<char> },
    TimedOut,
}

pub enum SessionEventView {
    Register(RegisterOutcomeView),
    TokenLookup(LookupOutcome),
    AgentRegistered,
    AckSent { ok: bool },
    ConnectionTracked,
    Frame(FrameKind),
    MessageHandled { heartbeat: bool },
    ConnectionRefreshed,
    PongSent { ok: bool },
    ConnectionUntracked,
    OfflineMarked,
}

pub enum SessionErrorView {
    RegisterFailed { reason: Seq<char> },
    Timeout,
    InvalidToken,
    DatabaseError,
}

pub enum SessionActionView {
    SendErrorAndClose(SessionErrorView),
    LookupToken { token_hash: Seq<char> },
    RegisterAgent { server_id: u128, agent_id: u128, status: ServerStatus },
    SendAck {
        server_id: u128,
        agent_id: u128,
        heartbeat_interval_ms: u64,
        pending_configs: Seq<Seq<char>>,
    },
    TrackConnection { server_id: u128, agent_id: u128 },
    ReceiveFrame,
    HandleText { server_id: u128 },
    RefreshConnection { server_id: u128 },
    SendPong,
    UntrackConnection { server_id: u128 },
    MarkOffline { server_id: u128, status: ServerStatus },
    Close,
    Ignore,
}

impl View for SessionEvent {
    type V = SessionEventView;

    open spec fn view(&self) -> SessionEventView {
        match self {
            SessionEvent::Register(RegisterOutcome::Received { agent_token }) => SessionEventView::Register(
                RegisterOutcomeView::Received { agent_token: agent_token@ },
            ),
            SessionEvent::Register(RegisterOutcome::Failed { reason }) => SessionEventView::Register(
                RegisterOutcomeView::Failed { reason: reason@ },
            ),
            SessionEvent::Register(RegisterOutcome::TimedOut) => SessionEventView::Register(
                RegisterOutcomeView::TimedOut,
            ),
            SessionEvent::TokenLookup(o) => SessionEventView::TokenLookup(*o),
            SessionEvent::AgentRegistered => SessionEventView::AgentRegistered,
            SessionEvent::AckSent { ok } => SessionEventView::AckSent { ok: *ok },
            SessionEvent::ConnectionTracked => SessionEventView::ConnectionTracked,
            SessionEvent::Frame(k) => SessionEventView::Frame(*k),
            SessionEvent::MessageHandled { heartbeat } => SessionEventView::MessageHandled {
                heartbeat: *heartbeat,
            },
            SessionEvent::ConnectionRefreshed => SessionEventView::ConnectionRefreshed,
            SessionEvent::PongSent { ok } => SessionEventView::PongSent { ok: *ok },
            SessionEvent::ConnectionUntracked => SessionEventView::ConnectionUntracked,
            SessionEvent::OfflineMarked => SessionEventView::OfflineMarked,
        }
    }
}

impl View for SessionAction {
    type V = SessionActionView;

    open spec fn view(&self) -> SessionActionView {
        match self {
            SessionAction::SendErrorAndClose(e) => SessionActionView::SendErrorAndClose(e@),
            SessionAction::LookupToken { token_hash } => SessionActionView::LookupToken {
                token_hash: token_hash@,
            },
            SessionAction::RegisterAgent { server_id, agent_id, status } =>
                SessionActionView::RegisterAgent {
                server_id: *server_id,
                agent_id: *agent_id,
                status: *status,
            },
            SessionAction::SendAck { server_id, agent_id, heartbeat_interval_ms, pending_configs } =>
                SessionActionView::SendAck {
                server_id: *server_id,
                agent_id: *agent_id,
                heartbeat_interval_ms: *heartbeat_interval_ms,
                pending_configs: strings_view(pending_configs@),
            },
            SessionAction::TrackConnection { server_id, agent_id } =>
                SessionActionView::TrackConnection { server_id: *server_id, agent_id: *agent_id },
            SessionAction::ReceiveFrame => SessionActionView::ReceiveFrame,
            SessionAction::HandleText { server_id } => SessionActionView::HandleText {
                server_id: *server_id,
            },
            SessionAction::RefreshConnection { server_id } => SessionActionView::RefreshConnection {
                server_id: *server_id,
            },
            SessionAction::SendPong => SessionActionView::SendPong,
            SessionAction::UntrackConnection { server_id } => SessionActionView::UntrackConnection {
                server_id: *server_id,
            },
            SessionAction::MarkOffline { server_id, status } => SessionActionView::MarkOffline {
                server_id: *server_id,
                status: *status,
            },
            SessionAction::Close => SessionActionView::Close,
            SessionAction::Ignore => SessionActionView::Ignore,
        }
    }
}

/// The heartbeat interval the centre asks agents for, in milliseconds.
pub open spec fn heartbeat_interval_ms() -> u64 {
    30000
}

/// A version-4 UUID as a 128-bit number: version nibble 4 and variant bits
/// `10`.
pub open spec fn is_uuid_v4(id: u128) -> bool {
    (id >> 76u128) & 0xfu128 == 4u128 && (id >> 62u128) & 3u128 == 2u128
}

/// Calls `uuid::Uuid::new_v4` and returns it as a number
/// (`Uuid::as_u128`). Claimed: the version and variant bits of a version-4
/// UUID are set, as `new_v4` masks them in; the other bits depend on chance
/// and nothing is said of them.
#[verifier::external_body]
fn random_uuid_v4() -> (id: u128)
    ensures
        is_uuid_v4(id),
{
    uuid::Uuid::new_v4().as_u128()
}

/// The state after `state` has been closed down from the message loop:
/// the connection leaves the registry, then the server goes offline.
pub open spec fn closing_down(server_id: u128) -> (SessionState, SessionActionView) {
    (SessionState::Untracking { server_id }, SessionActionView::UntrackConnection { server_id })
}

/// The transition function: the next state and the action for an event,
/// under the token-hash key `secret`. `fresh_id` is the agent id issued
/// when a server is found.
pub open spec fn session_next(
    secret: Seq<char>,
    fresh_id: u128,
    state: SessionState,
    event: SessionEventView,
) -> (SessionState, SessionActionView) {
    match (state, event) {
        (SessionState::AwaitingRegister, SessionEventView::Register(outcome)) => match outcome {
            RegisterOutcomeView::Received { agent_token } => (
                SessionState::AwaitingLookup,
                SessionActionView::LookupToken { token_hash: agent_token_hash(secret, agent_token) },
            ),
            RegisterOutcomeView::Failed { reason } => (
                SessionState::Closed,
                SessionActionView::SendErrorAndClose(SessionErrorView::RegisterFailed { reason }),
            ),
            RegisterOutcomeView::TimedOut => (
                SessionState::Closed,
                SessionActionView::SendErrorAndClose(SessionErrorView::Timeout),
            ),
        },
        (SessionState::AwaitingLookup, SessionEventView::TokenLookup(outcome)) => match outcome {
            LookupOutcome::Found { server_id } => (
                SessionState::Registering { server_id, agent_id: fresh_id },
                SessionActionView::RegisterAgent {
                    server_id,
                    agent_id: fresh_id,
                    status: ServerStatus::Online,
                },
            ),
            LookupOutcome::NotFound => (
                SessionState::Closed,
                SessionActionView::SendErrorAndClose(SessionErrorView::InvalidToken),
            ),
            LookupOutcome::DatabaseError => (
                SessionState::Closed,
                SessionActionView::SendErrorAndClose(SessionErrorView::DatabaseError),
            ),
        },
        (SessionState::Registering { server_id, agent_id }, SessionEventView::AgentRegistered) => (
            SessionState::SendingAck { server_id, agent_id },
            SessionActionView::SendAck {
                server_id,
                agent_id,
                heartbeat_interval_ms: heartbeat_interval_ms(),
                pending_configs: Seq::empty(),
            },
        ),
        (SessionState::SendingAck { server_id, agent_id }, SessionEventView::AckSent { ok }) => if ok {
            (
                SessionState::Tracking { server_id, agent_id },
                SessionActionView::TrackConnection { server_id, agent_id },
            )
        } else {
            (SessionState::Closed, SessionActionView::Close)
        },
        (SessionState::Tracking { server_id, agent_id }, SessionEventView::ConnectionTracked) => (
            SessionState::Active { server_id, agent_id },
            SessionActionView::ReceiveFrame,
        ),
        (SessionState::Active { server_id, agent_id }, SessionEventView::Frame(kind)) => match kind {
            FrameKind::Text => (
                SessionState::HandlingMessage { server_id, agent_id },
                SessionActionView::HandleText { server_id },
            ),
            FrameKind::Ping => (
                SessionState::SendingPong { server_id, agent_id },
                SessionActionView::SendPong,
            ),
            FrameKind::Other => (
                SessionState::Active { server_id, agent_id },
                SessionActionView::ReceiveFrame,
            ),
            _ => closing_down(server_id),
        },
        (
            SessionState::HandlingMessage { server_id, agent_id },
            SessionEventView::MessageHandled { heartbeat },
        ) => if heartbeat {
            (
                SessionState::Refreshing { server_id, agent_id },
                SessionActionView::RefreshConnection { server_id },
            )
        } else {
            (SessionState::Active { server_id, agent_id }, SessionActionView::ReceiveFrame)
        },
        (SessionState::Refreshing { server_id, agent_id }, SessionEventView::ConnectionRefreshed) => (
            SessionState::Active { server_id, agent_id },
            SessionActionView::ReceiveFrame,
        ),
        (SessionState::SendingPong { server_id, agent_id }, SessionEventView::PongSent { ok }) => if ok {
            (SessionState::Active { server_id, agent_id }, SessionActionView::ReceiveFrame)
        } else {
            closing_down(server_id)
        },
        (SessionState::Untracking { server_id }, SessionEventView::ConnectionUntracked) => (
            SessionState::Closing { server_id },
            SessionActionView::MarkOffline { server_id, status: ServerStatus::Offline },
        ),
        (SessionState::Closing { .. }, SessionEventView::OfflineMarked) => (
            SessionState::Closed,
            SessionActionView::Close,
        ),
        _ => (state, SessionActionView::Ignore),
    }
}

/// The state before anything has happened on a new connection.
pub fn initial_session_state() -> (state: SessionState)
    ensures
        state == SessionState::AwaitingRegister,
{
    SessionState::AwaitingRegister
}

/// Takes one step of the session under the token-hash key `secret`: the
/// next state and the action to perform. When a server is found, the agent
/// id issued is a fresh version-4 UUID.
pub fn session_step(secret: &str, state: SessionState, event: SessionEvent) -> (result: (
    SessionState,
    SessionAction,
))
    ensures
        exists|fresh_id: u128|
            (result.0, result.1@) == #[trigger] session_next(secret@, fresh_id, state, event@),
        result.1 matches SessionAction::RegisterAgent { agent_id, .. } ==> is_uuid_v4(agent_id),
{
    let ghost unused: u128 = 0;
    match (state, event) {
        (SessionState::AwaitingRegister, SessionEvent::Register(outcome)) => match outcome {
            RegisterOutcome::Received { agent_token } => {
                let token_hash = hash_agent_token(secret, agent_token.as_str());
                let r = (SessionState::AwaitingLookup, SessionAction::LookupToken { token_hash });
                assert((r.0, r.1@) == session_next(secret@, unused, state, event@));
                r
            },
            RegisterOutcome::Failed { reason } => {
                let r = (
                    SessionState::Closed,
                    SessionAction::SendErrorAndClose(SessionError::RegisterFailed { reason }),
                );
                assert((r.0, r.1@) == session_next(secret@, unused, state, event@));
                r
            },
            RegisterOutcome::TimedOut => {
                let r = (SessionState::Closed, SessionAction::SendErrorAndClose(SessionError::Timeout));
                assert((r.0, r.1@) == session_next(secret@, unused, state, event@));
                r
            },
        },
        (SessionState::AwaitingLookup, SessionEvent::TokenLookup(outcome)) => match outcome {
            LookupOutcome::Found { server_id } => {
                let agent_id = random_uuid_v4();
                let r = (
                    SessionState::Registering { server_id, agent_id },
                    SessionAction::RegisterAgent { server_id, agent_id, status: ServerStatus::Online },
                );
                assert((r.0, r.1@) == session_next(secret@, agent_id, state, event@));
                r
            },
            LookupOutcome::NotFound => {
                let r = (SessionState::Closed, SessionAction::SendErrorAndClose(SessionError::InvalidToken));
                assert((r.0, r.1@) == session_next(secret@, unused, state, event@));
                r
            },
            LookupOutcome::DatabaseError => {
                let r = (
                    SessionState::Closed,
                    SessionAction::SendErrorAndClose(SessionError::DatabaseError),
                );
                assert((r.0, r.1@) == session_next(secret@, unused, state, event@));
                r
            },
        },
        (SessionState::Registering { server_id, agent_id }, SessionEvent::AgentRegistered) => {
            let pending_configs: Vec<String> = Vec::new();
            let r = (
                SessionState::SendingAck { server_id, agent_id },
                SessionAction::SendAck { server_id, agent_id, heartbeat_interval_ms: 30000, pending_configs },
            );
            assert(strings_view(Seq::<String>::empty()) =~= Seq::<Seq<char>>::empty());
            assert((r.0, r.1@) == session_next(secret@, unused, state, event@));
            r
        },
        (state, event) => {
            let r = next_in_loop(state, event);
            assert((r.0, r.1@) == session_next(secret@, unused, state, event@));
            r
        },
    }
}

/// The steps after the acknowledgement was handed to the socket; they do
/// not depend on the key or the issued id.
fn next_in_loop(state: SessionState, event: SessionEvent) -> (result: (SessionState, SessionAction))
    requires
        !(state is AwaitingRegister && event is Register),
        !(state is AwaitingLookup && event is TokenLookup),
        !(state is Registering && event is AgentRegistered),
    ensures
        (result.0, result.1@) == session_next(Seq::empty(), 0, state, event@),
{
    match (state, event) {
        (SessionState::SendingAck { server_id, agent_id }, SessionEvent::AckSent { ok }) => if ok {
            (SessionState::Tracking { server_id, agent_id }, SessionAction::TrackConnection { server_id, agent_id })
        } else {
            (SessionState::Closed, SessionAction::Close)
        },
        (SessionState::Tracking { server_id, agent_id }, SessionEvent::ConnectionTracked) => (
            SessionState::Active { server_id, agent_id },
            SessionAction::ReceiveFrame,
        ),
        (SessionState::Active { server_id, agent_id }, SessionEvent::Frame(kind)) => match kind {
            FrameKind::Text => (
                SessionState::HandlingMessage { server_id, agent_id },
                SessionAction::HandleText { server_id },
            ),
            FrameKind::Ping => (SessionState::SendingPong { server_id, agent_id }, SessionAction::SendPong),
            FrameKind::Other => (SessionState::Active { server_id, agent_id }, SessionAction::ReceiveFrame),
            _ => (SessionState::Untracking { server_id }, SessionAction::UntrackConnection { server_id }),
        },
        (SessionState::HandlingMessage { server_id, agent_id }, SessionEvent::MessageHandled { heartbeat }) =>
            if heartbeat {
            (SessionState::Refreshing { server_id, agent_id }, SessionAction::RefreshConnection { server_id })
        } else {
            (SessionState::Active { server_id, agent_id }, SessionAction::ReceiveFrame)
        },
        (SessionState::Refreshing { server_id, agent_id }, SessionEvent::ConnectionRefreshed) => (
            SessionState::Active { server_id, agent_id },
            SessionAction::ReceiveFrame,
        ),
        (SessionState::SendingPong { server_id, agent_id }, SessionEvent::PongSent { ok }) => if ok {
            (SessionState::Active { server_id, agent_id }, SessionAction::ReceiveFrame)
        } else {
            (SessionState::Untracking { server_id }, SessionAction::UntrackConnection { server_id })
        },
        (SessionState::Untracking { server_id }, SessionEvent::ConnectionUntracked) => (
            SessionState::Closing { server_id },
            SessionAction::MarkOffline { server_id, status: ServerStatus::Offline },
        ),
        (SessionState::Closing { .. }, SessionEvent::OfflineMarked) => (
            SessionState::Closed,
            SessionAction::Close,
        ),
        (state, _) => (state, SessionAction::Ignore),
    }
}

/// The code sent with an error.
pub open spec fn session_error_code(error: SessionErrorView) -> Seq<char> {
    match error {
        SessionErrorView::RegisterFailed { .. } => "register_failed"@,
        SessionErrorView::Timeout => "timeout"@,
        SessionErrorView::InvalidToken => "invalid_token"@,
        SessionErrorView::DatabaseError => "database_error"@,
    }
}

/// The message sent with an error.
pub open spec fn session_error_message(error: SessionErrorView) -> Seq<char> {
    match error {
        SessionErrorView::RegisterFailed { reason } => reason,
        SessionErrorView::Timeout => "Register timeout"@,
        SessionErrorView::InvalidToken => "Invalid agent token"@,
        SessionErrorView::DatabaseError => "Database error"@,
    }
}

impl View for SessionError {
    type V = SessionErrorView;

    open spec fn view(&self) -> SessionErrorView {
        match self {
            SessionError::RegisterFailed { reason } => SessionErrorView::RegisterFailed {
                reason: reason@,
            },
            SessionError::Timeout => SessionErrorView::Timeout,
            SessionError::InvalidToken => SessionErrorView::InvalidToken,
            SessionError::DatabaseError => SessionErrorView::DatabaseError,
        }
    }
}

impl SessionError {
    /// The error code, as in `{"code": ..., "message": ...}`.
    pub fn code(&self) -> (code: String)
        ensures
            code@ == session_error_code(self@),
    {
        match self {
            SessionError::RegisterFailed { .. } => String::from_str("register_failed"),
            SessionError::Timeout => String::from_str("timeout"),
            SessionError::InvalidToken => String::from_str("invalid_token"),
            SessionError::DatabaseError => String::from_str("database_error"),
        }
    }

    /// The human-readable message.
    pub fn message(&self) -> (message: String)
        ensures
            message@ == session_error_message(self@),
    {
        match self {
            SessionError::RegisterFailed { reason } => reason.clone(),
            SessionError::Timeout => String::from_str("Register timeout"),
            SessionError::InvalidToken => String::from_str("Invalid agent token"),
            SessionError::DatabaseError => String::from_str("Database error"),
        }
    }
}

/// The actions a session takes under key `secret` for a sequence of events,
/// one per event; `ids[k]` is the agent id issued if event `k` finds a
/// server.
pub open spec fn session_actions(
    secret: Seq<char>,
    state: SessionState,
    events: Seq<SessionEventView>,
    ids: Seq<u128>,
) -> Seq<SessionActionView>
    decreases events.len(),
{
    if events.len() == 0 {
        Seq::empty()
    } else {
        let (next, action) = session_next(secret, ids[0], state, events[0]);
        seq![action] + session_actions(secret, next, events.drop_first(), ids.drop_first())
    }
}

/// The state a session reaches after a sequence of events.
pub open spec fn session_state_after(
    secret: Seq<char>,
    state: SessionState,
    events: Seq<SessionEventView>,
    ids: Seq<u128>,
) -> SessionState
    decreases events.len(),
{
    if events.len() == 0 {
        state
    } else {
        session_state_after(
            secret,
            session_next(secret, ids[0], state, events[0]).0,
            events.drop_first(),
            ids.drop_first(),
        )
    }
}

/// The session has a server found by its token.
pub open spec fn serves(state: SessionState, sid: u128) -> bool {
    match state {
        SessionState::Registering { server_id, .. } => server_id == sid,
        SessionState::SendingAck { server_id, .. } => server_id == sid,
        SessionState::Tracking { server_id, .. } => server_id == sid,
        SessionState::Active { server_id, .. } => server_id == sid,
        SessionState::HandlingMessage { server_id, .. } => server_id == sid,
        SessionState::Refreshing { server_id, .. } => server_id == sid,
        SessionState::SendingPong { server_id, .. } => server_id == sid,
        SessionState::Untracking { server_id } => server_id == sid,
        SessionState::Closing { server_id } => server_id == sid,
        _ => false,
    }
}

/// The connection is in the registry and the message loop runs.
pub open spec fn in_registry(state: SessionState, sid: u128) -> bool {
    match state {
        SessionState::Active { server_id, .. } => server_id == sid,
        SessionState::HandlingMessage { server_id, .. } => server_id == sid,
        SessionState::Refreshing { server_id, .. } => server_id == sid,
        SessionState::SendingPong { server_id, .. } => server_id == sid,
        _ => false,
    }
}

/// The session's acknowledgement for the server was delivered and the
/// connection is still up.
pub open spec fn acknowledged(state: SessionState, sid: u128) -> bool {
    in_registry(state, sid) || state == (SessionState::Tracking {
        server_id: sid,
        agent_id: state->Tracking_agent_id,
    })
}

proof fn lemma_actions_len(
    secret: Seq<char>,
    state: SessionState,
    events: Seq<SessionEventView>,
    ids: Seq<u128>,
)
    ensures
        session_actions(secret, state, events, ids).len() == events.len(),
    decreases events.len(),
{
    if events.len() > 0 {
        lemma_actions_len(
            secret,
            session_next(secret, ids[0], state, events[0]).0,
            events.drop_first(),
            ids.drop_first(),
        );
    }
}

proof fn lemma_actions_index(
    secret: Seq<char>,
    state: SessionState,
    events: Seq<SessionEventView>,
    ids: Seq<u128>,
    i: int,
)
    requires
        0 < i < events.len(),
    ensures
        session_actions(secret, state, events, ids)[i] == session_actions(
            secret,
            session_next(secret, ids[0], state, events[0]).0,
            events.drop_first(),
            ids.drop_first(),
        )[i - 1],
{
    lemma_actions_len(
        secret,
        session_next(secret, ids[0], state, events[0]).0,
        events.drop_first(),
        ids.drop_first(),
    );
}

/// A token issued for a server is accepted at registration: the lookup a
/// registration with token `t` asks for, under key `s`, is by
/// `agent_token_hash(s, t)`, the very hash stored for `t` when the server
/// was created or its token regenerated.
pub proof fn law_registration_looks_up_stored_hash(
    secret: Seq<char>,
    token: Seq<char>,
    fresh_id: u128,
)
    ensures
        session_next(
            secret,
            fresh_id,
            SessionState::AwaitingRegister,
            SessionEventView::Register(RegisterOutcomeView::Received { agent_token: token }),
        ) == (
            SessionState::AwaitingLookup,
            SessionActionView::LookupToken { token_hash: agent_token_hash(secret, token) },
        ),
{
}

proof fn lemma_ack_needs_lookup(
    secret: Seq<char>,
    state: SessionState,
    events: Seq<SessionEventView>,
    ids: Seq<u128>,
    i: int,
    sid: u128,
)
    requires
        0 <= i < events.len(),
        session_actions(secret, state, events, ids)[i] matches SessionActionView::SendAck {
            server_id,
            ..
        } && server_id == sid,
    ensures
        serves(state, sid) || exists|j: int|
            0 <= j < i && events[j] == SessionEventView::TokenLookup(
                LookupOutcome::Found { server_id: sid },
            ),
    decreases events.len(),
{
    let next = session_next(secret, ids[0], state, events[0]).0;
    if i > 0 {
        lemma_actions_index(secret, state, events, ids, i);
        lemma_ack_needs_lookup(secret, next, events.drop_first(), ids.drop_first(), i - 1, sid);
        if serves(next, sid) {
            if !serves(state, sid) {
                assert(events[0] == SessionEventView::TokenLookup(
                    LookupOutcome::Found { server_id: sid },
                ));
            }
        } else {
            let j = choose|j: int|
                0 <= j < i - 1 && events.drop_first()[j] == SessionEventView::TokenLookup(
                    LookupOutcome::Found { server_id: sid },
                );
            assert(events[j + 1] == events.drop_first()[j]);
        }
    }
}

/// No agent is acknowledged without a server found by its token: every
/// `SendAck` for a server follows a successful lookup of that server.
pub proof fn law_ack_only_after_token_found(
    secret: Seq<char>,
    events: Seq<SessionEventView>,
    ids: Seq<u128>,
    i: int,
    sid: u128,
)
    requires
        0 <= i < events.len(),
        session_actions(secret, SessionState::AwaitingRegister, events, ids)[i] matches SessionActionView::SendAck { server_id, .. } && server_id == sid,
    ensures
        exists|j: int|
            0 <= j < i && events[j] == SessionEventView::TokenLookup(
                LookupOutcome::Found { server_id: sid },
            ),
{
    lemma_ack_needs_lookup(secret, SessionState::AwaitingRegister, events, ids, i, sid);
}

proof fn lemma_handle_needs(
    secret: Seq<char>,
    state: SessionState,
    events: Seq<SessionEventView>,
    ids: Seq<u128>,
    i: int,
    sid: u128,
)
    requires
        0 <= i < events.len(),
        session_actions(secret, state, events, ids)[i] == (SessionActionView::HandleText {
            server_id: sid,
        }),
    ensures
        acknowledged(state, sid) || exists|j: int|
            0 <= j < i && events[j] == (SessionEventView::AckSent { ok: true }),
        in_registry(state, sid) || exists|j: int|
            0 <= j < i && events[j] == SessionEventView::ConnectionTracked,
    decreases events.len(),
{
    let next = session_next(secret, ids[0], state, events[0]).0;
    if i > 0 {
        lemma_actions_index(secret, state, events, ids, i);
        lemma_handle_needs(secret, next, events.drop_first(), ids.drop_first(), i - 1, sid);
        if acknowledged(next, sid) {
            if !acknowledged(state, sid) {
                assert(events[0] == (SessionEventView::AckSent { ok: true }));
            }
        } else {
            let j = choose|j: int|
                0 <= j < i - 1 && events.drop_first()[j] == (SessionEventView::AckSent { ok: true });
            assert(events[j + 1] == events.drop_first()[j]);
        }
        if in_registry(next, sid) {
            if !in_registry(state, sid) {
                assert(events[0] == SessionEventView::ConnectionTracked);
            }
        } else {
            let j = choose|j: int|
                0 <= j < i - 1 && events.drop_first()[j] == SessionEventView::ConnectionTracked;
            assert(events[j + 1] == events.drop_first()[j]);
        }
    }
}

/// Agent messages are handled only after the acknowledgement went out and
/// the connection was entered in the registry.
pub proof fn law_messages_only_after_ack(
    secret: Seq<char>,
    events: Seq<SessionEventView>,
    ids: Seq<u128>,
    i: int,
    sid: u128,
)
    requires
        0 <= i < events.len(),
        session_actions(secret, SessionState::AwaitingRegister, events, ids)[i]
            == (SessionActionView::HandleText { server_id: sid }),
    ensures
        exists|j: int| 0 <= j < i && events[j] == (SessionEventView::AckSent { ok: true }),
        exists|j: int| 0 <= j < i && events[j] == SessionEventView::ConnectionTracked,
{
    lemma_handle_needs(secret, SessionState::AwaitingRegister, events, ids, i, sid);
}

/// A closed session stays closed and does nothing, whatever arrives.
pub proof fn law_closed_is_final(secret: Seq<char>, events: Seq<SessionEventView>, ids: Seq<u128>)
    ensures
        session_state_after(secret, SessionState::Closed, events, ids) == SessionState::Closed,
        forall|i: int|
            0 <= i < session_actions(secret, SessionState::Closed, events, ids).len()
                ==> #[trigger] session_actions(secret, SessionState::Closed, events, ids)[i]
                == SessionActionView::Ignore,
    decreases events.len(),
{
    lemma_actions_len(secret, SessionState::Closed, events, ids);
    if events.len() > 0 {
        law_closed_is_final(secret, events.drop_first(), ids.drop_first());
        assert forall|i: int|
            0 <= i < session_actions(secret, SessionState::Closed, events, ids).len()
                implies #[trigger] session_actions(secret, SessionState::Closed, events, ids)[i]
                == SessionActionView::Ignore by {
            if i > 0 {
                lemma_actions_index(secret, SessionState::Closed, events, ids, i);
            }
        }
    }
}

proof fn lemma_winding_down_marks_offline(
    secret: Seq<char>,
    state: SessionState,
    events: Seq<SessionEventView>,
    ids: Seq<u128>,
    sid: u128,
)
    requires
        acknowledged(state, sid) || state == (SessionState::Untracking { server_id: sid }),
        session_state_after(secret, state, events, ids) == SessionState::Closed,
    ensures
        exists|i: int|
            0 <= i < events.len() && session_actions(secret, state, events, ids)[i]
                == (SessionActionView::MarkOffline { server_id: sid, status: ServerStatus::Offline }),
    decreases events.len(),
{
    lemma_actions_len(secret, state, events, ids);
    if events.len() == 0 {
        assert(false);
    } else {
        let (next, action) = session_next(secret, ids[0], state, events[0]);
        if acknowledged(next, sid) || next == (SessionState::Untracking { server_id: sid }) {
            lemma_winding_down_marks_offline(secret, next, events.drop_first(), ids.drop_first(), sid);
            let i = choose|i: int|
                0 <= i < events.drop_first().len() && session_actions(
                    secret,
                    next,
                    events.drop_first(),
                    ids.drop_first(),
                )[i] == (SessionActionView::MarkOffline {
                    server_id: sid,
                    status: ServerStatus::Offline,
                });
            lemma_actions_index(secret, state, events, ids, i + 1);
        } else {
            assert(next == SessionState::Closing { server_id: sid });
            assert(session_actions(secret, state, events, ids)[0] == action);
        }
    }
}

proof fn lemma_acknowledged_untracks(
    secret: Seq<char>,
    state: SessionState,
    events: Seq<SessionEventView>,
    ids: Seq<u128>,
    sid: u128,
)
    requires
        acknowledged(state, sid),
        session_state_after(secret, state, events, ids) == SessionState::Closed,
    ensures
        exists|i: int|
            0 <= i < events.len() && session_actions(secret, state, events, ids)[i]
                == (SessionActionView::UntrackConnection { server_id: sid }),
    decreases events.len(),
{
    lemma_actions_len(secret, state, events, ids);
    if events.len() == 0 {
        assert(false);
    } else {
        let (next, action) = session_next(secret, ids[0], state, events[0]);
        if acknowledged(next, sid) {
            lemma_acknowledged_untracks(secret, next, events.drop_first(), ids.drop_first(), sid);
            let i = choose|i: int|
                0 <= i < events.drop_first().len() && session_actions(
                    secret,
                    next,
                    events.drop_first(),
                    ids.drop_first(),
                )[i] == (SessionActionView::UntrackConnection { server_id: sid });
            lemma_actions_index(secret, state, events, ids, i + 1);
        } else {
            assert(next == SessionState::Untracking { server_id: sid });
            assert(session_actions(secret, state, events, ids)[0] == action);
        }
    }
}

/// An acknowledged connection never ends without leaving the connection
/// registry and without its server being marked offline: if the session
/// closes, both an `UntrackConnection` and a `MarkOffline` with status
/// `Offline` for its server were among its actions.
pub proof fn law_acknowledged_session_marks_offline(
    secret: Seq<char>,
    state: SessionState,
    events: Seq<SessionEventView>,
    ids: Seq<u128>,
    sid: u128,
)
    requires
        acknowledged(state, sid),
        session_state_after(secret, state, events, ids) == SessionState::Closed,
    ensures
        exists|i: int|
            0 <= i < events.len() && session_actions(secret, state, events, ids)[i]
                == (SessionActionView::UntrackConnection { server_id: sid }),
        exists|i: int|
            0 <= i < events.len() && session_actions(secret, state, events, ids)[i]
                == (SessionActionView::MarkOffline { server_id: sid, status: ServerStatus::Offline }),
{
    lemma_acknowledged_untracks(secret, state, events, ids, sid);
    lemma_winding_down_marks_offline(secret, state, events, ids, sid);
}

/// How the message loop treats each kind of frame. A text frame is handled,
/// a ping answered, any other data frame skipped; a close frame, a socket
/// error and the end of the stream (the agent killed or the network
/// dropped) all end the loop alike: the connection leaves the registry,
/// then the server is marked offline, then the session closes.
pub proof fn law_frames_in_message_loop(
    secret: Seq<char>,
    fresh_id: u128,
    sid: u128,
    aid: u128,
    kind: FrameKind,
)
    ensures
        ({
            let (next, action) = session_next(
                secret,
                fresh_id,
                SessionState::Active { server_id: sid, agent_id: aid },
                SessionEventView::Frame(kind),
            );
            match kind {
                FrameKind::Text => next == (SessionState::HandlingMessage {
                    server_id: sid,
                    agent_id: aid,
                }) && action == (SessionActionView::HandleText { server_id: sid }),
                FrameKind::Ping => next == (SessionState::SendingPong {
                    server_id: sid,
                    agent_id: aid,
                }) && action == SessionActionView::SendPong,
                FrameKind::Other => next == (SessionState::Active { server_id: sid, agent_id: aid })
                    && action == SessionActionView::ReceiveFrame,
                _ => next == (SessionState::Untracking { server_id: sid }) && action == (
                SessionActionView::UntrackConnection { server_id: sid }),
            }
        }),
        session_next(
            secret,
            fresh_id,
            SessionState::Untracking { server_id: sid },
            SessionEventView::ConnectionUntracked,
        ) == (
            SessionState::Closing { server_id: sid },
            SessionActionView::MarkOffline { server_id: sid, status: ServerStatus::Offline },
        ),
        session_next(
            secret,
            fresh_id,
            SessionState::Closing { server_id: sid },
            SessionEventView::OfflineMarked,
        ) == (SessionState::Closed, SessionActionView::Close),
{
}

/// A connection whose stream ends (`Ended`) or fails (`Error`) while the
/// loop waits is wound down exactly as a close frame is: in the three steps
/// that follow, the connection is untracked, the server is marked offline
/// and the session is closed.
pub proof fn law_dead_stream_marks_offline(
    secret: Seq<char>,
    ids: Seq<u128>,
    sid: u128,
    aid: u128,
    kind: FrameKind,
)
    requires
        kind is Ended || kind is Error || kind is Close,
    ensures
        ({
            let events = seq![
                SessionEventView::Frame(kind),
                SessionEventView::ConnectionUntracked,
                SessionEventView::OfflineMarked,
            ];
            let start = SessionState::Active { server_id: sid, agent_id: aid };
            &&& session_actions(secret, start, events, ids) == seq![
                SessionActionView::UntrackConnection { server_id: sid },
                SessionActionView::MarkOffline { server_id: sid, status: ServerStatus::Offline },
                SessionActionView::Close,
            ]
            &&& session_state_after(secret, start, events, ids) == SessionState::Closed
        }),
{
    let events = seq![
        SessionEventView::Frame(kind),
        SessionEventView::ConnectionUntracked,
        SessionEventView::OfflineMarked,
    ];
    let start = SessionState::Active { server_id: sid, agent_id: aid };
    law_frames_in_message_loop(secret, ids[0], sid, aid, kind);
    let e1 = events.drop_first();
    let e2 = e1.drop_first();
    let e3 = e2.drop_first();
    assert(e1 =~= seq![SessionEventView::ConnectionUntracked, SessionEventView::OfflineMarked]);
    assert(e2 =~= seq![SessionEventView::OfflineMarked]);
    assert(e3 =~= Seq::<SessionEventView>::empty());
    let s1 = SessionState::Untracking { server_id: sid };
    let s2 = SessionState::Closing { server_id: sid };
    let i1 = ids.drop_first();
    let i2 = i1.drop_first();
    let i3 = i2.drop_first();
    assert(session_actions(secret, SessionState::Closed, e3, i3) =~= Seq::<SessionActionView>::empty());
    assert(session_actions(secret, s2, e2, i2) =~= seq![SessionActionView::Close]);
    assert(session_actions(secret, s1, e1, i1) =~= seq![
        SessionActionView::MarkOffline { server_id: sid, status: ServerStatus::Offline },
        SessionActionView::Close,
    ]);
    assert(session_actions(secret, start, events, ids) =~= seq![
        SessionActionView::UntrackConnection { server_id: sid },
        SessionActionView::MarkOffline { server_id: sid, status: ServerStatus::Offline },
        SessionActionView::Close,
    ]);
    assert(session_state_after(secret, SessionState::Closed, e3, i3) == SessionState::Closed);
    assert(session_state_after(secret, s2, e2, i2) == SessionState::Closed);
    assert(session_state_after(secret, s1, e1, i1) == SessionState::Closed);
}

/// The kinds of message an agent sends once registered.
#[derive(Clone, Copy, Debug, PartialEq, Eq, Structural)]
pub enum AgentMessageKind {
    Heartbeat,
    ExecutionStatus,
    ToolUse,
    SkillInvoke,
    LogStream,
    ApprovalRequest,
    ConfigAck,
    Unknown,
}

/// The kind named by a message's `type` field.
pub open spec fn agent_message_kind(msg_type: Seq<char>) -> AgentMessageKind {
    if msg_type == "heartbeat"@ {
        AgentMessageKind::Heartbeat
    } else if msg_type == "execution_status"@ {
        AgentMessageKind::ExecutionStatus
    } else if msg_type == "tool_use"@ {
        AgentMessageKind::ToolUse
    } else if msg_type == "skill_invoke"@ {
        AgentMessageKind::SkillInvoke
    } else if msg_type == "log_stream"@ {
        AgentMessageKind::LogStream
    } else if msg_type == "approval_request"@ {
        AgentMessageKind::ApprovalRequest
    } else if msg_type == "config_ack"@ {
        AgentMessageKind::ConfigAck
    } else {
        AgentMessageKind::Unknown
    }
}

/// Classifies an agent message by its `type` field. Only heartbeats carry
/// work (their system stats are stored); the others are logged.
pub fn classify_agent_message(msg_type: &str) -> (kind: AgentMessageKind)
    ensures
        kind == agent_message_kind(msg_type@),
{
    if str_equals(msg_type, "heartbeat") {
        AgentMessageKind::Heartbeat
    } else if str_equals(msg_type, "execution_status") {
        AgentMessageKind::ExecutionStatus
    } else if str_equals(msg_type, "tool_use") {
        AgentMessageKind::ToolUse
    } else if str_equals(msg_type, "skill_invoke") {
        AgentMessageKind::SkillInvoke
    } else if str_equals(msg_type, "log_stream") {
        AgentMessageKind::LogStream
    } else if str_equals(msg_type, "approval_request") {
        AgentMessageKind::ApprovalRequest
    } else if str_equals(msg_type, "config_ack") {
        AgentMessageKind::ConfigAck
    } else {
        AgentMessageKind::Unknown
    }
}


/// A frame received while waiting for the registration message.
pub enum RegisterFrame {
    /// A text frame; `msg_type` is `None` when it is not a message, and
    /// `payload_ok` tells whether its payload parsed as a registration.
    Text { msg_type: Option<String>, payload_ok: bool },
    Ping,
    Other,
    ReceiveError,
    Ended,
}

/// What to do with a frame while waiting for registration.
#[derive(Clone, Copy, Debug, PartialEq, Eq, Structural)]
pub enum RegisterWaitDecision {
    /// Not the registration: wait for the next frame.
    KeepWaiting,
    /// The registration arrived and its payload is usable.
    Registered,
    /// The frame is unusable, the socket failed, or it closed: registration
    /// failed.
    Failed,
}

/// The `type` of an agent's registration message.
pub open spec fn register_type() -> Seq<char> {
    "agent_register"@
}

/// The decision for a frame received while waiting for registration.
pub open spec fn register_wait_decision(frame: RegisterFrame) -> RegisterWaitDecision {
    match frame {
        RegisterFrame::Text { msg_type, payload_ok } => match msg_type {
            None => RegisterWaitDecision::Failed,
            Some(t) => if t@ == register_type() {
                if payload_ok {
                    RegisterWaitDecision::Registered
                } else {
                    RegisterWaitDecision::Failed
                }
            } else {
                RegisterWaitDecision::KeepWaiting
            },
        },
        RegisterFrame::Ping => RegisterWaitDecision::KeepWaiting,
        RegisterFrame::Other => RegisterWaitDecision::KeepWaiting,
        RegisterFrame::ReceiveError => RegisterWaitDecision::Failed,
        RegisterFrame::Ended => RegisterWaitDecision::Failed,
    }
}

/// Decides what a frame means while waiting for the registration message:
/// messages of other types and non-text frames are skipped; a malformed
/// message, a socket error or the end of the stream fail the registration.
pub fn decide_register_frame(frame: &RegisterFrame) -> (decision: RegisterWaitDecision)
    ensures
        decision == register_wait_decision(*frame),
{
    match frame {
        RegisterFrame::Text { msg_type, payload_ok } => match msg_type {
            None => RegisterWaitDecision::Failed,
            Some(t) => if str_equals(t.as_str(), "agent_register") {
                if *payload_ok {
                    RegisterWaitDecision::Registered
                } else {
                    RegisterWaitDecision::Failed
                }
            } else {
                RegisterWaitDecision::KeepWaiting
            },
        },
        RegisterFrame::Ping => RegisterWaitDecision::KeepWaiting,
        RegisterFrame::Other => RegisterWaitDecision::KeepWaiting,
        RegisterFrame::ReceiveError => RegisterWaitDecision::Failed,
        RegisterFrame::Ended => RegisterWaitDecision::Failed,
    }
}

} // verus!
