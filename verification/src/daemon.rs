//! The agent daemon's side of a connection to the centre, as a state
//! machine: waiting for the registration acknowledgement, then the loop of
//! heartbeats and incoming messages. The caller performs the socket work and
//! feeds back what happened.

use vstd::prelude::*;

use crate::text::str_equals;

verus! {

/// The kinds of message the centre sends to an agent.
#[derive(Clone, Copy, Debug, PartialEq, Eq, Structural)]
pub enum CenterMessageKind {
    TaskAssign,
    TaskCancel,
    ConfigPush,
    ApprovalResponse,
    Command,
    Unknown,
}

/// The kind named by a message's `type` field.
pub open spec fn center_message_kind(msg_type: Seq<char>) -> CenterMessageKind {
    if msg_type == "task_assign"@ {
        CenterMessageKind::TaskAssign
    } else if msg_type == "task_cancel"@ {
        CenterMessageKind::TaskCancel
    } else if msg_type == "config_push"@ {
        CenterMessageKind::ConfigPush
    } else if msg_type == "approval_response"@ {
        CenterMessageKind::ApprovalResponse
    } else if msg_type == "command"@ {
        CenterMessageKind::Command
    } else {
        CenterMessageKind::Unknown
    }
}

/// Classifies a message from the centre by its `type` field.
pub fn classify_center_message(msg_type: &str) -> (kind: CenterMessageKind)
    ensures
        kind == center_message_kind(msg_type@),
{
    if str_equals(msg_type, "task_assign") {
        CenterMessageKind::TaskAssign
    } else if str_equals(msg_type, "task_cancel") {
        CenterMessageKind::TaskCancel
    } else if str_equals(msg_type, "config_push") {
        CenterMessageKind::ConfigPush
    } else if str_equals(msg_type, "approval_response") {
        CenterMessageKind::ApprovalResponse
    } else if str_equals(msg_type, "command") {
        CenterMessageKind::Command
    } else {
        CenterMessageKind::Unknown
    }
}

/// The `type` of the acknowledgement the centre sends after registration.
pub open spec fn register_ack_type() -> Seq<char> {
    "agent_register_ack"@
}

/// How waiting for the registration acknowledgement ended.
pub enum AckOutcome {
    /// A text frame that parsed as a message of this type; `payload_ok`
    /// tells whether its payload parsed as an acknowledgement.
    Message { msg_type: String, payload_ok: bool },
    /// A text frame that is not a message.
    Malformed,
    /// A frame other than text.
    NonText,
    /// The socket reported an error.
    ReceiveFailed,
    /// The socket closed.
    Closed,
    /// Nothing arrived within the timeout.
    TimedOut,
}

/// What happened since the last action.
pub enum DaemonEvent {
    Ack(AckOutcome),
    /// The heartbeat timer fired.
    HeartbeatDue,
    /// A text frame; `msg_type` is `None` when it is not a message.
    Text { msg_type: Option<String> },
    Ping,
    Close,
    ReceiveFailed,
    Ended,
    Other,
    /// Sending a heartbeat or pong failed.
    SendFailed,
}

/// Why a connection attempt failed.
pub enum DaemonError {
    AckTimeout,
    ClosedBeforeAck,
    AckReceiveFailed,
    UnexpectedAckFrame,
    UnexpectedAckType { msg_type: String },
    MalformedAck,
    MalformedMessage,
    ConnectionError,
    SendFailed,
}

/// What the caller must do next.
pub enum DaemonAction {
    /// Wait for the timer or the socket.
    Wait,
    SendHeartbeat,
    SendPong,
    /// A message of this kind arrived (it is logged); keep waiting.
    Received(CenterMessageKind),
    /// The connection closed gracefully.
    Finish,
    /// The connection failed.
    Fail(DaemonError),
    /// The event does not fit the current state.
    Ignore,
}

/// Where the connection stands.
#[derive(Clone, Copy, Debug, PartialEq, Eq, Structural)]
pub enum DaemonState {
    AwaitingAck,
    Running,
    Done,
}

pub enum AckOutcomeView {
    Message { msg_type: Seq<char>, payload_ok: bool },
    Malformed,
    NonText,
    ReceiveFailed,
    Closed,
    TimedOut,
}

pub enum DaemonEventView {
    Ack(AckOutcomeView),
    HeartbeatDue,
    Text { msg_type: Option<Seq<char>> },
    Ping,
    Close,
    ReceiveFailed,
    Ended,
    Other,
    SendFailed,
}

pub enum DaemonErrorView {
    AckTimeout,
    ClosedBeforeAck,
    AckReceiveFailed,
    UnexpectedAckFrame,
    UnexpectedAckType { msg_type: Seq<char> },
    MalformedAck,
    MalformedMessage,
    ConnectionError,
    SendFailed,
}

pub enum DaemonActionView {
    Wait,
    SendHeartbeat,
    SendPong,
    Received(CenterMessageKind),
    Finish,
    Fail(DaemonErrorView),
    Ignore,
}

impl View for DaemonEvent {
    type V = DaemonEventView;

    open spec fn view(&self) -> DaemonEventView {
        match self {
            DaemonEvent::Ack(AckOutcome::Message { msg_type, payload_ok }) => DaemonEventView::Ack(
                AckOutcomeView::Message { msg_type: msg_type@, payload_ok: *payload_ok },
            ),
            DaemonEvent::Ack(AckOutcome::Malformed) => DaemonEventView::Ack(AckOutcomeView::Malformed),
            DaemonEvent::Ack(AckOutcome::NonText) => DaemonEventView::Ack(AckOutcomeView::NonText),
            DaemonEvent::Ack(AckOutcome::ReceiveFailed) => DaemonEventView::Ack(
                AckOutcomeView::ReceiveFailed,
            ),
            DaemonEvent::Ack(AckOutcome::Closed) => DaemonEventView::Ack(AckOutcomeView::Closed),
            DaemonEvent::Ack(AckOutcome::TimedOut) => DaemonEventView::Ack(AckOutcomeView::TimedOut),
            DaemonEvent::HeartbeatDue => DaemonEventView::HeartbeatDue,
            DaemonEvent::Text { msg_type } => DaemonEventView::Text {
                msg_type: match msg_type {
                    Some(t) => Some(t@),
                    None => None,
                },
            },
            DaemonEvent::Ping => DaemonEventView::Ping,
            DaemonEvent::Close => DaemonEventView::Close,
            DaemonEvent::ReceiveFailed => DaemonEventView::ReceiveFailed,
            DaemonEvent::Ended => DaemonEventView::Ended,
            DaemonEvent::Other => DaemonEventView::Other,
            DaemonEvent::SendFailed => DaemonEventView::SendFailed,
        }
    }
}

impl View for DaemonError {
    type V = DaemonErrorView;

    open spec fn view(&self) -> DaemonErrorView {
        match self {
            DaemonError::AckTimeout => DaemonErrorView::AckTimeout,
            DaemonError::ClosedBeforeAck => DaemonErrorView::ClosedBeforeAck,
            DaemonError::AckReceiveFailed => DaemonErrorView::AckReceiveFailed,
            DaemonError::UnexpectedAckFrame => DaemonErrorView::UnexpectedAckFrame,
            DaemonError::UnexpectedAckType { msg_type } => DaemonErrorView::UnexpectedAckType {
                msg_type: msg_type@,
            },
            DaemonError::MalformedAck => DaemonErrorView::MalformedAck,
            DaemonError::MalformedMessage => DaemonErrorView::MalformedMessage,
            DaemonError::ConnectionError => DaemonErrorView::ConnectionError,
            DaemonError::SendFailed => DaemonErrorView::SendFailed,
        }
    }
}

impl View for DaemonAction {
    type V = DaemonActionView;

    open spec fn view(&self) -> DaemonActionView {
        match self {
            DaemonAction::Wait => DaemonActionView::Wait,
            DaemonAction::SendHeartbeat => DaemonActionView::SendHeartbeat,
            DaemonAction::SendPong => DaemonActionView::SendPong,
            DaemonAction::Received(k) => DaemonActionView::Received(*k),
            DaemonAction::Finish => DaemonActionView::Finish,
            DaemonAction::Fail(e) => DaemonActionView::Fail(e@),
            DaemonAction::Ignore => DaemonActionView::Ignore,
        }
    }
}

/// The transition function.
pub open spec fn daemon_next(state: DaemonState, event: DaemonEventView) -> (DaemonState, DaemonActionView) {
    match state {
        DaemonState::AwaitingAck => match event {
            DaemonEventView::Ack(outcome) => match outcome {
                AckOutcomeView::Message { msg_type, payload_ok } => if msg_type != register_ack_type() {
                    (
                        DaemonState::Done,
                        DaemonActionView::Fail(DaemonErrorView::UnexpectedAckType { msg_type }),
                    )
                } else if !payload_ok {
                    (DaemonState::Done, DaemonActionView::Fail(DaemonErrorView::MalformedAck))
                } else {
                    (DaemonState::Running, DaemonActionView::Wait)
                },
                AckOutcomeView::Malformed => (
                    DaemonState::Done,
                    DaemonActionView::Fail(DaemonErrorView::MalformedAck),
                ),
                AckOutcomeView::NonText => (
                    DaemonState::Done,
                    DaemonActionView::Fail(DaemonErrorView::UnexpectedAckFrame),
                ),
                AckOutcomeView::ReceiveFailed => (
                    DaemonState::Done,
                    DaemonActionView::Fail(DaemonErrorView::AckReceiveFailed),
                ),
                AckOutcomeView::Closed => (
                    DaemonState::Done,
                    DaemonActionView::Fail(DaemonErrorView::ClosedBeforeAck),
                ),
                AckOutcomeView::TimedOut => (
                    DaemonState::Done,
                    DaemonActionView::Fail(DaemonErrorView::AckTimeout),
                ),
            },
            _ => (state, DaemonActionView::Ignore),
        },
        DaemonState::Running => match event {
            DaemonEventView::HeartbeatDue => (DaemonState::Running, DaemonActionView::SendHeartbeat),
            DaemonEventView::Text { msg_type } => match msg_type {
                Some(t) => (DaemonState::Running, DaemonActionView::Received(center_message_kind(t))),
                None => (DaemonState::Done, DaemonActionView::Fail(DaemonErrorView::MalformedMessage)),
            },
            DaemonEventView::Ping => (DaemonState::Running, DaemonActionView::SendPong),
            DaemonEventView::Close => (DaemonState::Done, DaemonActionView::Finish),
            DaemonEventView::Ended => (DaemonState::Done, DaemonActionView::Finish),
            DaemonEventView::ReceiveFailed => (
                DaemonState::Done,
                DaemonActionView::Fail(DaemonErrorView::ConnectionError),
            ),
            DaemonEventView::SendFailed => (
                DaemonState::Done,
                DaemonActionView::Fail(DaemonErrorView::SendFailed),
            ),
            DaemonEventView::Other => (DaemonState::Running, DaemonActionView::Wait),
            DaemonEventView::Ack(_) => (state, DaemonActionView::Ignore),
        },
        DaemonState::Done => (state, DaemonActionView::Ignore),
    }
}

/// The state right after the registration message has been sent.
pub fn initial_daemon_state() -> (state: DaemonState)
    ensures
        state == DaemonState::AwaitingAck,
{
    DaemonState::AwaitingAck
}

/// Takes one step of the connection: the next state and the action.
pub fn daemon_step(state: DaemonState, event: DaemonEvent) -> (result: (DaemonState, DaemonAction))
    ensures
        (result.0, result.1@) == daemon_next(state, event@),
{
    match state {
        DaemonState::AwaitingAck => match event {
            DaemonEvent::Ack(outcome) => match outcome {
                AckOutcome::Message { msg_type, payload_ok } => {
                    if !str_equals(msg_type.as_str(), "agent_register_ack") {
                        (
                            DaemonState::Done,
                            DaemonAction::Fail(DaemonError::UnexpectedAckType { msg_type }),
                        )
                    } else if !payload_ok {
                        (DaemonState::Done, DaemonAction::Fail(DaemonError::MalformedAck))
                    } else {
                        (DaemonState::Running, DaemonAction::Wait)
                    }
                },
                AckOutcome::Malformed => (DaemonState::Done, DaemonAction::Fail(DaemonError::MalformedAck)),
                AckOutcome::NonText => (
                    DaemonState::Done,
                    DaemonAction::Fail(DaemonError::UnexpectedAckFrame),
                ),
                AckOutcome::ReceiveFailed => (
                    DaemonState::Done,
                    DaemonAction::Fail(DaemonError::AckReceiveFailed),
                ),
                AckOutcome::Closed => (
                    DaemonState::Done,
                    DaemonAction::Fail(DaemonError::ClosedBeforeAck),
                ),
                AckOutcome::TimedOut => (DaemonState::Done, DaemonAction::Fail(DaemonError::AckTimeout)),
            },
            _ => (state, DaemonAction::Ignore),
        },
        DaemonState::Running => match event {
            DaemonEvent::HeartbeatDue => (DaemonState::Running, DaemonAction::SendHeartbeat),
            DaemonEvent::Text { msg_type } => match msg_type {
                Some(t) => (
                    DaemonState::Running,
                    DaemonAction::Received(classify_center_message(t.as_str())),
                ),
                None => (DaemonState::Done, DaemonAction::Fail(DaemonError::MalformedMessage)),
            },
            DaemonEvent::Ping => (DaemonState::Running, DaemonAction::SendPong),
            DaemonEvent::Close => (DaemonState::Done, DaemonAction::Finish),
            DaemonEvent::Ended => (DaemonState::Done, DaemonAction::Finish),
            DaemonEvent::ReceiveFailed => (
                DaemonState::Done,
                DaemonAction::Fail(DaemonError::ConnectionError),
            ),
            DaemonEvent::SendFailed => (DaemonState::Done, DaemonAction::Fail(DaemonError::SendFailed)),
            DaemonEvent::Other => (DaemonState::Running, DaemonAction::Wait),
            DaemonEvent::Ack(_) => (state, DaemonAction::Ignore),
        },
        DaemonState::Done => (state, DaemonAction::Ignore),
    }
}

/// The actions taken for a sequence of events, one per event.
pub open spec fn daemon_actions(state: DaemonState, events: Seq<DaemonEventView>) -> Seq<DaemonActionView>
    decreases events.len(),
{
    if events.len() == 0 {
        Seq::empty()
    } else {
        let (next, action) = daemon_next(state, events[0]);
        seq![action] + daemon_actions(next, events.drop_first())
    }
}

/// The event by which the centre's acknowledgement is accepted.
pub open spec fn accepted_ack() -> DaemonEventView {
    DaemonEventView::Ack(AckOutcomeView::Message { msg_type: register_ack_type(), payload_ok: true })
}

proof fn lemma_daemon_actions_len(state: DaemonState, events: Seq<DaemonEventView>)
    ensures
        daemon_actions(state, events).len() == events.len(),
    decreases events.len(),
{
    if events.len() > 0 {
        lemma_daemon_actions_len(daemon_next(state, events[0]).0, events.drop_first());
    }
}

proof fn lemma_daemon_actions_index(state: DaemonState, events: Seq<DaemonEventView>, i: int)
    requires
        0 < i < events.len(),
    ensures
        daemon_actions(state, events)[i] == daemon_actions(
            daemon_next(state, events[0]).0,
            events.drop_first(),
        )[i - 1],
{
    lemma_daemon_actions_len(daemon_next(state, events[0]).0, events.drop_first());
}

proof fn lemma_heartbeat_needs_ack(state: DaemonState, events: Seq<DaemonEventView>, i: int)
    requires
        0 <= i < events.len(),
        daemon_actions(state, events)[i] == DaemonActionView::SendHeartbeat,
    ensures
        state == DaemonState::Running || exists|j: int| 0 <= j < i && events[j] == accepted_ack(),
    decreases events.len(),
{
    if i > 0 {
        let next = daemon_next(state, events[0]).0;
        lemma_daemon_actions_index(state, events, i);
        lemma_heartbeat_needs_ack(next, events.drop_first(), i - 1);
        if next == DaemonState::Running {
            if state != DaemonState::Running {
                assert(events[0] == accepted_ack());
            }
        } else {
            let j = choose|j: int| 0 <= j < i - 1 && events.drop_first()[j] == accepted_ack();
            assert(events[j + 1] == events.drop_first()[j]);
        }
    }
}

/// No heartbeat is sent before the centre's acknowledgement of type
/// `agent_register_ack` with a well-formed payload has been received.
pub proof fn law_no_heartbeat_before_ack(events: Seq<DaemonEventView>, i: int)
    requires
        0 <= i < events.len(),
        daemon_actions(DaemonState::AwaitingAck, events)[i] == DaemonActionView::SendHeartbeat,
    ensures
        exists|j: int| 0 <= j < i && events[j] == accepted_ack(),
{
    lemma_heartbeat_needs_ack(DaemonState::AwaitingAck, events, i);
}

/// Once the connection has finished or failed, nothing more is done.
pub proof fn law_done_is_final(events: Seq<DaemonEventView>)
    ensures
        forall|i: int|
            0 <= i < daemon_actions(DaemonState::Done, events).len() ==> #[trigger] daemon_actions(
                DaemonState::Done,
                events,
            )[i] == DaemonActionView::Ignore,
    decreases events.len(),
{
    lemma_daemon_actions_len(DaemonState::Done, events);
    if events.len() > 0 {
        law_done_is_final(events.drop_first());
        assert forall|i: int|
            0 <= i < daemon_actions(DaemonState::Done, events).len() implies #[trigger] daemon_actions(
                DaemonState::Done,
                events,
            )[i] == DaemonActionView::Ignore by {
            if i > 0 {
                lemma_daemon_actions_index(DaemonState::Done, events, i);
            }
        }
    }
}

} // verus!
