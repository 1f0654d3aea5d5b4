//! The order of work in the server-changing HTTP handlers (create,
//! regenerate token, update, delete), as a state machine: the admin check
//! first, then request validation, the server lookup and organization check,
//! the one database write, and the response. The caller performs each action
//! (access check, database call, HTTP response) and feeds back its outcome.

use vstd::prelude::*;

use crate::api::{CreateServerRequest, UpdateServerRequest};
use crate::crypto::{agent_token_hash, hash_agent_token};
use crate::docker::{docker_command_text, generate_agent_token, generate_docker_command, is_agent_token};
use crate::repo::{IdentityError, IdentityErrorView};
use crate::routes::{
    admin_check_failure, bad_name_message, create_server_failure_response,
    ensure_same_organization, missing_host_message, server_lookup_failure, server_name_valid,
    validate_create_request, validate_update_request, ErrorResponse,
};
use crate::session::{
    session_next, RegisterOutcomeView, SessionActionView, SessionEventView, SessionState,
};
use crate::text::trim;

verus! {

/// The handler being run, with its request body where it has one.
pub enum HandlerRequest {
    Create(CreateServerRequest),
    RegenerateToken,
    Update(UpdateServerRequest),
    Delete,
}

/// What the caller observed after an action.
pub enum HandlerEvent {
    /// The admin check of the user on the organization.
    AdminChecked(Result<(), IdentityError>),
    /// The server lookup: the organization the server belongs to.
    ServerFound(Result<u128, IdentityError>),
    /// The handler's database write.
    Written(Result<(), IdentityError>),
}

/// Where a handler stands.
pub enum HandlerState {
    CheckingAdmin,
    LookingUp,
    /// The write was asked for; `agent_token` is the token issued with it
    /// (empty for updates and deletions).
    Writing { agent_token: String },
    Done,
}

/// What the caller must do next.
pub enum HandlerAction {
    /// Check that the user is an admin of the organization.
    CheckAdmin,
    /// Look the server up by id.
    LookUpServer,
    /// Insert the requested server with this agent token hash.
    InsertServer { token_hash: String },
    /// Replace the server's agent token hash with this one.
    StoreTokenHash { token_hash: String },
    /// Apply the update request to the server.
    UpdateServer,
    /// Delete the server.
    DeleteServer,
    /// Answer with this error.
    RespondError(ErrorResponse),
    /// Answer with the issued token and the docker command that carries it,
    /// and record this analytics event.
    RespondToken { agent_token: String, docker_command: String, analytics_event: String },
    /// Answer with the write's result (the updated server, or no content),
    /// and record the analytics event if there is one.
    RespondDone { analytics_event: Option<String> },
    /// The outcome does not fit the current state; nothing to do.
    Ignore,
}

pub enum HandlerEventView {
    AdminChecked(Result<(), IdentityErrorView>),
    ServerFound(Result<u128, IdentityErrorView>),
    Written(Result<(), IdentityErrorView>),
}

pub enum HandlerStateView {
    CheckingAdmin,
    LookingUp,
    Writing { agent_token: Seq<char> },
    Done,
}

pub enum HandlerActionView {
    CheckAdmin,
    LookUpServer,
    InsertServer { token_hash: Seq<char> },
    StoreTokenHash { token_hash: Seq<char> },
    UpdateServer,
    DeleteServer,
    RespondError((u16, Seq<char>)),
    RespondToken { agent_token: Seq<char>, docker_command: Seq<char>, analytics_event: Seq<char> },
    RespondDone { analytics_event: Option<Seq<char>> },
    Ignore,
}

pub open spec fn unit_result_view(r: Result<(), IdentityError>) -> Result<(), IdentityErrorView> {
    match r {
        Ok(()) => Ok(()),
        Err(e) => Err(e@),
    }
}

impl View for HandlerEvent {
    type V = HandlerEventView;

    open spec fn view(&self) -> HandlerEventView {
        match self {
            HandlerEvent::AdminChecked(r) => HandlerEventView::AdminChecked(unit_result_view(*r)),
            HandlerEvent::ServerFound(r) => HandlerEventView::ServerFound(
                match r {
                    Ok(org) => Ok(*org),
                    Err(e) => Err(e@),
                },
            ),
            HandlerEvent::Written(r) => HandlerEventView::Written(unit_result_view(*r)),
        }
    }
}

impl View for HandlerState {
    type V = HandlerStateView;

    open spec fn view(&self) -> HandlerStateView {
        match self {
            HandlerState::CheckingAdmin => HandlerStateView::CheckingAdmin,
            HandlerState::LookingUp => HandlerStateView::LookingUp,
            HandlerState::Writing { agent_token } => HandlerStateView::Writing {
                agent_token: agent_token@,
            },
            HandlerState::Done => HandlerStateView::Done,
        }
    }
}

impl View for HandlerAction {
    type V = HandlerActionView;

    open spec fn view(&self) -> HandlerActionView {
        match self {
            HandlerAction::CheckAdmin => HandlerActionView::CheckAdmin,
            HandlerAction::LookUpServer => HandlerActionView::LookUpServer,
            HandlerAction::InsertServer { token_hash } => HandlerActionView::InsertServer {
                token_hash: token_hash@,
            },
            HandlerAction::StoreTokenHash { token_hash } => HandlerActionView::StoreTokenHash {
                token_hash: token_hash@,
            },
            HandlerAction::UpdateServer => HandlerActionView::UpdateServer,
            HandlerAction::DeleteServer => HandlerActionView::DeleteServer,
            HandlerAction::RespondError(e) => HandlerActionView::RespondError(e@),
            HandlerAction::RespondToken { agent_token, docker_command, analytics_event } =>
                HandlerActionView::RespondToken {
                agent_token: agent_token@,
                docker_command: docker_command@,
                analytics_event: analytics_event@,
            },
            HandlerAction::RespondDone { analytics_event } => HandlerActionView::RespondDone {
                analytics_event: match analytics_event {
                    Some(a) => Some(a@),
                    None => None,
                },
            },
            HandlerAction::Ignore => HandlerActionView::Ignore,
        }
    }
}

/// The answer to a failed admin check.
pub open spec fn admin_refusal(e: IdentityErrorView) -> (u16, Seq<char>) {
    match e {
        IdentityErrorView::NotFound => (404, "Organization not found"@),
        IdentityErrorView::PermissionDenied => (403, "Admin access required"@),
        _ => (500, "Database error"@),
    }
}

/// The answer to a failed server lookup.
pub open spec fn lookup_refusal(e: IdentityErrorView) -> (u16, Seq<char>) {
    match e {
        IdentityErrorView::NotFound => (404, "Server not found"@),
        _ => (500, "Database error"@),
    }
}

/// The answer to a request body that does not validate, if it does not.
pub open spec fn request_refusal(request: HandlerRequest) -> Option<(u16, Seq<char>)> {
    match request {
        HandlerRequest::Create(r) => if !server_name_valid(r.name@) {
            Some((400u16, bad_name_message()))
        } else if trim(r.host@).len() == 0 {
            Some((400u16, missing_host_message()))
        } else {
            None
        },
        HandlerRequest::Update(r) => match r.name {
            Some(n) => if !server_name_valid(n@) {
                Some((400u16, bad_name_message()))
            } else {
                None
            },
            None => None,
        },
        _ => None,
    }
}

/// The answer to a failed write.
pub open spec fn write_refusal(request: HandlerRequest, e: IdentityErrorView) -> (u16, Seq<char>) {
    match request {
        HandlerRequest::Create(_) => match e {
            IdentityErrorView::OrganizationConflict(m) => (409, m),
            _ => (500, "Failed to create server"@),
        },
        HandlerRequest::RegenerateToken => (500, "Failed to regenerate token"@),
        HandlerRequest::Update(_) => (500, "Failed to update server"@),
        HandlerRequest::Delete => (500, "Failed to delete server"@),
    }
}

/// The transition function of a handler for `organization_id`, with the
/// token-hash key `secret` and the centre URL `center_url`. `token` is the
/// agent token issued when the write asks for one.
pub open spec fn handler_next(
    request: HandlerRequest,
    organization_id: u128,
    secret: Seq<char>,
    center_url: Seq<char>,
    token: Seq<char>,
    state: HandlerStateView,
    event: HandlerEventView,
) -> (HandlerStateView, HandlerActionView) {
    match (state, event) {
        (HandlerStateView::CheckingAdmin, HandlerEventView::AdminChecked(r)) => match r {
            Err(e) => (HandlerStateView::Done, HandlerActionView::RespondError(admin_refusal(e))),
            Ok(()) => match request_refusal(request) {
                Some(refusal) => (HandlerStateView::Done, HandlerActionView::RespondError(refusal)),
                None => match request {
                    HandlerRequest::Create(_) => (
                        HandlerStateView::Writing { agent_token: token },
                        HandlerActionView::InsertServer { token_hash: agent_token_hash(secret, token) },
                    ),
                    _ => (HandlerStateView::LookingUp, HandlerActionView::LookUpServer),
                },
            },
        },
        (HandlerStateView::LookingUp, HandlerEventView::ServerFound(r)) => match r {
            Err(e) => (HandlerStateView::Done, HandlerActionView::RespondError(lookup_refusal(e))),
            Ok(org) => if org != organization_id {
                (HandlerStateView::Done, HandlerActionView::RespondError((404, "Server not found"@)))
            } else {
                match request {
                    HandlerRequest::RegenerateToken => (
                        HandlerStateView::Writing { agent_token: token },
                        HandlerActionView::StoreTokenHash {
                            token_hash: agent_token_hash(secret, token),
                        },
                    ),
                    HandlerRequest::Update(_) => (
                        HandlerStateView::Writing { agent_token: Seq::empty() },
                        HandlerActionView::UpdateServer,
                    ),
                    HandlerRequest::Delete => (
                        HandlerStateView::Writing { agent_token: Seq::empty() },
                        HandlerActionView::DeleteServer,
                    ),
                    HandlerRequest::Create(_) => (state, HandlerActionView::Ignore),
                }
            },
        },
        (HandlerStateView::Writing { agent_token }, HandlerEventView::Written(r)) => match r {
            Err(e) => (HandlerStateView::Done, HandlerActionView::RespondError(write_refusal(request, e))),
            Ok(()) => (
                HandlerStateView::Done,
                match request {
                    HandlerRequest::Create(_) => HandlerActionView::RespondToken {
                        agent_token,
                        docker_command: docker_command_text(center_url, agent_token),
                        analytics_event: "server_created"@,
                    },
                    HandlerRequest::RegenerateToken => HandlerActionView::RespondToken {
                        agent_token,
                        docker_command: docker_command_text(center_url, agent_token),
                        analytics_event: "server_token_regenerated"@,
                    },
                    HandlerRequest::Update(_) => HandlerActionView::RespondDone { analytics_event: None },
                    HandlerRequest::Delete => HandlerActionView::RespondDone {
                        analytics_event: Some("server_deleted"@),
                    },
                },
            ),
        },
        _ => (state, HandlerActionView::Ignore),
    }
}

/// Every handler starts with the admin check.
pub fn handler_start() -> (result: (HandlerState, HandlerAction))
    ensures
        result.0@ == HandlerStateView::CheckingAdmin,
        result.1@ == HandlerActionView::CheckAdmin,
{
    (HandlerState::CheckingAdmin, HandlerAction::CheckAdmin)
}

/// Validates the handler's request body.
fn check_request(request: &HandlerRequest) -> (result: Result<(), ErrorResponse>)
    ensures
        match request_refusal(*request) {
            Some(refusal) => result matches Err(e) && e@ == refusal,
            None => result is Ok,
        },
{
    match request {
        HandlerRequest::Create(r) => validate_create_request(r),
        HandlerRequest::Update(r) => validate_update_request(r),
        _ => Ok(()),
    }
}

/// The error for a failed write.
fn write_failure(request: &HandlerRequest, e: &IdentityError) -> (response: ErrorResponse)
    ensures
        response@ == write_refusal(*request, e@),
{
    match request {
        HandlerRequest::Create(_) => create_server_failure_response(e),
        HandlerRequest::RegenerateToken => ErrorResponse::internal("Failed to regenerate token"),
        HandlerRequest::Update(_) => ErrorResponse::internal("Failed to update server"),
        HandlerRequest::Delete => ErrorResponse::internal("Failed to delete server"),
    }
}

/// A fresh agent token and its keyed hash under `secret`.
fn issue_token(secret: &str) -> (result: (String, String))
    ensures
        is_agent_token(result.0@),
        result.1@ == agent_token_hash(secret@, result.0@),
{
    let token = generate_agent_token();
    let hash = hash_agent_token(secret, token.as_str());
    (token, hash)
}

/// Takes one step of a handler: the next state and the action to perform.
/// A token issued with a write is a fresh agent token, and the write stores
/// its keyed hash.
pub fn handler_step(
    request: &HandlerRequest,
    organization_id: u128,
    secret: &str,
    center_url: &str,
    state: HandlerState,
    event: HandlerEvent,
) -> (result: (HandlerState, HandlerAction))
    ensures
        exists|token: Seq<char>|
            (result.0@, result.1@) == #[trigger] handler_next(
                *request,
                organization_id,
                secret@,
                center_url@,
                token,
                state@,
                event@,
            ),
        (result.1 is InsertServer || result.1 is StoreTokenHash) ==> (result.0 matches HandlerState::Writing { agent_token } && is_agent_token(agent_token@)),
{
    let ghost s = state@;
    let ghost ev = event@;
    let ghost none: Seq<char> = Seq::empty();
    match (state, event) {
        (HandlerState::CheckingAdmin, HandlerEvent::AdminChecked(r)) => match r {
            Err(e) => {
                let response = admin_check_failure(&e);
                let out = (HandlerState::Done, HandlerAction::RespondError(response));
                assert((out.0@, out.1@) == handler_next(*request, organization_id, secret@, center_url@, none, s, ev));
                out
            },
            Ok(()) => match check_request(request) {
                Err(response) => {
                    let out = (HandlerState::Done, HandlerAction::RespondError(response));
                    assert((out.0@, out.1@) == handler_next(*request, organization_id, secret@, center_url@, none, s, ev));
                    out
                },
                Ok(()) => match request {
                    HandlerRequest::Create(_) => {
                        let (agent_token, token_hash) = issue_token(secret);
                        let ghost t = agent_token@;
                        let out = (
                            HandlerState::Writing { agent_token },
                            HandlerAction::InsertServer { token_hash },
                        );
                        assert((out.0@, out.1@) == handler_next(*request, organization_id, secret@, center_url@, t, s, ev));
                        out
                    },
                    _ => {
                        let out = (HandlerState::LookingUp, HandlerAction::LookUpServer);
                        assert((out.0@, out.1@) == handler_next(*request, organization_id, secret@, center_url@, none, s, ev));
                        out
                    },
                },
            },
        },
        (HandlerState::LookingUp, HandlerEvent::ServerFound(r)) => match r {
            Err(e) => {
                let response = server_lookup_failure(&e);
                let out = (HandlerState::Done, HandlerAction::RespondError(response));
                assert((out.0@, out.1@) == handler_next(*request, organization_id, secret@, center_url@, none, s, ev));
                out
            },
            Ok(org) => match ensure_same_organization(org, organization_id) {
                Err(response) => {
                    let out = (HandlerState::Done, HandlerAction::RespondError(response));
                    assert((out.0@, out.1@) == handler_next(*request, organization_id, secret@, center_url@, none, s, ev));
                    out
                },
                Ok(()) => match request {
                    HandlerRequest::RegenerateToken => {
                        let (agent_token, token_hash) = issue_token(secret);
                        let ghost t = agent_token@;
                        let out = (
                            HandlerState::Writing { agent_token },
                            HandlerAction::StoreTokenHash { token_hash },
                        );
                        assert((out.0@, out.1@) == handler_next(*request, organization_id, secret@, center_url@, t, s, ev));
                        out
                    },
                    HandlerRequest::Update(_) => {
                        let out = (
                            HandlerState::Writing { agent_token: String::new() },
                            HandlerAction::UpdateServer,
                        );
                        assert((out.0@, out.1@) == handler_next(*request, organization_id, secret@, center_url@, none, s, ev));
                        out
                    },
                    HandlerRequest::Delete => {
                        let out = (
                            HandlerState::Writing { agent_token: String::new() },
                            HandlerAction::DeleteServer,
                        );
                        assert((out.0@, out.1@) == handler_next(*request, organization_id, secret@, center_url@, none, s, ev));
                        out
                    },
                    HandlerRequest::Create(_) => {
                        let out = (HandlerState::LookingUp, HandlerAction::Ignore);
                        assert((out.0@, out.1@) == handler_next(*request, organization_id, secret@, center_url@, none, s, ev));
                        out
                    },
                },
            },
        },
        (HandlerState::Writing { agent_token }, HandlerEvent::Written(r)) => match r {
            Err(e) => {
                let response = write_failure(request, &e);
                let out = (HandlerState::Done, HandlerAction::RespondError(response));
                assert((out.0@, out.1@) == handler_next(*request, organization_id, secret@, center_url@, none, s, ev));
                out
            },
            Ok(()) => {
                let action = match request {
                    HandlerRequest::Create(_) => {
                        let docker_command = generate_docker_command(center_url, agent_token.as_str());
                        HandlerAction::RespondToken {
                            agent_token,
                            docker_command,
                            analytics_event: String::from_str("server_created"),
                        }
                    },
                    HandlerRequest::RegenerateToken => {
                        let docker_command = generate_docker_command(center_url, agent_token.as_str());
                        HandlerAction::RespondToken {
                            agent_token,
                            docker_command,
                            analytics_event: String::from_str("server_token_regenerated"),
                        }
                    },
                    HandlerRequest::Update(_) => HandlerAction::RespondDone { analytics_event: None },
                    HandlerRequest::Delete => HandlerAction::RespondDone {
                        analytics_event: Some(String::from_str("server_deleted")),
                    },
                };
                let out = (HandlerState::Done, action);
                assert((out.0@, out.1@) == handler_next(*request, organization_id, secret@, center_url@, none, s, ev));
                out
            },
        },
        (state, _) => {
            let out = (state, HandlerAction::Ignore);
            assert((out.0@, out.1@) == handler_next(*request, organization_id, secret@, center_url@, none, s, ev));
            out
        },
    }
}

/// The actions of a handler for a sequence of outcomes, one per outcome;
/// `tokens[k]` is the token issued if outcome `k` leads to a write.
pub open spec fn handler_actions(
    request: HandlerRequest,
    organization_id: u128,
    secret: Seq<char>,
    center_url: Seq<char>,
    tokens: Seq<Seq<char>>,
    state: HandlerStateView,
    events: Seq<HandlerEventView>,
) -> Seq<HandlerActionView>
    decreases events.len(),
{
    if events.len() == 0 {
        Seq::empty()
    } else {
        let (next, action) = handler_next(
            request,
            organization_id,
            secret,
            center_url,
            tokens[0],
            state,
            events[0],
        );
        seq![action] + handler_actions(
            request,
            organization_id,
            secret,
            center_url,
            tokens.drop_first(),
            next,
            events.drop_first(),
        )
    }
}

/// An action that changes the database.
pub open spec fn is_write(action: HandlerActionView) -> bool {
    ||| action is InsertServer
    ||| action is StoreTokenHash
    ||| action is UpdateServer
    ||| action is DeleteServer
}

/// A state the handler reaches only once the admin check has passed.
pub open spec fn admin_passed(state: HandlerStateView) -> bool {
    state is LookingUp || state is Writing
}

/// A handler that has passed its request validation, where it has one.
pub open spec fn validated(request: HandlerRequest, state: HandlerStateView) -> bool {
    admin_passed(state) ==> request_refusal(request) is None
}

proof fn lemma_handler_actions_len(
    request: HandlerRequest,
    organization_id: u128,
    secret: Seq<char>,
    center_url: Seq<char>,
    tokens: Seq<Seq<char>>,
    state: HandlerStateView,
    events: Seq<HandlerEventView>,
)
    ensures
        handler_actions(request, organization_id, secret, center_url, tokens, state, events).len()
            == events.len(),
    decreases events.len(),
{
    if events.len() > 0 {
        let next = handler_next(request, organization_id, secret, center_url, tokens[0], state, events[0]).0;
        lemma_handler_actions_len(
            request,
            organization_id,
            secret,
            center_url,
            tokens.drop_first(),
            next,
            events.drop_first(),
        );
    }
}

proof fn lemma_step_passes_admin(
    request: HandlerRequest,
    organization_id: u128,
    secret: Seq<char>,
    center_url: Seq<char>,
    token: Seq<char>,
    state: HandlerStateView,
    event: HandlerEventView,
)
    ensures
        ({
            let (next, action) = handler_next(
                request,
                organization_id,
                secret,
                center_url,
                token,
                state,
                event,
            );
            &&& validated(request, state) ==> validated(request, next)
            &&& (admin_passed(next) && !admin_passed(state)) ==> event == HandlerEventView::AdminChecked(Ok(()))
            &&& (is_write(action) || action is LookUpServer) ==> (admin_passed(state) || event
                == HandlerEventView::AdminChecked(Ok(())))
            &&& (is_write(action) || action is LookUpServer) && validated(request, state) ==> request_refusal(request) is None
        }),
{
    match event {
        HandlerEventView::AdminChecked(r) => match r {
            Ok(u) => {
                assert(u == ());
            },
            Err(_) => {},
        },
        _ => {},
    }
}

proof fn lemma_writes_follow_checks(
    request: HandlerRequest,
    organization_id: u128,
    secret: Seq<char>,
    center_url: Seq<char>,
    tokens: Seq<Seq<char>>,
    state: HandlerStateView,
    events: Seq<HandlerEventView>,
    i: int,
)
    requires
        0 <= i < events.len(),
        validated(request, state),
        is_write(
            handler_actions(request, organization_id, secret, center_url, tokens, state, events)[i],
        ) || handler_actions(request, organization_id, secret, center_url, tokens, state, events)[i]
            is LookUpServer,
    ensures
        admin_passed(state) || exists|j: int|
            0 <= j <= i && events[j] == HandlerEventView::AdminChecked(Ok(())),
        request_refusal(request) is None,
    decreases events.len(),
{
    let next = handler_next(request, organization_id, secret, center_url, tokens[0], state, events[0]).0;
    lemma_step_passes_admin(request, organization_id, secret, center_url, tokens[0], state, events[0]);
    if i > 0 {
        lemma_handler_actions_len(
            request,
            organization_id,
            secret,
            center_url,
            tokens.drop_first(),
            next,
            events.drop_first(),
        );
        assert(validated(request, next));
        lemma_writes_follow_checks(
            request,
            organization_id,
            secret,
            center_url,
            tokens.drop_first(),
            next,
            events.drop_first(),
            i - 1,
        );
        if admin_passed(next) {
            if !admin_passed(state) {
                assert(events[0] == HandlerEventView::AdminChecked(Ok(())));
            }
        } else {
            let j = choose|j: int|
                0 <= j <= i - 1 && events.drop_first()[j] == HandlerEventView::AdminChecked(Ok(()));
            assert(events[j + 1] == events.drop_first()[j]);
        }
    }
}

/// A handler changes nothing and looks nothing up before the user passed
/// the admin check and the request body validated: in a run from the
/// start, every write and every server lookup follows an `AdminChecked`
/// success, and only a request that validates reaches them.
pub proof fn law_writes_only_after_admin_check(
    request: HandlerRequest,
    organization_id: u128,
    secret: Seq<char>,
    center_url: Seq<char>,
    tokens: Seq<Seq<char>>,
    events: Seq<HandlerEventView>,
    i: int,
)
    requires
        0 <= i < events.len(),
        is_write(
            handler_actions(
                request,
                organization_id,
                secret,
                center_url,
                tokens,
                HandlerStateView::CheckingAdmin,
                events,
            )[i],
        ) || handler_actions(
            request,
            organization_id,
            secret,
            center_url,
            tokens,
            HandlerStateView::CheckingAdmin,
            events,
        )[i] is LookUpServer,
    ensures
        exists|j: int| 0 <= j <= i && events[j] == HandlerEventView::AdminChecked(Ok(())),
        request_refusal(request) is None,
{
    lemma_writes_follow_checks(
        request,
        organization_id,
        secret,
        center_url,
        tokens,
        HandlerStateView::CheckingAdmin,
        events,
        i,
    );
}

/// Regeneration, update and deletion write only for a server found in the
/// handler's own organization: their write is asked for exactly on the
/// lookup outcome naming that organization; a server of another
/// organization is answered 404 "Server not found" with no write.
pub proof fn law_writes_only_in_own_organization(
    request: HandlerRequest,
    organization_id: u128,
    secret: Seq<char>,
    center_url: Seq<char>,
    token: Seq<char>,
    state: HandlerStateView,
    event: HandlerEventView,
    other: u128,
)
    requires
        !(request is Create),
        other != organization_id,
    ensures
        is_write(handler_next(request, organization_id, secret, center_url, token, state, event).1)
            ==> state is LookingUp && event == HandlerEventView::ServerFound(Ok(organization_id)),
        handler_next(
            request,
            organization_id,
            secret,
            center_url,
            token,
            HandlerStateView::LookingUp,
            HandlerEventView::ServerFound(Ok(other)),
        ) == (HandlerStateView::Done, HandlerActionView::RespondError((404u16, "Server not found"@))),
{
}

/// Once a handler has answered, it does nothing more, whatever arrives.
pub proof fn law_handler_done_is_final(
    request: HandlerRequest,
    organization_id: u128,
    secret: Seq<char>,
    center_url: Seq<char>,
    token: Seq<char>,
    event: HandlerEventView,
)
    ensures
        handler_next(request, organization_id, secret, center_url, token, HandlerStateView::Done, event)
            == (HandlerStateView::Done, HandlerActionView::Ignore),
{
}

/// Every answer ends the handler: after an error or a success response the
/// handler is done.
pub proof fn law_answer_ends_handler(
    request: HandlerRequest,
    organization_id: u128,
    secret: Seq<char>,
    center_url: Seq<char>,
    token: Seq<char>,
    state: HandlerStateView,
    event: HandlerEventView,
)
    ensures
        ({
            let (next, action) = handler_next(
                request,
                organization_id,
                secret,
                center_url,
                token,
                state,
                event,
            );
            (action is RespondError || action is RespondToken || action is RespondDone) ==> next
                is Done
        }),
{
}

/// The token round trip: when creation or regeneration stores a hash with
/// an issued token `t`, the hash is `agent_token_hash(secret, t)`; once the
/// write succeeds the answer carries `t` and the docker command for `t`;
/// and an agent registering with `t` under the same key is looked up by
/// that very hash.
pub proof fn law_issued_token_is_accepted(
    request: HandlerRequest,
    organization_id: u128,
    secret: Seq<char>,
    center_url: Seq<char>,
    token: Seq<char>,
    state: HandlerStateView,
    event: HandlerEventView,
    later_token: Seq<char>,
    fresh_id: u128,
)
    requires
        ({
            let action = handler_next(
                request,
                organization_id,
                secret,
                center_url,
                token,
                state,
                event,
            ).1;
            action is InsertServer || action is StoreTokenHash
        }),
    ensures
        ({
            let (next, action) = handler_next(
                request,
                organization_id,
                secret,
                center_url,
                token,
                state,
                event,
            );
            let stored = match action {
                HandlerActionView::InsertServer { token_hash } => token_hash,
                HandlerActionView::StoreTokenHash { token_hash } => token_hash,
                _ => Seq::empty(),
            };
            &&& next == HandlerStateView::Writing { agent_token: token }
            &&& stored == agent_token_hash(secret, token)
            &&& handler_next(
                request,
                organization_id,
                secret,
                center_url,
                later_token,
                next,
                HandlerEventView::Written(Ok(())),
            ).1 matches HandlerActionView::RespondToken { agent_token, docker_command, .. }
                && agent_token == token && docker_command == docker_command_text(center_url, token)
            &&& session_next(
                secret,
                fresh_id,
                SessionState::AwaitingRegister,
                SessionEventView::Register(RegisterOutcomeView::Received { agent_token: token }),
            ) == (SessionState::AwaitingLookup, SessionActionView::LookupToken { token_hash: stored })
        }),
{
}

/// The validation a creation passes before anything is written: the
/// trimmed name has 1 to 255 characters and the trimmed host is not blank.
/// A creation that fails it is answered 400 (the name first, then the host)
/// and asks for no insert; one that passes asks for the insert.
pub proof fn law_create_validates_name_and_host(
    r: CreateServerRequest,
    organization_id: u128,
    secret: Seq<char>,
    center_url: Seq<char>,
    token: Seq<char>,
)
    ensures
        request_refusal(HandlerRequest::Create(r)) is None <==> (1 <= trim(r.name@).len() <= 255
            && trim(r.host@).len() > 0),
        !(1 <= trim(r.name@).len() <= 255) ==> request_refusal(HandlerRequest::Create(r)) == Some(
            (400u16, "Server name must be between 1 and 255 characters"@),
        ),
        1 <= trim(r.name@).len() <= 255 && trim(r.host@).len() == 0 ==> request_refusal(
            HandlerRequest::Create(r),
        ) == Some((400u16, "Server host is required"@)),
        handler_next(
            HandlerRequest::Create(r),
            organization_id,
            secret,
            center_url,
            token,
            HandlerStateView::CheckingAdmin,
            HandlerEventView::AdminChecked(Ok(())),
        ).1 is InsertServer <==> (1 <= trim(r.name@).len() <= 255 && trim(r.host@).len() > 0),
{
}

/// The validation an update passes before the lookup: a name, if given,
/// has 1 to 255 characters once trimmed; otherwise the answer is 400.
pub proof fn law_update_validates_name(r: UpdateServerRequest)
    ensures
        request_refusal(HandlerRequest::Update(r)) is None <==> match r.name {
            Some(n) => 1 <= trim(n@).len() <= 255,
            None => true,
        },
        request_refusal(HandlerRequest::Update(r)) is Some ==> request_refusal(
            HandlerRequest::Update(r),
        ) == Some((400u16, "Server name must be between 1 and 255 characters"@)),
{
}

} // verus!
