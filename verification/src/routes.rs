//! The decisions of the server-management HTTP routes: request validation,
//! the HTTP error each failure maps to, and organization checks. The
//! handlers that await the database and build responses call these.

use vstd::prelude::*;

use crate::api::{CreateServerRequest, UpdateServerRequest};
use crate::repo::IdentityError;
use crate::text::{trim, trim_str};

verus! {

/// An HTTP error: status code and message.
#[derive(Clone, Debug)]
pub struct ErrorResponse {
    pub status: u16,
    pub message: String,
}

impl View for ErrorResponse {
    type V = (u16, Seq<char>);

    open spec fn view(&self) -> (u16, Seq<char>) {
        (self.status, self.message@)
    }
}

/// The error with this status and message text.
pub open spec fn is_error(e: ErrorResponse, status: u16, message: Seq<char>) -> bool {
    e.status == status && e.message@ == message
}

fn error(status: u16, message: &str) -> (e: ErrorResponse)
    ensures
        is_error(e, status, message@),
{
    ErrorResponse { status, message: String::from_str(message) }
}

impl ErrorResponse {
    /// A 500 error with the given message.
    pub fn internal(message: &str) -> (e: Self)
        ensures
            is_error(e, 500, message@),
    {
        error(500, message)
    }
}

/// The message for a name that is empty or too long.
pub open spec fn bad_name_message() -> Seq<char> {
    "Server name must be between 1 and 255 characters"@
}

/// A server name, once trimmed, has between 1 and 255 characters.
pub open spec fn server_name_valid(name: Seq<char>) -> bool {
    1 <= trim(name).len() <= 255
}

/// Checks a server name: 400 unless it is valid.
pub fn validate_server_name(name: &str) -> (result: Result<(), ErrorResponse>)
    ensures
        server_name_valid(name@) ==> result is Ok,
        !server_name_valid(name@) ==> (result matches Err(e) && is_error(e, 400, bad_name_message())),
{
    let trimmed = trim_str(name);
    let t = trimmed.as_str();
    if t.is_empty() || t.unicode_len() > 255 {
        Err(error(400, "Server name must be between 1 and 255 characters"))
    } else {
        Ok(())
    }
}

/// The message for a missing host.
pub open spec fn missing_host_message() -> Seq<char> {
    "Server host is required"@
}

/// Checks a registration request: the name first, then that the host is
/// not blank.
pub fn validate_create_request(request: &CreateServerRequest) -> (result: Result<(), ErrorResponse>)
    ensures
        !server_name_valid(request.name@) ==> (result matches Err(e) && is_error(
            e,
            400,
            bad_name_message(),
        )),
        server_name_valid(request.name@) && trim(request.host@).len() == 0 ==> (result matches Err(e)
            && is_error(e, 400, missing_host_message())),
        server_name_valid(request.name@) && trim(request.host@).len() > 0 ==> result is Ok,
{
    validate_server_name(request.name.as_str())?;
    let host = trim_str(request.host.as_str());
    if host.as_str().is_empty() {
        Err(error(400, "Server host is required"))
    } else {
        Ok(())
    }
}

/// Checks an update request: a given name must be valid.
pub fn validate_update_request(request: &UpdateServerRequest) -> (result: Result<(), ErrorResponse>)
    ensures
        match request.name {
            Some(n) => {
                &&& server_name_valid(n@) ==> result is Ok
                &&& !server_name_valid(n@) ==> (result matches Err(e) && is_error(
                    e,
                    400,
                    bad_name_message(),
                ))
            },
            None => result is Ok,
        },
{
    match &request.name {
        Some(n) => validate_server_name(n.as_str()),
        None => Ok(()),
    }
}

/// The error for a failed admin check.
pub fn admin_check_failure(e: &IdentityError) -> (response: ErrorResponse)
    ensures
        match e {
            IdentityError::NotFound => is_error(response, 404, "Organization not found"@),
            IdentityError::PermissionDenied => is_error(response, 403, "Admin access required"@),
            _ => is_error(response, 500, "Database error"@),
        },
{
    match e {
        IdentityError::NotFound => error(404, "Organization not found"),
        IdentityError::PermissionDenied => error(403, "Admin access required"),
        _ => error(500, "Database error"),
    }
}

/// The error for a failed membership check.
pub fn membership_check_failure(e: &IdentityError) -> (response: ErrorResponse)
    ensures
        match e {
            IdentityError::NotFound => is_error(response, 404, "Organization not found"@),
            _ => is_error(response, 403, "Access denied"@),
        },
{
    match e {
        IdentityError::NotFound => error(404, "Organization not found"),
        _ => error(403, "Access denied"),
    }
}

/// The error for a failed server lookup before a change.
pub fn server_lookup_failure(e: &IdentityError) -> (response: ErrorResponse)
    ensures
        match e {
            IdentityError::NotFound => is_error(response, 404, "Server not found"@),
            _ => is_error(response, 500, "Database error"@),
        },
{
    match e {
        IdentityError::NotFound => error(404, "Server not found"),
        _ => error(500, "Database error"),
    }
}

/// The error for a failed lookup of a server's details.
pub fn server_detail_failure(e: &IdentityError) -> (response: ErrorResponse)
    ensures
        match e {
            IdentityError::NotFound => is_error(response, 404, "Server not found"@),
            _ => is_error(response, 500, "Failed to get server"@),
        },
{
    match e {
        IdentityError::NotFound => error(404, "Server not found"),
        _ => error(500, "Failed to get server"),
    }
}

/// The error for a failed registration: a name conflict is 409 with its
/// message, anything else 500.
pub fn create_server_failure_response(e: &IdentityError) -> (response: ErrorResponse)
    ensures
        match e {
            IdentityError::OrganizationConflict(m) => is_error(response, 409, m@),
            _ => is_error(response, 500, "Failed to create server"@),
        },
{
    match e {
        IdentityError::OrganizationConflict(m) => ErrorResponse { status: 409, message: m.clone() },
        _ => error(500, "Failed to create server"),
    }
}

/// A server belonging to another organization is reported as not found.
pub fn ensure_same_organization(server_organization_id: u128, organization_id: u128) -> (result:
    Result<(), ErrorResponse>)
    ensures
        server_organization_id == organization_id ==> result is Ok,
        server_organization_id != organization_id ==> (result matches Err(e) && is_error(
            e,
            404,
            "Server not found"@,
        )),
{
    if server_organization_id != organization_id {
        Err(error(404, "Server not found"))
    } else {
        Ok(())
    }
}

/// The centre URL shown to agents when none is configured.
pub open spec fn default_center_ws_url() -> Seq<char> {
    "wss://your-center.com/v1/agent/ws"@
}

/// The centre's WebSocket URL: the configured one, or the placeholder.
pub fn center_ws_url(configured: Option<String>) -> (url: String)
    ensures
        match configured {
            Some(c) => url@ == c@,
            None => url@ == default_center_ws_url(),
        },
{
    match configured {
        Some(c) => c,
        None => String::from_str("wss://your-center.com/v1/agent/ws"),
    }
}

} // verus!
