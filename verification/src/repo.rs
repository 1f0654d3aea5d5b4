//! The decisions of the server repository: what a new server row holds,
//! how an update merges with the stored server, and how database outcomes
//! become errors. The SQL itself is run by the caller.

use vstd::prelude::*;

use crate::api::{CreateServerRequest, Server, UpdateServerRequest, ssh_auth_type_name};
use crate::text::{clone_opt_string, clone_strings};

verus! {

/// Errors of the identity and organization layer that the server routes
/// see.
#[derive(Clone, Debug)]
pub enum IdentityError {
    NotFound,
    PermissionDenied,
    OrganizationConflict(String),
    /// Any other database failure, with its description.
    Database(String),
}

/// An identity error with its text as characters.
pub enum IdentityErrorView {
    NotFound,
    PermissionDenied,
    OrganizationConflict(Seq<char>),
    Database(Seq<char>),
}

impl View for IdentityError {
    type V = IdentityErrorView;

    open spec fn view(&self) -> IdentityErrorView {
        match self {
            IdentityError::NotFound => IdentityErrorView::NotFound,
            IdentityError::PermissionDenied => IdentityErrorView::PermissionDenied,
            IdentityError::OrganizationConflict(m) => IdentityErrorView::OrganizationConflict(m@),
            IdentityError::Database(d) => IdentityErrorView::Database(d@),
        }
    }
}

/// The values of a new `servers` row.
#[derive(Clone, Debug)]
pub struct NewServerRow {
    pub organization_id: u128,
    pub name: String,
    pub description: Option<String>,
    pub host: String,
    pub port: i32,
    pub ssh_enabled: bool,
    pub ssh_host: Option<String>,
    pub ssh_port: Option<i32>,
    pub ssh_username: Option<String>,
    pub ssh_auth_type: Option<String>,
    pub tags: Vec<String>,
    pub agent_token_hash: String,
}

/// The port of a server registered without one.
pub open spec fn default_agent_port() -> i32 {
    9999
}

/// The row stored for a registration request: the request's fields, port
/// 9999 when none is given, no tags when none are given, and the SSH fields
/// from the SSH settings (or SSH off and nothing else when there are none).
pub fn new_server_row(organization_id: u128, request: &CreateServerRequest, agent_token_hash: &str) -> (row:
    NewServerRow)
    ensures
        row.organization_id == organization_id,
        row.name == request.name,
        row.description == request.description,
        row.host == request.host,
        row.port == match request.port {
            Some(p) => p,
            None => default_agent_port(),
        },
        row.tags@ == match request.tags {
            Some(t) => t@,
            None => Seq::<String>::empty(),
        },
        row.agent_token_hash@ == agent_token_hash@,
        match request.ssh_config {
            Some(ssh) => {
                &&& row.ssh_enabled == ssh.enabled
                &&& row.ssh_host == ssh.host
                &&& row.ssh_port == ssh.port
                &&& row.ssh_username == ssh.username
                &&& row.ssh_auth_type is Some
                &&& row.ssh_auth_type->0@ == ssh_auth_type_name(ssh.auth_type)
            },
            None => {
                &&& !row.ssh_enabled
                &&& row.ssh_host is None
                &&& row.ssh_port is None
                &&& row.ssh_username is None
                &&& row.ssh_auth_type is None
            },
        },
{
    let port = match request.port {
        Some(p) => p,
        None => 9999,
    };
    let tags = match &request.tags {
        Some(t) => clone_strings(t),
        None => Vec::new(),
    };
    let (ssh_enabled, ssh_host, ssh_port, ssh_username, ssh_auth_type) = match &request.ssh_config {
        Some(ssh) => (
            ssh.enabled,
            clone_opt_string(&ssh.host),
            ssh.port,
            clone_opt_string(&ssh.username),
            Some(ssh.auth_type.to_display_string()),
        ),
        None => (false, None, None, None, None),
    };
    NewServerRow {
        organization_id,
        name: request.name.clone(),
        description: clone_opt_string(&request.description),
        host: request.host.clone(),
        port,
        ssh_enabled,
        ssh_host,
        ssh_port,
        ssh_username,
        ssh_auth_type,
        tags,
        agent_token_hash: String::from_str(agent_token_hash),
    }
}

/// The fields an update writes.
#[derive(Clone, Debug)]
pub struct ServerUpdate {
    pub name: String,
    pub description: Option<String>,
    pub host: String,
    pub port: i32,
    pub tags: Vec<String>,
}

/// The updatable fields of a server, as plain values.
pub struct ServerFields {
    pub name: Seq<char>,
    pub description: Option<Seq<char>>,
    pub host: Seq<char>,
    pub port: i32,
    pub tags: Seq<String>,
}

/// The changes an update request asks for, as plain values.
pub struct FieldChanges {
    pub name: Option<Seq<char>>,
    pub description: Option<Seq<char>>,
    pub host: Option<Seq<char>>,
    pub port: Option<i32>,
    pub tags: Option<Seq<String>>,
}

/// The characters of an optional string.
pub open spec fn opt_chars(s: Option<String>) -> Option<Seq<char>> {
    match s {
        Some(v) => Some(v@),
        None => None,
    }
}

/// A server's updatable fields.
pub open spec fn server_fields(server: Server) -> ServerFields {
    ServerFields {
        name: server.name@,
        description: opt_chars(server.description),
        host: server.host@,
        port: server.port,
        tags: server.tags@,
    }
}

/// The changes in an update request.
pub open spec fn requested_changes(request: UpdateServerRequest) -> FieldChanges {
    FieldChanges {
        name: opt_chars(request.name),
        description: opt_chars(request.description),
        host: opt_chars(request.host),
        port: request.port,
        tags: match request.tags {
            Some(t) => Some(t@),
            None => None,
        },
    }
}

/// The fields of an update's fields.
pub open spec fn update_fields(update: ServerUpdate) -> ServerFields {
    ServerFields {
        name: update.name@,
        description: opt_chars(update.description),
        host: update.host@,
        port: update.port,
        tags: update.tags@,
    }
}

/// Each requested field replaces the stored one; absent fields keep it.
pub open spec fn merge_fields(existing: ServerFields, changes: FieldChanges) -> ServerFields {
    ServerFields {
        name: match changes.name {
            Some(n) => n,
            None => existing.name,
        },
        description: match changes.description {
            Some(d) => Some(d),
            None => existing.description,
        },
        host: match changes.host {
            Some(h) => h,
            None => existing.host,
        },
        port: match changes.port {
            Some(p) => p,
            None => existing.port,
        },
        tags: match changes.tags {
            Some(t) => t,
            None => existing.tags,
        },
    }
}

/// The values an update request writes over a stored server.
pub fn merge_server_update(existing: &Server, request: &UpdateServerRequest) -> (update: ServerUpdate)
    ensures
        update_fields(update) == merge_fields(server_fields(*existing), requested_changes(*request)),
        request.name is None ==> update.name@ == existing.name@,
        request.description is None ==> update.description == existing.description,
        request.host is None ==> update.host@ == existing.host@,
        request.port is None ==> update.port == existing.port,
        request.tags is None ==> update.tags@ == existing.tags@,
        request.name matches Some(n) ==> update.name@ == n@,
        request.description matches Some(d) ==> (update.description matches Some(u) && u@ == d@),
        request.host matches Some(h) ==> update.host@ == h@,
        request.port matches Some(p) ==> update.port == p,
        request.tags matches Some(t) ==> update.tags@ == t@,
{
    let name = match &request.name {
        Some(n) => n.clone(),
        None => existing.name.clone(),
    };
    let description = match &request.description {
        Some(d) => Some(d.clone()),
        None => clone_opt_string(&existing.description),
    };
    let host = match &request.host {
        Some(h) => h.clone(),
        None => existing.host.clone(),
    };
    let port = match request.port {
        Some(p) => p,
        None => existing.port,
    };
    let tags = match &request.tags {
        Some(t) => clone_strings(t),
        None => clone_strings(&existing.tags),
    };
    ServerUpdate { name, description, host, port, tags }
}

/// An update that asks for nothing leaves the server as it is.
pub proof fn law_empty_update_changes_nothing(existing: ServerFields)
    ensures
        merge_fields(
            existing,
            FieldChanges { name: None, description: None, host: None, port: None, tags: None },
        ) == existing,
{
}

/// Applying the same update twice gives what applying it once gives.
pub proof fn law_update_is_idempotent(existing: ServerFields, changes: FieldChanges)
    ensures
        merge_fields(merge_fields(existing, changes), changes) == merge_fields(existing, changes),
{
}

/// After an update, each field it names holds the requested value.
pub proof fn law_update_writes_requested_fields(existing: ServerFields, changes: FieldChanges)
    ensures
        changes.name matches Some(n) ==> merge_fields(existing, changes).name == n,
        changes.description matches Some(d) ==> merge_fields(existing, changes).description == Some(d),
        changes.host matches Some(h) ==> merge_fields(existing, changes).host == h,
        changes.port matches Some(p) ==> merge_fields(existing, changes).port == p,
        changes.tags matches Some(t) ==> merge_fields(existing, changes).tags == t,
{
}

/// Each field the update leaves out keeps its stored value, whatever the
/// other fields of the update ask for.
pub proof fn law_update_keeps_absent_fields(existing: ServerFields, changes: FieldChanges)
    ensures
        changes.name is None ==> merge_fields(existing, changes).name == existing.name,
        changes.description is None ==> merge_fields(existing, changes).description
            == existing.description,
        changes.host is None ==> merge_fields(existing, changes).host == existing.host,
        changes.port is None ==> merge_fields(existing, changes).port == existing.port,
        changes.tags is None ==> merge_fields(existing, changes).tags == existing.tags,
{
}

/// The error for a failed insert: a name already used in the organization
/// is a conflict, anything else a database error.
pub fn create_server_failure(unique_violation: bool, detail: String) -> (error: IdentityError)
    ensures
        unique_violation ==> (error matches IdentityError::OrganizationConflict(m) && m@
            == "A server with this name already exists in this organization"@),
        !unique_violation ==> (error matches IdentityError::Database(d) && d == detail),
{
    if unique_violation {
        IdentityError::OrganizationConflict(
            String::from_str("A server with this name already exists in this organization"),
        )
    } else {
        IdentityError::Database(detail)
    }
}

/// A lookup by id: a missing server is `NotFound`.
pub fn require_found(server: Option<Server>) -> (result: Result<Server, IdentityError>)
    ensures
        match server {
            Some(s) => (result matches Ok(r) && r == s),
            None => result matches Err(IdentityError::NotFound),
        },
{
    match server {
        Some(s) => Ok(s),
        None => Err(IdentityError::NotFound),
    }
}

/// A delete that touched no row is `NotFound`.
pub fn delete_outcome(rows_affected: u64) -> (result: Result<(), IdentityError>)
    ensures
        rows_affected == 0 ==> result matches Err(IdentityError::NotFound),
        rows_affected > 0 ==> result is Ok,
{
    if rows_affected == 0 {
        Err(IdentityError::NotFound)
    } else {
        Ok(())
    }
}

} // verus!
