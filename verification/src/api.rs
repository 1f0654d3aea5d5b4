//! The server-management API's types: server and executor records with
//! their statuses, and the request and response bodies. Ids are UUIDs as
//! 128-bit integers, instants are microseconds since the Unix epoch (the
//! database's precision), and JSON documents are carried as their text.

use vstd::prelude::*;

use crate::text::str_equals;

verus! {

/// Where a server's agent connection stands.
#[derive(Clone, Copy, Debug, PartialEq, Eq, Structural)]
pub enum ServerStatus {
    /// Waiting for the agent to connect.
    Pending,
    /// The agent is connected.
    Online,
    /// The agent is disconnected.
    Offline,
    /// The connection failed.
    Error,
}

/// The lowercase name of a server status, as stored and as sent in JSON.
pub open spec fn server_status_name(status: ServerStatus) -> Seq<char> {
    match status {
        ServerStatus::Pending => "pending"@,
        ServerStatus::Online => "online"@,
        ServerStatus::Offline => "offline"@,
        ServerStatus::Error => "error"@,
    }
}

/// The server status with a given lowercase name.
pub open spec fn server_status_named(name: Seq<char>) -> Option<ServerStatus> {
    if name == "pending"@ {
        Some(ServerStatus::Pending)
    } else if name == "online"@ {
        Some(ServerStatus::Online)
    } else if name == "offline"@ {
        Some(ServerStatus::Offline)
    } else if name == "error"@ {
        Some(ServerStatus::Error)
    } else {
        None
    }
}

impl ServerStatus {
    /// The default status of a new server: pending.
    pub fn default_status() -> (status: Self)
        ensures
            status == ServerStatus::Pending,
    {
        ServerStatus::Pending
    }

    /// The lowercase name.
    pub fn as_str(&self) -> (name: &'static str)
        ensures
            name@ == server_status_name(*self),
    {
        match self {
            ServerStatus::Pending => "pending",
            ServerStatus::Online => "online",
            ServerStatus::Offline => "offline",
            ServerStatus::Error => "error",
        }
    }

    /// The status with this lowercase name, if any.
    pub fn parse(name: &str) -> (status: Option<Self>)
        ensures
            status == server_status_named(name@),
    {
        if str_equals(name, "pending") {
            Some(ServerStatus::Pending)
        } else if str_equals(name, "online") {
            Some(ServerStatus::Online)
        } else if str_equals(name, "offline") {
            Some(ServerStatus::Offline)
        } else if str_equals(name, "error") {
            Some(ServerStatus::Error)
        } else {
            None
        }
    }
}

impl Default for ServerStatus {
    fn default() -> (status: Self)
        ensures
            status == ServerStatus::Pending,
    {
        ServerStatus::Pending
    }
}

/// Where an executor stands.
#[derive(Clone, Copy, Debug, PartialEq, Eq, Structural)]
pub enum ExecutorStatus {
    Unknown,
    Available,
    Busy,
    Error,
}

/// The lowercase name of an executor status.
pub open spec fn executor_status_name(status: ExecutorStatus) -> Seq<char> {
    match status {
        ExecutorStatus::Unknown => "unknown"@,
        ExecutorStatus::Available => "available"@,
        ExecutorStatus::Busy => "busy"@,
        ExecutorStatus::Error => "error"@,
    }
}

/// The executor status with a given lowercase name.
pub open spec fn executor_status_named(name: Seq<char>) -> Option<ExecutorStatus> {
    if name == "unknown"@ {
        Some(ExecutorStatus::Unknown)
    } else if name == "available"@ {
        Some(ExecutorStatus::Available)
    } else if name == "busy"@ {
        Some(ExecutorStatus::Busy)
    } else if name == "error"@ {
        Some(ExecutorStatus::Error)
    } else {
        None
    }
}

impl ExecutorStatus {
    /// The lowercase name.
    pub fn as_str(&self) -> (name: &'static str)
        ensures
            name@ == executor_status_name(*self),
    {
        match self {
            ExecutorStatus::Unknown => "unknown",
            ExecutorStatus::Available => "available",
            ExecutorStatus::Busy => "busy",
            ExecutorStatus::Error => "error",
        }
    }

    /// The status with this lowercase name, if any.
    pub fn parse(name: &str) -> (status: Option<Self>)
        ensures
            status == executor_status_named(name@),
    {
        if str_equals(name, "unknown") {
            Some(ExecutorStatus::Unknown)
        } else if str_equals(name, "available") {
            Some(ExecutorStatus::Available)
        } else if str_equals(name, "busy") {
            Some(ExecutorStatus::Busy)
        } else if str_equals(name, "error") {
            Some(ExecutorStatus::Error)
        } else {
            None
        }
    }
}

impl Default for ExecutorStatus {
    fn default() -> (status: Self)
        ensures
            status == ExecutorStatus::Unknown,
    {
        ExecutorStatus::Unknown
    }
}

/// How the centre authenticates over SSH.
#[derive(Clone, Copy, Debug, PartialEq, Eq, Structural)]
pub enum SshAuthType {
    Password,
    Key,
}

/// The lowercase name of an SSH authentication type.
pub open spec fn ssh_auth_type_name(auth: SshAuthType) -> Seq<char> {
    match auth {
        SshAuthType::Password => "password"@,
        SshAuthType::Key => "key"@,
    }
}

/// The SSH authentication type with a given lowercase name.
pub open spec fn ssh_auth_type_named(name: Seq<char>) -> Option<SshAuthType> {
    if name == "password"@ {
        Some(SshAuthType::Password)
    } else if name == "key"@ {
        Some(SshAuthType::Key)
    } else {
        None
    }
}

impl SshAuthType {
    /// The lowercase name, as displayed and stored.
    pub fn as_str(&self) -> (name: &'static str)
        ensures
            name@ == ssh_auth_type_name(*self),
    {
        match self {
            SshAuthType::Password => "password",
            SshAuthType::Key => "key",
        }
    }

    /// The lowercase name as an owned string (the type's display form).
    pub fn to_display_string(&self) -> (name: String)
        ensures
            name@ == ssh_auth_type_name(*self),
    {
        String::from_str(self.as_str())
    }

    /// The type with this lowercase name, if any.
    pub fn parse(name: &str) -> (auth: Option<Self>)
        ensures
            auth == ssh_auth_type_named(name@),
    {
        if str_equals(name, "password") {
            Some(SshAuthType::Password)
        } else if str_equals(name, "key") {
            Some(SshAuthType::Key)
        } else {
            None
        }
    }
}

/// A status's name reads back as the same status.
pub proof fn law_server_status_name_round_trip(status: ServerStatus)
    ensures
        server_status_named(server_status_name(status)) == Some(status),
{
    reveal_strlit("pending");
    reveal_strlit("online");
    reveal_strlit("offline");
    reveal_strlit("error");
    assert("pending"@.len() == 7);
    assert("online"@.len() == 6);
    assert("offline"@.len() == 7);
    assert("error"@.len() == 5);
    assert("offline"@[1] != "pending"@[1]);
}

/// An executor status's name reads back as the same status.
pub proof fn law_executor_status_name_round_trip(status: ExecutorStatus)
    ensures
        executor_status_named(executor_status_name(status)) == Some(status),
{
    reveal_strlit("unknown");
    reveal_strlit("available");
    reveal_strlit("busy");
    reveal_strlit("error");
    assert("unknown"@.len() == 7);
    assert("available"@.len() == 9);
    assert("busy"@.len() == 4);
    assert("error"@.len() == 5);
}

/// An authentication type's name reads back as the same type.
pub proof fn law_ssh_auth_type_name_round_trip(auth: SshAuthType)
    ensures
        ssh_auth_type_named(ssh_auth_type_name(auth)) == Some(auth),
{
    reveal_strlit("password");
    reveal_strlit("key");
    assert("password"@.len() == 8);
    assert("key"@.len() == 3);
}


/// A registered server.
#[derive(Clone, Debug)]
pub struct Server {
    pub id: u128,
    pub organization_id: u128,
    pub name: String,
    pub description: Option<String>,
    pub host: String,
    pub port: i32,
    pub status: ServerStatus,
    pub agent_id: Option<u128>,
    pub agent_version: Option<String>,
    pub last_heartbeat_at_us: Option<i64>,
    pub connection_error: Option<String>,
    /// The agent's system information, as JSON text.
    pub system_info: Option<String>,
    /// The agent's latest system statistics, as JSON text.
    pub system_stats: Option<String>,
    pub ssh_enabled: bool,
    pub ssh_host: Option<String>,
    pub ssh_port: Option<i32>,
    pub ssh_username: Option<String>,
    pub tags: Vec<String>,
    pub created_at_us: i64,
    pub updated_at_us: i64,
}

/// An AI tool executor on a server.
#[derive(Clone, Debug)]
pub struct ServerExecutor {
    pub id: u128,
    pub server_id: u128,
    pub executor_type: String,
    pub executor_name: Option<String>,
    pub version: Option<String>,
    pub status: ExecutorStatus,
    pub current_task_id: Option<u128>,
    pub capabilities: Vec<String>,
    /// The executor's configuration, as JSON text.
    pub config: String,
    pub total_executions: i32,
    pub successful_executions: i32,
    pub failed_executions: i32,
    pub last_used_at_us: Option<i64>,
    pub created_at_us: i64,
    pub updated_at_us: i64,
}

/// Body of a request to register a server.
#[derive(Clone, Debug)]
pub struct CreateServerRequest {
    pub name: String,
    pub description: Option<String>,
    pub host: String,
    pub port: Option<i32>,
    pub tags: Option<Vec<String>>,
    pub ssh_config: Option<SshConfig>,
}

/// SSH access settings for a server.
#[derive(Clone, Debug)]
pub struct SshConfig {
    pub enabled: bool,
    pub host: Option<String>,
    pub port: Option<i32>,
    pub username: Option<String>,
    pub auth_type: SshAuthType,
    /// Password or private key; never sent back in responses.
    pub credentials: Option<String>,
}

/// Body of a request to change a server; absent fields stay as they are.
#[derive(Clone, Debug)]
pub struct UpdateServerRequest {
    pub name: Option<String>,
    pub description: Option<String>,
    pub host: Option<String>,
    pub port: Option<i32>,
    pub tags: Option<Vec<String>>,
    pub ssh_config: Option<SshConfig>,
}

/// A server together with its executors.
#[derive(Clone, Debug)]
pub struct ServerWithExecutors {
    pub server: Server,
    pub executors: Vec<ServerExecutor>,
}

/// Response to registering a server: the record, the agent token (shown
/// only this once) and the command that starts the agent.
#[derive(Clone, Debug)]
pub struct CreateServerResponse {
    pub server: Server,
    pub agent_token: String,
    pub docker_command: String,
}

/// Response listing an organization's servers.
#[derive(Clone, Debug)]
pub struct ListServersResponse {
    pub servers: Vec<ServerWithExecutors>,
    pub total: i64,
}

impl ListServersResponse {
    /// The listing of `servers`, with `total` their number.
    pub fn new(servers: Vec<ServerWithExecutors>) -> (response: Self)
        requires
            servers@.len() <= i64::MAX,
        ensures
            response.servers@ == servers@,
            response.total == servers@.len(),
    {
        let total = servers.len() as i64;
        ListServersResponse { servers, total }
    }
}

/// Response with one server and its executors.
#[derive(Clone, Debug)]
pub struct GetServerResponse {
    pub server: ServerWithExecutors,
}

/// Response to regenerating a server's agent token.
#[derive(Clone, Debug)]
pub struct RegenerateTokenResponse {
    pub agent_token: String,
    pub docker_command: String,
}

/// An executor as an agent reports it when registering.
#[derive(Clone, Debug)]
pub struct ExecutorInfo {
    pub executor_type: String,
    pub version: Option<String>,
    pub capabilities: Vec<String>,
    pub config_path: Option<String>,
}

} // verus!
