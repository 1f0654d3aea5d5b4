//! Verified core of the Vibe Kanban server-management features: the agent
//! daemon's protocol decisions and reconnection policy, and the centre's
//! token handling, request validation, connection registry and agent
//! session state machine.

pub mod api;
pub mod crypto;
pub mod daemon;
pub mod docker;
pub mod executors;
pub mod handlers;
pub mod http;
pub mod reconnect;
pub mod registry;
pub mod repo;
pub mod routes;
pub mod session;
pub mod protocol;
pub mod text;
