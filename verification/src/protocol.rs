//! Message payload types shared by the agent daemon and the centre whose
//! fields are plain values. Their JSON forms live with the code that
//! sends and receives them.

use std::collections::HashMap;

use vstd::prelude::*;

verus! {

/// An AI coding tool found on the agent's machine.
#[derive(Clone, Debug)]
pub struct ExecutorInfo {
    /// Executor type, such as `claude_code`.
    pub executor_type: String,
    /// Version reported by the tool.
    pub version: Option<String>,
    /// What the executor supports.
    pub capabilities: Vec<String>,
    /// Path of its configuration file.
    pub config_path: Option<String>,
}

/// An `ExecutorInfo` with text as character sequences.
pub struct ExecutorInfoView {
    pub executor_type: Seq<char>,
    pub version: Option<Seq<char>>,
    pub capabilities: Seq<Seq<char>>,
    pub config_path: Option<Seq<char>>,
}

/// The characters of an optional string.
pub open spec fn opt_view(s: Option<String>) -> Option<Seq<char>> {
    match s {
        Some(v) => Some(v@),
        None => None,
    }
}

/// The characters of each string in a list.
pub open spec fn strings_view(v: Seq<String>) -> Seq<Seq<char>> {
    v.map_values(|s: String| s@)
}

impl View for ExecutorInfo {
    type V = ExecutorInfoView;

    open spec fn view(&self) -> ExecutorInfoView {
        ExecutorInfoView {
            executor_type: self.executor_type@,
            version: opt_view(self.version),
            capabilities: strings_view(self.capabilities@),
            config_path: opt_view(self.config_path),
        }
    }
}

/// State of one executor, reported with a heartbeat.
#[derive(Clone, Debug)]
pub struct ExecutorStatusInfo {
    pub executor_type: String,
    pub status: String,
    pub error_message: Option<String>,
}

/// Where a task runs: the repositories to check out and extra environment.
#[derive(Clone, Debug)]
pub struct WorkspaceConfig {
    pub repos: Vec<RepoConfig>,
    pub env_vars: Option<HashMap<String, String>>,
}

/// One repository of a workspace.
#[derive(Clone, Debug)]
pub struct RepoConfig {
    pub url: String,
    pub branch: String,
    pub target_branch: Option<String>,
    pub working_dir: Option<String>,
}

/// How a task is run.
#[derive(Clone, Copy, Debug)]
pub struct ExecutionOptions {
    pub auto_commit: bool,
    pub run_setup_scripts: bool,
    pub run_cleanup_scripts: bool,
    /// Timeout in minutes.
    pub timeout_minutes: Option<u32>,
}

} // verus!
