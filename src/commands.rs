use vstd::prelude::*;

use crate::json::Json;
use crate::poll::{PollOptions, DEFAULT_POLL_INTERVAL_MS, DEFAULT_POLL_TIMEOUT_MS};
use crate::rpc::DaemonEndpoint;

verus! {

/// A request to submit one task.
#[derive(Debug, PartialEq, Eq)]
pub struct TaskSubmitInput {
    pub endpoint: DaemonEndpoint,
    pub kind: String,
    pub params: Json,
}

/// A request about one known task.
#[derive(Debug, Clone, PartialEq, Eq)]
pub struct TaskStatusInput {
    pub endpoint: DaemonEndpoint,
    pub task_id: String,
}

/// A request to poll one known task.
#[derive(Debug, Clone, PartialEq, Eq)]
pub struct TaskPollInput {
    pub endpoint: DaemonEndpoint,
    pub task_id: String,
    pub options: Option<PollOptions>,
}

/// A request to submit one task and poll it to the end.
#[derive(Debug, PartialEq, Eq)]
pub struct TaskSubmitAndPollInput {
    pub endpoint: DaemonEndpoint,
    pub kind: String,
    pub params: Json,
    pub options: Option<PollOptions>,
}

/// A request to check a daemon against a contract file.
#[derive(Debug, Clone, PartialEq, Eq)]
pub struct HandshakeInput {
    pub endpoint: DaemonEndpoint,
    pub contract_path: Option<String>,
}

/// A request to start a daemon where none answers.
#[derive(Debug, Clone, PartialEq, Eq)]
pub struct DaemonBootstrapInput {
    pub endpoint: DaemonEndpoint,
    pub model: Option<String>,
}

/// A request to stop a daemon.
#[derive(Debug, Clone, PartialEq, Eq)]
pub struct DaemonShutdownInput {
    pub endpoint: DaemonEndpoint,
}

/// A request to register the capture shortcut.
#[derive(Debug, Clone, PartialEq, Eq)]
pub struct HotkeyRegisterInput {
    pub shortcut: String,
}

/// Whether a capture shortcut is registered, and its label.
#[derive(Debug, Clone, PartialEq, Eq)]
pub struct HotkeyStatus {
    pub registered: bool,
    pub shortcut: String,
}

/// The options a poll request uses when it names none: the default interval
/// and budget, spelled out.
pub fn default_poll_options() -> (r: PollOptions)
    ensures
        r.poll_interval_ms == Some(DEFAULT_POLL_INTERVAL_MS),
        r.timeout_ms == Some(DEFAULT_POLL_TIMEOUT_MS),
{
    PollOptions {
        poll_interval_ms: Some(DEFAULT_POLL_INTERVAL_MS),
        timeout_ms: Some(DEFAULT_POLL_TIMEOUT_MS),
    }
}

/// The given options, or [`default_poll_options`].
pub fn options_or_default(options: Option<PollOptions>) -> (r: PollOptions)
    ensures
        options is Some ==> r == options->0,
        options is None ==> r.poll_interval_ms == Some(DEFAULT_POLL_INTERVAL_MS) && r.timeout_ms
            == Some(DEFAULT_POLL_TIMEOUT_MS),
{
    match options {
        Some(o) => o,
        None => default_poll_options(),
    }
}

} // verus!
