//! The engine's events, as the library reads them.
use vstd::prelude::*;

verus! {

/// One unit of agent progress reported by the conversation engine.
///
/// Texts that the engine renders itself (a tool's output, an event's own
/// debug form) arrive already rendered.
pub enum EventMsg {
    AgentMessage { message: String },
    AgentReasoning { text: String, rendered: String },
    ExecCommandBegin { command: Vec<String> },
    ExecCommandEnd { exit_code: i32, stdout: String, stderr: String },
    McpToolCallBegin { tool: String, call_id: String },
    /// `result` holds the rendered output on success, the rendered error otherwise.
    McpToolCallEnd { call_id: String, result: Result<String, String> },
    TokenCount { input_tokens: u64, output_tokens: u64, total_tokens: u64, rendered: String },
    TaskStarted,
    TaskComplete { last_agent_message: Option<String> },
    Error { message: String },
    SessionConfigured,
    ExecApprovalRequest { command: Vec<String> },
    ApplyPatchApprovalRequest { reason: Option<String> },
    PatchApplyBegin { call_id: String },
    PatchApplyEnd { call_id: String, success: bool, stdout: String, stderr: String },
    BackgroundEvent { message: String },
    GetHistoryEntryResponse,
    ShutdownComplete,
    /// Any kind the library has no use for.
    Other,
}

/// An event together with the id of the submission it answers.
pub struct Event {
    pub id: String,
    pub msg: EventMsg,
}

/// How a finished session ended.
#[derive(Debug, Clone, Copy, PartialEq, Eq, Structural)]
pub enum SessionStatus {
    Completed,
    Error,
}

/// Whether an event ends the turn it belongs to.
pub open spec fn is_terminal(msg: EventMsg) -> bool {
    msg is TaskComplete || msg is Error || msg is ShutdownComplete
}

/// The status of the session record that an event closes, if it closes one.
pub open spec fn closing_status(msg: EventMsg) -> Option<SessionStatus> {
    match msg {
        EventMsg::TaskComplete { .. } => Some(SessionStatus::Completed),
        EventMsg::Error { .. } => Some(SessionStatus::Error),
        _ => None,
    }
}

impl EventMsg {
    /// Whether this event ends the turn it belongs to.
    pub fn is_terminal(&self) -> (r: bool)
        ensures
            r == is_terminal(*self),
    {
        match self {
            EventMsg::TaskComplete { .. } | EventMsg::Error { .. } | EventMsg::ShutdownComplete => true,
            _ => false,
        }
    }

    /// The status of the session record this event closes, if any.
    pub fn closing_status(&self) -> (r: Option<SessionStatus>)
        ensures
            r == closing_status(*self),
    {
        match self {
            EventMsg::TaskComplete { .. } => Some(SessionStatus::Completed),
            EventMsg::Error { .. } => Some(SessionStatus::Error),
            _ => None,
        }
    }
}

} // verus!
