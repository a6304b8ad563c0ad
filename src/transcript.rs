//! The in-memory conversation transcript and the session record built from it.
use vstd::prelude::*;
use crate::event::SessionStatus;

verus! {

/// Who a transcript entry speaks for.
#[derive(Debug, Clone, Copy, PartialEq, Eq, Structural)]
pub enum Role {
    System,
    User,
    Assistant,
}

/// What an entry records beyond its text, keyed by the kind of event behind it.
pub enum EntryDetail {
    /// A prompt or an assistant message.
    Plain,
    ExecCommandBegin,
    ExecCommandEnd { exit_code: i32 },
    ToolCallBegin { tool_name: String, call_id: String },
    ToolCallEnd { call_id: String, success: bool },
    TokenCount { input_tokens: u64, output_tokens: u64, total_tokens: u64 },
    AgentReasoning,
}

/// One line of the conversation transcript.
pub struct TranscriptEntry {
    pub role: Role,
    pub content: String,
    pub timestamp: String,
    pub detail: EntryDetail,
}

/// The mathematical form of an `EntryDetail`.
pub enum DetailView {
    Plain,
    ExecCommandBegin,
    ExecCommandEnd { exit_code: i32 },
    ToolCallBegin { tool_name: Seq<char>, call_id: Seq<char> },
    ToolCallEnd { call_id: Seq<char>, success: bool },
    TokenCount { input_tokens: u64, output_tokens: u64, total_tokens: u64 },
    AgentReasoning,
}

/// The mathematical form of a `TranscriptEntry`.
pub struct EntryView {
    pub role: Role,
    pub content: Seq<char>,
    pub timestamp: Seq<char>,
    pub detail: DetailView,
}

impl View for EntryDetail {
    type V = DetailView;

    open spec fn view(&self) -> DetailView {
        match self {
            EntryDetail::Plain => DetailView::Plain,
            EntryDetail::ExecCommandBegin => DetailView::ExecCommandBegin,
            EntryDetail::ExecCommandEnd { exit_code } => DetailView::ExecCommandEnd { exit_code: *exit_code },
            EntryDetail::ToolCallBegin { tool_name, call_id } => DetailView::ToolCallBegin {
                tool_name: tool_name@,
                call_id: call_id@,
            },
            EntryDetail::ToolCallEnd { call_id, success } => DetailView::ToolCallEnd {
                call_id: call_id@,
                success: *success,
            },
            EntryDetail::TokenCount { input_tokens, output_tokens, total_tokens } => DetailView::TokenCount {
                input_tokens: *input_tokens,
                output_tokens: *output_tokens,
                total_tokens: *total_tokens,
            },
            EntryDetail::AgentReasoning => DetailView::AgentReasoning,
        }
    }
}

impl View for TranscriptEntry {
    type V = EntryView;

    open spec fn view(&self) -> EntryView {
        EntryView {
            role: self.role,
            content: self.content@,
            timestamp: self.timestamp@,
            detail: self.detail@,
        }
    }
}

/// The `event_type` label of an entry's kind, if it carries one.
pub open spec fn event_type_of(d: DetailView) -> Option<Seq<char>> {
    match d {
        DetailView::Plain => None,
        DetailView::ExecCommandBegin => Some("exec_command_begin"@),
        DetailView::ExecCommandEnd { .. } => Some("exec_command_end"@),
        DetailView::ToolCallBegin { .. } => Some("tool_call_begin"@),
        DetailView::ToolCallEnd { .. } => Some("tool_call_end"@),
        DetailView::TokenCount { .. } => Some("token_count"@),
        DetailView::AgentReasoning => Some("agent_reasoning"@),
    }
}

/// The mathematical form of a transcript.
pub open spec fn entries_view(v: Seq<TranscriptEntry>) -> Seq<EntryView> {
    v.map_values(|e: TranscriptEntry| e@)
}

/// The mathematical form of an optional text.
pub open spec fn opt_view(o: Option<String>) -> Option<Seq<char>> {
    match o {
        Some(s) => Some(s@),
        None => None,
    }
}

impl EntryDetail {
    /// A copy of this detail.
    pub fn copy(&self) -> (r: EntryDetail)
        ensures
            r@ == self@,
    {
        match self {
            EntryDetail::Plain => EntryDetail::Plain,
            EntryDetail::ExecCommandBegin => EntryDetail::ExecCommandBegin,
            EntryDetail::ExecCommandEnd { exit_code } => EntryDetail::ExecCommandEnd { exit_code: *exit_code },
            EntryDetail::ToolCallBegin { tool_name, call_id } => EntryDetail::ToolCallBegin {
                tool_name: tool_name.clone(),
                call_id: call_id.clone(),
            },
            EntryDetail::ToolCallEnd { call_id, success } => EntryDetail::ToolCallEnd {
                call_id: call_id.clone(),
                success: *success,
            },
            EntryDetail::TokenCount { input_tokens, output_tokens, total_tokens } => EntryDetail::TokenCount {
                input_tokens: *input_tokens,
                output_tokens: *output_tokens,
                total_tokens: *total_tokens,
            },
            EntryDetail::AgentReasoning => EntryDetail::AgentReasoning,
        }
    }

    /// The `event_type` label of this entry's kind, if it carries one.
    pub fn event_type(&self) -> (r: Option<&'static str>)
        ensures
            match r {
                Some(s) => event_type_of(self@) == Some(s@),
                None => event_type_of(self@) is None,
            },
    {
        match self {
            EntryDetail::Plain => None,
            EntryDetail::ExecCommandBegin => Some("exec_command_begin"),
            EntryDetail::ExecCommandEnd { .. } => Some("exec_command_end"),
            EntryDetail::ToolCallBegin { .. } => Some("tool_call_begin"),
            EntryDetail::ToolCallEnd { .. } => Some("tool_call_end"),
            EntryDetail::TokenCount { .. } => Some("token_count"),
            EntryDetail::AgentReasoning => Some("agent_reasoning"),
        }
    }
}

impl TranscriptEntry {
    /// A copy of this entry.
    pub fn copy(&self) -> (r: TranscriptEntry)
        ensures
            r@ == self@,
    {
        TranscriptEntry {
            role: self.role,
            content: self.content.clone(),
            timestamp: self.timestamp.clone(),
            detail: self.detail.copy(),
        }
    }
}

/// A copy of an optional text.
pub fn copy_opt(o: &Option<String>) -> (r: Option<String>)
    ensures
        opt_view(r) == opt_view(*o),
{
    match o {
        Some(s) => Some(s.clone()),
        None => None,
    }
}

/// A copy of a transcript.
pub fn copy_entries(v: &Vec<TranscriptEntry>) -> (r: Vec<TranscriptEntry>)
    ensures
        entries_view(r@) == entries_view(v@),
{
    let mut r: Vec<TranscriptEntry> = Vec::new();
    let mut i: usize = 0;
    while i < v.len()
        invariant
            i <= v@.len(),
            r@.len() == i,
            forall|j: int| 0 <= j < i ==> (#[trigger] r@[j])@ == v@[j]@,
        decreases v@.len() - i,
    {
        r.push(v[i].copy());
        i = i + 1;
    }
    proof { assert(entries_view(r@) =~= entries_view(v@)); }
    r
}

/// The final snapshot of a session, written once per terminal event.
pub struct SessionRecord {
    pub instance_id: String,
    pub status: SessionStatus,
    pub started_at: String,
    pub completed_at: String,
    pub conversation: Vec<TranscriptEntry>,
    pub model: Option<String>,
    pub specialist: Option<String>,
    pub system_prompt: Option<String>,
    /// The serialized tool list, as handed to the logger.
    pub tools: Option<String>,
}

} // verus!
