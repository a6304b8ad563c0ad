//! The realtime logger: mirrors each event into the conversation transcript
//! and into the text appended to the human-readable context file, and builds
//! the session record that a terminal event finalizes.
use vstd::prelude::*;
use vstd::string::StringExecFns;
use crate::event::{closing_status, Event, EventMsg, SessionStatus};
use crate::stamp::Stamp;
use crate::text::{debug_list, debug_list_of, int_text, push_int};
use crate::transcript::{
    copy_entries, copy_opt, entries_view, opt_view, DetailView, EntryDetail, EntryView, Role,
    SessionRecord, TranscriptEntry,
};

verus! {

/// `[HH:MM:SS] `, the start of each timestamped context line.
pub open spec fn line_start(clock: Seq<char>) -> Seq<char> {
    "["@ + clock + "] "@
}

/// The success mark of a result line.
pub open spec fn mark(ok: bool) -> Seq<char> {
    if ok { "✅"@ } else { "❌"@ }
}

/// `STDOUT:` and `STDERR:` lines, each only when its stream is non-empty.
pub open spec fn output_lines(stdout: Seq<char>, stderr: Seq<char>) -> Seq<char> {
    (if stdout.len() > 0 { "STDOUT: "@ + stdout + "\n"@ } else { Seq::empty() })
        + (if stderr.len() > 0 { "STDERR: "@ + stderr + "\n"@ } else { Seq::empty() })
}

/// The line that reports a failed command which printed nothing.
pub open spec fn silent_failure_line(exit_code: i32) -> Seq<char> {
    "(No output, but command failed with exit code "@ + int_text(exit_code as int) + ")\n"@
}

/// The text an event appends to the context file, stamped with `clock`.
pub open spec fn context_text(msg: EventMsg, clock: Seq<char>) -> Seq<char> {
    let ls = line_start(clock);
    match msg {
        EventMsg::AgentMessage { message } => ls + "ASSISTANT: "@ + message@ + "\n"@,
        EventMsg::ExecCommandBegin { command } =>
            ls + "EXECUTING: "@ + debug_list_of(command.deep_view()) + "\n"@,
        EventMsg::ExecCommandEnd { exit_code, stdout, stderr } =>
            ls + "COMMAND RESULT "@ + mark(exit_code == 0) + ": Exit code "@
                + int_text(exit_code as int) + "\n"@ + output_lines(stdout@, stderr@)
                + (if stdout@.len() == 0 && stderr@.len() == 0 && exit_code != 0 {
                    silent_failure_line(exit_code)
                } else {
                    Seq::empty()
                }),
        EventMsg::McpToolCallBegin { tool, call_id } =>
            ls + "TOOL CALL: "@ + tool@ + " ("@ + call_id@ + ")\n"@,
        EventMsg::McpToolCallEnd { call_id, result } => match result {
            Ok(out) => ls + "TOOL RESULT "@ + mark(true) + ": "@ + call_id@ + "\nOUTPUT: "@ + out@ + "\n"@,
            Err(err) => ls + "TOOL RESULT "@ + mark(false) + ": "@ + call_id@ + "\nERROR: "@ + err@ + "\n"@,
        },
        EventMsg::TaskComplete { .. } => ls + "✅ TASK COMPLETED\n"@,
        EventMsg::Error { message } => ls + "❌ ERROR: "@ + message@ + "\n"@,
        EventMsg::TokenCount { rendered, .. } => ls + "EVENT: "@ + rendered@ + "\n"@,
        EventMsg::AgentReasoning { rendered, .. } => ls + "EVENT: "@ + rendered@ + "\n"@,
        EventMsg::TaskStarted => ls + "🚀 TASK STARTED\n"@,
        EventMsg::SessionConfigured => ls + "⚙️ SESSION CONFIGURED\n"@,
        EventMsg::ExecApprovalRequest { command } =>
            ls + "🔐 APPROVAL REQUEST: "@ + debug_list_of(command.deep_view()) + "\n"@,
        EventMsg::ApplyPatchApprovalRequest { reason } => ls + "📝 PATCH APPROVAL REQUEST: "@
            + (match reason { Some(r) => r@, None => "No reason"@ }) + "\n"@,
        EventMsg::PatchApplyBegin { call_id } => ls + "📝 APPLYING PATCH: call_id="@ + call_id@ + "\n"@,
        EventMsg::PatchApplyEnd { call_id, success, stdout, stderr } =>
            ls + "PATCH RESULT "@ + mark(success) + ": call_id="@ + call_id@ + "\n"@
                + output_lines(stdout@, stderr@),
        EventMsg::BackgroundEvent { message } => ls + "🔄 BACKGROUND: "@ + message@ + "\n"@,
        EventMsg::GetHistoryEntryResponse => ls + "📜 HISTORY ENTRY RESPONSE\n"@,
        EventMsg::ShutdownComplete => Seq::empty(),
        EventMsg::Other => Seq::empty(),
    }
}

/// The content of a command's end entry: exit code, then its non-empty outputs.
pub open spec fn exec_end_content(exit_code: i32, stdout: Seq<char>, stderr: Seq<char>) -> Seq<char> {
    "Command completed with exit code "@ + int_text(exit_code as int)
        + (if stdout.len() > 0 { "\nSTDOUT: "@ + stdout } else { Seq::empty() })
        + (if stderr.len() > 0 { "\nSTDERR: "@ + stderr } else { Seq::empty() })
}

/// Whether an event of this kind is mapped to a transcript entry.
pub open spec fn maps_to_entry(msg: EventMsg) -> bool {
    msg is AgentMessage || msg is AgentReasoning || msg is ExecCommandBegin || msg is ExecCommandEnd
        || msg is McpToolCallBegin || msg is McpToolCallEnd || msg is TokenCount
}

/// The transcript entry an event is mapped to, stamped with `ts`.
pub open spec fn entry_of(msg: EventMsg, ts: Seq<char>) -> Option<EntryView> {
    match msg {
        EventMsg::AgentMessage { message } =>
            Some(EntryView { role: Role::Assistant, content: message@, timestamp: ts, detail: DetailView::Plain }),
        EventMsg::ExecCommandBegin { command } => Some(EntryView {
            role: Role::System,
            content: "Executing command: "@ + debug_list_of(command.deep_view()),
            timestamp: ts,
            detail: DetailView::ExecCommandBegin,
        }),
        EventMsg::ExecCommandEnd { exit_code, stdout, stderr } => Some(EntryView {
            role: Role::System,
            content: exec_end_content(exit_code, stdout@, stderr@),
            timestamp: ts,
            detail: DetailView::ExecCommandEnd { exit_code },
        }),
        EventMsg::McpToolCallBegin { tool, call_id } => Some(EntryView {
            role: Role::System,
            content: "Tool call: "@ + tool@ + " ("@ + call_id@ + ")"@,
            timestamp: ts,
            detail: DetailView::ToolCallBegin { tool_name: tool@, call_id: call_id@ },
        }),
        EventMsg::McpToolCallEnd { call_id, result } => Some(EntryView {
            role: Role::System,
            content: match result {
                Ok(out) => "Tool call completed: "@ + out@,
                Err(err) => "Tool call failed: "@ + err@,
            },
            timestamp: ts,
            detail: DetailView::ToolCallEnd { call_id: call_id@, success: result is Ok },
        }),
        EventMsg::TokenCount { input_tokens, output_tokens, total_tokens, .. } => Some(EntryView {
            role: Role::System,
            content: "Token usage - Input: "@ + int_text(input_tokens as int) + ", Output: "@
                + int_text(output_tokens as int) + ", Total: "@ + int_text(total_tokens as int),
            timestamp: ts,
            detail: DetailView::TokenCount { input_tokens, output_tokens, total_tokens },
        }),
        EventMsg::AgentReasoning { text, .. } => Some(EntryView {
            role: Role::System,
            content: "Agent reasoning: "@ + text@,
            timestamp: ts,
            detail: DetailView::AgentReasoning,
        }),
        _ => None,
    }
}

fn push_line_start(s: &mut String, clock: &String)
    ensures
        final(s)@ == old(s)@ + line_start(clock@),
{
    s.append("[");
    s.append(clock.as_str());
    s.append("] ");
    proof { assert(final(s)@ =~= old(s)@ + line_start(clock@)); }
}

fn push_mark(s: &mut String, ok: bool)
    ensures
        final(s)@ == old(s)@ + mark(ok),
{
    if ok {
        s.append("✅");
    } else {
        s.append("❌");
    }
}

fn push_output_lines(s: &mut String, stdout: &String, stderr: &String)
    ensures
        final(s)@ == old(s)@ + output_lines(stdout@, stderr@),
{
    let ghost s0 = s@;
    if !stdout.as_str().is_empty() {
        s.append("STDOUT: ");
        s.append(stdout.as_str());
        s.append("\n");
    }
    let ghost s1 = s@;
    assert(s1 =~= s0 + (if stdout@.len() > 0 { "STDOUT: "@ + stdout@ + "\n"@ } else { Seq::empty() }));
    if !stderr.as_str().is_empty() {
        s.append("STDERR: ");
        s.append(stderr.as_str());
        s.append("\n");
    }
    assert(s@ =~= s1 + (if stderr@.len() > 0 { "STDERR: "@ + stderr@ + "\n"@ } else { Seq::empty() }));
    proof { assert(s@ =~= s0 + output_lines(stdout@, stderr@)); }
}

/// The text an event appends to the context file.
pub fn context_text_for(msg: &EventMsg, clock: &String) -> (r: String)
    ensures
        r@ == context_text(*msg, clock@),
{
    let mut s = String::new();
    match msg {
        EventMsg::ShutdownComplete | EventMsg::Other => {
            proof { assert(s@ =~= context_text(*msg, clock@)); }
            return s;
        },
        _ => {},
    }
    push_line_start(&mut s, clock);
    let ghost s0 = s@;
    match msg {
        EventMsg::AgentMessage { message } => {
            s.append("ASSISTANT: ");
            s.append(message.as_str());
            s.append("\n");
        },
        EventMsg::ExecCommandBegin { command } => {
            s.append("EXECUTING: ");
            let d = debug_list(command);
            s.append(d.as_str());
            s.append("\n");
        },
        EventMsg::ExecCommandEnd { exit_code, stdout, stderr } => {
            s.append("COMMAND RESULT ");
            push_mark(&mut s, *exit_code == 0);
            s.append(": Exit code ");
            push_int(&mut s, *exit_code as i64);
            s.append("\n");
            let ghost s1 = s@;
            push_output_lines(&mut s, stdout, stderr);
            let ghost s2 = s@;
            if stdout.as_str().is_empty() && stderr.as_str().is_empty() && *exit_code != 0 {
                s.append("(No output, but command failed with exit code ");
                push_int(&mut s, *exit_code as i64);
                s.append(")\n");
            }
            assert(s@ =~= s2 + (if stdout@.len() == 0 && stderr@.len() == 0 && *exit_code != 0 {
                silent_failure_line(*exit_code)
            } else {
                Seq::empty()
            }));
        },
        EventMsg::McpToolCallBegin { tool, call_id } => {
            s.append("TOOL CALL: ");
            s.append(tool.as_str());
            s.append(" (");
            s.append(call_id.as_str());
            s.append(")\n");
        },
        EventMsg::McpToolCallEnd { call_id, result } => {
            s.append("TOOL RESULT ");
            match result {
                Ok(out) => {
                    push_mark(&mut s, true);
                    s.append(": ");
                    s.append(call_id.as_str());
                    s.append("\nOUTPUT: ");
                    s.append(out.as_str());
                    s.append("\n");
                },
                Err(err) => {
                    push_mark(&mut s, false);
                    s.append(": ");
                    s.append(call_id.as_str());
                    s.append("\nERROR: ");
                    s.append(err.as_str());
                    s.append("\n");
                },
            }
        },
        EventMsg::TaskComplete { .. } => {
            s.append("✅ TASK COMPLETED\n");
        },
        EventMsg::Error { message } => {
            s.append("❌ ERROR: ");
            s.append(message.as_str());
            s.append("\n");
        },
        EventMsg::TokenCount { rendered, .. } => {
            s.append("EVENT: ");
            s.append(rendered.as_str());
            s.append("\n");
        },
        EventMsg::AgentReasoning { rendered, .. } => {
            s.append("EVENT: ");
            s.append(rendered.as_str());
            s.append("\n");
        },
        EventMsg::TaskStarted => {
            s.append("🚀 TASK STARTED\n");
        },
        EventMsg::SessionConfigured => {
            s.append("⚙️ SESSION CONFIGURED\n");
        },
        EventMsg::ExecApprovalRequest { command } => {
            s.append("🔐 APPROVAL REQUEST: ");
            let d = debug_list(command);
            s.append(d.as_str());
            s.append("\n");
        },
        EventMsg::ApplyPatchApprovalRequest { reason } => {
            s.append("📝 PATCH APPROVAL REQUEST: ");
            match reason {
                Some(r) => s.append(r.as_str()),
                None => s.append("No reason"),
            }
            s.append("\n");
        },
        EventMsg::PatchApplyBegin { call_id } => {
            s.append("📝 APPLYING PATCH: call_id=");
            s.append(call_id.as_str());
            s.append("\n");
        },
        EventMsg::PatchApplyEnd { call_id, success, stdout, stderr } => {
            s.append("PATCH RESULT ");
            push_mark(&mut s, *success);
            s.append(": call_id=");
            s.append(call_id.as_str());
            s.append("\n");
            push_output_lines(&mut s, stdout, stderr);
        },
        EventMsg::BackgroundEvent { message } => {
            s.append("🔄 BACKGROUND: ");
            s.append(message.as_str());
            s.append("\n");
        },
        EventMsg::GetHistoryEntryResponse => {
            s.append("📜 HISTORY ENTRY RESPONSE\n");
        },
        EventMsg::ShutdownComplete | EventMsg::Other => {},
    }
    proof { assert(s@ =~= context_text(*msg, clock@)); }
    s
}


fn exec_end_content_for(exit_code: i32, stdout: &String, stderr: &String) -> (r: String)
    ensures
        r@ == exec_end_content(exit_code, stdout@, stderr@),
{
    let mut s = String::new();
    s.append("Command completed with exit code ");
    push_int(&mut s, exit_code as i64);
    let ghost s0 = s@;
    if !stdout.as_str().is_empty() {
        s.append("\nSTDOUT: ");
        s.append(stdout.as_str());
    }
    let ghost s1 = s@;
    assert(s1 =~= s0 + (if stdout@.len() > 0 { "\nSTDOUT: "@ + stdout@ } else { Seq::empty() }));
    if !stderr.as_str().is_empty() {
        s.append("\nSTDERR: ");
        s.append(stderr.as_str());
    }
    assert(s@ =~= s1 + (if stderr@.len() > 0 { "\nSTDERR: "@ + stderr@ } else { Seq::empty() }));
    proof { assert(s@ =~= exec_end_content(exit_code, stdout@, stderr@)); }
    s
}

fn system_entry(content: String, ts: &String, detail: EntryDetail) -> (r: TranscriptEntry)
    ensures
        r@ == (EntryView { role: Role::System, content: content@, timestamp: ts@, detail: detail@ }),
{
    TranscriptEntry { role: Role::System, content, timestamp: ts.clone(), detail }
}

/// The transcript entry an event is mapped to, if any.
pub fn entry_for(msg: &EventMsg, ts: &String) -> (r: Option<TranscriptEntry>)
    ensures
        match r {
            Some(e) => entry_of(*msg, ts@) == Some(e@),
            None => entry_of(*msg, ts@) is None,
        },
{
    match msg {
        EventMsg::AgentMessage { message } => Some(TranscriptEntry {
            role: Role::Assistant,
            content: message.clone(),
            timestamp: ts.clone(),
            detail: EntryDetail::Plain,
        }),
        EventMsg::ExecCommandBegin { command } => {
            let mut s = String::new();
            s.append("Executing command: ");
            let d = debug_list(command);
            s.append(d.as_str());
            proof { assert(s@ =~= "Executing command: "@ + debug_list_of(command.deep_view())); }
            Some(system_entry(s, ts, EntryDetail::ExecCommandBegin))
        },
        EventMsg::ExecCommandEnd { exit_code, stdout, stderr } => {
            let s = exec_end_content_for(*exit_code, stdout, stderr);
            Some(system_entry(s, ts, EntryDetail::ExecCommandEnd { exit_code: *exit_code }))
        },
        EventMsg::McpToolCallBegin { tool, call_id } => {
            let mut s = String::new();
            s.append("Tool call: ");
            s.append(tool.as_str());
            s.append(" (");
            s.append(call_id.as_str());
            s.append(")");
            proof { assert(s@ =~= "Tool call: "@ + tool@ + " ("@ + call_id@ + ")"@); }
            let detail = EntryDetail::ToolCallBegin { tool_name: tool.clone(), call_id: call_id.clone() };
            Some(system_entry(s, ts, detail))
        },
        EventMsg::McpToolCallEnd { call_id, result } => {
            let mut s = String::new();
            let success = match result {
                Ok(out) => {
                    s.append("Tool call completed: ");
                    s.append(out.as_str());
                    proof { assert(s@ =~= "Tool call completed: "@ + out@); }
                    true
                },
                Err(err) => {
                    s.append("Tool call failed: ");
                    s.append(err.as_str());
                    proof { assert(s@ =~= "Tool call failed: "@ + err@); }
                    false
                },
            };
            let detail = EntryDetail::ToolCallEnd { call_id: call_id.clone(), success };
            Some(system_entry(s, ts, detail))
        },
        EventMsg::TokenCount { input_tokens, output_tokens, total_tokens, .. } => {
            let mut s = String::new();
            s.append("Token usage - Input: ");
            crate::text::push_nat(&mut s, *input_tokens);
            s.append(", Output: ");
            crate::text::push_nat(&mut s, *output_tokens);
            s.append(", Total: ");
            crate::text::push_nat(&mut s, *total_tokens);
            proof {
                assert(s@ =~= "Token usage - Input: "@ + int_text(*input_tokens as int) + ", Output: "@
                    + int_text(*output_tokens as int) + ", Total: "@ + int_text(*total_tokens as int));
            }
            let detail = EntryDetail::TokenCount {
                input_tokens: *input_tokens,
                output_tokens: *output_tokens,
                total_tokens: *total_tokens,
            };
            Some(system_entry(s, ts, detail))
        },
        EventMsg::AgentReasoning { text, .. } => {
            let mut s = String::new();
            s.append("Agent reasoning: ");
            s.append(text.as_str());
            proof { assert(s@ =~= "Agent reasoning: "@ + text@); }
            Some(system_entry(s, ts, EntryDetail::AgentReasoning))
        },
        _ => None,
    }
}

/// The transcript a logger starts with: the system prompt, if any, then the user's prompt.
pub open spec fn initial_entries(system_prompt: Option<Seq<char>>, prompt: Seq<char>, ts: Seq<char>) -> Seq<EntryView> {
    let user = EntryView { role: Role::User, content: prompt, timestamp: ts, detail: DetailView::Plain };
    match system_prompt {
        Some(sp) => seq![EntryView { role: Role::System, content: sp, timestamp: ts, detail: DetailView::Plain }, user],
        None => seq![user],
    }
}

/// The transcript after logging one event stamped `ts`.
pub open spec fn logged(entries: Seq<EntryView>, msg: EventMsg, ts: Seq<char>) -> Seq<EntryView> {
    match entry_of(msg, ts) {
        Some(e) => entries.push(e),
        None => entries,
    }
}

/// The header written at the top of the context file.
pub open spec fn header_text(
    instance_id: Seq<char>,
    date_time: Seq<char>,
    clock: Seq<char>,
    system_prompt: Option<Seq<char>>,
    prompt: Seq<char>,
) -> Seq<char> {
    "=== CODEX INSTANCE: "@ + instance_id + " ===\nStarted: "@ + date_time + "\n\n"@
        + (match system_prompt {
            Some(sp) => "["@ + clock + "] SYSTEM: "@ + sp + "\n\n"@,
            None => Seq::empty(),
        })
        + "["@ + clock + "] USER: "@ + prompt + "\n\n"@
}

/// Mirrors the events of one run into a transcript and a context text.
///
/// File output is the caller's: `header`, then the `context` of each
/// `LogEffects`, go to the context file in order, and each `finalize` asks for
/// the session record to be written.
pub struct RealtimeLogger {
    pub instance_id: String,
    pub initial_prompt: String,
    pub model: Option<String>,
    pub specialist: Option<String>,
    pub system_prompt: Option<String>,
    /// The serialized tool list, carried into the session record.
    pub tools: Option<String>,
    pub started: Stamp,
    pub conversation_log: Vec<TranscriptEntry>,
}

/// What logging one event asks of the caller.
pub struct LogEffects {
    /// The text to append to the context file (empty for an unhandled kind).
    pub context: String,
    /// The status of the session record to write now, if the event closes one.
    pub finalize: Option<SessionStatus>,
    /// The clock reading the event was stamped with.
    pub stamp: Stamp,
}

impl RealtimeLogger {
    /// The transcript, as entries.
    pub open spec fn transcript(&self) -> Seq<EntryView> {
        entries_view(self.conversation_log@)
    }

    /// The transcript this logger started with.
    pub open spec fn initial(&self) -> Seq<EntryView> {
        initial_entries(opt_view(self.system_prompt), self.initial_prompt@, self.started.rfc3339@)
    }

    /// The transcript begins with the initial entries; later entries only follow them.
    pub open spec fn wf(&self) -> bool {
        &&& self.transcript().len() >= self.initial().len()
        &&& self.transcript().subrange(0, self.initial().len() as int) == self.initial()
    }

    /// Whether only the transcript differs between two states of a logger.
    pub open spec fn same_setup(&self, other: &RealtimeLogger) -> bool {
        &&& self.instance_id@ == other.instance_id@
        &&& self.initial_prompt@ == other.initial_prompt@
        &&& opt_view(self.model) == opt_view(other.model)
        &&& opt_view(self.specialist) == opt_view(other.specialist)
        &&& opt_view(self.system_prompt) == opt_view(other.system_prompt)
        &&& opt_view(self.tools) == opt_view(other.tools)
        &&& self.started@ == other.started@
    }

    /// A logger started at `started`, holding the initial transcript.
    pub fn start(
        instance_id: String,
        initial_prompt: &str,
        model: Option<String>,
        specialist: Option<String>,
        system_prompt: Option<String>,
        tools: Option<String>,
        started: Stamp,
    ) -> (r: RealtimeLogger)
        ensures
            r.wf(),
            r.instance_id@ == instance_id@,
            r.initial_prompt@ == initial_prompt@,
            opt_view(r.model) == opt_view(model),
            opt_view(r.specialist) == opt_view(specialist),
            opt_view(r.system_prompt) == opt_view(system_prompt),
            opt_view(r.tools) == opt_view(tools),
            r.started@ == started@,
            r.transcript() == initial_entries(opt_view(system_prompt), initial_prompt@, started.rfc3339@),
    {
        let mut conversation_log: Vec<TranscriptEntry> = Vec::new();
        match &system_prompt {
            Some(sp) => {
                conversation_log.push(TranscriptEntry {
                    role: Role::System,
                    content: sp.clone(),
                    timestamp: started.rfc3339.clone(),
                    detail: EntryDetail::Plain,
                });
            },
            None => {},
        }
        conversation_log.push(TranscriptEntry {
            role: Role::User,
            content: initial_prompt.to_string(),
            timestamp: started.rfc3339.clone(),
            detail: EntryDetail::Plain,
        });
        let r = RealtimeLogger {
            instance_id,
            initial_prompt: initial_prompt.to_string(),
            model,
            specialist,
            system_prompt,
            tools,
            started,
            conversation_log,
        };
        proof {
            assert(r.transcript() =~= r.initial());
            assert(r.transcript().subrange(0, r.initial().len() as int) =~= r.initial());
        }
        r
    }

    /// A logger started now, holding the initial transcript.
    pub fn new(
        instance_id: String,
        initial_prompt: &str,
        model: Option<String>,
        specialist: Option<String>,
        system_prompt: Option<String>,
        tools: Option<String>,
    ) -> (r: RealtimeLogger)
        ensures
            r.wf(),
            r.instance_id@ == instance_id@,
            r.initial_prompt@ == initial_prompt@,
            opt_view(r.model) == opt_view(model),
            opt_view(r.specialist) == opt_view(specialist),
            opt_view(r.system_prompt) == opt_view(system_prompt),
            opt_view(r.tools) == opt_view(tools),
            r.transcript() == initial_entries(opt_view(system_prompt), initial_prompt@, r.started.rfc3339@),
    {
        let started = Stamp::now();
        RealtimeLogger::start(instance_id, initial_prompt, model, specialist, system_prompt, tools, started)
    }

    /// The header of the context file, written before any event.
    pub fn header(&self) -> (r: String)
        ensures
            r@ == header_text(
                self.instance_id@,
                self.started.date_time@,
                self.started.clock@,
                opt_view(self.system_prompt),
                self.initial_prompt@,
            ),
    {
        let mut s = String::new();
        s.append("=== CODEX INSTANCE: ");
        s.append(self.instance_id.as_str());
        s.append(" ===\nStarted: ");
        s.append(self.started.date_time.as_str());
        s.append("\n\n");
        let ghost s0 = s@;
        match &self.system_prompt {
            Some(sp) => {
                s.append("[");
                s.append(self.started.clock.as_str());
                s.append("] SYSTEM: ");
                s.append(sp.as_str());
                s.append("\n\n");
            },
            None => {},
        }
        let ghost s1 = s@;
        assert(s1 =~= s0 + (match opt_view(self.system_prompt) {
            Some(sp) => "["@ + self.started.clock@ + "] SYSTEM: "@ + sp + "\n\n"@,
            None => Seq::empty(),
        }));
        s.append("[");
        s.append(self.started.clock.as_str());
        s.append("] USER: ");
        s.append(self.initial_prompt.as_str());
        s.append("\n\n");
        proof {
            assert(s@ =~= header_text(
                self.instance_id@,
                self.started.date_time@,
                self.started.clock@,
                opt_view(self.system_prompt),
                self.initial_prompt@,
            ));
        }
        s
    }

    /// Logs one event stamped `stamp`: extends the transcript by the event's
    /// entry, if its kind has one, and returns its context text and whether
    /// it closes the session.
    pub fn record_event(&mut self, msg: &EventMsg, stamp: &Stamp) -> (r: LogEffects)
        requires
            old(self).wf(),
        ensures
            final(self).wf(),
            final(self).same_setup(old(self)),
            final(self).transcript() == logged(old(self).transcript(), *msg, stamp.rfc3339@),
            r.context@ == context_text(*msg, stamp.clock@),
            r.finalize == closing_status(*msg),
            r.stamp@ == stamp@,
    {
        let context = context_text_for(msg, &stamp.clock);
        let entry = entry_for(msg, &stamp.rfc3339);
        let ghost before = self.transcript();
        match entry {
            Some(e) => {
                self.conversation_log.push(e);
                proof { assert(self.transcript() =~= before.push(e@)); }
            },
            None => {},
        }
        proof {
            let n = self.initial().len() as int;
            assert(self.transcript().subrange(0, n) =~= before.subrange(0, n));
        }
        LogEffects { context, finalize: msg.closing_status(), stamp: stamp.copy() }
    }

    /// Logs one event at the current time (see `record_event`).
    pub fn log_event(&mut self, event: &Event) -> (r: LogEffects)
        requires
            old(self).wf(),
        ensures
            final(self).wf(),
            final(self).same_setup(old(self)),
            final(self).transcript() == logged(old(self).transcript(), event.msg, r.stamp.rfc3339@),
            r.context@ == context_text(event.msg, r.stamp.clock@),
            r.finalize == closing_status(event.msg),
    {
        let stamp = Stamp::now();
        self.record_event(&event.msg, &stamp)
    }

    /// The session record with `status`, completed at `completed`: the whole
    /// transcript as it stands, with the logger's setup.
    pub fn session_record(&self, status: SessionStatus, completed: &Stamp) -> (r: SessionRecord)
        ensures
            r.instance_id@ == self.instance_id@,
            r.status == status,
            r.started_at@ == self.started.rfc3339@,
            r.completed_at@ == completed.rfc3339@,
            entries_view(r.conversation@) == self.transcript(),
            opt_view(r.model) == opt_view(self.model),
            opt_view(r.specialist) == opt_view(self.specialist),
            opt_view(r.system_prompt) == opt_view(self.system_prompt),
            opt_view(r.tools) == opt_view(self.tools),
    {
        SessionRecord {
            instance_id: self.instance_id.clone(),
            status,
            started_at: self.started.rfc3339.clone(),
            completed_at: completed.rfc3339.clone(),
            conversation: copy_entries(&self.conversation_log),
            model: copy_opt(&self.model),
            specialist: copy_opt(&self.specialist),
            system_prompt: copy_opt(&self.system_prompt),
            tools: copy_opt(&self.tools),
        }
    }

    /// The session record with `status`, completed now (see `session_record`).
    pub fn save_final_result(&self, status: SessionStatus) -> (r: SessionRecord)
        ensures
            r.instance_id@ == self.instance_id@,
            r.status == status,
            r.started_at@ == self.started.rfc3339@,
            entries_view(r.conversation@) == self.transcript(),
            opt_view(r.model) == opt_view(self.model),
            opt_view(r.specialist) == opt_view(self.specialist),
            opt_view(r.system_prompt) == opt_view(self.system_prompt),
            opt_view(r.tools) == opt_view(self.tools),
    {
        let completed = Stamp::now();
        self.session_record(status, &completed)
    }
}

/// The transcript after logging a run of events, each with its own stamp.
pub open spec fn logged_all(entries: Seq<EntryView>, msgs: Seq<EventMsg>, stamps: Seq<Seq<char>>) -> Seq<EntryView>
    decreases msgs.len(),
{
    if msgs.len() == 0 {
        entries
    } else {
        logged(logged_all(entries, msgs.drop_last(), stamps), msgs.last(), stamps[msgs.len() - 1])
    }
}

/// How many events of a run are of a kind mapped to a transcript entry.
pub open spec fn count_mapped(msgs: Seq<EventMsg>) -> nat
    decreases msgs.len(),
{
    if msgs.len() == 0 {
        0
    } else {
        count_mapped(msgs.drop_last()) + if maps_to_entry(msgs.last()) { 1nat } else { 0nat }
    }
}

/// An event has an entry exactly when its kind is mapped to one.
pub proof fn lemma_entry_iff_mapped(msg: EventMsg, ts: Seq<char>)
    ensures
        entry_of(msg, ts) is Some <==> maps_to_entry(msg),
{
}

/// The transcript holds the events mapped to an entry, in arrival order:
/// after logging a run of events, it is what it was followed by exactly
/// `count_mapped(msgs)` entries, and the `k`-th mapped event's entry stands at
/// its place among them.
pub proof fn lemma_transcript_is_mapped_events(entries: Seq<EntryView>, msgs: Seq<EventMsg>, stamps: Seq<Seq<char>>)
    requires
        msgs.len() == stamps.len(),
    ensures
        logged_all(entries, msgs, stamps).len() == entries.len() + count_mapped(msgs),
        logged_all(entries, msgs, stamps).subrange(0, entries.len() as int) == entries,
        forall|i: int| 0 <= i < msgs.len() && maps_to_entry(#[trigger] msgs[i]) ==>
            entries.len() + count_mapped(msgs.take(i)) < logged_all(entries, msgs, stamps).len()
            && Some(logged_all(entries, msgs, stamps)[(entries.len() + count_mapped(msgs.take(i))) as int])
                == entry_of(msgs[i], stamps[i]),
    decreases msgs.len(),
{
    if msgs.len() > 0 {
        let n = msgs.len() - 1;
        let init = msgs.drop_last();
        let st = stamps.drop_last();
        lemma_transcript_is_mapped_events(entries, init, st);
        lemma_logged_all_stamps(entries, init, stamps, st);
        let prev = logged_all(entries, init, stamps);
        lemma_entry_iff_mapped(msgs.last(), stamps[n]);
        assert(msgs.take(n) =~= init);
        assert forall|i: int| 0 <= i < msgs.len() && maps_to_entry(#[trigger] msgs[i]) implies
            entries.len() + count_mapped(msgs.take(i)) < logged_all(entries, msgs, stamps).len()
            && Some(logged_all(entries, msgs, stamps)[(entries.len() + count_mapped(msgs.take(i))) as int])
                == entry_of(msgs[i], stamps[i]) by {
            if i < n {
                assert(init[i] == msgs[i]);
                assert(init.take(i) =~= msgs.take(i));
                assert(st[i] == stamps[i]);
            }
        }
        assert(logged_all(entries, msgs, stamps).subrange(0, entries.len() as int)
            =~= prev.subrange(0, entries.len() as int));
    }
}

/// `logged_all` reads only the stamps of the events it is given.
proof fn lemma_logged_all_stamps(entries: Seq<EntryView>, msgs: Seq<EventMsg>, s1: Seq<Seq<char>>, s2: Seq<Seq<char>>)
    requires
        msgs.len() <= s1.len(),
        msgs.len() <= s2.len(),
        forall|i: int| 0 <= i < msgs.len() ==> s1[i] == s2[i],
    ensures
        logged_all(entries, msgs, s1) == logged_all(entries, msgs, s2),
    decreases msgs.len(),
{
    if msgs.len() > 0 {
        lemma_logged_all_stamps(entries, msgs.drop_last(), s1, s2);
    }
}

/// A duplicate terminal event cannot corrupt the record: an event that
/// closes a record adds nothing to the transcript, so finalizing again
/// builds the record from the same transcript.
pub proof fn lemma_closing_event_keeps_transcript(entries: Seq<EntryView>, msg: EventMsg, ts: Seq<char>)
    requires
        closing_status(msg) is Some,
    ensures
        logged(entries, msg, ts) == entries,
{
}

/// A command that fails without printing anything is still reported: its
/// context text ends with the line saying it failed with no output.
pub proof fn lemma_silent_failure_reported(msg: EventMsg, clock: Seq<char>)
    requires
        msg is ExecCommandEnd,
        msg->ExecCommandEnd_exit_code != 0,
        msg->ExecCommandEnd_stdout@.len() == 0,
        msg->ExecCommandEnd_stderr@.len() == 0,
    ensures
        ({
            let t = context_text(msg, clock);
            let line = silent_failure_line(msg->ExecCommandEnd_exit_code);
            t.len() >= line.len() && t.subrange(t.len() - line.len(), t.len() as int) == line
        }),
{
    let line = silent_failure_line(msg->ExecCommandEnd_exit_code);
    let t = context_text(msg, clock);
    assert(output_lines(msg->ExecCommandEnd_stdout@, msg->ExecCommandEnd_stderr@) =~= Seq::<char>::empty());
    assert(t.subrange(t.len() - line.len(), t.len() as int) =~= line);
}

} // verus!
