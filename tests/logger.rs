use codex_exec::event::{Event, EventMsg, SessionStatus};
use codex_exec::logger::{context_text_for, entry_for, RealtimeLogger};
use codex_exec::stamp::Stamp;
use codex_exec::transcript::{EntryDetail, Role};

fn stamp() -> Stamp {
    Stamp {
        rfc3339: "2025-01-02T03:04:05+00:00".to_string(),
        clock: "03:04:05".to_string(),
        date_time: "2025-01-02 03:04:05 UTC".to_string(),
    }
}

fn logger(system_prompt: Option<&str>) -> RealtimeLogger {
    RealtimeLogger::start(
        "inst-1".to_string(),
        "find the flag",
        Some("gpt-5".to_string()),
        Some("web".to_string()),
        system_prompt.map(|s| s.to_string()),
        Some("[]".to_string()),
        stamp(),
    )
}

fn clock() -> String {
    "03:04:05".to_string()
}

#[test]
fn header_holds_instance_system_and_user_lines() {
    let l = logger(Some("be careful"));
    assert_eq!(
        l.header(),
        "=== CODEX INSTANCE: inst-1 ===\nStarted: 2025-01-02 03:04:05 UTC\n\n\
         [03:04:05] SYSTEM: be careful\n\n[03:04:05] USER: find the flag\n\n"
    );
    let l = logger(None);
    assert_eq!(
        l.header(),
        "=== CODEX INSTANCE: inst-1 ===\nStarted: 2025-01-02 03:04:05 UTC\n\n[03:04:05] USER: find the flag\n\n"
    );
}

#[test]
fn initial_transcript_is_system_then_user() {
    let l = logger(Some("be careful"));
    assert_eq!(l.conversation_log.len(), 2);
    assert_eq!(l.conversation_log[0].role, Role::System);
    assert_eq!(l.conversation_log[0].content, "be careful");
    assert_eq!(l.conversation_log[1].role, Role::User);
    assert_eq!(l.conversation_log[1].content, "find the flag");
    assert_eq!(l.conversation_log[1].timestamp, "2025-01-02T03:04:05+00:00");
    assert_eq!(logger(None).conversation_log.len(), 1);
}

#[test]
fn failed_command_without_output_is_reported() {
    let msg = EventMsg::ExecCommandEnd { exit_code: 1, stdout: String::new(), stderr: String::new() };
    assert_eq!(
        context_text_for(&msg, &clock()),
        "[03:04:05] COMMAND RESULT ❌: Exit code 1\n(No output, but command failed with exit code 1)\n"
    );
}

#[test]
fn command_output_lines_follow_the_result() {
    let msg = EventMsg::ExecCommandEnd { exit_code: 0, stdout: "ok".to_string(), stderr: "warn".to_string() };
    assert_eq!(
        context_text_for(&msg, &clock()),
        "[03:04:05] COMMAND RESULT ✅: Exit code 0\nSTDOUT: ok\nSTDERR: warn\n"
    );
    let msg = EventMsg::ExecCommandEnd { exit_code: -2, stdout: String::new(), stderr: "boom".to_string() };
    assert_eq!(
        context_text_for(&msg, &clock()),
        "[03:04:05] COMMAND RESULT ❌: Exit code -2\nSTDERR: boom\n"
    );
    let e = entry_for(&msg, &"t".to_string()).unwrap();
    assert_eq!(e.content, "Command completed with exit code -2\nSTDERR: boom");
    assert!(matches!(e.detail, EntryDetail::ExecCommandEnd { exit_code: -2 }));
    assert_eq!(e.detail.event_type(), Some("exec_command_end"));
}

#[test]
fn command_begin_renders_the_argument_list() {
    let msg = EventMsg::ExecCommandBegin { command: vec!["ls".to_string(), "-la".to_string()] };
    assert_eq!(context_text_for(&msg, &clock()), "[03:04:05] EXECUTING: [\"ls\", \"-la\"]\n");
    let e = entry_for(&msg, &"t".to_string()).unwrap();
    assert_eq!(e.content, "Executing command: [\"ls\", \"-la\"]");
    assert_eq!(e.role, Role::System);
}

#[test]
fn tool_calls_and_token_counts() {
    let begin = EventMsg::McpToolCallBegin { tool: "search".to_string(), call_id: "c1".to_string() };
    assert_eq!(context_text_for(&begin, &clock()), "[03:04:05] TOOL CALL: search (c1)\n");
    assert_eq!(entry_for(&begin, &"t".to_string()).unwrap().content, "Tool call: search (c1)");
    let ok = EventMsg::McpToolCallEnd { call_id: "c1".to_string(), result: Ok("found".to_string()) };
    assert_eq!(context_text_for(&ok, &clock()), "[03:04:05] TOOL RESULT ✅: c1\nOUTPUT: found\n");
    let err = EventMsg::McpToolCallEnd { call_id: "c1".to_string(), result: Err("\"bad\"".to_string()) };
    assert_eq!(context_text_for(&err, &clock()), "[03:04:05] TOOL RESULT ❌: c1\nERROR: \"bad\"\n");
    let e = entry_for(&err, &"t".to_string()).unwrap();
    assert_eq!(e.content, "Tool call failed: \"bad\"");
    assert!(matches!(e.detail, EntryDetail::ToolCallEnd { success: false, .. }));
    let tokens = EventMsg::TokenCount {
        input_tokens: 120,
        output_tokens: 7,
        total_tokens: 127,
        rendered: "TokenCount(..)".to_string(),
    };
    assert_eq!(context_text_for(&tokens, &clock()), "[03:04:05] EVENT: TokenCount(..)\n");
    assert_eq!(
        entry_for(&tokens, &"t".to_string()).unwrap().content,
        "Token usage - Input: 120, Output: 7, Total: 127"
    );
}

#[test]
fn kinds_without_entries_only_write_lines() {
    let c = clock();
    assert_eq!(context_text_for(&EventMsg::TaskStarted, &c), "[03:04:05] 🚀 TASK STARTED\n");
    assert_eq!(context_text_for(&EventMsg::SessionConfigured, &c), "[03:04:05] ⚙️ SESSION CONFIGURED\n");
    assert_eq!(
        context_text_for(&EventMsg::ApplyPatchApprovalRequest { reason: None }, &c),
        "[03:04:05] 📝 PATCH APPROVAL REQUEST: No reason\n"
    );
    assert_eq!(
        context_text_for(&EventMsg::PatchApplyBegin { call_id: "p".to_string() }, &c),
        "[03:04:05] 📝 APPLYING PATCH: call_id=p\n"
    );
    let end = EventMsg::PatchApplyEnd {
        call_id: "p".to_string(),
        success: true,
        stdout: "done".to_string(),
        stderr: String::new(),
    };
    assert_eq!(context_text_for(&end, &c), "[03:04:05] PATCH RESULT ✅: call_id=p\nSTDOUT: done\n");
    assert_eq!(
        context_text_for(&EventMsg::BackgroundEvent { message: "bg".to_string() }, &c),
        "[03:04:05] 🔄 BACKGROUND: bg\n"
    );
    assert_eq!(context_text_for(&EventMsg::Other, &c), "");
    assert_eq!(context_text_for(&EventMsg::ShutdownComplete, &c), "");
    assert!(entry_for(&EventMsg::TaskStarted, &c).is_none());
    assert!(entry_for(&EventMsg::Other, &c).is_none());
}

#[test]
fn record_holds_mapped_events_in_arrival_order() {
    let mut l = logger(None);
    let s = stamp();
    let events = vec![
        EventMsg::TaskStarted,
        EventMsg::AgentReasoning { text: "think".to_string(), rendered: "r".to_string() },
        EventMsg::ExecCommandBegin { command: vec!["id".to_string()] },
        EventMsg::BackgroundEvent { message: "bg".to_string() },
        EventMsg::ExecCommandEnd { exit_code: 0, stdout: "uid=0".to_string(), stderr: String::new() },
        EventMsg::AgentMessage { message: "done".to_string() },
        EventMsg::Other,
    ];
    for e in &events {
        assert!(l.record_event(e, &s).finalize.is_none());
    }
    let fx = l.record_event(&EventMsg::TaskComplete { last_agent_message: Some("done".to_string()) }, &s);
    assert_eq!(fx.finalize, Some(SessionStatus::Completed));
    assert_eq!(fx.context, "[03:04:05] ✅ TASK COMPLETED\n");
    let rec = l.session_record(SessionStatus::Completed, &s);
    let contents: Vec<&str> = rec.conversation.iter().map(|e| e.content.as_str()).collect();
    assert_eq!(
        contents,
        vec![
            "find the flag",
            "Agent reasoning: think",
            "Executing command: [\"id\"]",
            "Command completed with exit code 0\nSTDOUT: uid=0",
            "done",
        ]
    );
    assert_eq!(rec.conversation[4].role, Role::Assistant);
    assert_eq!(rec.instance_id, "inst-1");
    assert_eq!(rec.model.as_deref(), Some("gpt-5"));
    assert_eq!(rec.specialist.as_deref(), Some("web"));
    assert_eq!(rec.tools.as_deref(), Some("[]"));
    assert_eq!(rec.started_at, "2025-01-02T03:04:05+00:00");
}

#[test]
fn duplicate_terminal_events_give_the_same_record() {
    let mut l = logger(None);
    let s = stamp();
    l.record_event(&EventMsg::AgentMessage { message: "hi".to_string() }, &s);
    let first = l.record_event(&EventMsg::Error { message: "interrupted".to_string() }, &s);
    assert_eq!(first.finalize, Some(SessionStatus::Error));
    assert_eq!(first.context, "[03:04:05] ❌ ERROR: interrupted\n");
    let r1 = l.session_record(SessionStatus::Error, &s);
    let second = l.record_event(&EventMsg::TaskComplete { last_agent_message: None }, &s);
    assert_eq!(second.finalize, Some(SessionStatus::Completed));
    let r2 = l.session_record(SessionStatus::Completed, &s);
    assert_eq!(r1.conversation.len(), 2);
    assert_eq!(r2.conversation.len(), 2);
    assert_eq!(r2.conversation[1].content, "hi");
    assert_eq!(r2.status, SessionStatus::Completed);
}

#[test]
fn log_event_stamps_with_the_clock() {
    let mut l = RealtimeLogger::new("i".to_string(), "p", None, None, None, None);
    assert!(!l.started.rfc3339.is_empty());
    let fx = l.log_event(&Event { id: "1".to_string(), msg: EventMsg::AgentMessage { message: "m".to_string() } });
    assert_eq!(fx.context, format!("[{}] ASSISTANT: m\n", fx.stamp.clock));
    assert_eq!(fx.stamp.clock.len(), 8);
    assert_eq!(l.conversation_log.len(), 2);
    let rec = l.save_final_result(SessionStatus::Completed);
    assert_eq!(rec.conversation.len(), 2);
    assert!(!rec.completed_at.is_empty());
}
