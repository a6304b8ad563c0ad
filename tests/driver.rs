use codex_exec::driver::{handle_last_message, LastMessageAction, NextAction, TurnDriver};
use codex_exec::event::EventMsg;

fn agent(m: &str) -> EventMsg {
    EventMsg::AgentMessage { message: m.to_string() }
}

#[test]
fn single_turn_writes_the_last_message() {
    let mut d = TurnDriver::new(false);
    d.begin_turn();
    assert!(!d.on_event(&EventMsg::TaskStarted));
    assert!(!d.on_event(&agent("answer")));
    assert!(d.on_event(&EventMsg::TaskComplete { last_agent_message: Some("answer".to_string()) }));
    let end = d.finish_turn(true);
    assert!(!end.record_error);
    assert!(matches!(end.next, NextAction::Finish(LastMessageAction::Write(ref m)) if m == "answer"));
    assert_eq!(d.message_index, 1);
}

#[test]
fn interrupted_turn_still_leaves_a_record() {
    let mut d = TurnDriver::new(false);
    d.begin_turn();
    d.on_event(&agent("partial"));
    assert!(d.on_event(&EventMsg::Error { message: "Turn interrupted".to_string() }));
    let end = d.finish_turn(false);
    assert!(!end.record_error);
    assert!(matches!(end.next, NextAction::Finish(LastMessageAction::Nothing)));

    let mut d = TurnDriver::new(true);
    d.begin_turn();
    d.on_event(&EventMsg::TaskStarted);
    assert!(d.on_event(&EventMsg::ShutdownComplete));
    let end = d.finish_turn(false);
    assert!(end.record_error);
    assert!(matches!(end.next, NextAction::Stop));
}

#[test]
fn followup_mode_asks_the_supervisor_only_after_an_answer() {
    let mut d = TurnDriver::new(true);
    d.begin_turn();
    d.on_event(&agent("a"));
    d.on_event(&agent("b"));
    d.on_event(&EventMsg::TaskComplete { last_agent_message: Some("b".to_string()) });
    assert!(matches!(d.finish_turn(false).next, NextAction::AwaitFollowup));
    assert_eq!(d.message_index, 1);
    d.begin_turn();
    d.on_event(&EventMsg::TaskComplete { last_agent_message: None });
    assert!(matches!(d.finish_turn(false).next, NextAction::Stop));
    assert_eq!(d.message_index, 1);
}

#[test]
fn missing_last_message_warns() {
    assert!(matches!(handle_last_message(None, true), LastMessageAction::WarnMissing));
    assert!(matches!(handle_last_message(Some("x".to_string()), false), LastMessageAction::Nothing));
    assert!(matches!(handle_last_message(None, false), LastMessageAction::Nothing));
}
