use codex_exec::followup::{
    observe_followup, poll_step, status_descriptor, FollowupDescriptor, PollStep, RunStatus,
    FOLLOWUP_TIMEOUT_MS, POLL_INTERVAL_MS,
};
use codex_exec::stamp::Stamp;

fn observe(text: &str, elapsed: u64) -> (bool, PollStep) {
    let o = observe_followup(&Some(text.to_string()), elapsed, FOLLOWUP_TIMEOUT_MS);
    (o.consume, o.step)
}

#[test]
fn message_continues_and_is_consumed() {
    let (consume, step) = observe("{\"message\":\"go deeper\"}", 0);
    assert!(consume);
    assert!(matches!(step, PollStep::Continue(ref m) if m == "go deeper"));
}

#[test]
fn terminate_flag_and_blank_message_terminate() {
    let (consume, step) = observe("{\"terminate\":true}", 0);
    assert!(consume);
    assert!(matches!(step, PollStep::Terminate));
    let (consume, step) = observe("{\"message\":\"\"}", 0);
    assert!(consume);
    assert!(matches!(step, PollStep::Terminate));
    let (_, step) = observe("{\"message\":\"  \\n \"}", 0);
    assert!(matches!(step, PollStep::Terminate));
}

#[test]
fn message_wins_over_terminate() {
    let (_, step) = observe("{\"message\":\"more\",\"terminate\":true}", 0);
    assert!(matches!(step, PollStep::Continue(ref m) if m == "more"));
}

#[test]
fn parsed_file_without_fields_is_consumed_and_waits() {
    let (consume, step) = observe("{}", 0);
    assert!(consume);
    assert!(matches!(step, PollStep::Wait));
    let (consume, step) = observe("{\"terminate\":false}", 10);
    assert!(consume);
    assert!(matches!(step, PollStep::Wait));
}

#[test]
fn malformed_file_is_left_and_waits() {
    let (consume, step) = observe("{\"message\":\"go", 0);
    assert!(!consume);
    assert!(matches!(step, PollStep::Wait));
}

#[test]
fn absent_file_times_out_after_the_bound_and_not_before() {
    let bound = 1500;
    let mut elapsed = 0;
    let mut polls = 0;
    loop {
        match observe_followup(&None, elapsed, bound).step {
            PollStep::Wait => {
                assert!(elapsed <= bound);
                elapsed += POLL_INTERVAL_MS;
                polls += 1;
            }
            PollStep::Terminate => break,
            PollStep::Continue(_) => panic!("no follow-up was written"),
        }
    }
    assert_eq!(elapsed, 2000);
    assert_eq!(polls, 4);
    assert!(matches!(poll_step(&None, 300000, FOLLOWUP_TIMEOUT_MS), PollStep::Wait));
    assert!(matches!(poll_step(&None, 300001, FOLLOWUP_TIMEOUT_MS), PollStep::Terminate));
}

#[test]
fn descriptor_parse_reads_typed_fields_only() {
    let d = FollowupDescriptor::parse("{\"message\":5,\"terminate\":\"yes\"}").unwrap();
    assert!(d.message.is_none());
    assert!(d.terminate.is_none());
    assert!(d.decision().is_none());
    assert!(FollowupDescriptor::parse("not json").is_none());
}

#[test]
fn status_descriptor_carries_its_fields() {
    let s = Stamp { rfc3339: "T".to_string(), clock: "c".to_string(), date_time: "d".to_string() };
    let st = status_descriptor(RunStatus::WaitingForFollowup, "inst", 3, &Some("m".to_string()), &s);
    assert_eq!(st.status, RunStatus::WaitingForFollowup);
    assert_eq!(st.instance_id, "inst");
    assert_eq!(st.last_message_index, 3);
    assert_eq!(st.timestamp, "T");
    assert_eq!(st.model.as_deref(), Some("m"));
}
