//! The supervisor follow-up handshake: the status the driver announces, and
//! the decision taken on each poll of the follow-up file.
use vstd::prelude::*;
use crate::stamp::Stamp;
use crate::transcript::{copy_opt, opt_view};

verus! {

/// How long to wait between two polls of the follow-up file.
pub const POLL_INTERVAL_MS: u64 = 500;

/// How long to wait for a follow-up before terminating.
pub const FOLLOWUP_TIMEOUT_MS: u64 = 300000;

/// What the parsed follow-up file says: its `message` when that is a string,
/// and its `terminate` when that is a boolean; `None` when the text is not JSON.
pub uninterp spec fn followup_fields(text: Seq<char>) -> Option<(Option<Seq<char>>, Option<bool>)>;

/// The text with leading and trailing white space removed.
pub uninterp spec fn trim_of(s: Seq<char>) -> Seq<char>;

/// A follow-up written by the supervisor.
pub struct FollowupDescriptor {
    pub message: Option<String>,
    pub terminate: Option<bool>,
}

impl View for FollowupDescriptor {
    type V = (Option<Seq<char>>, Option<bool>);

    open spec fn view(&self) -> (Option<Seq<char>>, Option<bool>) {
        (opt_view(self.message), self.terminate)
    }
}

/// What one poll of the follow-up file decides.
pub enum PollStep {
    /// Run another turn with this input.
    Continue(String),
    /// End the session.
    Terminate,
    /// Sleep for the poll interval and look again.
    Wait,
}

/// The mathematical form of a `PollStep`.
pub enum StepView {
    Continue(Seq<char>),
    Terminate,
    Wait,
}

impl View for PollStep {
    type V = StepView;

    open spec fn view(&self) -> StepView {
        match self {
            PollStep::Continue(m) => StepView::Continue(m@),
            PollStep::Terminate => StepView::Terminate,
            PollStep::Wait => StepView::Wait,
        }
    }
}

/// What a follow-up decides by itself: a message whose trimmed form is
/// non-empty continues with it; a blank message, or `terminate: true` without a
/// message, terminates; anything else decides nothing.
pub open spec fn descriptor_decision(d: (Option<Seq<char>>, Option<bool>)) -> Option<StepView> {
    match d.0 {
        Some(m) => if trim_of(m).len() == 0 {
            Some(StepView::Terminate)
        } else {
            Some(StepView::Continue(m))
        },
        None => if d.1 == Some(true) {
            Some(StepView::Terminate)
        } else {
            None
        },
    }
}

/// The decision of one poll, given the follow-up read (if one was read and
/// parsed), the time waited so far and the bound on the wait.
pub open spec fn poll_decision(found: Option<(Option<Seq<char>>, Option<bool>)>, elapsed_ms: u64, bound_ms: u64) -> StepView {
    let decided = match found {
        Some(d) => descriptor_decision(d),
        None => None,
    };
    match decided {
        Some(s) => s,
        None => if elapsed_ms > bound_ms { StepView::Terminate } else { StepView::Wait },
    }
}

/// Relies on serde_json's `from_str` into a `Value`, then `Value::get` with
/// `as_str` and `as_bool`: the fields read depend on the text alone.
#[verifier::external_body]
fn parse_followup_json(text: &str) -> (r: Option<FollowupDescriptor>)
    ensures
        match r {
            Some(d) => followup_fields(text@) == Some(d@),
            None => followup_fields(text@) is None,
        },
{
    match serde_json::from_str::<serde_json::Value>(text) {
        Ok(v) => Some(FollowupDescriptor {
            message: v.get("message").and_then(|m| m.as_str()).map(|m| m.to_string()),
            terminate: v.get("terminate").and_then(|t| t.as_bool()),
        }),
        Err(_) => None,
    }
}

/// Relies on std's `str::trim`: the result depends on the text alone.
#[verifier::external_body]
fn trim(s: &str) -> (r: &str)
    ensures
        r@ == trim_of(s@),
{
    s.trim()
}

impl FollowupDescriptor {
    /// Parses the follow-up file's text; `None` when it is not JSON.
    pub fn parse(text: &str) -> (r: Option<FollowupDescriptor>)
        ensures
            match r {
                Some(d) => followup_fields(text@) == Some(d@),
                None => followup_fields(text@) is None,
            },
    {
        parse_followup_json(text)
    }

    /// What this follow-up decides by itself (see `descriptor_decision`).
    pub fn decision(&self) -> (r: Option<PollStep>)
        ensures
            match r {
                Some(s) => descriptor_decision(self@) == Some(s@),
                None => descriptor_decision(self@) is None,
            },
    {
        match &self.message {
            Some(m) => {
                let t = trim(m.as_str());
                if t.is_empty() {
                    Some(PollStep::Terminate)
                } else {
                    Some(PollStep::Continue(m.clone()))
                }
            },
            None => match self.terminate {
                Some(true) => Some(PollStep::Terminate),
                _ => None,
            },
        }
    }
}

/// The decision of one poll (see `poll_decision`).
pub fn poll_step(found: &Option<FollowupDescriptor>, elapsed_ms: u64, bound_ms: u64) -> (r: PollStep)
    ensures
        r@ == poll_decision(
            match found {
                Some(d) => Some(d@),
                None => None,
            },
            elapsed_ms,
            bound_ms,
        ),
{
    let decided = match found {
        Some(d) => d.decision(),
        None => None,
    };
    match decided {
        Some(s) => s,
        None => if elapsed_ms > bound_ms {
            PollStep::Terminate
        } else {
            PollStep::Wait
        },
    }
}

/// One look at the follow-up file and what to do about it.
pub struct Observation {
    /// Whether the file was read and parsed, and so must be deleted now.
    pub consume: bool,
    pub step: PollStep,
}

/// Handles one poll: `content` is the follow-up file's text when the file
/// exists and could be read. A file that parses is consumed; a file that does
/// not is treated as not yet written.
pub fn observe_followup(content: &Option<String>, elapsed_ms: u64, bound_ms: u64) -> (r: Observation)
    ensures
        r.consume == (content is Some && followup_fields(content->0@) is Some),
        r.step@ == poll_decision(
            match content {
                Some(c) => followup_fields(c@),
                None => None,
            },
            elapsed_ms,
            bound_ms,
        ),
{
    let found = match content {
        Some(c) => FollowupDescriptor::parse(c.as_str()),
        None => None,
    };
    let consume = found.is_some();
    let step = poll_step(&found, elapsed_ms, bound_ms);
    Observation { consume, step }
}

/// What the driver is doing, as announced to the supervisor.
#[derive(Debug, Clone, Copy, PartialEq, Eq, Structural)]
pub enum RunStatus {
    Processing,
    WaitingForFollowup,
}

/// The status file's content; each write replaces the previous one.
pub struct StatusDescriptor {
    pub status: RunStatus,
    pub instance_id: String,
    pub last_message_index: u64,
    pub timestamp: String,
    pub model: Option<String>,
}

/// The status to announce.
pub fn status_descriptor(
    status: RunStatus,
    instance_id: &str,
    last_message_index: u64,
    model: &Option<String>,
    stamp: &Stamp,
) -> (r: StatusDescriptor)
    ensures
        r.status == status,
        r.instance_id@ == instance_id@,
        r.last_message_index == last_message_index,
        r.timestamp@ == stamp.rfc3339@,
        opt_view(r.model) == opt_view(*model),
{
    StatusDescriptor {
        status,
        instance_id: instance_id.to_string(),
        last_message_index,
        timestamp: stamp.rfc3339.clone(),
        model: copy_opt(model),
    }
}

/// The wait is bounded, and not cut short: while no follow-up has been read
/// (the file is absent or does not parse), a poll terminates exactly when
/// the time waited exceeds the bound, and otherwise waits.
pub proof fn lemma_timeout_exact(elapsed_ms: u64, bound_ms: u64)
    ensures
        poll_decision(None, elapsed_ms, bound_ms) == (if elapsed_ms > bound_ms {
            StepView::Terminate
        } else {
            StepView::Wait
        }),
{
}

/// The status to announce now (see `status_descriptor`).
pub fn announce(status: RunStatus, instance_id: &str, last_message_index: u64, model: &Option<String>) -> (r: StatusDescriptor)
    ensures
        r.status == status,
        r.instance_id@ == instance_id@,
        r.last_message_index == last_message_index,
        opt_view(r.model) == opt_view(*model),
{
    let stamp = Stamp::now();
    status_descriptor(status, instance_id, last_message_index, model, &stamp)
}

} // verus!
