//! The turn loop's decisions: what each event means for the current turn,
//! and what follows when a turn is over.
use vstd::prelude::*;
use crate::event::{closing_status, is_terminal, EventMsg};
use crate::transcript::{copy_opt, opt_view};

verus! {

/// What the turn loop does once a turn is over.
pub enum NextAction {
    /// Follow-up mode is off: hand the last agent message to the output file
    /// (if one was asked for) and stop.
    Finish(LastMessageAction),
    /// Ask the supervisor for the next turn's input.
    AwaitFollowup,
    /// Stop without consulting the supervisor.
    Stop,
}

/// What becomes of the last agent message when the run finishes.
pub enum LastMessageAction {
    /// Write this message to the output file.
    Write(String),
    /// An output file was asked for but there is no message: warn.
    WarnMissing,
    /// No output file was asked for.
    Nothing,
}

/// The end of a turn.
pub struct TurnEnd {
    /// No terminal event closed a session record this turn, so the caller
    /// writes one with status `error`.
    pub record_error: bool,
    pub next: NextAction,
}

/// The state the turn loop keeps across events and turns.
pub struct TurnDriver {
    pub wait_for_followup: bool,
    /// Turns that produced an assistant message so far.
    pub message_index: u64,
    /// An assistant message arrived in the current turn.
    pub assistant_responded: bool,
    /// A terminal event closed a session record in the current turn.
    pub recorded: bool,
    /// The last agent message reported by the current turn's completion.
    pub last_agent_message: Option<String>,
}

/// The mathematical form of a `TurnDriver`.
pub struct DriverView {
    pub wait_for_followup: bool,
    pub message_index: u64,
    pub assistant_responded: bool,
    pub recorded: bool,
    pub last_agent_message: Option<Seq<char>>,
}

impl View for TurnDriver {
    type V = DriverView;

    open spec fn view(&self) -> DriverView {
        DriverView {
            wait_for_followup: self.wait_for_followup,
            message_index: self.message_index,
            assistant_responded: self.assistant_responded,
            recorded: self.recorded,
            last_agent_message: opt_view(self.last_agent_message),
        }
    }
}

/// The driver after seeing one event of the current turn.
pub open spec fn after_event(d: DriverView, msg: EventMsg) -> DriverView {
    DriverView {
        assistant_responded: d.assistant_responded || msg is AgentMessage,
        recorded: d.recorded || closing_status(msg) is Some,
        last_agent_message: match msg {
            EventMsg::TaskComplete { last_agent_message } => opt_view(last_agent_message),
            _ => d.last_agent_message,
        },
        ..d
    }
}

/// The driver after seeing a run of events, in order.
pub open spec fn after_events(d: DriverView, msgs: Seq<EventMsg>) -> DriverView
    decreases msgs.len(),
{
    if msgs.len() == 0 {
        d
    } else {
        after_event(after_events(d, msgs.drop_last()), msgs.last())
    }
}

/// Decides what becomes of the last agent message when the run finishes.
pub fn handle_last_message(last_agent_message: Option<String>, has_file: bool) -> (r: LastMessageAction)
    ensures
        match r {
            LastMessageAction::Write(m) => has_file && opt_view(last_agent_message) == Some(m@),
            LastMessageAction::WarnMissing => has_file && last_agent_message is None,
            LastMessageAction::Nothing => !has_file,
        },
{
    if !has_file {
        LastMessageAction::Nothing
    } else {
        match last_agent_message {
            Some(m) => LastMessageAction::Write(m),
            None => LastMessageAction::WarnMissing,
        }
    }
}

impl TurnDriver {
    /// A driver before the first turn.
    pub fn new(wait_for_followup: bool) -> (r: TurnDriver)
        ensures
            r@ == (DriverView {
                wait_for_followup,
                message_index: 0,
                assistant_responded: false,
                recorded: false,
                last_agent_message: None,
            }),
    {
        TurnDriver {
            wait_for_followup,
            message_index: 0,
            assistant_responded: false,
            recorded: false,
            last_agent_message: None,
        }
    }

    /// Starts a turn: nothing has happened in it yet.
    pub fn begin_turn(&mut self)
        ensures
            final(self)@ == (DriverView {
                assistant_responded: false,
                recorded: false,
                last_agent_message: None,
                ..old(self)@
            }),
    {
        self.assistant_responded = false;
        self.recorded = false;
        self.last_agent_message = None;
    }

    /// Takes note of one event of the current turn; returns whether it ends
    /// the turn.
    pub fn on_event(&mut self, msg: &EventMsg) -> (r: bool)
        ensures
            final(self)@ == after_event(old(self)@, *msg),
            r == is_terminal(*msg),
    {
        match msg {
            EventMsg::AgentMessage { .. } => {
                self.assistant_responded = true;
            },
            EventMsg::TaskComplete { last_agent_message } => {
                self.last_agent_message = copy_opt(last_agent_message);
            },
            _ => {},
        }
        if msg.closing_status().is_some() {
            self.recorded = true;
        }
        msg.is_terminal()
    }

    /// Ends the current turn, whether a terminal event ended it or the event
    /// stream broke off: counts it if the assistant spoke, and says what
    /// comes next.
    pub fn finish_turn(&mut self, has_output_file: bool) -> (r: TurnEnd)
        ensures
            final(self).message_index == if old(self).assistant_responded && old(self).message_index < u64::MAX {
                old(self).message_index + 1
            } else {
                old(self).message_index as int
            },
            final(self).wait_for_followup == old(self).wait_for_followup,
            final(self).assistant_responded == old(self).assistant_responded,
            final(self).recorded == old(self).recorded,
            r.record_error == !old(self).recorded,
            match r.next {
                NextAction::Finish(a) => !old(self).wait_for_followup && match a {
                    LastMessageAction::Write(m) => has_output_file
                        && old(self)@.last_agent_message == Some(m@),
                    LastMessageAction::WarnMissing => has_output_file
                        && old(self).last_agent_message is None,
                    LastMessageAction::Nothing => !has_output_file,
                },
                NextAction::AwaitFollowup => old(self).wait_for_followup && old(self).assistant_responded,
                NextAction::Stop => old(self).wait_for_followup && !old(self).assistant_responded,
            },
    {
        if self.assistant_responded && self.message_index < u64::MAX {
            self.message_index = self.message_index + 1;
        }
        let record_error = !self.recorded;
        let next = if !self.wait_for_followup {
            let last = self.last_agent_message.take();
            NextAction::Finish(handle_last_message(last, has_output_file))
        } else if self.assistant_responded {
            NextAction::AwaitFollowup
        } else {
            NextAction::Stop
        };
        TurnEnd { record_error, next }
    }
}

/// Whether some event of a run closes a session record.
pub open spec fn closes_record(msgs: Seq<EventMsg>) -> bool {
    exists|i: int| 0 <= i < msgs.len() && (#[trigger] closing_status(msgs[i])) is Some
}

/// Every turn leaves a session record, however its events run (to completion,
/// to an error after an interrupt, or broken off): from the start of a turn,
/// the driver's `recorded` after any run of events holds exactly when one of
/// them closed a record through the logger, and otherwise `finish_turn` asks
/// for an error record.
pub proof fn lemma_turn_leaves_record(d: DriverView, msgs: Seq<EventMsg>)
    requires
        !d.recorded,
    ensures
        after_events(d, msgs).recorded == closes_record(msgs),
    decreases msgs.len(),
{
    if msgs.len() > 0 {
        let init = msgs.drop_last();
        lemma_turn_leaves_record(d, init);
        if closes_record(init) {
            let i = choose|i: int| 0 <= i < init.len() && (#[trigger] closing_status(init[i])) is Some;
            assert(msgs[i] == init[i]);
        }
        if closing_status(msgs.last()) is Some {
            assert(closing_status(msgs[msgs.len() - 1]) is Some);
        }
        if closes_record(msgs) {
            let i = choose|i: int| 0 <= i < msgs.len() && (#[trigger] closing_status(msgs[i])) is Some;
            if i < msgs.len() - 1 {
                assert(init[i] == msgs[i]);
            }
        }
    }
}

} // verus!
