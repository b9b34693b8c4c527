//! The event handler: what the bot does for each event that the gateway
//! delivers. It keeps no state, so every event is answered on its own.

use crate::failure::{Failure, FailureModel};
use vstd::prelude::*;
use vstd::string::{StrSliceExecFns, StringExecFns};

verus! {

/// An event delivered to the handler.
#[derive(Clone, Debug, PartialEq, Eq)]
pub enum Event {
    /// The session is established; `name` is the bot's display name.
    Ready { name: String },
    /// A chat message arrived in a channel.
    Message { channel_id: u64, content: String },
    /// A reply asked for earlier could not be sent.
    ReplyFailed { detail: String },
}

/// What the handler asks the program to do for one event.
#[derive(Clone, Debug, PartialEq, Eq)]
pub enum Action {
    /// Do nothing.
    Nothing,
    /// Write `line` to the log.
    Log { line: String },
    /// Send `text` to the channel `channel_id`.
    Reply { channel_id: u64, text: String },
}

/// The mathematical value of an [`Event`].
pub enum EventModel {
    Ready { name: Seq<char> },
    Message { channel_id: u64, content: Seq<char> },
    ReplyFailed { detail: Seq<char> },
}

/// The mathematical value of an [`Action`].
pub enum ActionModel {
    Nothing,
    Log { line: Seq<char> },
    Reply { channel_id: u64, text: Seq<char> },
}

impl View for Event {
    type V = EventModel;

    open spec fn view(&self) -> EventModel {
        match *self {
            Event::Ready { name } => EventModel::Ready { name: name@ },
            Event::Message { channel_id, content } => EventModel::Message {
                channel_id,
                content: content@,
            },
            Event::ReplyFailed { detail } => EventModel::ReplyFailed { detail: detail@ },
        }
    }
}

impl View for Action {
    type V = ActionModel;

    open spec fn view(&self) -> ActionModel {
        match *self {
            Action::Nothing => ActionModel::Nothing,
            Action::Log { line } => ActionModel::Log { line: line@ },
            Action::Reply { channel_id, text } => ActionModel::Reply { channel_id, text: text@ },
        }
    }
}

/// The action owed to a message: a reply of `Pong!` to the channel it came
/// from when the content is exactly `/ping`, and nothing otherwise.
pub open spec fn message_response(channel_id: u64, content: Seq<char>) -> ActionModel {
    if content == "/ping"@ {
        ActionModel::Reply { channel_id, text: "Pong!"@ }
    } else {
        ActionModel::Nothing
    }
}

/// The action owed to the ready event: one log line that names the bot.
pub open spec fn ready_response(name: Seq<char>) -> ActionModel {
    ActionModel::Log { line: name + " is connected!"@ }
}

/// The action owed to a reply that could not be sent: the failure's log line.
pub open spec fn reply_failed_response(detail: Seq<char>) -> ActionModel {
    ActionModel::Log { line: (FailureModel::ReplySend { detail }).log_line() }
}

/// The action owed to an event. It depends on that event alone.
pub open spec fn response(event: EventModel) -> ActionModel {
    match event {
        EventModel::Ready { name } => ready_response(name),
        EventModel::Message { channel_id, content } => message_response(channel_id, content),
        EventModel::ReplyFailed { detail } => reply_failed_response(detail),
    }
}

/// The actions owed to a run of events: one for each, in order.
pub open spec fn responses(events: Seq<EventModel>) -> Seq<ActionModel> {
    Seq::new(events.len(), |i: int| response(events[i]))
}

/// Whether two strings hold the same characters.
pub fn same_text(left: &str, right: &str) -> (same: bool)
    ensures
        same == (left@ == right@),
{
    let length: usize = left.unicode_len();
    if length != right.unicode_len() {
        return false;
    }
    let mut at: usize = 0;
    while at < length
        invariant
            length == left@.len(),
            length == right@.len(),
            at <= length,
            forall|i: int| 0 <= i < at ==> left@[i] == right@[i],
        decreases length - at,
    {
        if left.get_char(at) != right.get_char(at) {
            return false;
        }
        at += 1;
    }
    assert(left@ =~= right@);
    true
}

/// The bot's event handler.
#[derive(Clone, Copy, Debug)]
pub struct Handler;

impl Handler {
    /// Handles a chat message.
    pub fn message(&self, channel_id: u64, content: &str) -> (action: Action)
        ensures
            action@ == message_response(channel_id, content@),
    {
        if same_text(content, "/ping") {
            Action::Reply { channel_id, text: String::from_str("Pong!") }
        } else {
            Action::Nothing
        }
    }

    /// Handles the ready event. Any name will do, the empty one too.
    pub fn ready(&self, name: &str) -> (action: Action)
        ensures
            action@ == ready_response(name@),
    {
        Action::Log { line: String::from_str(name).concat(" is connected!") }
    }

    /// Handles the failure of a reply: it is logged and goes no further.
    pub fn reply_failed(&self, detail: &str) -> (action: Action)
        ensures
            action@ == reply_failed_response(detail@),
    {
        let failure = Failure::ReplySend { detail: String::from_str(detail) };
        Action::Log { line: failure.log_line() }
    }

    /// Handles one event, whatever its kind.
    pub fn handle(&self, event: &Event) -> (action: Action)
        ensures
            action@ == response(event@),
    {
        match event {
            Event::Ready { name } => self.ready(name.as_str()),
            Event::Message { channel_id, content } => self.message(*channel_id, content.as_str()),
            Event::ReplyFailed { detail } => self.reply_failed(detail.as_str()),
        }
    }
}

/// A reply that could not be sent is survived, and what follows it loses
/// nothing: in any run of events, the failed reply is only logged, and the
/// event after it gets the action that it would get on its own.
pub proof fn failed_reply_spares_later_events(
    earlier: Seq<EventModel>,
    detail: Seq<char>,
    later: EventModel,
)
    ensures
        !(FailureModel::ReplySend { detail }).is_fatal(),
        ({
            let run = earlier.push(EventModel::ReplyFailed { detail }).push(later);
            let failed_at = earlier.len() as int;
            &&& responses(run).len() == run.len() == failed_at + 2
            &&& responses(run)[failed_at] == reply_failed_response(detail)
            &&& responses(run)[failed_at] is Log
            &&& responses(run)[failed_at + 1] == response(later)
        }),
{
}

} // verus!
