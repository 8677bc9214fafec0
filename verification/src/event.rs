//! The events the agent produces while answering a message, and their stable
//! tagged representation as handed to the external consumer.

use vstd::prelude::*;

verus! {

/// One conversation message (a user turn, assistant output, a tool call, ...).
/// The bridge never inspects the content; it carries it through unchanged.
#[derive(Clone, Debug, PartialEq, Eq)]
pub struct Message {
    pub content: String,
}

/// One event produced by the agent's reply stream. Every event is exactly one
/// variant; consumers discriminate by the tag, never by the payload's shape.
#[derive(Clone, Debug, PartialEq, Eq)]
pub enum AgentEvent {
    /// The agent produced one conversation message.
    Message(Message),
    /// An identifier plus an opaque notification payload from an external
    /// protocol integration.
    McpNotification { id: String, notification: String },
    /// The agent switched to a new model under some operating mode.
    ModelChange { model: String, mode: String },
    /// The whole conversation was replaced, for instance after compaction.
    HistoryReplaced(Vec<Message>),
}

/// The tagged representation of one agent event: what the consumer receives on
/// the event channel, discriminated by the tag string of `tag`.
#[derive(Clone, Debug, PartialEq, Eq)]
pub enum Notification {
    Message { message: Message },
    McpNotification { id: String, notification: String },
    ModelChange { model: String, mode: String },
    HistoryReplaced { conversation: Vec<Message> },
}

impl Notification {
    /// The `type` discriminator of this notification.
    pub open spec fn spec_tag(self) -> Seq<char> {
        match self {
            Notification::Message { .. } => "message"@,
            Notification::McpNotification { .. } => "mcp_notification"@,
            Notification::ModelChange { .. } => "model_change"@,
            Notification::HistoryReplaced { .. } => "history_replaced"@,
        }
    }

    /// The `type` discriminator of this notification.
    pub fn tag(&self) -> (t: String)
        ensures
            t@ == self.spec_tag(),
    {
        match self {
            Notification::Message { .. } => "message".to_owned(),
            Notification::McpNotification { .. } => "mcp_notification".to_owned(),
            Notification::ModelChange { .. } => "model_change".to_owned(),
            Notification::HistoryReplaced { .. } => "history_replaced".to_owned(),
        }
    }
}

/// The translation of one agent event into its tagged notification.
pub open spec fn spec_notify(e: AgentEvent) -> Notification {
    match e {
        AgentEvent::Message(message) => Notification::Message { message },
        AgentEvent::McpNotification { id, notification } => Notification::McpNotification {
            id,
            notification,
        },
        AgentEvent::ModelChange { model, mode } => Notification::ModelChange { model, mode },
        AgentEvent::HistoryReplaced(conversation) => Notification::HistoryReplaced { conversation },
    }
}

/// Translate one agent event into its tagged notification. Every field is
/// carried through unchanged; only the tag is added.
pub fn notify(e: AgentEvent) -> (n: Notification)
    ensures
        n == spec_notify(e),
{
    match e {
        AgentEvent::Message(message) => Notification::Message { message },
        AgentEvent::McpNotification { id, notification } => Notification::McpNotification {
            id,
            notification,
        },
        AgentEvent::ModelChange { model, mode } => Notification::ModelChange { model, mode },
        AgentEvent::HistoryReplaced(conversation) => Notification::HistoryReplaced { conversation },
    }
}

/// Law: the translation tags every notification by its event's source variant,
/// so a consumer that discriminates by tag recovers the variant exactly.
pub proof fn lemma_notification_tagged_by_source_variant(e: AgentEvent)
    ensures
        e is Message ==> spec_notify(e).spec_tag() == "message"@,
        e is McpNotification ==> spec_notify(e).spec_tag() == "mcp_notification"@,
        e is ModelChange ==> spec_notify(e).spec_tag() == "model_change"@,
        e is HistoryReplaced ==> spec_notify(e).spec_tag() == "history_replaced"@,
{
}

/// One emission handed to the consumer: a tagged event notification on the
/// event channel, or the single terminal error description on the error
/// channel.
#[derive(Clone, Debug, PartialEq, Eq)]
pub enum Emission {
    Event(Notification),
    Error(String),
}

impl Emission {
    /// The channel this emission travels on.
    pub open spec fn spec_channel(self) -> Seq<char> {
        match self {
            Emission::Event(_) => "agent-event"@,
            Emission::Error(_) => "agent-error"@,
        }
    }

    /// The channel this emission travels on.
    pub fn channel(&self) -> (c: String)
        ensures
            c@ == self.spec_channel(),
    {
        match self {
            Emission::Event(_) => "agent-event".to_owned(),
            Emission::Error(_) => "agent-error".to_owned(),
        }
    }
}

} // verus!
