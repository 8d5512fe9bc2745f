//! Conversation identities and the events that conversations emit.

use vstd::prelude::*;

use crate::protocol::AudioFormat;
use crate::protocol::OutputModality;

verus! {

/// Names one conversation. Two identities are the same conversation exactly
/// when their views, the characters of the name, are equal.
#[derive(Debug, PartialEq, Eq, Hash)]
pub struct ConversationId {
    value: String,
}

impl View for ConversationId {
    type V = Seq<char>;

    closed spec fn view(&self) -> Seq<char> {
        self.value@
    }
}

impl ConversationId {
    /// The identity of the conversation named `value`.
    pub fn new(value: String) -> (id: Self)
        ensures
            id@ == value@,
    {
        ConversationId { value }
    }

    /// The name of the conversation.
    pub fn as_str(&self) -> (name: &str)
        ensures
            name@ == self@,
    {
        self.value.as_str()
    }

    /// The name of the conversation, without copying it.
    pub fn into_string(self) -> (name: String)
        ensures
            name@ == self@,
    {
        self.value
    }
}

impl From<String> for ConversationId {
    fn from(value: String) -> (id: Self)
        ensures
            id@ == value@,
    {
        ConversationId { value }
    }
}

impl vstd::std_specs::convert::FromSpecImpl<String> for ConversationId {
    open spec fn obeys_from_spec() -> bool {
        true
    }

    closed spec fn from_spec(value: String) -> Self {
        ConversationId { value }
    }
}

impl Clone for ConversationId {
    fn clone(&self) -> (copy: Self)
        ensures
            copy == *self,
    {
        ConversationId { value: self.value.clone() }
    }
}

/// An event that a conversation sends towards its consumer. Every event names
/// the conversation it comes from.
#[derive(Debug, Clone, PartialEq)]
pub enum ServerEvent {
    Started { id: ConversationId, modalities: Vec<OutputModality> },
    Stopped { id: ConversationId },
    Error { id: ConversationId, message: String },
    Audio { id: ConversationId, format: AudioFormat, samples: Vec<i16> },
    ClearAudio { id: ConversationId },
    Text { id: ConversationId, is_final: bool, content: String },
    RequestCompleted { id: ConversationId, request_id: String },
    Custom { id: ConversationId, payload: String },
}

impl ServerEvent {
    /// The conversation that the event comes from.
    pub open spec fn origin(self) -> ConversationId {
        match self {
            ServerEvent::Started { id, .. } => id,
            ServerEvent::Stopped { id } => id,
            ServerEvent::Error { id, .. } => id,
            ServerEvent::Audio { id, .. } => id,
            ServerEvent::ClearAudio { id } => id,
            ServerEvent::Text { id, .. } => id,
            ServerEvent::RequestCompleted { id, .. } => id,
            ServerEvent::Custom { id, .. } => id,
        }
    }

    /// Output that a conversation produces for whoever consumes it downstream:
    /// audio, the request to clear audio, and text. Everything else belongs to
    /// the conversation that the event comes from.
    pub open spec fn is_output(self) -> bool {
        self is Audio || self is ClearAudio || self is Text
    }

    /// The conversation that the event comes from.
    pub fn conversation_id(&self) -> (id: &ConversationId)
        ensures
            *id == self.origin(),
    {
        match self {
            ServerEvent::Started { id, .. } => id,
            ServerEvent::Stopped { id } => id,
            ServerEvent::Error { id, .. } => id,
            ServerEvent::Audio { id, .. } => id,
            ServerEvent::ClearAudio { id } => id,
            ServerEvent::Text { id, .. } => id,
            ServerEvent::RequestCompleted { id, .. } => id,
            ServerEvent::Custom { id, .. } => id,
        }
    }
}

} // verus!
