//! Events the client emits towards its embedder.
//!
//! All types are plain owned data, so events can cross thread boundaries and be converted for
//! foreign-language embedders easily.

use vstd::prelude::*;

verus! {

/// The conversation a message belongs to.
#[derive(Debug, Clone)]
pub enum Conversation {
    /// One-to-one conversation with a contact.
    Contact {
        /// The contact's Threema ID.
        identity: String,
        /// The contact's name as known by the contact store, if any.
        name: Option<String>,
    },
    /// Group conversation.
    Group {
        /// Threema ID of the group's creator.
        creator_identity: String,
        group_id: u64,
    },
    /// Distribution list.
    DistributionList { id: u64 },
    /// The conversation could not be determined. Notably the case for reflected incoming group
    /// messages: their group identity is embedded in the (undecoded) message body.
    Unknown,
}

/// The mathematical value of a [`Conversation`].
#[verifier::ext_equal]
pub ghost enum ConversationView {
    Contact { identity: Seq<char>, name: Option<Seq<char>> },
    Group { creator_identity: Seq<char>, group_id: u64 },
    DistributionList { id: u64 },
    Unknown,
}

impl View for Conversation {
    type V = ConversationView;

    open spec fn view(&self) -> ConversationView {
        match self {
            Conversation::Contact { identity, name } => ConversationView::Contact {
                identity: identity@,
                name: name.deep_view(),
            },
            Conversation::Group { creator_identity, group_id } => ConversationView::Group {
                creator_identity: creator_identity@,
                group_id: *group_id,
            },
            Conversation::DistributionList { id } => ConversationView::DistributionList { id: *id },
            Conversation::Unknown => ConversationView::Unknown,
        }
    }
}

/// A plain-text message, either received from a contact or sent by the user themself (on another
/// linked device, reflected here).
#[derive(Debug, Clone)]
pub struct TextMessage {
    /// Milliseconds since the Unix epoch.
    pub timestamp_ms: u64,
    /// Whether the user themself sent this message (from any linked device).
    pub outgoing: bool,
    pub conversation: Conversation,
    /// The sender's Threema ID; `None` when `outgoing` (the sender is the user themself).
    pub sender_identity: Option<String>,
    /// The sender's name as known by the contact store, if any.
    pub sender_name: Option<String>,
    pub text: String,
}

/// The mathematical value of a [`TextMessage`].
#[verifier::ext_equal]
pub ghost struct TextMessageView {
    pub timestamp_ms: u64,
    pub outgoing: bool,
    pub conversation: ConversationView,
    pub sender_identity: Option<Seq<char>>,
    pub sender_name: Option<Seq<char>>,
    pub text: Seq<char>,
}

impl View for TextMessage {
    type V = TextMessageView;

    open spec fn view(&self) -> TextMessageView {
        TextMessageView {
            timestamp_ms: self.timestamp_ms,
            outgoing: self.outgoing,
            conversation: self.conversation@,
            sender_identity: self.sender_identity.deep_view(),
            sender_name: self.sender_name.deep_view(),
            text: self.text@,
        }
    }
}

impl TextMessageView {
    /// A message names a sender exactly if the user did not send it.
    pub open spec fn sender_fits(self) -> bool {
        &&& self.outgoing <==> self.sender_identity is None
        &&& self.outgoing ==> self.sender_name is None
    }
}

/// Everything the client reports to its embedder.
#[derive(Debug, Clone)]
pub enum Event {
    /// The connections to the chat server and the mediator are up.
    Connected,
    /// A plain-text message arrived, either directly via the chat server or reflected from a
    /// sibling device via the mediator; or one of the user's own was accepted by the chat server.
    TextMessage(TextMessage),
    /// A message could not be sent.
    SendFailed { conversation: Conversation, reason: String },
}

/// The mathematical value of an [`Event`].
#[verifier::ext_equal]
pub ghost enum EventView {
    Connected,
    TextMessage(TextMessageView),
    SendFailed { conversation: ConversationView, reason: Seq<char> },
}

impl View for Event {
    type V = EventView;

    open spec fn view(&self) -> EventView {
        match self {
            Event::Connected => EventView::Connected,
            Event::TextMessage(message) => EventView::TextMessage(message@),
            Event::SendFailed { conversation, reason } => EventView::SendFailed {
                conversation: conversation@,
                reason: reason@,
            },
        }
    }
}

/// The value of an event that may be absent.
pub open spec fn event_view(event: Option<Event>) -> Option<EventView> {
    match event {
        Some(event) => Some(event@),
        None => None,
    }
}

/// What stands in an optional text.
pub open spec fn holds(text: Option<String>, value: Option<Seq<char>>) -> bool {
    match text {
        Some(text) => value == Some(text@),
        None => value is None,
    }
}

/// The value of a message is all that it holds, field by field.
pub proof fn messages_mean_what_they_hold(message: TextMessage)
    ensures
        message@.timestamp_ms == message.timestamp_ms,
        message@.outgoing == message.outgoing,
        message@.conversation == message.conversation@,
        holds(message.sender_identity, message@.sender_identity),
        holds(message.sender_name, message@.sender_name),
        message@.text == message.text@,
        match message.conversation {
            Conversation::Contact { identity, name } => {
                &&& message@.conversation matches ConversationView::Contact {
                    identity: shown,
                    name: called,
                }
                &&& shown == identity@
                &&& holds(name, called)
            },
            Conversation::Group { creator_identity, group_id } => message@.conversation == (
            ConversationView::Group { creator_identity: creator_identity@, group_id }),
            Conversation::DistributionList { id } => message@.conversation == (
            ConversationView::DistributionList { id }),
            Conversation::Unknown => message@.conversation == ConversationView::Unknown,
        },
{
}

} // verus!
