//! Names of contacts, and incoming messages of the chat server turned into [`Event`]s.

use vstd::prelude::*;
use vstd::string::*;

use crate::contact::{Contact, ContactView};
use crate::event::{self, Conversation, ConversationView, Event, EventView, TextMessage, TextMessageView};
use crate::model::{GroupIdentity, MessageKey, ThreemaId};
use crate::store::{self, ContactStore, ContactStoreView, ProviderError, ProviderErrorView};
use crate::table::KeySet;

verus! {

/// First and last name of a contact, separated by a space where both are there.
pub open spec fn full_name(contact: ContactView) -> Seq<char> {
    match (contact.first_name, contact.last_name) {
        (Some(first), Some(last)) => first + " "@ + last,
        (Some(first), None) => first,
        (None, Some(last)) => last,
        (None, None) => Seq::empty(),
    }
}

/// What a contact is called: the nickname, else the full name; nothing if that is empty.
pub open spec fn display_name(contact: ContactView) -> Option<Seq<char>> {
    if contact.nickname is Some && contact.nickname->0.len() > 0 {
        contact.nickname
    } else if full_name(contact).len() > 0 {
        Some(full_name(contact))
    } else {
        None
    }
}

/// The name of a contact as a store has it; nothing if the lookup fails.
pub open spec fn name_in(contacts: ContactStoreView, identity: Seq<char>) -> Option<Seq<char>> {
    match contacts.get(identity) {
        Ok(Some(contact)) => display_name(contact),
        _ => None,
    }
}

/// What a contact is called.
pub fn name_of(contact: Contact) -> (name: Option<String>)
    ensures
        name.deep_view() == display_name(contact@),
{
    if let Some(nickname) = contact.nickname {
        if !nickname.as_str().is_empty() {
            return Some(nickname);
        }
    }
    let full_name: String = match (contact.first_name, contact.last_name) {
        (Some(first), Some(last)) => {
            let mut name = first;
            name.append(" ");
            name.append(last.as_str());
            name
        },
        (Some(first), None) => first,
        (None, Some(last)) => last,
        (None, None) => String::new(),
    };
    if full_name.as_str().is_empty() {
        None
    } else {
        Some(full_name)
    }
}

/// Resolve a contact's name via the contact store: nickname, else first/last name, else `None`.
pub fn contact_name(contacts: &ContactStore, identity: &ThreemaId) -> (name: Option<String>)
    ensures
        name.deep_view() == name_in(contacts@, identity@),
{
    match contacts.get(identity) {
        Ok(Some(contact)) => name_of(contact),
        _ => None,
    }
}

/// The body of a message from a contact.
#[derive(Debug, Clone)]
pub enum ContactMessageBody {
    Text(String),
    Other,
}

/// The body of a message in a group.
#[derive(Debug, Clone)]
pub enum GroupMessageBody {
    Text(String),
    Other,
}

/// Where an incoming message belongs, and what it says.
#[derive(Debug, Clone)]
pub enum IncomingMessageBody {
    Contact(ContactMessageBody),
    Group { group_identity: GroupIdentity, body: GroupMessageBody },
}

/// A decrypted message that the chat server delivered.
#[derive(Debug, Clone)]
pub struct IncomingMessage {
    pub sender_identity: ThreemaId,
    pub id: u64,
    pub created_at: u64,
    pub body: IncomingMessageBody,
}

impl IncomingMessage {
    /// What identifies the message.
    pub open spec fn key(self) -> (Seq<char>, u64) {
        (self.sender_identity@, self.id)
    }

    /// The text, if it is a plain-text message.
    pub open spec fn text(self) -> Option<Seq<char>> {
        match self.body {
            IncomingMessageBody::Contact(ContactMessageBody::Text(text)) => Some(text@),
            IncomingMessageBody::Group { body: GroupMessageBody::Text(text), .. } => Some(text@),
            _ => None,
        }
    }

    /// Why the message is refused, if it is: a message from a contact has to come from a known one.
    pub open spec fn refused(self, contacts: ContactStoreView) -> Option<ProviderErrorView> {
        if self.body is Group {
            None
        } else if self.sender_identity@ == contacts.user_identity {
            Some(store::user_refused())
        } else if !contacts.knows(self.sender_identity@) {
            Some(
                ProviderErrorView::InvalidState(
                    "Contact the incoming message refers to does not exist"@,
                ),
            )
        } else {
            None
        }
    }

    /// The conversation the message belongs to.
    pub open spec fn conversation(self, contacts: ContactStoreView) -> ConversationView {
        match self.body {
            IncomingMessageBody::Contact(_) => ConversationView::Contact {
                identity: self.sender_identity@,
                name: name_in(contacts, self.sender_identity@),
            },
            IncomingMessageBody::Group { group_identity, .. } => ConversationView::Group {
                creator_identity: group_identity.creator_identity@,
                group_id: group_identity.group_id,
            },
        }
    }

    /// What is reported of the message if it is new: only plain text is.
    pub open spec fn event(self, contacts: ContactStoreView) -> Option<EventView> {
        match self.text() {
            Some(text) => Some(
                EventView::TextMessage(
                    TextMessageView {
                        timestamp_ms: self.created_at,
                        outgoing: false,
                        conversation: self.conversation(contacts),
                        sender_identity: Some(self.sender_identity@),
                        sender_name: name_in(contacts, self.sender_identity@),
                        text,
                    },
                ),
            ),
            None => None,
        }
    }
}

/// What comes of an incoming message, given the messages that were seen before: the messages that
/// were seen afterwards, and the event that reports it if it is new and plain text.
pub open spec fn taken(
    seen: Set<(Seq<char>, u64)>,
    contacts: ContactStoreView,
    message: IncomingMessage,
) -> (Set<(Seq<char>, u64)>, Result<Option<EventView>, ProviderErrorView>) {
    match message.refused(contacts) {
        Some(error) => (seen, Err(error)),
        None => (
            seen.insert(message.key()),
            Ok(
                if seen.contains(message.key()) {
                    None
                } else {
                    message.event(contacts)
                },
            ),
        ),
    }
}

/// Turns incoming messages into events, each message once.
pub struct EventConversationProvider {
    seen: KeySet<MessageKey>,
}

impl View for EventConversationProvider {
    type V = Set<(Seq<char>, u64)>;

    /// The messages that were seen, by sender and message ID.
    closed spec fn view(&self) -> Set<(Seq<char>, u64)> {
        self.seen@
    }
}

impl EventConversationProvider {
    pub fn new() -> (provider: EventConversationProvider)
        ensures
            provider@ == Set::<(Seq<char>, u64)>::empty(),
    {
        EventConversationProvider { seen: KeySet::new() }
    }

    /// The event that reports a message.
    pub fn emit(message: TextMessage) -> (event: Event)
        ensures
            event@ == EventView::TextMessage(message@),
    {
        Event::TextMessage(message)
    }

    /// Whether a message was seen already.
    pub fn message_is_marked_used(&self, sender_identity: &ThreemaId, id: u64) -> (used: Result<
        bool,
        ProviderError,
    >)
        ensures
            used == Ok::<bool, ProviderError>(self@.contains((sender_identity@, id))),
    {
        let key = MessageKey { identity: sender_identity.duplicate(), message_id: id };
        Ok(self.seen.contains(&key))
    }

    /// Typing indicators are not relevant for a headless client.
    pub fn set_typing_indicator(&mut self, _sender_identity: &ThreemaId, _is_typing: bool) -> (
        result: Result<(), ProviderError>)
        ensures
            result is Ok,
            final(self)@ == old(self)@,
    {
        Ok(())
    }

    /// Takes an incoming message: refuses it, or marks it as seen and gives the event that reports
    /// it if it is a plain-text message that was not seen before.
    pub fn add_or_update_incoming_message(
        &mut self,
        contacts: &ContactStore,
        message: IncomingMessage,
    ) -> (result: Result<Option<Event>, ProviderError>)
        ensures
            final(self)@ == taken(old(self)@, contacts@, message).0,
            match taken(old(self)@, contacts@, message).1 {
                Ok(expected) => result matches Ok(event) && event::event_view(event) == expected,
                Err(error) => result matches Err(returned) && returned@ == error,
            },
    {
        let conversation: Conversation = match &message.body {
            IncomingMessageBody::Contact(_) => {
                match contacts.has(&message.sender_identity) {
                    Err(error) => {
                        return Err(error);
                    },
                    Ok(false) => {
                        return Err(
                            ProviderError::InvalidState(
                                "Contact the incoming message refers to does not exist".to_owned(),
                            ),
                        );
                    },
                    Ok(true) => {},
                }
                Conversation::Contact {
                    identity: message.sender_identity.to_string(),
                    name: contact_name(contacts, &message.sender_identity),
                }
            },
            IncomingMessageBody::Group { group_identity, .. } => Conversation::Group {
                creator_identity: group_identity.creator_identity.to_string(),
                group_id: group_identity.group_id,
            },
        };
        let key = MessageKey {
            identity: message.sender_identity.duplicate(),
            message_id: message.id,
        };
        if !self.seen.insert(key) {
            return Ok(None);
        }
        let sender_name = contact_name(contacts, &message.sender_identity);
        let text: String = match message.body {
            IncomingMessageBody::Contact(ContactMessageBody::Text(text)) => text,
            IncomingMessageBody::Group { body: GroupMessageBody::Text(text), .. } => text,
            _ => {
                return Ok(None);
            },
        };
        Ok(
            Some(
                EventConversationProvider::emit(
                    TextMessage {
                        timestamp_ms: message.created_at,
                        outgoing: false,
                        conversation,
                        sender_identity: Some(message.sender_identity.to_string()),
                        sender_name,
                        text,
                    },
                ),
            ),
        )
    }
}

/// The messages that were seen after some arrived, each with the contacts as they were then.
pub open spec fn seen_after(
    seen: Set<(Seq<char>, u64)>,
    arrivals: Seq<(ContactStoreView, IncomingMessage)>,
) -> Set<(Seq<char>, u64)>
    decreases arrivals.len(),
{
    if arrivals.len() == 0 {
        seen
    } else {
        taken(
            seen_after(seen, arrivals.drop_last()),
            arrivals.last().0,
            arrivals.last().1,
        ).0
    }
}

/// Every message is reported at most once: of any messages with the same sender and message ID,
/// only the first one that is not refused can be reported, however the contacts change between.
pub proof fn messages_are_reported_once(
    seen: Set<(Seq<char>, u64)>,
    arrivals: Seq<(ContactStoreView, IncomingMessage)>,
    i: int,
    j: int,
)
    requires
        0 <= i < j < arrivals.len(),
        arrivals[i].1.key() == arrivals[j].1.key(),
        arrivals[i].1.refused(arrivals[i].0) is None,
    ensures
        !(taken(seen_after(seen, arrivals.take(j)), arrivals[j].0, arrivals[j].1).1 matches Ok(
            Some(_),
        )),
{
    assert(arrivals.take(i + 1).drop_last() =~= arrivals.take(i));
    assert(seen_after(seen, arrivals.take(i + 1)).contains(arrivals[i].1.key()));
    lemma_seen_stays(seen, arrivals, i + 1, j, arrivals[i].1.key());
}

proof fn lemma_seen_stays(
    seen: Set<(Seq<char>, u64)>,
    arrivals: Seq<(ContactStoreView, IncomingMessage)>,
    i: int,
    j: int,
    key: (Seq<char>, u64),
)
    requires
        0 <= i <= j <= arrivals.len(),
        seen_after(seen, arrivals.take(i)).contains(key),
    ensures
        seen_after(seen, arrivals.take(j)).contains(key),
    decreases j - i,
{
    if i < j {
        lemma_seen_stays(seen, arrivals, i, j - 1, key);
        assert(arrivals.take(j).drop_last() =~= arrivals.take(j - 1));
    }
}

/// Whether a message with a key arrived at a position and was not refused.
pub open spec fn accepted_at(
    arrivals: Seq<(ContactStoreView, IncomingMessage)>,
    i: int,
    key: (Seq<char>, u64),
) -> bool {
    &&& 0 <= i < arrivals.len()
    &&& arrivals[i].1.key() == key
    &&& arrivals[i].1.refused(arrivals[i].0) is None
}

/// A message is marked as used exactly if it was before, or one with its sender and message ID
/// arrived and was not refused, whether or not it was reported.
pub proof fn used_messages_were_accepted(
    seen: Set<(Seq<char>, u64)>,
    arrivals: Seq<(ContactStoreView, IncomingMessage)>,
    key: (Seq<char>, u64),
)
    ensures
        seen_after(seen, arrivals).contains(key) <==> seen.contains(key) || exists|i: int|
            accepted_at(arrivals, i, key),
    decreases arrivals.len(),
{
    if arrivals.len() > 0 {
        let front = arrivals.drop_last();
        let last = arrivals.len() - 1;
        used_messages_were_accepted(seen, front, key);
        if exists|i: int| accepted_at(front, i, key) {
            let i = choose|i: int| accepted_at(front, i, key);
            assert(accepted_at(arrivals, i, key));
        }
        if arrivals[last].1.refused(arrivals[last].0) is None && arrivals[last].1.key() == key {
            assert(accepted_at(arrivals, last, key));
        }
        if exists|i: int| accepted_at(arrivals, i, key) {
            let i = choose|i: int| accepted_at(arrivals, i, key);
            if i < last {
                assert(accepted_at(front, i, key));
            }
        }
    }
}

/// A message is reported exactly if it is plain text, not refused and new; it is reported with its
/// own text and time, as coming from its sender.
pub proof fn text_messages_are_reported(
    seen: Set<(Seq<char>, u64)>,
    contacts: ContactStoreView,
    message: IncomingMessage,
)
    ensures
        (taken(seen, contacts, message).1 matches Ok(Some(_))) <==> (message.text() is Some
            && message.refused(contacts) is None && !seen.contains(message.key())),
        taken(seen, contacts, message).1 matches Ok(Some(event)) ==> {
            &&& event matches EventView::TextMessage(reported)
            &&& reported.text == message.text()->0
            &&& reported.timestamp_ms == message.created_at
            &&& reported.sender_identity == Some(message.sender_identity@)
            &&& reported.sender_fits()
        },
{
}

/// A message is reported in the conversation that it belongs to: one from a contact in that with
/// its sender, under the name that the sender is reported with, and one in a group in that of the
/// group.
pub proof fn messages_are_reported_in_their_conversation(
    seen: Set<(Seq<char>, u64)>,
    contacts: ContactStoreView,
    message: IncomingMessage,
    reported: TextMessageView,
)
    requires
        taken(seen, contacts, message).1 == Ok::<Option<EventView>, ProviderErrorView>(
            Some(EventView::TextMessage(reported)),
        ),
    ensures
        !reported.outgoing,
        match message.body {
            IncomingMessageBody::Contact(_) => reported.conversation == (
            ConversationView::Contact {
                identity: message.sender_identity@,
                name: reported.sender_name,
            }),
            IncomingMessageBody::Group { group_identity, .. } => reported.conversation == (
            ConversationView::Group {
                creator_identity: group_identity.creator_identity@,
                group_id: group_identity.group_id,
            }),
        },
        reported.sender_name == match contacts.get(message.sender_identity@) {
            Ok(Some(contact)) => display_name(contact),
            _ => None,
        },
{
}

/// A new plain-text message that can be taken is reported with its text, whether it comes from a
/// contact or in a group; anything else that can be taken is not reported.
pub proof fn plain_text_is_reported(
    seen: Set<(Seq<char>, u64)>,
    contacts: ContactStoreView,
    message: IncomingMessage,
)
    requires
        message.body is Contact ==> message.sender_identity@ != contacts.user_identity
            && contacts.contacts.dom().contains(message.sender_identity@),
        !seen.contains((message.sender_identity@, message.id)),
    ensures
        match message.body {
            IncomingMessageBody::Contact(ContactMessageBody::Text(text)) => reports(
                seen,
                contacts,
                message,
                text@,
            ),
            IncomingMessageBody::Group { body: GroupMessageBody::Text(text), .. } => reports(
                seen,
                contacts,
                message,
                text@,
            ),
            _ => taken(seen, contacts, message).1 == Ok::<Option<EventView>, ProviderErrorView>(
                None,
            ),
        },
{
}

/// Whether a message is reported with a text, at its own time and as coming from its sender.
pub open spec fn reports(
    seen: Set<(Seq<char>, u64)>,
    contacts: ContactStoreView,
    message: IncomingMessage,
    text: Seq<char>,
) -> bool {
    &&& taken(seen, contacts, message).1 matches Ok(Some(EventView::TextMessage(reported)))
    &&& reported.text == text
    &&& reported.timestamp_ms == message.created_at
    &&& reported.sender_identity == Some(message.sender_identity@)
}

/// A message from a contact is refused exactly if it comes from the user or from someone who is not
/// in the contact store; one in a group never is. A refused message is not marked as used; any
/// other one is, under its sender and message ID, and nothing else is.
pub proof fn strangers_are_refused(
    seen: Set<(Seq<char>, u64)>,
    contacts: ContactStoreView,
    message: IncomingMessage,
)
    ensures
        ({
            let outcome = taken(seen, contacts, message);
            let sender = message.sender_identity@;
            if message.body is Contact && sender == contacts.user_identity {
                outcome == (
                    seen,
                    Err::<Option<EventView>, ProviderErrorView>(
                        ProviderErrorView::InvalidParameter(
                            "Unexpected encounter of user's identity in contact provider"@,
                        ),
                    ),
                )
            } else if message.body is Contact && !contacts.contacts.dom().contains(sender) {
                outcome == (
                    seen,
                    Err::<Option<EventView>, ProviderErrorView>(
                        ProviderErrorView::InvalidState(
                            "Contact the incoming message refers to does not exist"@,
                        ),
                    ),
                )
            } else {
                outcome.1 is Ok && outcome.0 == seen.insert((sender, message.id))
            }
        }),
{
}

/// A contact with a nickname is called by it; one without is called by first and last name, with a
/// space between where there are both; one without any name is not called anything, and no name is
/// empty.
pub proof fn nicknames_come_first(contact: ContactView)
    ensures
        contact.nickname matches Some(nickname) ==> nickname.len() > 0 ==> display_name(contact)
            == Some(nickname),
        (contact.nickname matches Some(nickname) ==> nickname.len() == 0) ==> match (
            contact.first_name,
            contact.last_name,
        ) {
            (Some(first), Some(last)) => display_name(contact) == Some(first + seq![' '] + last),
            (Some(first), None) => first.len() > 0 ==> display_name(contact) == Some(first),
            (None, Some(last)) => last.len() > 0 ==> display_name(contact) == Some(last),
            (None, None) => display_name(contact) is None,
        },
        display_name(contact) matches Some(name) ==> name.len() > 0,
{
    reveal_strlit(" ");
    assert(" "@ =~= seq![' ']);
}

/// The name of a contact is the one that the contact store has for it; someone who cannot be looked
/// up, or is not in the store, has none.
pub proof fn names_come_from_the_store(contacts: ContactStoreView, identity: Seq<char>)
    ensures
        contacts.get(identity) matches Ok(Some(contact)) ==> name_in(contacts, identity)
            == display_name(contact),
        contacts.get(identity) matches Ok(None) ==> name_in(contacts, identity) is None,
        contacts.get(identity) is Err ==> name_in(contacts, identity) is None,
{
}

} // verus!
