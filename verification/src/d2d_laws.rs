//! What holds of reflected envelopes.

use vstd::prelude::*;

use crate::contact::{ContactEnums, ContactView, EnumValues};
use crate::conversation;
use crate::d2d::{
    self, ContactSync, ContactSyncAction, Content, ContentView, ConversationId, ConversationIdView,
    EnvelopeView, IncomingMessage, IncomingMessageView, MessageType, OpenedView, OutgoingMessage,
    OutgoingMessageUpdate, OutgoingMessageUpdateView, OutgoingMessageView, ReflectionView,
    SyncedContact,
};
use crate::event::{ConversationView, EventView, TextMessageView};
use crate::model::IdentityTextView;
use crate::store::{self, ContactStoreView, ProviderErrorView, StateFile};
use crate::store_laws;

verus! {

/// Whether some content is a plain-text message.
pub open spec fn is_text(content: Option<ContentView>) -> bool {
    match content {
        Some(ContentView::OutgoingMessage(message)) => !(message.message_type is Other),
        Some(ContentView::IncomingMessage(message)) => !(message.message_type is Other),
        _ => false,
    }
}

/// An envelope that can be handled is reported exactly if it holds a plain-text message, and what
/// is reported names a sender exactly if the user did not send it.
pub proof fn only_text_is_reported(opened: OpenedView, contacts: ContactStoreView)
    requires
        d2d::reflected(opened, contacts) is Ok,
    ensures
        ({
            let reflection = d2d::reflected(opened, contacts)->Ok_0;
            &&& reflection.event is Some <==> (opened matches OpenedView::Envelope(envelope)
                && is_text(envelope.content))
            &&& reflection.event matches Some(event) ==> {
                &&& event matches EventView::TextMessage(message)
                &&& message.sender_fits()
            }
        }),
{
}

/// Only a contact sync changes the contacts, and then the contacts are to be saved; an envelope
/// that cannot be handled, or that is reported, leaves them as they are.
pub proof fn only_syncs_change_contacts(opened: OpenedView, contacts: ContactStoreView)
    requires
        d2d::reflected(opened, contacts) is Ok,
    ensures
        ({
            let reflection = d2d::reflected(opened, contacts)->Ok_0;
            &&& reflection.contacts != contacts ==> {
                &&& opened matches OpenedView::Envelope(envelope)
                &&& envelope.content matches Some(ContentView::ContactSync(_))
                &&& reflection.save is Some
            }
            &&& reflection.event is Some ==> reflection.contacts == contacts
        }),
{
}

/// A synced contact can be used exactly if its identity is valid and it carries a public key of 32
/// bytes; numbers without a meaning are replaced, so that the contact is read back as it is.
pub proof fn decoded_contact_is_complete(contact: SyncedContact, enums: ContactEnums)
    requires
        enums.fallbacks_known(),
    ensures
        d2d::decoded(contact, enums) is Ok <==> (contact.identity.identity is Some && (
        contact.public_key matches Some(key) && key@.len() == 32)),
        d2d::decoded(contact, enums) matches Ok(decoded) ==> decoded.levels_known(enums)
            && decoded.public_key.len() == 32,
{
}

/// A sync stores the contact: afterwards it is known, and if it was new, looking it up gives
/// exactly what was synced.
pub proof fn synced_contact_is_found(contacts: ContactStoreView, sync: ContactSync)
    requires
        contacts.enums.fallbacks_known(),
        d2d::synced(contacts, sync) is Ok,
        sync.contact() is Some,
        d2d::decoded(sync.contact()->0, contacts.enums) is Ok,
    ensures
        ({
            let contact = d2d::decoded(sync.contact()->0, contacts.enums)->Ok_0;
            let (after, stored) = d2d::synced(contacts, sync)->Ok_0;
            &&& after.knows(contact.identity)
            &&& stored <==> !contacts.knows(contact.identity)
            &&& stored ==> after.get(contact.identity) == Ok::<
                Option<ContactView>,
                ProviderErrorView,
            >(Some(contact))
        }),
{
    let contact = d2d::decoded(sync.contact()->0, contacts.enums)->Ok_0;
    decoded_contact_is_complete(sync.contact()->0, contacts.enums);
    store_laws::stored_contact_is_restored(contact, contacts.enums);
}

/// A sync leaves every other contact, and every contact that was known before, as it was.
pub proof fn sync_leaves_known_contacts(
    contacts: ContactStoreView,
    sync: ContactSync,
    identity: Seq<char>,
)
    requires
        d2d::synced(contacts, sync) is Ok,
        contacts.knows(identity),
    ensures
        d2d::synced(contacts, sync)->Ok_0.0.get(identity) == contacts.get(identity),
        d2d::synced(contacts, sync)->Ok_0.0.contacts[identity] == contacts.contacts[identity],
{
}

/// A repeated sync is harmless: it succeeds, stores nothing and changes nothing.
pub proof fn repeated_sync_is_harmless(contacts: ContactStoreView, sync: ContactSync)
    requires
        d2d::synced(contacts, sync) is Ok,
    ensures
        ({
            let after = d2d::synced(contacts, sync)->Ok_0.0;
            d2d::synced(after, sync) == Ok::<(ContactStoreView, bool), ProviderErrorView>(
                (after, false),
            )
        }),
{
}

/// Of the envelopes that can be opened, only plain-text messages can fail; everything else,
/// contact syncs among it, is handled without an error, whatever it holds.
pub proof fn only_text_can_fail(envelope: EnvelopeView, contacts: ContactStoreView)
    requires
        !is_text(envelope.content),
    ensures
        d2d::reflected(OpenedView::Envelope(envelope), contacts) is Ok,
{
}

/// A reflected sync of the user's own identity does nothing.
pub proof fn sync_of_the_user_does_nothing(
    envelope: EnvelopeView,
    sync: ContactSync,
    contacts: ContactStoreView,
)
    requires
        envelope.content == Some(ContentView::ContactSync(sync)),
        sync.contact() matches Some(contact) && contact.identity.identity matches Some(identity)
            && identity@ == contacts.user_identity,
    ensures
        d2d::reflected(OpenedView::Envelope(envelope), contacts) == Ok::<
            ReflectionView,
            Seq<char>,
        >(ReflectionView { event: None, save: None, contacts }),
{
}

/// The user never becomes a contact through a sync; the contact store refuses nothing else.
pub proof fn sync_never_adds_the_user(contacts: ContactStoreView, sync: ContactSync)
    requires
        !contacts.knows(contacts.user_identity),
    ensures
        d2d::synced(contacts, sync) matches Ok((after, _)) ==> after.user_identity
            == contacts.user_identity && !after.knows(contacts.user_identity),
        d2d::synced(contacts, sync) matches Err(error) ==> error == store::user_refused(),
{
}

/// The conversation that an ID stands for: that with the contact it names, under the name that the
/// contact store has, the group or the distribution list that it names; unknown if it names none.
pub proof fn conversations_are_told_apart(
    contacts: ContactStoreView,
    identity: IdentityTextView,
    group: (Seq<char>, u64),
    list: u64,
)
    ensures
        d2d::conversation_of(contacts, Some(ConversationIdView::Contact(identity))) == (
        ConversationView::Contact {
            identity: identity.text,
            name: match identity.identity {
                Some(known) => conversation::name_in(contacts, known),
                None => None,
            },
        }),
        d2d::conversation_of(contacts, Some(ConversationIdView::Group(Some(group)))) == (
        ConversationView::Group { creator_identity: group.0, group_id: group.1 }),
        d2d::conversation_of(contacts, Some(ConversationIdView::Group(None)))
            == ConversationView::Unknown,
        d2d::conversation_of(contacts, Some(ConversationIdView::DistributionList(list))) == (
        ConversationView::DistributionList { id: list }),
        d2d::conversation_of(contacts, None) == ConversationView::Unknown,
{
}

/// A message that the user sent on another device is reported as one of their own, in its
/// conversation, with its text and time; the contacts stay and nothing is saved. One whose text is
/// not valid is an error, and other kinds of messages are left alone.
pub proof fn sent_messages_are_reported(
    envelope: EnvelopeView,
    message: OutgoingMessageView,
    contacts: ContactStoreView,
)
    requires
        envelope.content == Some(ContentView::OutgoingMessage(message)),
    ensures
        d2d::reflected(OpenedView::Envelope(envelope), contacts) == (
        match message.message_type {
            MessageType::Other => Ok::<ReflectionView, Seq<char>>(
                ReflectionView { event: None, save: None, contacts },
            ),
            _ => if vstd::utf8::valid_utf8(message.body) {
                Ok(
                    ReflectionView {
                        event: Some(
                            EventView::TextMessage(
                                TextMessageView {
                                    timestamp_ms: message.created_at,
                                    outgoing: true,
                                    conversation: d2d::conversation_of(
                                        contacts,
                                        message.conversation,
                                    ),
                                    sender_identity: None,
                                    sender_name: None,
                                    text: vstd::utf8::decode_utf8(message.body),
                                },
                            ),
                        ),
                        save: None,
                        contacts,
                    },
                )
            } else {
                Err("Outgoing message body is not valid UTF-8"@)
            },
        }),
{
}

/// A message that another device received is reported as coming from its sender, with its text and
/// time: a message from a contact in the conversation with the sender, under the sender's name, and
/// one in a group in an unknown conversation; the contacts stay and nothing is saved. One whose text
/// is not valid is an error, and other kinds of messages are left alone.
pub proof fn received_messages_are_reported(
    envelope: EnvelopeView,
    message: IncomingMessageView,
    contacts: ContactStoreView,
)
    requires
        envelope.content == Some(ContentView::IncomingMessage(message)),
    ensures
        ({
            let name = match message.sender_identity.identity {
                Some(known) => conversation::name_in(contacts, known),
                None => None,
            };
            d2d::reflected(OpenedView::Envelope(envelope), contacts) == (
            match message.message_type {
                MessageType::Other => Ok::<ReflectionView, Seq<char>>(
                    ReflectionView { event: None, save: None, contacts },
                ),
                _ => if vstd::utf8::valid_utf8(message.body) {
                    Ok(
                        ReflectionView {
                            event: Some(
                                EventView::TextMessage(
                                    TextMessageView {
                                        timestamp_ms: message.created_at,
                                        outgoing: false,
                                        conversation: match message.message_type {
                                            MessageType::Text => ConversationView::Contact {
                                                identity: message.sender_identity.text,
                                                name,
                                            },
                                            _ => ConversationView::Unknown,
                                        },
                                        sender_identity: Some(message.sender_identity.text),
                                        sender_name: name,
                                        text: vstd::utf8::decode_utf8(message.body),
                                    },
                                ),
                            ),
                            save: None,
                            contacts,
                        },
                    )
                } else {
                    Err("Incoming message body is not valid UTF-8"@)
                },
            })
        }),
{
}

/// Content that is neither a message nor a contact sync, or that is absent, is left alone; an
/// envelope that cannot be opened is an error that says at which step.
pub proof fn everything_else_is_left_alone(envelope: EnvelopeView, contacts: ContactStoreView)
    ensures
        match envelope.content {
            Some(ContentView::OutgoingMessage(_)) => true,
            Some(ContentView::IncomingMessage(_)) => true,
            Some(ContentView::ContactSync(_)) => true,
            _ => d2d::reflected(OpenedView::Envelope(envelope), contacts) == Ok::<
                ReflectionView,
                Seq<char>,
            >(ReflectionView { event: None, save: None, contacts }),
        },
        d2d::reflected(OpenedView::NotDecrypted, contacts) == Err::<ReflectionView, Seq<char>>(
            "Decrypting reflected D2D envelope failed"@,
        ),
        d2d::reflected(OpenedView::NotDecoded, contacts) == Err::<ReflectionView, Seq<char>>(
            "Failed to decode d2d.Envelope"@,
        ),
{
}

/// What an optional number of a synced contact stands for: itself if it has a meaning, else the
/// fallback.
pub open spec fn stands_for(enumeration: EnumValues, value: Option<i32>, result: i32) -> bool {
    match value {
        Some(value) => if enumeration.known@.contains(value) {
            result == value
        } else {
            result == enumeration.fallback
        },
        None => result == enumeration.fallback,
    }
}

/// A synced contact is taken over as it is described: identity, public key, names, numbers and
/// features, where absent times and features are zero and absent numbers, and those without a
/// meaning, fall back; its conversation has the category and visibility of a new one.
pub proof fn descriptions_are_taken_over(contact: SyncedContact, enums: ContactEnums)
    ensures
        d2d::decoded(contact, enums) matches Ok(decoded) ==> {
            &&& contact.identity.identity matches Some(identity) && decoded.identity == identity@
            &&& contact.public_key matches Some(key) && decoded.public_key == key@
            &&& match contact.created_at {
                Some(time) => decoded.created_at == time,
                None => decoded.created_at == 0,
            }
            &&& match contact.first_name {
                Some(name) => decoded.first_name == Some(name@),
                None => decoded.first_name is None,
            }
            &&& match contact.last_name {
                Some(name) => decoded.last_name == Some(name@),
                None => decoded.last_name is None,
            }
            &&& match contact.nickname {
                Some(name) => decoded.nickname == Some(name@),
                None => decoded.nickname is None,
            }
            &&& match contact.feature_mask {
                Some(mask) => decoded.feature_mask == mask,
                None => decoded.feature_mask == 0,
            }
            &&& stands_for(
                enums.verification_level,
                contact.verification_level,
                decoded.verification_level,
            )
            &&& stands_for(
                enums.work_verification_level,
                contact.work_verification_level,
                decoded.work_verification_level,
            )
            &&& stands_for(enums.identity_type, contact.identity_type, decoded.identity_type)
            &&& stands_for(
                enums.acquaintance_level,
                contact.acquaintance_level,
                decoded.acquaintance_level,
            )
            &&& stands_for(enums.activity_state, contact.activity_state, decoded.activity_state)
            &&& stands_for(enums.sync_state, contact.sync_state, decoded.sync_state)
            &&& decoded.conversation_category == enums.conversation_category.fallback
            &&& decoded.conversation_visibility == enums.conversation_visibility.fallback
        },
{
}

/// Why a synced contact cannot be used: its identity is not valid, which is named; else it carries
/// no public key; else its public key does not have 32 bytes.
pub proof fn unusable_descriptions_are_explained(contact: SyncedContact, enums: ContactEnums)
    ensures
        contact.identity.identity is None ==> d2d::decoded(contact, enums) == Err::<
            ContactView,
            Seq<char>,
        >("Synced contact has an invalid Threema ID: "@ + contact.identity.text@),
        contact.identity.identity is Some && contact.public_key is None ==> d2d::decoded(
            contact,
            enums,
        ) == Err::<ContactView, Seq<char>>("Synced contact carries no public key"@),
        contact.identity.identity is Some && (contact.public_key matches Some(key) && key@.len()
            != 32) ==> d2d::decoded(contact, enums) == Err::<ContactView, Seq<char>>(
            "Synced contact has a malformed public key"@,
        ),
{
}

/// An update from a sibling device is handled just as a creation is.
pub proof fn updates_are_syncs_too(contacts: ContactStoreView, contact: Option<SyncedContact>)
    ensures
        d2d::synced(contacts, ContactSync { action: Some(ContactSyncAction::Update(contact)) })
            == d2d::synced(
            contacts,
            ContactSync { action: Some(ContactSyncAction::Create(contact)) },
        ),
        (ContactSync { action: Some(ContactSyncAction::Create(contact)) }).contact() == contact,
{
}

/// A contact that is synced, usable and new, and is not the user, is stored under its identity,
/// beside everything that was there, and the contacts are saved; in every other case a sync changes
/// nothing and has nothing saved.
pub proof fn only_new_contacts_are_stored(
    envelope: EnvelopeView,
    sync: ContactSync,
    contacts: ContactStoreView,
)
    requires
        envelope.content == Some(ContentView::ContactSync(sync)),
    ensures
        ({
            let reflection = d2d::reflected(OpenedView::Envelope(envelope), contacts)->Ok_0;
            let described = match sync.action {
                Some(ContactSyncAction::Create(contact)) => contact,
                Some(ContactSyncAction::Update(contact)) => contact,
                None => None,
            };
            let new = match described {
                Some(contact) => match d2d::decoded(contact, contacts.enums) {
                    Ok(decoded) => if decoded.identity != contacts.user_identity
                        && !contacts.contacts.dom().contains(decoded.identity) {
                        Some(decoded)
                    } else {
                        None
                    },
                    Err(_) => None,
                },
                None => None,
            };
            &&& d2d::reflected(OpenedView::Envelope(envelope), contacts) is Ok
            &&& reflection.event is None
            &&& match new {
                Some(contact) => {
                    &&& reflection.save == Some(StateFile::Contacts)
                    &&& reflection.contacts == (ContactStoreView {
                        contacts: contacts.contacts.insert(
                            contact.identity,
                            store::stored(contact),
                        ),
                        ..contacts
                    })
                },
                None => reflection.save is None && reflection.contacts == contacts,
            }
        }),
{
}

/// The names that kinds of content are logged under: each its own, and one for none.
pub proof fn content_is_named(
    outgoing: OutgoingMessageView,
    updates: Seq<OutgoingMessageUpdateView>,
    incoming: IncomingMessageView,
    sync: ContactSync,
)
    ensures
        d2d::name_of_content(Some(ContentView::OutgoingMessage(outgoing))) == "OutgoingMessage"@,
        d2d::name_of_content(Some(ContentView::OutgoingMessageUpdate(updates)))
            == "OutgoingMessageUpdate"@,
        d2d::name_of_content(Some(ContentView::IncomingMessage(incoming))) == "IncomingMessage"@,
        d2d::name_of_content(Some(ContentView::IncomingMessageUpdate))
            == "IncomingMessageUpdate"@,
        d2d::name_of_content(Some(ContentView::UserProfileSync)) == "UserProfileSync"@,
        d2d::name_of_content(Some(ContentView::ContactSync(sync))) == "ContactSync"@,
        d2d::name_of_content(Some(ContentView::GroupSync)) == "GroupSync"@,
        d2d::name_of_content(Some(ContentView::DistributionListSync)) == "DistributionListSync"@,
        d2d::name_of_content(Some(ContentView::SettingsSync)) == "SettingsSync"@,
        d2d::name_of_content(Some(ContentView::MdmParameterSync)) == "MdmParameterSync"@,
        d2d::name_of_content(None) == "(empty)"@,
{
}

/// The value of an update on a message is all that it holds: the conversation, the message ID and
/// what became of the message.
pub proof fn updates_mean_what_they_hold(updates: Vec<OutgoingMessageUpdate>, i: int)
    requires
        0 <= i < updates@.len(),
    ensures
        ({
            let update = updates@[i];
            &&& Content::OutgoingMessageUpdate(updates)@ matches ContentView::OutgoingMessageUpdate(
                values,
            )
            &&& values.len() == updates@.len()
            &&& values[i].message_id == update.message_id
            &&& values[i].update == update.update
            &&& match update.conversation {
                Some(ConversationId::Contact(identity)) => {
                    &&& values[i].conversation matches Some(ConversationIdView::Contact(contact))
                    &&& contact.text == identity.text@
                    &&& match identity.identity {
                        Some(known) => contact.identity == Some(known.text@),
                        None => contact.identity is None,
                    }
                },
                Some(ConversationId::Group(Some(group))) => values[i].conversation == Some(
                    ConversationIdView::Group(
                        Some((group.creator_identity.text@, group.group_id)),
                    ),
                ),
                Some(ConversationId::Group(None)) => values[i].conversation == Some(
                    ConversationIdView::Group(None),
                ),
                Some(ConversationId::DistributionList(id)) => values[i].conversation == Some(
                    ConversationIdView::DistributionList(id),
                ),
                None => values[i].conversation is None,
            }
        }),
{
}

/// The value of a message that the user sent is all that it holds.
pub proof fn sent_messages_mean_what_they_hold(message: OutgoingMessage)
    ensures
        ({
            &&& Content::OutgoingMessage(message)@ matches ContentView::OutgoingMessage(value)
            &&& value.conversation == match message.conversation {
                Some(conversation) => Some(conversation@),
                None => None,
            }
            &&& value.message_id == message.message_id
            &&& value.thread_message_id == message.thread_message_id
            &&& value.created_at == message.created_at
            &&& value.message_type == message.message_type
            &&& value.body == message.body@
            &&& value.nonces.len() == message.nonces@.len()
            &&& forall|i: int|
                0 <= i < message.nonces@.len() ==> #[trigger] value.nonces[i]
                    == message.nonces@[i]@
        }),
{
}

/// The value of a message that another device received is all that it holds.
pub proof fn received_messages_mean_what_they_hold(message: IncomingMessage)
    ensures
        Content::IncomingMessage(message)@ == ContentView::IncomingMessage(
            IncomingMessageView {
                sender_identity: message.sender_identity@,
                created_at: message.created_at,
                message_type: message.message_type,
                body: message.body@,
            },
        ),
{
}

} // verus!
