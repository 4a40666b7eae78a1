//! Reflected envelopes: what a sibling device tells the others about messages it has sent or
//! received and about contacts, so that every linked device's history stays consistent.
//!
//! Of everything that is reflected, plain-text messages become [`Event`]s and contact syncs are
//! stored; the rest is left alone.

use vstd::prelude::*;
use vstd::string::*;

use crate::contact::{Contact, ContactEnums, ContactView};
use crate::conversation::{self, contact_name};
use crate::event::{self, Conversation, ConversationView, Event, EventView, TextMessage, TextMessageView};
use crate::model::{GroupIdentity, IdentityText, IdentityTextView, PublicKey, ThreemaId};
use crate::store::{self, ContactStore, ContactStoreView, ProviderError, ProviderErrorView, StateFile};
use crate::text::text_from_utf8;

verus! {

// Envelopes
// ---------
/// The version of the sync protocol that an envelope follows.
#[derive(Debug, Clone, Copy, PartialEq, Eq, Structural)]
pub enum ProtocolVersion {
    V03,
    Other(u32),
}

/// The kinds of end-to-end encrypted messages, as far as they are told apart here.
#[derive(Debug, Clone, Copy, PartialEq, Eq, Structural)]
pub enum MessageType {
    Text,
    GroupText,
    Other,
}

/// Which conversation some content belongs to.
#[derive(Debug, Clone)]
pub enum ConversationId {
    Contact(IdentityText),
    /// `None` if what identifies the group is not valid.
    Group(Option<GroupIdentity>),
    DistributionList(u64),
}

/// The mathematical value of a [`ConversationId`].
#[verifier::ext_equal]
pub ghost enum ConversationIdView {
    Contact(IdentityTextView),
    Group(Option<(Seq<char>, u64)>),
    DistributionList(u64),
}

impl View for ConversationId {
    type V = ConversationIdView;

    open spec fn view(&self) -> ConversationIdView {
        match self {
            ConversationId::Contact(identity) => ConversationIdView::Contact(identity@),
            ConversationId::Group(group) => ConversationIdView::Group(
                match group {
                    Some(group) => Some(group@),
                    None => None,
                },
            ),
            ConversationId::DistributionList(id) => ConversationIdView::DistributionList(*id),
        }
    }
}

/// The value of a conversation ID that may be absent.
pub open spec fn conversation_id_view(id: Option<ConversationId>) -> Option<ConversationIdView> {
    match id {
        Some(id) => Some(id@),
        None => None,
    }
}

/// A message that the user sent.
#[derive(Debug, Clone)]
pub struct OutgoingMessage {
    pub conversation: Option<ConversationId>,
    pub message_id: u64,
    pub thread_message_id: Option<u64>,
    /// Milliseconds since the Unix epoch.
    pub created_at: u64,
    pub message_type: MessageType,
    pub body: Vec<u8>,
    /// The nonces that the message was encrypted with.
    pub nonces: Vec<Vec<u8>>,
}

/// The mathematical value of an [`OutgoingMessage`].
#[verifier::ext_equal]
pub ghost struct OutgoingMessageView {
    pub conversation: Option<ConversationIdView>,
    pub message_id: u64,
    pub thread_message_id: Option<u64>,
    pub created_at: u64,
    pub message_type: MessageType,
    pub body: Seq<u8>,
    pub nonces: Seq<Seq<u8>>,
}

impl View for OutgoingMessage {
    type V = OutgoingMessageView;

    open spec fn view(&self) -> OutgoingMessageView {
        OutgoingMessageView {
            conversation: conversation_id_view(self.conversation),
            message_id: self.message_id,
            thread_message_id: self.thread_message_id,
            created_at: self.created_at,
            message_type: self.message_type,
            body: self.body@,
            nonces: self.nonces@.map_values(|nonce: Vec<u8>| nonce@),
        }
    }
}

/// What became of a message that the user sent.
#[derive(Debug, Clone, Copy, PartialEq, Eq, Structural)]
pub enum UpdateKind {
    /// The chat server accepted it.
    Sent,
    Other,
}

/// An update on a message that the user sent.
#[derive(Debug, Clone)]
pub struct OutgoingMessageUpdate {
    pub conversation: Option<ConversationId>,
    pub message_id: u64,
    pub update: Option<UpdateKind>,
}

/// The mathematical value of an [`OutgoingMessageUpdate`].
#[verifier::ext_equal]
pub ghost struct OutgoingMessageUpdateView {
    pub conversation: Option<ConversationIdView>,
    pub message_id: u64,
    pub update: Option<UpdateKind>,
}

impl View for OutgoingMessageUpdate {
    type V = OutgoingMessageUpdateView;

    open spec fn view(&self) -> OutgoingMessageUpdateView {
        OutgoingMessageUpdateView {
            conversation: conversation_id_view(self.conversation),
            message_id: self.message_id,
            update: self.update,
        }
    }
}

/// A message that another device received.
#[derive(Debug, Clone)]
pub struct IncomingMessage {
    pub sender_identity: IdentityText,
    /// Milliseconds since the Unix epoch.
    pub created_at: u64,
    pub message_type: MessageType,
    pub body: Vec<u8>,
}

/// The mathematical value of an [`IncomingMessage`].
#[verifier::ext_equal]
pub ghost struct IncomingMessageView {
    pub sender_identity: IdentityTextView,
    pub created_at: u64,
    pub message_type: MessageType,
    pub body: Seq<u8>,
}

impl View for IncomingMessage {
    type V = IncomingMessageView;

    open spec fn view(&self) -> IncomingMessageView {
        IncomingMessageView {
            sender_identity: self.sender_identity@,
            created_at: self.created_at,
            message_type: self.message_type,
            body: self.body@,
        }
    }
}

/// A contact as a sibling device describes it. An update only holds what changed.
#[derive(Debug, Clone)]
pub struct SyncedContact {
    pub identity: IdentityText,
    pub public_key: Option<Vec<u8>>,
    pub created_at: Option<u64>,
    pub first_name: Option<String>,
    pub last_name: Option<String>,
    pub nickname: Option<String>,
    pub verification_level: Option<i32>,
    pub work_verification_level: Option<i32>,
    pub identity_type: Option<i32>,
    pub acquaintance_level: Option<i32>,
    pub activity_state: Option<i32>,
    pub feature_mask: Option<u64>,
    pub sync_state: Option<i32>,
}

/// What a sibling device did to a contact.
#[derive(Debug, Clone)]
pub enum ContactSyncAction {
    Create(Option<SyncedContact>),
    Update(Option<SyncedContact>),
}

/// A change to a contact that a sibling device made.
#[derive(Debug, Clone)]
pub struct ContactSync {
    pub action: Option<ContactSyncAction>,
}

impl ContactSync {
    /// The contact that was created or updated, if there is one.
    pub open spec fn contact(self) -> Option<SyncedContact> {
        match self.action {
            Some(ContactSyncAction::Create(contact)) => contact,
            Some(ContactSyncAction::Update(contact)) => contact,
            None => None,
        }
    }
}

/// What an envelope holds.
#[derive(Debug, Clone)]
pub enum Content {
    OutgoingMessage(OutgoingMessage),
    OutgoingMessageUpdate(Vec<OutgoingMessageUpdate>),
    IncomingMessage(IncomingMessage),
    IncomingMessageUpdate,
    UserProfileSync,
    ContactSync(ContactSync),
    GroupSync,
    DistributionListSync,
    SettingsSync,
    MdmParameterSync,
}

/// The mathematical value of some [`Content`].
#[verifier::ext_equal]
pub ghost enum ContentView {
    OutgoingMessage(OutgoingMessageView),
    OutgoingMessageUpdate(Seq<OutgoingMessageUpdateView>),
    IncomingMessage(IncomingMessageView),
    IncomingMessageUpdate,
    UserProfileSync,
    ContactSync(ContactSync),
    GroupSync,
    DistributionListSync,
    SettingsSync,
    MdmParameterSync,
}

impl View for Content {
    type V = ContentView;

    open spec fn view(&self) -> ContentView {
        match self {
            Content::OutgoingMessage(message) => ContentView::OutgoingMessage(message@),
            Content::OutgoingMessageUpdate(updates) => ContentView::OutgoingMessageUpdate(
                updates@.map_values(|update: OutgoingMessageUpdate| update@),
            ),
            Content::IncomingMessage(message) => ContentView::IncomingMessage(message@),
            Content::IncomingMessageUpdate => ContentView::IncomingMessageUpdate,
            Content::UserProfileSync => ContentView::UserProfileSync,
            Content::ContactSync(sync) => ContentView::ContactSync(*sync),
            Content::GroupSync => ContentView::GroupSync,
            Content::DistributionListSync => ContentView::DistributionListSync,
            Content::SettingsSync => ContentView::SettingsSync,
            Content::MdmParameterSync => ContentView::MdmParameterSync,
        }
    }
}

/// A reflected envelope in the clear. (Padding is applied when it is encrypted.)
#[derive(Debug, Clone)]
pub struct Envelope {
    pub device_id: u64,
    pub protocol_version: ProtocolVersion,
    pub content: Option<Content>,
}

/// The mathematical value of an [`Envelope`].
#[verifier::ext_equal]
pub ghost struct EnvelopeView {
    pub device_id: u64,
    pub protocol_version: ProtocolVersion,
    pub content: Option<ContentView>,
}

impl View for Envelope {
    type V = EnvelopeView;

    open spec fn view(&self) -> EnvelopeView {
        EnvelopeView {
            device_id: self.device_id,
            protocol_version: self.protocol_version,
            content: match self.content {
                Some(content) => Some(content@),
                None => None,
            },
        }
    }
}

/// What came of opening a reflected envelope.
#[derive(Debug, Clone)]
pub enum Opened {
    /// It could not be decrypted.
    NotDecrypted,
    /// It could be decrypted, but does not hold an envelope.
    NotDecoded,
    Envelope(Envelope),
}

/// The mathematical value of an [`Opened`].
#[verifier::ext_equal]
pub ghost enum OpenedView {
    NotDecrypted,
    NotDecoded,
    Envelope(EnvelopeView),
}

impl View for Opened {
    type V = OpenedView;

    open spec fn view(&self) -> OpenedView {
        match self {
            Opened::NotDecrypted => OpenedView::NotDecrypted,
            Opened::NotDecoded => OpenedView::NotDecoded,
            Opened::Envelope(envelope) => OpenedView::Envelope(envelope@),
        }
    }
}

// Conversations
// -------------
/// The name of the contact with the given identity, if it is a valid one.
pub open spec fn name_of_text(contacts: ContactStoreView, identity: IdentityTextView) -> Option<
    Seq<char>,
> {
    match identity.identity {
        Some(identity) => conversation::name_in(contacts, identity),
        None => None,
    }
}

fn name_of_identity(contacts: &ContactStore, identity: &Option<ThreemaId>) -> (name: Option<String>)
    ensures
        name.deep_view() == match identity {
            Some(identity) => conversation::name_in(contacts@, identity@),
            None => None,
        },
{
    match identity {
        Some(identity) => contact_name(contacts, identity),
        None => None,
    }
}

/// The conversation that a conversation ID stands for.
pub open spec fn conversation_of(
    contacts: ContactStoreView,
    id: Option<ConversationIdView>,
) -> ConversationView {
    match id {
        Some(ConversationIdView::Contact(identity)) => ConversationView::Contact {
            identity: identity.text,
            name: name_of_text(contacts, identity),
        },
        Some(ConversationIdView::Group(Some(group))) => ConversationView::Group {
            creator_identity: group.0,
            group_id: group.1,
        },
        Some(ConversationIdView::DistributionList(id)) => ConversationView::DistributionList { id },
        _ => ConversationView::Unknown,
    }
}

/// The conversation that a conversation ID stands for.
pub fn conversation(contacts: &ContactStore, id: Option<ConversationId>) -> (result: Conversation)
    ensures
        result@ == conversation_of(contacts@, conversation_id_view(id)),
{
    match id {
        Some(ConversationId::Contact(identity)) => {
            let name = name_of_identity(contacts, &identity.identity);
            Conversation::Contact { identity: identity.text, name }
        },
        Some(ConversationId::Group(Some(group))) => Conversation::Group {
            creator_identity: group.creator_identity.to_string(),
            group_id: group.group_id,
        },
        Some(ConversationId::Group(None)) => Conversation::Unknown,
        Some(ConversationId::DistributionList(id)) => Conversation::DistributionList { id },
        None => Conversation::Unknown,
    }
}

/// Whether a message of this kind is plain text.
pub fn is_text_type(message_type: MessageType) -> (text: bool)
    ensures
        text == (message_type is Text || message_type is GroupText),
{
    match message_type {
        MessageType::Text | MessageType::GroupText => true,
        MessageType::Other => false,
    }
}

// Contacts
// --------
/// The contact that a complete description stands for, or why it does not stand for one. What is
/// absent falls back to the default.
pub open spec fn decoded(contact: SyncedContact, enums: ContactEnums) -> Result<
    ContactView,
    Seq<char>,
> {
    match (contact.identity.identity, contact.public_key) {
        (None, _) => Err(
            "Synced contact has an invalid Threema ID: "@ + contact.identity.text@,
        ),
        (Some(_), None) => Err("Synced contact carries no public key"@),
        (Some(identity), Some(public_key)) => if public_key@.len() != 32 {
            Err("Synced contact has a malformed public key"@)
        } else {
            Ok(
                ContactView {
                    identity: identity@,
                    public_key: public_key@,
                    created_at: store::or_else(contact.created_at, 0),
                    first_name: contact.first_name.deep_view(),
                    last_name: contact.last_name.deep_view(),
                    nickname: contact.nickname.deep_view(),
                    verification_level: enums.verification_level.resolved_option(
                        contact.verification_level,
                    ),
                    work_verification_level: enums.work_verification_level.resolved_option(
                        contact.work_verification_level,
                    ),
                    identity_type: enums.identity_type.resolved_option(contact.identity_type),
                    acquaintance_level: enums.acquaintance_level.resolved_option(
                        contact.acquaintance_level,
                    ),
                    activity_state: enums.activity_state.resolved_option(contact.activity_state),
                    feature_mask: store::or_else(contact.feature_mask, 0),
                    sync_state: enums.sync_state.resolved_option(contact.sync_state),
                    conversation_category: enums.conversation_category.fallback,
                    conversation_visibility: enums.conversation_visibility.fallback,
                },
            )
        },
    }
}

/// Maps a contact as synced by a sibling device onto a contact, or says why it cannot be used.
pub fn decode_synced_contact(contact: SyncedContact, enums: &ContactEnums) -> (result: Result<
    Contact,
    String,
>)
    ensures
        match decoded(contact, *enums) {
            Ok(expected) => result matches Ok(contact) && contact@ == expected,
            Err(error) => result matches Err(text) && text@ == error,
        },
{
    let identity = match contact.identity.identity {
        Some(identity) => identity,
        None => {
            let mut text: String = "Synced contact has an invalid Threema ID: ".to_owned();
            text.append(contact.identity.text.as_str());
            return Err(text);
        },
    };
    let public_key = match contact.public_key {
        Some(bytes) => match PublicKey::from_bytes(bytes.as_slice()) {
            Some(public_key) => public_key,
            None => {
                return Err("Synced contact has a malformed public key".to_owned());
            },
        },
        None => {
            return Err("Synced contact carries no public key".to_owned());
        },
    };
    Ok(
        Contact {
            identity,
            public_key,
            created_at: match contact.created_at {
                Some(created_at) => created_at,
                None => 0,
            },
            first_name: contact.first_name,
            last_name: contact.last_name,
            nickname: contact.nickname,
            verification_level: enums.verification_level.resolve_option(contact.verification_level),
            work_verification_level: enums.work_verification_level.resolve_option(
                contact.work_verification_level,
            ),
            identity_type: enums.identity_type.resolve_option(contact.identity_type),
            acquaintance_level: enums.acquaintance_level.resolve_option(contact.acquaintance_level),
            activity_state: enums.activity_state.resolve_option(contact.activity_state),
            feature_mask: match contact.feature_mask {
                Some(feature_mask) => feature_mask,
                None => 0,
            },
            sync_state: enums.sync_state.resolve_option(contact.sync_state),
            conversation_category: enums.conversation_category.fallback,
            conversation_visibility: enums.conversation_visibility.fallback,
        },
    )
}

/// The contacts with one more.
pub open spec fn with_contact(contacts: ContactStoreView, contact: ContactView) -> ContactStoreView {
    ContactStoreView {
        contacts: contacts.contacts.insert(contact.identity, store::stored(contact)),
        ..contacts
    }
}

/// The contacts after a sync, and whether something was stored. A contact that is known already
/// stays as it is, and what cannot be used is ignored; the user's own identity is refused.
pub open spec fn synced(contacts: ContactStoreView, sync: ContactSync) -> Result<
    (ContactStoreView, bool),
    ProviderErrorView,
> {
    match sync.contact() {
        None => Ok((contacts, false)),
        Some(contact) => match decoded(contact, contacts.enums) {
            Err(_) => Ok((contacts, false)),
            Ok(contact) => if contact.identity == contacts.user_identity {
                Err(store::user_refused())
            } else if contacts.knows(contact.identity) {
                Ok((contacts, false))
            } else {
                Ok((with_contact(contacts, contact), true))
            },
        },
    }
}

/// Stores a contact that a sibling device created or updated. This is the only way to learn of
/// contacts while a sibling is the one that talks to the chat server. Says which file has to be
/// rewritten, if something was stored.
///
/// An update normally does not repeat the public key; it is only useful if the creation was
/// missed, and is ignored without a key.
pub fn handle_contact_sync(contacts: &mut ContactStore, sync: ContactSync) -> (result: Result<
    Option<StateFile>,
    ProviderError,
>)
    ensures
        match synced(old(contacts)@, sync) {
            Ok((after, stored)) => {
                &&& result == Ok::<Option<StateFile>, ProviderError>(
                    if stored {
                        Some(StateFile::Contacts)
                    } else {
                        None
                    },
                )
                &&& final(contacts)@ == after
            },
            Err(error) => {
                &&& result matches Err(returned) && returned@ == error
                &&& final(contacts)@ == old(contacts)@
            },
        },
{
    let contact = match sync.action {
        Some(ContactSyncAction::Create(contact)) => contact,
        Some(ContactSyncAction::Update(contact)) => contact,
        None => None,
    };
    let contact = match contact {
        Some(contact) => contact,
        None => {
            return Ok(None);
        },
    };
    let contact = match decode_synced_contact(contact, contacts.enums()) {
        Ok(contact) => contact,
        Err(_) => {
            return Ok(None);
        },
    };
    match contacts.has(&contact.identity) {
        Err(error) => {
            return Err(error);
        },
        Ok(true) => {
            return Ok(None);
        },
        Ok(false) => {},
    }
    let ghost expected = with_contact(contacts@, contact@);
    let added: Vec<Contact> = vec![contact];
    proof {
        assert(added@.drop_last() =~= Seq::empty());
        reveal_with_fuel(ContactStoreView::add_all_refused, 2);
        reveal_with_fuel(ContactStoreView::with_contacts, 2);
        assert(contacts@.with_contacts(added@) == expected);
    }
    match contacts.add(added) {
        Ok(file) => Ok(Some(file)),
        Err(error) => Err(error),
    }
}

// Reflected envelopes
// -------------------
/// What came of a reflected envelope.
#[derive(Debug)]
pub struct Reflection {
    /// What to report, if anything.
    pub event: Option<Event>,
    /// The file that has to be rewritten, if any.
    pub save: Option<StateFile>,
}

/// What comes of a reflected envelope, and the contacts afterwards.
#[verifier::ext_equal]
pub ghost struct ReflectionView {
    pub event: Option<EventView>,
    pub save: Option<StateFile>,
    pub contacts: ContactStoreView,
}

/// The text of an outgoing message, reported as such.
pub open spec fn outgoing_text(
    contacts: ContactStoreView,
    message: OutgoingMessageView,
) -> TextMessageView {
    TextMessageView {
        timestamp_ms: message.created_at,
        outgoing: true,
        conversation: conversation_of(contacts, message.conversation),
        sender_identity: None,
        sender_name: None,
        text: vstd::utf8::decode_utf8(message.body),
    }
}

/// The text of an incoming message, reported as such. It carries no conversation; only for a
/// one-to-one text is it implied by the sender.
pub open spec fn incoming_text(
    contacts: ContactStoreView,
    message: IncomingMessageView,
) -> TextMessageView {
    let sender_name = name_of_text(contacts, message.sender_identity);
    TextMessageView {
        timestamp_ms: message.created_at,
        outgoing: false,
        conversation: if message.message_type is Text {
            ConversationView::Contact { identity: message.sender_identity.text, name: sender_name }
        } else {
            ConversationView::Unknown
        },
        sender_identity: Some(message.sender_identity.text),
        sender_name,
        text: vstd::utf8::decode_utf8(message.body),
    }
}

/// What comes of some reflected content: an event if (and only if) it is a plain-text message, a
/// stored contact if it is a contact sync, and nothing of everything else.
pub open spec fn reflected_content(content: Option<ContentView>, contacts: ContactStoreView) -> Result<
    ReflectionView,
    Seq<char>,
> {
    let nothing = ReflectionView { event: None, save: None, contacts };
    match content {
        Some(ContentView::OutgoingMessage(message)) => if message.message_type is Other {
            Ok(nothing)
        } else if !vstd::utf8::valid_utf8(message.body) {
            Err("Outgoing message body is not valid UTF-8"@)
        } else {
            Ok(
                ReflectionView {
                    event: Some(EventView::TextMessage(outgoing_text(contacts, message))),
                    ..nothing
                },
            )
        },
        Some(ContentView::IncomingMessage(message)) => if message.message_type is Other {
            Ok(nothing)
        } else if !vstd::utf8::valid_utf8(message.body) {
            Err("Incoming message body is not valid UTF-8"@)
        } else {
            Ok(
                ReflectionView {
                    event: Some(EventView::TextMessage(incoming_text(contacts, message))),
                    ..nothing
                },
            )
        },
        Some(ContentView::ContactSync(sync)) => match synced(contacts, sync) {
            Ok((after, stored)) => Ok(
                ReflectionView {
                    event: None,
                    save: if stored {
                        Some(StateFile::Contacts)
                    } else {
                        None
                    },
                    contacts: after,
                },
            ),
            // Not for the contact store, but no error of the envelope.
            Err(_) => Ok(nothing),
        },
        _ => Ok(nothing),
    }
}

/// What comes of a reflected envelope.
pub open spec fn reflected(opened: OpenedView, contacts: ContactStoreView) -> Result<
    ReflectionView,
    Seq<char>,
> {
    match opened {
        OpenedView::NotDecrypted => Err("Decrypting reflected D2D envelope failed"@),
        OpenedView::NotDecoded => Err("Failed to decode d2d.Envelope"@),
        OpenedView::Envelope(envelope) => reflected_content(envelope.content, contacts),
    }
}

/// Handles a reflected envelope. Only one that cannot be opened, or a plain-text message that is
/// not valid UTF-8, is an error; a contact sync never is.
pub fn handle_reflected_envelope(opened: Opened, contacts: &mut ContactStore) -> (result: Result<
    Reflection,
    String,
>)
    ensures
        match reflected(opened@, old(contacts)@) {
            Ok(expected) => {
                &&& result matches Ok(reflection)
                &&& event::event_view(reflection.event) == expected.event
                &&& reflection.save == expected.save
                &&& final(contacts)@ == expected.contacts
            },
            Err(error) => {
                &&& result matches Err(returned)
                &&& returned@ == error
                &&& final(contacts)@ == old(contacts)@
            },
        },
{
    let envelope = match opened {
        Opened::NotDecrypted => {
            return Err("Decrypting reflected D2D envelope failed".to_owned());
        },
        Opened::NotDecoded => {
            return Err("Failed to decode d2d.Envelope".to_owned());
        },
        Opened::Envelope(envelope) => envelope,
    };
    match envelope.content {
        Some(Content::OutgoingMessage(message)) => {
            if !is_text_type(message.message_type) {
                return Ok(Reflection { event: None, save: None });
            }
            let text = match text_from_utf8(message.body) {
                Some(text) => text,
                None => {
                    return Err("Outgoing message body is not valid UTF-8".to_owned());
                },
            };
            let message = TextMessage {
                timestamp_ms: message.created_at,
                outgoing: true,
                conversation: conversation(contacts, message.conversation),
                sender_identity: None,
                sender_name: None,
                text,
            };
            Ok(Reflection { event: Some(Event::TextMessage(message)), save: None })
        },
        Some(Content::IncomingMessage(message)) => {
            if !is_text_type(message.message_type) {
                return Ok(Reflection { event: None, save: None });
            }
            let text = match text_from_utf8(message.body) {
                Some(text) => text,
                None => {
                    return Err("Incoming message body is not valid UTF-8".to_owned());
                },
            };
            let sender_name = name_of_identity(contacts, &message.sender_identity.identity);
            let conversation = match message.message_type {
                MessageType::Text => Conversation::Contact {
                    identity: message.sender_identity.text.clone(),
                    name: crate::contact::clone_text(&sender_name),
                },
                _ => Conversation::Unknown,
            };
            let message = TextMessage {
                timestamp_ms: message.created_at,
                outgoing: false,
                conversation,
                sender_identity: Some(message.sender_identity.text),
                sender_name,
                text,
            };
            Ok(Reflection { event: Some(Event::TextMessage(message)), save: None })
        },
        Some(Content::ContactSync(sync)) => match handle_contact_sync(contacts, sync) {
            Ok(save) => Ok(Reflection { event: None, save }),
            // Not for the contact store, but no error of the envelope.
            Err(_) => Ok(Reflection { event: None, save: None }),
        },
        _ => Ok(Reflection { event: None, save: None }),
    }
}

/// The name of a kind of content.
pub open spec fn name_of_content(content: Option<ContentView>) -> Seq<char> {
    match content {
        Some(ContentView::OutgoingMessage(_)) => "OutgoingMessage"@,
        Some(ContentView::OutgoingMessageUpdate(_)) => "OutgoingMessageUpdate"@,
        Some(ContentView::IncomingMessage(_)) => "IncomingMessage"@,
        Some(ContentView::IncomingMessageUpdate) => "IncomingMessageUpdate"@,
        Some(ContentView::UserProfileSync) => "UserProfileSync"@,
        Some(ContentView::ContactSync(_)) => "ContactSync"@,
        Some(ContentView::GroupSync) => "GroupSync"@,
        Some(ContentView::DistributionListSync) => "DistributionListSync"@,
        Some(ContentView::SettingsSync) => "SettingsSync"@,
        Some(ContentView::MdmParameterSync) => "MdmParameterSync"@,
        None => "(empty)"@,
    }
}

/// The name of a kind of content, for logging.
pub fn content_name(content: Option<&Content>) -> (name: &'static str)
    ensures
        name@ == name_of_content(
            match content {
                Some(content) => Some(content@),
                None => None,
            },
        ),
{
    match content {
        Some(Content::OutgoingMessage(_)) => "OutgoingMessage",
        Some(Content::OutgoingMessageUpdate(_)) => "OutgoingMessageUpdate",
        Some(Content::IncomingMessage(_)) => "IncomingMessage",
        Some(Content::IncomingMessageUpdate) => "IncomingMessageUpdate",
        Some(Content::UserProfileSync) => "UserProfileSync",
        Some(Content::ContactSync(_)) => "ContactSync",
        Some(Content::GroupSync) => "GroupSync",
        Some(Content::DistributionListSync) => "DistributionListSync",
        Some(Content::SettingsSync) => "SettingsSync",
        Some(Content::MdmParameterSync) => "MdmParameterSync",
        None => "(empty)",
    }
}

} // verus!
