//! Reflected envelopes and messages of the chat server.

use threema_cli::contact::{ContactEnums, EnumValues};
use threema_cli::conversation::{
    ContactMessageBody, EventConversationProvider, GroupMessageBody, IncomingMessage,
    IncomingMessageBody, contact_name,
};
use threema_cli::d2d::{
    ContactSync, ContactSyncAction, Content, ConversationId, Envelope, IncomingMessage as ReflectedIncoming,
    MessageType, Opened, OutgoingMessage, ProtocolVersion, Reflection,
    SyncedContact, content_name, conversation, decode_synced_contact,
    handle_contact_sync, handle_reflected_envelope, is_text_type,
};
use threema_cli::model::{GroupIdentity, IdentityText, ThreemaId};
use threema_cli::store::{ContactStore, FileRead, ProviderError, StateFile};
use threema_cli::{Conversation, Event, TextMessage};

fn identity(text: &str) -> ThreemaId {
    ThreemaId { text: text.to_owned() }
}

fn identity_text(text: &str) -> IdentityText {
    IdentityText { text: text.to_owned(), identity: Some(identity(text)) }
}

fn values() -> EnumValues {
    EnumValues { fallback: 0, known: vec![0, 1, 2] }
}

fn enums() -> ContactEnums {
    ContactEnums {
        verification_level: values(),
        work_verification_level: values(),
        identity_type: values(),
        acquaintance_level: values(),
        activity_state: values(),
        sync_state: values(),
        conversation_category: values(),
        conversation_visibility: values(),
    }
}

fn empty_contacts() -> ContactStore {
    ContactStore::load(FileRead::Missing, "contacts.json", identity("USERUSER"), enums())
        .expect("load empty contact store")
}

fn outgoing(body: &[u8], message_type: MessageType) -> Content {
    Content::OutgoingMessage(OutgoingMessage {
        conversation: Some(ConversationId::Contact(identity_text("ECHOECHO"))),
        message_id: 42,
        thread_message_id: None,
        created_at: 1_700_000_000_000,
        message_type,
        body: body.to_vec(),
        nonces: vec![],
    })
}

fn incoming(body: &[u8], message_type: MessageType) -> Content {
    Content::IncomingMessage(ReflectedIncoming {
        sender_identity: identity_text("ECHOECHO"),
        created_at: 1_700_000_000_001,
        message_type,
        body: body.to_vec(),
    })
}

fn opened(content: Option<Content>) -> Opened {
    Opened::Envelope(Envelope {
        device_id: 1,
        protocol_version: ProtocolVersion::Other(1),
        content,
    })
}

fn synced(text: &str) -> SyncedContact {
    SyncedContact {
        identity: identity_text(text),
        public_key: Some([3_u8; 32].to_vec()),
        created_at: None,
        first_name: None,
        last_name: None,
        nickname: Some("Echo".to_owned()),
        verification_level: None,
        work_verification_level: None,
        identity_type: None,
        acquaintance_level: None,
        activity_state: None,
        feature_mask: None,
        sync_state: None,
    }
}

fn creation(contact: SyncedContact) -> Content {
    Content::ContactSync(ContactSync { action: Some(ContactSyncAction::Create(Some(contact))) })
}

fn text_of(event: Option<Event>) -> TextMessage {
    match event.expect("an event should have been emitted") {
        Event::TextMessage(message) => message,
        _ => panic!("the emitted event should be a text message"),
    }
}

fn content_error(result: Result<Reflection, String>) -> String {
    match result {
        Err(text) => text,
        _ => panic!("the content should be at fault"),
    }
}

#[test]
fn reflected_text_message_round_trips() {
    let mut contacts = empty_contacts();

    // What does not decrypt is an error.
    assert!(handle_reflected_envelope(Opened::NotDecrypted, &mut contacts).is_err());

    let reflection = handle_reflected_envelope(
        opened(Some(outgoing(b"hello from the phone", MessageType::Text))),
        &mut contacts,
    )
    .expect("decrypting and decoding a well-formed envelope should succeed");

    let message = text_of(reflection.event);
    assert!(message.outgoing);
    assert_eq!(message.timestamp_ms, 1_700_000_000_000);
    assert_eq!(message.text, "hello from the phone");
    assert!(
        matches!(message.conversation, Conversation::Contact { ref identity, .. } if identity == "ECHOECHO")
    );
    assert!(message.sender_identity.is_none() && message.sender_name.is_none());
}

/// While a sibling device holds the leader role, a reflected contact sync is the only way to learn
/// a contact's public key.
#[test]
fn reflected_contact_sync_stores_the_contact() {
    let public_key = [3_u8; 32];
    let mut contacts = empty_contacts();
    let reflection =
        handle_reflected_envelope(opened(Some(creation(synced("ECHOECHO")))), &mut contacts)
            .expect("decoding a well-formed contact sync should succeed");
    assert!(reflection.save == Some(StateFile::Contacts));

    let stored = contacts
        .get(&identity("ECHOECHO"))
        .expect("contact store lookup should succeed")
        .expect("the synced contact should have been stored");
    assert_eq!(stored.public_key.0, public_key);
    assert_eq!(stored.nickname.as_deref(), Some("Echo"));
    // Storing a contact is not a user-visible message.
    assert!(reflection.event.is_none());

    // A second sync for the same contact must not fail (or clobber anything).
    let same = handle_reflected_envelope(opened(Some(creation(synced("ECHOECHO")))), &mut contacts)
        .expect("a repeated contact sync should be harmless");
    assert!(same.event.is_none() && same.save.is_none());
    let mut again = synced("ECHOECHO");
    again.nickname = Some("Clobbered".to_owned());
    let repeated = handle_reflected_envelope(opened(Some(creation(again))), &mut contacts)
        .expect("a repeated contact sync should be harmless");
    assert!(repeated.event.is_none() && repeated.save.is_none());
    let kept = contacts.get(&identity("ECHOECHO")).unwrap().unwrap();
    assert_eq!(kept.nickname.as_deref(), Some("Echo"));
}

#[test]
fn a_contact_sync_that_cannot_be_used_is_ignored() {
    let mut contacts = empty_contacts();
    let mut keyless = synced("ECHOECHO");
    keyless.public_key = None;
    let update = ContactSync { action: Some(ContactSyncAction::Update(Some(keyless))) };
    assert!(handle_contact_sync(&mut contacts, update).unwrap().is_none());
    assert!(handle_contact_sync(&mut contacts, ContactSync { action: None }).unwrap().is_none());
    let empty = ContactSync { action: Some(ContactSyncAction::Create(None)) };
    assert!(handle_contact_sync(&mut contacts, empty).unwrap().is_none());
    assert!(contacts.save().is_empty());
    let missed = ContactSync { action: Some(ContactSyncAction::Update(Some(synced("ECHOECHO")))) };
    assert!(handle_contact_sync(&mut contacts, missed).unwrap() == Some(StateFile::Contacts));
    assert!(contacts.has(&identity("ECHOECHO")).unwrap());
}

#[test]
fn a_contact_sync_of_the_user_does_nothing() {
    let mut contacts = empty_contacts();
    let reflection =
        handle_reflected_envelope(opened(Some(creation(synced("USERUSER")))), &mut contacts)
            .expect("a contact sync is never an error");
    assert!(reflection.event.is_none() && reflection.save.is_none());
    assert!(contacts.save().is_empty());
    // The contact store itself refuses the user's identity.
    let sync = ContactSync { action: Some(ContactSyncAction::Create(Some(synced("USERUSER")))) };
    assert!(matches!(
        handle_contact_sync(&mut contacts, sync),
        Err(ProviderError::InvalidParameter(_))
    ));
    assert!(contacts.save().is_empty());
}

#[test]
fn synced_contacts_fall_back_to_defaults() {
    let mut full = synced("ECHOECHO");
    full.created_at = Some(5);
    full.feature_mask = Some(6);
    full.verification_level = Some(2);
    full.sync_state = Some(9);
    let contact = decode_synced_contact(full, &enums()).unwrap();
    assert_eq!(contact.created_at, 5);
    assert_eq!(contact.feature_mask, 6);
    assert_eq!(contact.verification_level, 2);
    assert_eq!(contact.sync_state, 0);
    let bare = decode_synced_contact(synced("ECHOECHO"), &enums()).unwrap();
    assert_eq!((bare.created_at, bare.feature_mask, bare.identity_type), (0, 0, 0));
}

#[test]
fn synced_contacts_need_an_identity_and_a_key() {
    let mut nameless = synced("ECHOECHO");
    nameless.identity.identity = None;
    assert!(matches!(
        decode_synced_contact(nameless, &enums()),
        Err(text) if text == "Synced contact has an invalid Threema ID: ECHOECHO"
    ));
    let mut keyless = synced("ECHOECHO");
    keyless.public_key = None;
    assert!(matches!(
        decode_synced_contact(keyless, &enums()),
        Err(text) if text == "Synced contact carries no public key"
    ));
    let mut short = synced("ECHOECHO");
    short.public_key = Some(vec![3; 31]);
    assert!(matches!(
        decode_synced_contact(short, &enums()),
        Err(text) if text == "Synced contact has a malformed public key"
    ));
}

#[test]
fn reflected_errors_say_what_is_wrong() {
    let mut contacts = empty_contacts();
    assert_eq!(
        content_error(handle_reflected_envelope(Opened::NotDecrypted, &mut contacts)),
        "Decrypting reflected D2D envelope failed"
    );
    assert_eq!(
        content_error(handle_reflected_envelope(Opened::NotDecoded, &mut contacts)),
        "Failed to decode d2d.Envelope"
    );
    let bad = opened(Some(outgoing(&[0xff, 0xfe], MessageType::Text)));
    assert_eq!(
        content_error(handle_reflected_envelope(bad, &mut contacts)),
        "Outgoing message body is not valid UTF-8"
    );
    let bad = opened(Some(incoming(&[0xc3], MessageType::GroupText)));
    assert_eq!(
        content_error(handle_reflected_envelope(bad, &mut contacts)),
        "Incoming message body is not valid UTF-8"
    );
}

#[test]
fn reflected_incoming_messages_name_their_sender() {
    let mut contacts = empty_contacts();
    handle_reflected_envelope(opened(Some(creation(synced("ECHOECHO")))), &mut contacts).unwrap();
    let body = "gr\u{fc}n".as_bytes();
    let text = text_of(
        handle_reflected_envelope(opened(Some(incoming(body, MessageType::Text))), &mut contacts)
            .unwrap()
            .event,
    );
    assert!(!text.outgoing);
    assert_eq!(text.timestamp_ms, 1_700_000_000_001);
    assert_eq!(text.text, "gr\u{fc}n");
    assert_eq!(text.sender_identity.as_deref(), Some("ECHOECHO"));
    assert_eq!(text.sender_name.as_deref(), Some("Echo"));
    assert!(matches!(
        text.conversation,
        Conversation::Contact { ref identity, name: Some(ref name) } if identity == "ECHOECHO" && name == "Echo"
    ));
    let group = text_of(
        handle_reflected_envelope(opened(Some(incoming(body, MessageType::GroupText))), &mut contacts)
            .unwrap()
            .event,
    );
    assert!(matches!(group.conversation, Conversation::Unknown));
}

#[test]
fn other_content_is_left_alone() {
    let mut contacts = empty_contacts();
    for content in [
        None,
        Some(Content::GroupSync),
        Some(Content::SettingsSync),
        Some(Content::IncomingMessageUpdate),
        Some(outgoing(&[0xff], MessageType::Other)),
        Some(incoming(&[0xff], MessageType::Other)),
    ] {
        let reflection = handle_reflected_envelope(opened(content), &mut contacts).unwrap();
        assert!(reflection.event.is_none() && reflection.save.is_none());
    }
    assert!(is_text_type(MessageType::Text) && is_text_type(MessageType::GroupText));
    assert!(!is_text_type(MessageType::Other));
}

#[test]
fn content_has_names() {
    assert_eq!(content_name(None), "(empty)");
    assert_eq!(content_name(Some(&outgoing(b"", MessageType::Text))), "OutgoingMessage");
    assert_eq!(content_name(Some(&Content::OutgoingMessageUpdate(vec![]))), "OutgoingMessageUpdate");
    assert_eq!(content_name(Some(&Content::MdmParameterSync)), "MdmParameterSync");
}

#[test]
fn conversations_are_told_apart() {
    let contacts = empty_contacts();
    let group = GroupIdentity { creator_identity: identity("CREATORR"), group_id: 9 };
    assert!(matches!(
        conversation(&contacts, Some(ConversationId::Group(Some(group)))),
        Conversation::Group { ref creator_identity, group_id: 9 } if creator_identity == "CREATORR"
    ));
    assert!(matches!(
        conversation(&contacts, Some(ConversationId::Group(None))),
        Conversation::Unknown
    ));
    assert!(matches!(
        conversation(&contacts, Some(ConversationId::DistributionList(4))),
        Conversation::DistributionList { id: 4 }
    ));
    assert!(matches!(conversation(&contacts, None), Conversation::Unknown));
    let invalid = IdentityText { text: "nope".to_owned(), identity: None };
    assert!(matches!(
        conversation(&contacts, Some(ConversationId::Contact(invalid))),
        Conversation::Contact { ref identity, name: None } if identity == "nope"
    ));
}

fn named(first: Option<&str>, last: Option<&str>, nickname: Option<&str>) -> Option<String> {
    let mut contacts = empty_contacts();
    let mut contact = synced("ECHOECHO");
    contact.first_name = first.map(str::to_owned);
    contact.last_name = last.map(str::to_owned);
    contact.nickname = nickname.map(str::to_owned);
    let sync = ContactSync { action: Some(ContactSyncAction::Create(Some(contact))) };
    handle_contact_sync(&mut contacts, sync).unwrap();
    contact_name(&contacts, &identity("ECHOECHO"))
}

#[test]
fn contacts_are_called_by_nickname_or_full_name() {
    assert_eq!(named(Some("Ada"), Some("Lovelace"), Some("al")), Some("al".to_owned()));
    assert_eq!(named(Some("Ada"), Some("Lovelace"), Some("")), Some("Ada Lovelace".to_owned()));
    assert_eq!(named(Some("Ada"), None, None), Some("Ada".to_owned()));
    assert_eq!(named(None, Some("Lovelace"), None), Some("Lovelace".to_owned()));
    assert_eq!(named(Some(""), Some(""), None), Some(" ".to_owned()));
    assert_eq!(named(Some(""), None, None), None);
    assert_eq!(named(None, None, None), None);
    assert_eq!(contact_name(&empty_contacts(), &identity("ECHOECHO")), None);
    assert_eq!(contact_name(&empty_contacts(), &identity("USERUSER")), None);
}

fn direct(sender: &str, id: u64, body: ContactMessageBody) -> IncomingMessage {
    IncomingMessage {
        sender_identity: identity(sender),
        id,
        created_at: 77,
        body: IncomingMessageBody::Contact(body),
    }
}

#[test]
fn incoming_messages_are_reported_once() {
    let mut contacts = empty_contacts();
    let sync = ContactSync { action: Some(ContactSyncAction::Create(Some(synced("ECHOECHO")))) };
    handle_contact_sync(&mut contacts, sync).unwrap();
    let mut provider = EventConversationProvider::new();
    assert!(!provider.message_is_marked_used(&identity("ECHOECHO"), 1).unwrap());
    let hello = direct("ECHOECHO", 1, ContactMessageBody::Text("hello".to_owned()));
    let message = text_of(provider.add_or_update_incoming_message(&contacts, hello.clone()).unwrap());
    assert_eq!(message.text, "hello");
    assert_eq!(message.timestamp_ms, 77);
    assert!(!message.outgoing);
    assert_eq!(message.sender_identity.as_deref(), Some("ECHOECHO"));
    assert_eq!(message.sender_name.as_deref(), Some("Echo"));
    assert!(provider.message_is_marked_used(&identity("ECHOECHO"), 1).unwrap());
    assert!(provider.add_or_update_incoming_message(&contacts, hello).unwrap().is_none());
    let second = direct("ECHOECHO", 2, ContactMessageBody::Text("again".to_owned()));
    assert!(provider.add_or_update_incoming_message(&contacts, second).unwrap().is_some());
}

#[test]
fn messages_from_unknown_contacts_are_refused() {
    let contacts = empty_contacts();
    let mut provider = EventConversationProvider::new();
    let message = direct("ECHOECHO", 1, ContactMessageBody::Text("hello".to_owned()));
    assert!(matches!(
        provider.add_or_update_incoming_message(&contacts, message),
        Err(ProviderError::InvalidState(text))
            if text == "Contact the incoming message refers to does not exist"
    ));
    assert!(!provider.message_is_marked_used(&identity("ECHOECHO"), 1).unwrap());
    let own = direct("USERUSER", 1, ContactMessageBody::Other);
    assert!(matches!(
        provider.add_or_update_incoming_message(&contacts, own),
        Err(ProviderError::InvalidParameter(_))
    ));
}

#[test]
fn group_messages_are_reported_without_a_known_sender() {
    let contacts = empty_contacts();
    let mut provider = EventConversationProvider::new();
    let message = |id: u64, body: GroupMessageBody| IncomingMessage {
        sender_identity: identity("ECHOECHO"),
        id,
        created_at: 5,
        body: IncomingMessageBody::Group {
            group_identity: GroupIdentity { creator_identity: identity("CREATORR"), group_id: 3 },
            body,
        },
    };
    let text = message(1, GroupMessageBody::Text("all".to_owned()));
    let reported = text_of(provider.add_or_update_incoming_message(&contacts, text).unwrap());
    assert!(matches!(
        reported.conversation,
        Conversation::Group { ref creator_identity, group_id: 3 } if creator_identity == "CREATORR"
    ));
    assert_eq!(reported.sender_name, None);
    let other = message(2, GroupMessageBody::Other);
    assert!(provider.add_or_update_incoming_message(&contacts, other).unwrap().is_none());
    assert!(provider.message_is_marked_used(&identity("ECHOECHO"), 2).unwrap());
    assert!(provider.set_typing_indicator(&identity("ECHOECHO"), true).is_ok());
}
