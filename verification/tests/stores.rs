//! The stores of contacts and nonces, across what the files hold.

use threema_cli::contact::{Contact, ContactEnums, ContactUpdate, Delta, EnumValues};
use threema_cli::model::{KeyError, Nonce, PublicKey, ThreemaId};
use threema_cli::store::{
    ContactStore, FileRead, NonceFile, NonceScope, NonceStore, ProviderError, StateFile,
    StoredContact, WriteStage, WriteStep, atomic_write_json, load_json, saved, tmp_file_name,
};

fn identity(text: &str) -> ThreemaId {
    ThreemaId { text: text.to_owned() }
}

fn values(count: i32) -> EnumValues {
    EnumValues { fallback: 0, known: (0..count).collect() }
}

fn enums() -> ContactEnums {
    ContactEnums {
        verification_level: values(3),
        work_verification_level: values(2),
        identity_type: values(2),
        acquaintance_level: values(2),
        activity_state: values(3),
        sync_state: values(3),
        conversation_category: values(2),
        conversation_visibility: values(3),
    }
}

fn test_contact(text: &str) -> Contact {
    Contact {
        identity: identity(text),
        public_key: PublicKey::from_hex(&"ab".repeat(32)).expect("valid test public key"),
        created_at: 1_700_000_000_000,
        first_name: Some("Ada".to_owned()),
        last_name: None,
        nickname: Some("adalovelace".to_owned()),
        verification_level: 0,
        work_verification_level: 0,
        identity_type: 0,
        acquaintance_level: 0,
        activity_state: 0,
        feature_mask: 4,
        sync_state: 0,
        conversation_category: 0,
        conversation_visibility: 0,
    }
}

fn no_update(text: &str) -> ContactUpdate {
    ContactUpdate {
        identity: identity(text),
        first_name: Delta::Unchanged,
        last_name: Delta::Unchanged,
        nickname: Delta::Unchanged,
        verification_level: None,
        work_verification_level: None,
        identity_type: None,
        acquaintance_level: None,
        activity_state: None,
        feature_mask: None,
        sync_state: None,
        conversation_category: None,
        conversation_visibility: None,
    }
}

fn empty_store() -> ContactStore {
    ContactStore::load(FileRead::Missing, "contacts.json", identity("USERUSER"), enums())
        .expect("load empty store")
}

fn reload(store: &ContactStore) -> ContactStore {
    ContactStore::load(
        FileRead::Parsed(store.save().clone()),
        "contacts.json",
        identity("USERUSER"),
        enums(),
    )
    .expect("reload store")
}

fn parameter_error<T>(result: Result<T, ProviderError>) -> bool {
    match result {
        Err(ProviderError::InvalidParameter(text)) => {
            text == "Unexpected encounter of user's identity in contact provider"
        }
        _ => false,
    }
}

fn state_error<T>(result: Result<T, ProviderError>) -> String {
    match result {
        Err(ProviderError::InvalidState(text)) => text,
        _ => panic!("should be refused because of the state"),
    }
}

#[test]
fn contact_round_trips_through_disk() {
    let contact = test_contact("FRIENDLY");

    let mut store = empty_store();
    let file = store.add(vec![contact.clone()]).expect("add contact");
    assert!(file == StateFile::Contacts, "add() should have written the file");

    // Load a fresh store (as if the process had restarted) and check the contact survived,
    // including through a subsequent update.
    let mut reloaded = reload(&store);
    let fetched = reloaded
        .get(&contact.identity)
        .expect("get should succeed")
        .expect("contact should be present");
    assert_eq!(fetched.identity.to_string(), contact.identity.to_string());
    assert_eq!(fetched.nickname, contact.nickname);
    assert_eq!(fetched.first_name, contact.first_name);
    assert_eq!(fetched.public_key.to_string(), contact.public_key.to_string());

    let mut update = no_update("FRIENDLY");
    update.first_name = Delta::Remove;
    update.nickname = Delta::Update("newnick".to_owned());
    reloaded.update(vec![update]).expect("update contact");

    let after_update = reload(&reloaded)
        .get(&contact.identity)
        .expect("get should succeed")
        .expect("contact should still be present");
    assert_eq!(after_update.first_name, None);
    assert_eq!(after_update.nickname, Some("newnick".to_owned()));
}

#[test]
fn nonces_round_trip_through_disk_and_stay_scoped() {
    let nonce_bytes = [7_u8; 24];

    let mut store = NonceStore::load(FileRead::Missing, "nonces.json").expect("load empty store");

    assert!(!store.scoped(NonceScope::CspE2e).has(&Nonce(nonce_bytes)).expect("has should succeed"));
    let file = store.scoped(NonceScope::CspE2e).add_many(vec![Nonce(nonce_bytes)]);
    assert!(file == StateFile::Nonces, "add_many() should have written the file");
    assert!(store.scoped(NonceScope::CspE2e).has(&Nonce(nonce_bytes)).expect("has should succeed"));
    assert!(
        !store.scoped(NonceScope::D2x).has(&Nonce(nonce_bytes)).expect("has should succeed"),
        "nonce added to the CSP E2E scope must not leak into the D2X scope"
    );

    let file = NonceFile::from_lists(
        store.save().csp_e2e.items().clone(),
        store.save().d2x.items().clone(),
    );
    let mut reloaded =
        NonceStore::load(FileRead::Parsed(file), "nonces.json").expect("reload store");
    assert!(
        reloaded.scoped(NonceScope::CspE2e).has(&Nonce(nonce_bytes)).expect("has should succeed"),
        "nonce should have survived a reload"
    );
    assert!(!reloaded.scoped(NonceScope::D2x).has(&Nonce(nonce_bytes)).expect("has should succeed"));
}

#[test]
fn nonces_are_held_as_lower_case_hexadecimal() {
    let mut store = NonceStore::load(FileRead::Missing, "nonces.json").expect("load");
    let mut bytes = [0_u8; 24];
    bytes[0] = 0xAB;
    bytes[23] = 0x0F;
    let mut scoped = store.scoped(NonceScope::D2x);
    scoped.add_many(vec![Nonce(bytes), Nonce(bytes)]);
    assert_eq!(
        scoped.save().d2x.items(),
        &vec!["ab000000000000000000000000000000000000000000000f".to_owned()]
    );
    assert!(store.save().csp_e2e.items().is_empty());
}

#[test]
fn used_nonces_stay_used_and_others_unused() {
    let mut store = NonceStore::load(FileRead::Missing, "nonces.json").expect("load");
    store.scoped(NonceScope::CspE2e).add_many(vec![Nonce([1; 24]), Nonce([2; 24])]);
    store.scoped(NonceScope::CspE2e).add_many(vec![Nonce([3; 24])]);
    store.scoped(NonceScope::CspE2e).add_many(vec![]);
    let scoped = store.scoped(NonceScope::CspE2e);
    assert!(scoped.has(&Nonce([1; 24])).unwrap());
    assert!(scoped.has(&Nonce([2; 24])).unwrap());
    assert!(scoped.has(&Nonce([3; 24])).unwrap());
    assert!(!scoped.has(&Nonce([4; 24])).unwrap());
}

#[test]
fn listed_nonces_are_read() {
    let text = "07".repeat(24);
    let file = NonceFile::from_lists(vec![text.clone(), text.clone()], vec![]);
    assert_eq!(file.csp_e2e.items().len(), 1);
    let mut store = NonceStore::load(FileRead::Parsed(file), "nonces.json").expect("load");
    assert!(store.scoped(NonceScope::CspE2e).has(&Nonce([7; 24])).unwrap());
}

#[test]
fn unreadable_files_are_errors() {
    assert_eq!(
        NonceStore::load(FileRead::Unreadable("why".to_owned()), "dir/nonces.json").err(),
        Some("Failed to read dir/nonces.json: why".to_owned())
    );
    assert_eq!(
        NonceStore::load(FileRead::Malformed("why".to_owned()), "dir/nonces.json").err(),
        Some("Failed to parse dir/nonces.json: why".to_owned())
    );
    assert_eq!(
        ContactStore::load(FileRead::Unreadable("why".to_owned()), "c", identity("USERUSER"), enums()).err(),
        Some("Failed to read c: why".to_owned())
    );
    assert_eq!(
        ContactStore::load(FileRead::Malformed("why".to_owned()), "c", identity("USERUSER"), enums()).err(),
        Some("Failed to parse c: why".to_owned())
    );
    assert_eq!(load_json(FileRead::Missing, 3_u8, "x"), Ok(3));
    assert_eq!(load_json(FileRead::Parsed(4_u8), 3, "x"), Ok(4));
}

#[test]
fn the_users_own_identity_is_refused() {
    let mut store = empty_store();
    let user = identity("USERUSER");
    assert!(parameter_error(store.has(&user)));
    assert!(parameter_error(store.get(&user)));
    assert!(parameter_error(store.has_many(&[identity("FRIENDLY"), identity("USERUSER")])));
    assert!(parameter_error(store.is_explicitly_blocked(&user)));
    assert!(parameter_error(store.is_member_of_active_group(&user)));
    assert!(parameter_error(store.get_contact_defined_profile_picture(&user)));
    assert!(parameter_error(store.get_user_defined_profile_picture(&user)));
    assert!(parameter_error(store.add(vec![test_contact("FRIENDLY"), test_contact("USERUSER")])));
    assert!(parameter_error(store.update(vec![no_update("USERUSER")])));
    // Nothing was added, not even the contact before the refused one.
    assert!(!store.has(&identity("FRIENDLY")).unwrap());
}

#[test]
fn a_known_contact_cannot_be_added_again() {
    let mut store = empty_store();
    store.add(vec![test_contact("FRIENDLY")]).expect("add contact");
    assert_eq!(
        state_error(store.add(vec![test_contact("NEWFRIND"), test_contact("FRIENDLY")])),
        "Contact to be added already exists"
    );
    assert!(!store.has(&identity("NEWFRIND")).unwrap());
    assert!(store.has(&identity("FRIENDLY")).unwrap());
    assert_eq!(
        store
            .has_many(&[identity("FRIENDLY"), identity("NEWFRIND"), identity("FRIENDLY")])
            .unwrap(),
        2
    );
}

#[test]
fn updates_stop_at_the_first_unknown_contact() {
    let mut store = empty_store();
    store.add(vec![test_contact("FRIENDLY")]).expect("add contact");
    let mut first = no_update("FRIENDLY");
    first.verification_level = Some(2);
    first.feature_mask = Some(77);
    let mut last = no_update("FRIENDLY");
    last.feature_mask = Some(99);
    assert_eq!(
        state_error(store.update(vec![first, no_update("UNKNOWNN"), last])),
        "Contact to be updated does not exist"
    );
    let contact = store.get(&identity("FRIENDLY")).unwrap().unwrap();
    assert_eq!(contact.verification_level, 2);
    assert_eq!(contact.feature_mask, 77);
    assert_eq!(contact.created_at, 1_700_000_000_000);
    assert_eq!(contact.nickname, Some("adalovelace".to_owned()));
}

#[test]
fn contacts_are_not_blocked_and_have_no_pictures() {
    let mut store = empty_store();
    store.add(vec![test_contact("FRIENDLY")]).expect("add contact");
    let friend = identity("FRIENDLY");
    assert_eq!(store.is_explicitly_blocked(&friend).unwrap(), false);
    assert_eq!(store.is_member_of_active_group(&friend).unwrap(), false);
    assert_eq!(store.get_contact_defined_profile_picture(&friend).unwrap(), None);
    assert_eq!(store.get_user_defined_profile_picture(&friend).unwrap(), None);
    assert_eq!(
        state_error(store.get_contact_defined_profile_picture(&identity("UNKNOWNN"))),
        "Contact to retrieve the contact-defined profile picture from does not exist"
    );
    assert_eq!(
        state_error(store.get_user_defined_profile_picture(&identity("UNKNOWNN"))),
        "Contact to retrieve the user-defined profile picture from does not exist"
    );
}

#[test]
fn stored_numbers_without_a_meaning_fall_back() {
    let mut stored = StoredContact::from_contact(&test_contact("FRIENDLY"));
    assert_eq!(stored.public_key, "ab".repeat(32));
    stored.verification_level = 17;
    stored.activity_state = 2;
    // Either case of the hexadecimal text is read.
    stored.public_key = "AB".repeat(32);
    let contact = stored.to_contact(&identity("FRIENDLY"), &enums()).expect("readable key");
    assert_eq!(contact.verification_level, 0);
    assert_eq!(contact.activity_state, 2);
    assert_eq!(contact.public_key.0, [0xab; 32]);
}

#[test]
fn an_unreadable_public_key_is_an_error() {
    let mut short = StoredContact::from_contact(&test_contact("FRIENDLY"));
    short.public_key = "abab".to_owned();
    let error = short.to_contact(&identity("FRIENDLY"), &enums()).unwrap_err();
    assert_eq!(error.to_string(), "A public key is 64 hexadecimal digits long");
    let mut stored = StoredContact::from_contact(&test_contact("FRIENDLY"));
    stored.public_key = "zz".repeat(32);
    let store = ContactStore::load(
        FileRead::Parsed(vec![("FRIENDLY".to_owned(), stored)]),
        "contacts.json",
        identity("USERUSER"),
        enums(),
    )
    .unwrap();
    assert!(store.has(&identity("FRIENDLY")).unwrap());
    assert!(matches!(
        store.get(&identity("FRIENDLY")),
        Err(ProviderError::Foreign(text)) if text == "A public key consists of hexadecimal digits only"
    ));
    assert!(store.get(&identity("UNKNOWNN")).unwrap().is_none());
}

#[test]
fn the_later_entry_of_an_identity_counts() {
    let mut early = StoredContact::from_contact(&test_contact("FRIENDLY"));
    early.nickname = Some("early".to_owned());
    let mut late = early.clone();
    late.nickname = Some("late".to_owned());
    let store = ContactStore::load(
        FileRead::Parsed(vec![
            ("FRIENDLY".to_owned(), early),
            ("FRIENDLY".to_owned(), late),
        ]),
        "contacts.json",
        identity("USERUSER"),
        enums(),
    )
    .unwrap();
    assert_eq!(store.save().len(), 1);
    let contact = store.get(&identity("FRIENDLY")).unwrap().unwrap();
    assert_eq!(contact.nickname, Some("late".to_owned()));
}

#[test]
fn public_keys_have_exactly_32_bytes() {
    assert!(PublicKey::from_bytes(&[1; 32]).is_some());
    assert!(PublicKey::from_bytes(&[1; 31]).is_none());
    assert!(PublicKey::from_bytes(&[1; 33]).is_none());
    assert!(matches!(PublicKey::from_hex(""), Err(KeyError::WrongLength)));
    assert!(matches!(PublicKey::from_hex(&"a".repeat(63)), Err(KeyError::WrongLength)));
    assert!(matches!(
        PublicKey::from_hex(&"\u{e4}".repeat(32)),
        Err(KeyError::NotHexadecimal)
    ));
    assert_eq!(PublicKey([0x1f; 32]).to_string(), "1f".repeat(32));
}

#[test]
fn state_files_are_replaced_last() {
    assert_eq!(tmp_file_name(Some("nonces.json")), "nonces.json.tmp");
    assert_eq!(tmp_file_name(None), "state.tmp");
    let mut stage = WriteStage::Create;
    let mut performed = vec![];
    loop {
        performed.push(stage);
        match atomic_write_json(stage, Ok(()), "n.tmp", "n") {
            WriteStep::Perform(next) => stage = next,
            WriteStep::Written => break,
            WriteStep::Failed(_) => panic!("nothing failed"),
        }
    }
    assert_eq!(
        performed,
        vec![WriteStage::Create, WriteStage::Serialize, WriteStage::Sync, WriteStage::Rename]
    );
}

fn failure(stage: WriteStage) -> String {
    match atomic_write_json(stage, Err("cause".to_owned()), "n.tmp", "n") {
        WriteStep::Failed(text) => text,
        _ => panic!("should have failed"),
    }
}

#[test]
fn failed_rewrites_say_where() {
    assert_eq!(failure(WriteStage::Create), "Failed to create n.tmp");
    assert_eq!(failure(WriteStage::Serialize), "Failed to serialize state");
    assert_eq!(failure(WriteStage::Sync), "cause");
    assert_eq!(failure(WriteStage::Rename), "Failed to move n.tmp to n");
    assert!(saved(Ok(())).is_ok());
    assert!(matches!(saved(Err("why".to_owned())), Err(ProviderError::Foreign(text)) if text == "why"));
}

#[test]
fn known_contacts_were_loaded_or_added() {
    let loaded = StoredContact::from_contact(&test_contact("LOADEDID"));
    let mut store = ContactStore::load(
        FileRead::Parsed(vec![("LOADEDID".to_owned(), loaded)]),
        "contacts.json",
        identity("USERUSER"),
        enums(),
    )
    .unwrap();
    store.add(vec![test_contact("FRIENDLY")]).unwrap();
    assert!(store.add(vec![test_contact("REFUSEDD"), test_contact("LOADEDID")]).is_err());
    store.update(vec![no_update("FRIENDLY")]).unwrap();
    assert!(store.update(vec![no_update("UPDATEDD")]).is_err());
    let known = |text: &str| store.has(&identity(text)).unwrap();
    assert!(known("LOADEDID") && known("FRIENDLY"));
    assert!(!known("REFUSEDD") && !known("UPDATEDD"));
}
