//! What holds of the stores across operations.

use vstd::prelude::*;

use crate::contact::{Contact, ContactEnums, ContactUpdate, ContactView, Delta, EnumValues};
use crate::hex;
use crate::model::{self, KeyError, Nonce, ThreemaId};
use crate::store::{
    self, ContactStoreView, NonceScope, NoncesView, ProviderErrorView, StoredContact,
    StoredContactView, WriteStage,
};
use crate::table;

verus! {

/// The steps of an atomic rewrite that are performed, given which of them succeed.
pub open spec fn performed(first: WriteStage, succeeds: spec_fn(WriteStage) -> bool, fuel: nat) -> Seq<
    WriteStage,
>
    decreases fuel,
{
    if fuel == 0 || !succeeds(first) || store::stage_after(first) is None {
        seq![first]
    } else {
        seq![first] + performed(store::stage_after(first)->0, succeeds, (fuel - 1) as nat)
    }
}

/// The state file is replaced as the last step, and only if the temporary file was created,
/// written and flushed before; whatever fails before that leaves the state file alone.
pub proof fn state_file_is_replaced_last(succeeds: spec_fn(WriteStage) -> bool)
    ensures
        ({
            let steps = performed(WriteStage::Create, succeeds, 4);
            &&& steps.contains(WriteStage::Rename) <==> succeeds(WriteStage::Create) && succeeds(
                WriteStage::Serialize,
            ) && succeeds(WriteStage::Sync)
            &&& steps.contains(WriteStage::Rename) ==> steps == seq![
                WriteStage::Create,
                WriteStage::Serialize,
                WriteStage::Sync,
                WriteStage::Rename,
            ]
        }),
{
    reveal_with_fuel(performed, 5);
    let steps = performed(WriteStage::Create, succeeds, 4);
    if succeeds(WriteStage::Create) && succeeds(WriteStage::Serialize) && succeeds(
        WriteStage::Sync,
    ) {
        assert(steps =~= seq![
            WriteStage::Create,
            WriteStage::Serialize,
            WriteStage::Sync,
            WriteStage::Rename,
        ]);
        assert(steps[3] == WriteStage::Rename);
    }
}

/// Recording nonces marks exactly those as used, and only in their scope: every other nonce, and
/// every nonce in the other scope, is used afterwards if and only if it was before.
pub proof fn recorded_nonces_are_used(
    nonces: NoncesView,
    scope: NonceScope,
    added: Seq<Nonce>,
    asked: NonceScope,
    nonce: Seq<u8>,
)
    ensures
        nonces.with_many(scope, added).has(asked, nonce) <==> nonces.has(asked, nonce) || (asked
            == scope && exists|i: int| 0 <= i < added.len() && (#[trigger] added[i])@ == nonce),
    decreases added.len(),
{
    if added.len() > 0 {
        let front = added.drop_last();
        recorded_nonces_are_used(nonces, scope, front, asked, nonce);
        hex::hex_text_is_injective(added.last()@, nonce);
        assert(added.last() == added[added.len() - 1]);
        if exists|i: int| 0 <= i < front.len() && (#[trigger] front[i])@ == nonce {
            let i = choose|i: int| 0 <= i < front.len() && (#[trigger] front[i])@ == nonce;
            assert(added[i]@ == nonce);
        }
        if exists|i: int| 0 <= i < added.len() && (#[trigger] added[i])@ == nonce {
            let i = choose|i: int| 0 <= i < added.len() && (#[trigger] added[i])@ == nonce;
            if i < front.len() {
                assert(front[i]@ == nonce);
            }
        }
    }
}

/// Recording nonces in one scope leaves the other scope as it is.
pub proof fn nonce_scopes_are_independent(
    nonces: NoncesView,
    scope: NonceScope,
    added: Seq<Nonce>,
    other: NonceScope,
)
    requires
        scope != other,
    ensures
        nonces.with_many(scope, added).texts(other) == nonces.texts(other),
    decreases added.len(),
{
    if added.len() > 0 {
        nonce_scopes_are_independent(nonces, scope, added.drop_last(), other);
    }
}

/// A used nonce stays used, whatever is recorded later.
pub proof fn used_nonces_stay_used(
    nonces: NoncesView,
    scope: NonceScope,
    added: Seq<Nonce>,
    asked: NonceScope,
    nonce: Seq<u8>,
)
    requires
        nonces.has(asked, nonce),
    ensures
        nonces.with_many(scope, added).has(asked, nonce),
{
    recorded_nonces_are_used(nonces, scope, added, asked, nonce);
}

/// A contact whose enumerations hold numbers with a meaning is read back from the store as it was.
pub proof fn stored_contact_is_restored(contact: ContactView, enums: ContactEnums)
    requires
        contact.public_key.len() == 32,
        contact.levels_known(enums),
    ensures
        model::key_error(store::stored(contact).public_key) is None,
        store::restored(store::stored(contact), contact.identity, enums) == contact,
{
    hex::hex_round_trips(contact.public_key);
    let text = hex::hex_text(contact.public_key);
    assert(vstd::utf8::is_ascii_chars(text));
    vstd::utf8::is_ascii_chars_encode_utf8(text);
}

/// What was added is found: after a successful addition, looking a contact up gives the last of
/// the added contacts with that identity.
pub proof fn added_contact_is_found(contacts: ContactStoreView, added: Seq<Contact>, i: int)
    requires
        contacts.add_all_refused(added) is None,
        0 <= i < added.len(),
        added[i]@.levels_known(contacts.enums),
        forall|j: int| i < j < added.len() ==> (#[trigger] added[j]).identity@ != added[i].identity@,
    ensures
        contacts.with_contacts(added).get(added[i].identity@) == Ok::<
            Option<ContactView>,
            store::ProviderErrorView,
        >(Some(added[i]@)),
{
    lemma_added_entry(contacts, added, i);
    lemma_nobody_refused(contacts, added, i);
    lemma_same_surroundings(contacts, added);
    assert(added[i]@.public_key.len() == 32) by {
        broadcast use vstd::array::group_array_axioms;

    }
    stored_contact_is_restored(added[i]@, contacts.enums);
}

proof fn lemma_added_entry(contacts: ContactStoreView, added: Seq<Contact>, i: int)
    requires
        0 <= i < added.len(),
        forall|j: int| i < j < added.len() ==> (#[trigger] added[j]).identity@ != added[i].identity@,
    ensures
        contacts.with_contacts(added).knows(added[i].identity@),
        contacts.with_contacts(added).contacts[added[i].identity@] == store::stored(added[i]@),
    decreases added.len(),
{
    let front = added.drop_last();
    if i < front.len() {
        assert(front[i] == added[i]);
        assert forall|j: int| i < j < front.len() implies (#[trigger] front[j]).identity@
            != front[i].identity@ by {
            assert(front[j] == added[j]);
        }
        lemma_added_entry(contacts, front, i);
        assert(added.last() == added[added.len() - 1]);
    }
}

proof fn lemma_nobody_refused(contacts: ContactStoreView, added: Seq<Contact>, i: int)
    requires
        contacts.add_all_refused(added) is None,
        0 <= i < added.len(),
    ensures
        contacts.add_refused(added[i].identity@) is None,
    decreases added.len(),
{
    if i < added.len() - 1 {
        lemma_nobody_refused(contacts, added.drop_last(), i);
    }
}

proof fn lemma_same_surroundings(contacts: ContactStoreView, added: Seq<Contact>)
    ensures
        contacts.with_contacts(added).user_identity == contacts.user_identity,
        contacts.with_contacts(added).enums == contacts.enums,
    decreases added.len(),
{
    if added.len() > 0 {
        lemma_same_surroundings(contacts, added.drop_last());
    }
}

/// An addition leaves every contact that it does not name as it was.
pub proof fn addition_leaves_others(
    contacts: ContactStoreView,
    added: Seq<Contact>,
    identity: Seq<char>,
)
    requires
        forall|i: int| 0 <= i < added.len() ==> (#[trigger] added[i]).identity@ != identity,
    ensures
        contacts.with_contacts(added).knows(identity) <==> contacts.knows(identity),
        contacts.with_contacts(added).get(identity) == contacts.get(identity),
    decreases added.len(),
{
    lemma_same_surroundings(contacts, added);
    if added.len() > 0 {
        let front = added.drop_last();
        assert forall|i: int| 0 <= i < front.len() implies (#[trigger] front[i]).identity@
            != identity by {
            assert(front[i] == added[i]);
        }
        lemma_same_surroundings(contacts, front);
        assert(added.last() == added[added.len() - 1]);
        addition_leaves_others(contacts, front, identity);
        assert(contacts.with_contacts(added).contacts[identity] == contacts.with_contacts(
            front,
        ).contacts[identity]);
    }
}

/// The user never becomes a contact: neither an addition nor updates let the user's own identity
/// into the store.
pub proof fn user_is_never_a_contact(
    contacts: ContactStoreView,
    added: Seq<Contact>,
    updates: Seq<ContactUpdate>,
)
    requires
        !contacts.knows(contacts.user_identity),
    ensures
        contacts.add_all_refused(added) is None ==> !contacts.with_contacts(added).knows(
            contacts.user_identity,
        ),
        !contacts.with_updates(updates).0.knows(contacts.user_identity),
{
    if contacts.add_all_refused(added) is None {
        assert forall|i: int| 0 <= i < added.len() implies (#[trigger] added[i]).identity@
            != contacts.user_identity by {
            lemma_nobody_refused(contacts, added, i);
        }
        addition_leaves_others(contacts, added, contacts.user_identity);
    }
    updates_keep_the_contacts(contacts, updates);
}

/// Updates neither add nor remove contacts, and no update changes a contact's public key or when
/// it was created.
pub proof fn updates_keep_the_contacts(contacts: ContactStoreView, updates: Seq<ContactUpdate>)
    ensures
        contacts.with_updates(updates).0.contacts.dom() == contacts.contacts.dom(),
        contacts.with_updates(updates).0.user_identity == contacts.user_identity,
        contacts.with_updates(updates).0.enums == contacts.enums,
        forall|identity: Seq<char>| #[trigger]
            contacts.knows(identity) ==> {
                let after = contacts.with_updates(updates).0.contacts[identity];
                &&& after.public_key == contacts.contacts[identity].public_key
                &&& after.created_at == contacts.contacts[identity].created_at
            },
    decreases updates.len(),
{
    if updates.len() > 0 {
        let front = updates.drop_last();
        updates_keep_the_contacts(contacts, front);
        let before = contacts.with_updates(front);
        let identity = updates.last().identity@;
        if before.1 is None && identity != contacts.user_identity && before.0.knows(identity) {
            assert(contacts.knows(identity));
            assert(contacts.with_updates(updates).0.contacts.dom() =~= contacts.contacts.dom());
        }
    }
}

/// Updates leave every contact that they do not name as it was.
pub proof fn updates_leave_others(
    contacts: ContactStoreView,
    updates: Seq<ContactUpdate>,
    identity: Seq<char>,
)
    requires
        forall|i: int| 0 <= i < updates.len() ==> (#[trigger] updates[i]).identity@ != identity,
    ensures
        contacts.with_updates(updates).0.get(identity) == contacts.get(identity),
    decreases updates.len(),
{
    updates_keep_the_contacts(contacts, updates);
    if updates.len() > 0 {
        let front = updates.drop_last();
        assert forall|i: int| 0 <= i < front.len() implies (#[trigger] front[i]).identity@
            != identity by {
            assert(front[i] == updates[i]);
        }
        updates_keep_the_contacts(contacts, front);
        assert(updates.last() == updates[updates.len() - 1]);
        updates_leave_others(contacts, front, identity);
        assert(contacts.with_updates(updates).0.contacts[identity] == contacts.with_updates(
            front,
        ).0.contacts[identity]);
    }
}

/// Contacts survive a restart: a file that holds what was saved, in whatever order, is loaded as
/// the same store.
pub proof fn contacts_survive_a_reload(
    contacts: ContactStoreView,
    saved: Seq<(String, StoredContact)>,
    read: Seq<(String, StoredContact)>,
)
    requires
        table::entries_map(saved) == contacts.contacts,
        table::keys_unique(saved),
        table::keys_unique(read),
        forall|entry: (Seq<char>, StoredContactView)|
            table::entry_views(saved).contains(entry) <==> table::entry_views(read).contains(entry),
    ensures
        contacts == (ContactStoreView { contacts: table::entries_map(read), ..contacts }),
{
    table::order_does_not_matter(saved, read);
}

/// Nonces survive a restart, each in its scope: a file that lists the texts that were saved, in
/// whatever order, is loaded as the same nonces.
pub proof fn nonces_survive_a_reload(
    nonces: NoncesView,
    saved: (Seq<String>, Seq<String>),
    read: (Seq<String>, Seq<String>),
)
    requires
        table::items_set(saved.0) == nonces.csp_e2e,
        table::items_set(saved.1) == nonces.d2x,
        saved.0.map_values(|text: String| text@).to_multiset() == read.0.map_values(
            |text: String| text@,
        ).to_multiset(),
        saved.1.map_values(|text: String| text@).to_multiset() == read.1.map_values(
            |text: String| text@,
        ).to_multiset(),
    ensures
        nonces == (NoncesView {
            csp_e2e: table::items_set(read.0),
            d2x: table::items_set(read.1),
        }),
{
    lemma_same_items(saved.0, read.0);
    lemma_same_items(saved.1, read.1);
}

proof fn lemma_same_items(a: Seq<String>, b: Seq<String>)
    requires
        a.map_values(|text: String| text@).to_multiset() == b.map_values(
            |text: String| text@,
        ).to_multiset(),
    ensures
        table::items_set(a) == table::items_set(b),
{
    broadcast use vstd::seq_lib::group_to_multiset_ensures;

    let views_a = a.map_values(|text: String| text@);
    let views_b = b.map_values(|text: String| text@);
    assert(table::items_set(a) =~= views_a.to_set());
    assert(table::items_set(b) =~= views_b.to_set());
    assert forall|text: Seq<char>| views_a.contains(text) <==> views_b.contains(text) by {
        assert(views_a.contains(text) <==> views_a.to_multiset().count(text) > 0);
        assert(views_b.contains(text) <==> views_b.to_multiset().count(text) > 0);
    }
    assert(table::items_set(a) =~= table::items_set(b));
}

// Sequences of operations
// -----------------------
/// An operation that may change the contacts. It does not matter through which of several owners
/// of the store it is made.
pub ghost enum ContactOperation {
    Add(Seq<Contact>),
    Update(Seq<ContactUpdate>),
}

/// The contacts after an operation; one that is refused adds nothing.
pub open spec fn operated(contacts: ContactStoreView, operation: ContactOperation) -> ContactStoreView {
    match operation {
        ContactOperation::Add(added) => if contacts.add_all_refused(added) is None {
            contacts.with_contacts(added)
        } else {
            contacts
        },
        ContactOperation::Update(updates) => contacts.with_updates(updates).0,
    }
}

/// The contacts after some operations.
pub open spec fn after_operations(
    contacts: ContactStoreView,
    operations: Seq<ContactOperation>,
) -> ContactStoreView
    decreases operations.len(),
{
    if operations.len() == 0 {
        contacts
    } else {
        operated(after_operations(contacts, operations.drop_last()), operations.last())
    }
}

/// Whether contacts with an identity were added by an operation that was not refused.
pub open spec fn was_added(
    contacts: ContactStoreView,
    operations: Seq<ContactOperation>,
    i: int,
    identity: Seq<char>,
) -> bool {
    &&& 0 <= i < operations.len()
    &&& operations[i] matches ContactOperation::Add(added)
    &&& after_operations(contacts, operations.take(i)).add_all_refused(added) is None
    &&& exists|j: int| 0 <= j < added.len() && (#[trigger] added[j]).identity@ == identity
}

/// Whatever operations follow on loading, an identity is known exactly if the loaded file held it
/// or it was in a batch that was added and not refused; the user's own identity stays the same.
pub proof fn known_is_loaded_or_added(
    loaded: ContactStoreView,
    operations: Seq<ContactOperation>,
    identity: Seq<char>,
)
    ensures
        after_operations(loaded, operations).knows(identity) <==> loaded.knows(identity) || exists|
            i: int,
        | was_added(loaded, operations, i, identity),
        after_operations(loaded, operations).user_identity == loaded.user_identity,
        after_operations(loaded, operations).enums == loaded.enums,
    decreases operations.len(),
{
    if operations.len() > 0 {
        let front = operations.drop_last();
        let last = operations.len() - 1;
        let before = after_operations(loaded, front);
        known_is_loaded_or_added(loaded, front, identity);
        assert(operations.take(last) =~= front);
        assert forall|i: int| 0 <= i < last implies was_added(loaded, operations, i, identity)
            == was_added(loaded, front, i, identity) by {
            assert(operations.take(i) =~= front.take(i));
            assert(operations[i] == front[i]);
        }
        if exists|i: int| was_added(loaded, front, i, identity) {
            let i = choose|i: int| was_added(loaded, front, i, identity);
            assert(was_added(loaded, operations, i, identity));
        }
        match operations[last] {
            ContactOperation::Update(updates) => {
                updates_keep_the_contacts(before, updates);
            },
            ContactOperation::Add(added) => {
                if before.add_all_refused(added) is None {
                    lemma_same_surroundings(before, added);
                    lemma_known_after_addition(before, added, identity);
                    if exists|j: int|
                        0 <= j < added.len() && (#[trigger] added[j]).identity@ == identity {
                        assert(was_added(loaded, operations, last, identity));
                    }
                }
            },
        }
        if exists|i: int| was_added(loaded, operations, i, identity) {
            let i = choose|i: int| was_added(loaded, operations, i, identity);
            if i < last {
                assert(was_added(loaded, front, i, identity));
            }
        }
    }
}

proof fn lemma_known_after_addition(
    contacts: ContactStoreView,
    added: Seq<Contact>,
    identity: Seq<char>,
)
    ensures
        contacts.with_contacts(added).knows(identity) <==> contacts.knows(identity) || exists|j: int|
            0 <= j < added.len() && (#[trigger] added[j]).identity@ == identity,
    decreases added.len(),
{
    if added.len() > 0 {
        let front = added.drop_last();
        lemma_known_after_addition(contacts, front, identity);
        assert(added.last() == added[added.len() - 1]);
        if exists|j: int| 0 <= j < front.len() && (#[trigger] front[j]).identity@ == identity {
            let j = choose|j: int|
                0 <= j < front.len() && (#[trigger] front[j]).identity@ == identity;
            assert(added[j].identity@ == identity);
        }
        if exists|j: int| 0 <= j < added.len() && (#[trigger] added[j]).identity@ == identity {
            let j = choose|j: int|
                0 <= j < added.len() && (#[trigger] added[j]).identity@ == identity;
            if j < front.len() {
                assert(front[j].identity@ == identity);
            }
        }
    }
}

/// The nonces after some were recorded through views of either scope, made at whatever times.
pub open spec fn after_recordings(
    nonces: NoncesView,
    recordings: Seq<(NonceScope, Seq<Nonce>)>,
) -> NoncesView
    decreases recordings.len(),
{
    if recordings.len() == 0 {
        nonces
    } else {
        after_recordings(nonces, recordings.drop_last()).with_many(
            recordings.last().0,
            recordings.last().1,
        )
    }
}

/// Whether a recording was of a nonce in a scope.
pub open spec fn was_recorded(
    recording: (NonceScope, Seq<Nonce>),
    scope: NonceScope,
    nonce: Seq<u8>,
) -> bool {
    &&& recording.0 == scope
    &&& exists|j: int| 0 <= j < recording.1.len() && (#[trigger] recording.1[j])@ == nonce
}

/// All views of a scope see the same nonces: a nonce is used in a scope exactly if the loaded file
/// held it or it was recorded through any view of that scope; views of the other scope have no part
/// in it.
pub proof fn views_share_their_scope(
    loaded: NoncesView,
    recordings: Seq<(NonceScope, Seq<Nonce>)>,
    scope: NonceScope,
    nonce: Seq<u8>,
)
    ensures
        after_recordings(loaded, recordings).has(scope, nonce) <==> loaded.has(scope, nonce)
            || exists|i: int|
            0 <= i < recordings.len() && was_recorded(#[trigger] recordings[i], scope, nonce),
    decreases recordings.len(),
{
    if recordings.len() > 0 {
        let front = recordings.drop_last();
        let last = recordings.last();
        views_share_their_scope(loaded, front, scope, nonce);
        recorded_nonces_are_used(
            after_recordings(loaded, front),
            last.0,
            last.1,
            scope,
            nonce,
        );
        assert(last == recordings[recordings.len() - 1]);
        if exists|i: int|
            0 <= i < front.len() && was_recorded(#[trigger] front[i], scope, nonce) {
            let i = choose|i: int|
                0 <= i < front.len() && was_recorded(#[trigger] front[i], scope, nonce);
            assert(was_recorded(recordings[i], scope, nonce));
        }
        if exists|i: int|
            0 <= i < recordings.len() && was_recorded(#[trigger] recordings[i], scope, nonce) {
            let i = choose|i: int|
                0 <= i < recordings.len() && was_recorded(#[trigger] recordings[i], scope, nonce);
            if i < front.len() {
                assert(was_recorded(front[i], scope, nonce));
            }
        }
    }
}

// Single operations
// -----------------
/// A nonce was used for chat messages exactly if its hexadecimal text is among those of chat
/// messages, and for envelopes exactly if it is among those of envelopes.
pub proof fn nonces_are_kept_by_their_text(nonces: NoncesView, nonce: Seq<u8>)
    ensures
        nonces.has(NonceScope::CspE2e, nonce) <==> nonces.csp_e2e.contains(hex::hex_text(nonce)),
        nonces.has(NonceScope::D2x, nonce) <==> nonces.d2x.contains(hex::hex_text(nonce)),
        store::no_nonces().csp_e2e == Set::<Seq<char>>::empty(),
        store::no_nonces().d2x == Set::<Seq<char>>::empty(),
{
}

/// Recording a nonce adds its text to those of its scope and leaves the rest as it is; recording
/// several is recording them one after the other.
pub proof fn nonces_are_added_one_by_one(nonces: NoncesView, added: Seq<Nonce>, nonce: Nonce)
    ensures
        nonces.with_many(NonceScope::CspE2e, Seq::empty()) == nonces,
        nonces.with_many(NonceScope::D2x, Seq::empty()) == nonces,
        ({
            let before = nonces.with_many(NonceScope::CspE2e, added);
            nonces.with_many(NonceScope::CspE2e, added.push(nonce)) == (NoncesView {
                csp_e2e: before.csp_e2e.insert(hex::hex_text(nonce@)),
                d2x: before.d2x,
            })
        }),
        ({
            let before = nonces.with_many(NonceScope::D2x, added);
            nonces.with_many(NonceScope::D2x, added.push(nonce)) == (NoncesView {
                csp_e2e: before.csp_e2e,
                d2x: before.d2x.insert(hex::hex_text(nonce@)),
            })
        }),
{
    assert(added.push(nonce).drop_last() =~= added);
}

/// A contact is stored as it is: the public key as hexadecimal text, the rest unchanged.
pub proof fn contacts_are_stored_as_they_are(contact: ContactView)
    ensures
        store::stored(contact) == (StoredContactView {
            public_key: hex::hex_text(contact.public_key),
            created_at: contact.created_at,
            first_name: contact.first_name,
            last_name: contact.last_name,
            nickname: contact.nickname,
            verification_level: contact.verification_level,
            work_verification_level: contact.work_verification_level,
            identity_type: contact.identity_type,
            acquaintance_level: contact.acquaintance_level,
            activity_state: contact.activity_state,
            feature_mask: contact.feature_mask,
            sync_state: contact.sync_state,
            conversation_category: contact.conversation_category,
            conversation_visibility: contact.conversation_visibility,
        }),
{
}

/// Whether a number is read as itself if it has a meaning, and as the fallback otherwise.
pub open spec fn reads_as(enumeration: EnumValues, number: i32, result: i32) -> bool {
    if enumeration.known@.contains(number) {
        result == number
    } else {
        result == enumeration.fallback
    }
}

/// A stored contact is read under the identity that it is stored for: the public key from its
/// hexadecimal text, names, time and features unchanged, and numbers without a meaning as the
/// fallback of their enumeration.
pub proof fn contacts_are_read_as_they_were_stored(
    contact: StoredContactView,
    identity: Seq<char>,
    enums: ContactEnums,
)
    ensures
        ({
            let read = store::restored(contact, identity, enums);
            &&& read.identity == identity
            &&& read.public_key == hex::hex_bytes(contact.public_key)
            &&& read.created_at == contact.created_at
            &&& read.first_name == contact.first_name
            &&& read.last_name == contact.last_name
            &&& read.nickname == contact.nickname
            &&& read.feature_mask == contact.feature_mask
            &&& reads_as(
                enums.verification_level,
                contact.verification_level,
                read.verification_level,
            )
            &&& reads_as(
                enums.work_verification_level,
                contact.work_verification_level,
                read.work_verification_level,
            )
            &&& reads_as(enums.identity_type, contact.identity_type, read.identity_type)
            &&& reads_as(
                enums.acquaintance_level,
                contact.acquaintance_level,
                read.acquaintance_level,
            )
            &&& reads_as(enums.activity_state, contact.activity_state, read.activity_state)
            &&& reads_as(enums.sync_state, contact.sync_state, read.sync_state)
            &&& reads_as(
                enums.conversation_category,
                contact.conversation_category,
                read.conversation_category,
            )
            &&& reads_as(
                enums.conversation_visibility,
                contact.conversation_visibility,
                read.conversation_visibility,
            )
        }),
{
}

/// Looking a contact up is refused for the user's own identity, finds nothing where nothing is
/// stored, fails with the reason where the stored public key is not readable, and else gives what
/// is stored under the identity.
pub proof fn lookups_are_answered(contacts: ContactStoreView, identity: Seq<char>)
    ensures
        contacts.get(identity) == (if identity == contacts.user_identity {
            Err::<Option<ContactView>, ProviderErrorView>(
                ProviderErrorView::InvalidParameter(
                    "Unexpected encounter of user's identity in contact provider"@,
                ),
            )
        } else if !contacts.contacts.dom().contains(identity) {
            Ok(None)
        } else {
            match model::key_error(contacts.contacts[identity].public_key) {
                None => Ok(
                    Some(store::restored(contacts.contacts[identity], identity, contacts.enums)),
                ),
                Some(KeyError::WrongLength) => Err(
                    ProviderErrorView::Foreign("A public key is 64 hexadecimal digits long"@),
                ),
                Some(KeyError::NotHexadecimal) => Err(
                    ProviderErrorView::Foreign("A public key consists of hexadecimal digits only"@),
                ),
            }
        }),
        contacts.knows(identity) <==> contacts.contacts.dom().contains(identity),
{
}

/// As many identities are counted as there are positions in the list that hold a known one.
pub proof fn known_identities_are_counted(contacts: ContactStoreView, identities: Seq<ThreemaId>)
    ensures
        contacts.count(identities) == identities.filter(
            |identity: ThreemaId| contacts.contacts.dom().contains(identity@),
        ).len(),
    decreases identities.len(),
{
    reveal(Seq::filter);
    if identities.len() > 0 {
        known_identities_are_counted(contacts, identities.drop_last());
    }
}

/// An addition is refused exactly if it names the user or a contact that is already known, and the
/// first such contact decides with which error.
pub proof fn first_refused_contact_decides(
    contacts: ContactStoreView,
    added: Seq<Contact>,
    i: int,
)
    requires
        0 <= i < added.len(),
        forall|j: int|
            0 <= j < i ==> (#[trigger] added[j]).identity@ != contacts.user_identity
                && !contacts.contacts.dom().contains(added[j].identity@),
    ensures
        added[i].identity@ == contacts.user_identity ==> contacts.add_all_refused(added) == Some(
            ProviderErrorView::InvalidParameter(
                "Unexpected encounter of user's identity in contact provider"@,
            ),
        ),
        added[i].identity@ != contacts.user_identity && contacts.contacts.dom().contains(
            added[i].identity@,
        ) ==> contacts.add_all_refused(added) == Some(
            ProviderErrorView::InvalidState("Contact to be added already exists"@),
        ),
        i == added.len() - 1 && added[i].identity@ != contacts.user_identity
            && !contacts.contacts.dom().contains(added[i].identity@) ==> contacts.add_all_refused(
            added,
        ) is None,
    decreases added.len(),
{
    let front = added.drop_last();
    if i < added.len() - 1 {
        assert forall|j: int| 0 <= j < i implies (#[trigger] front[j]).identity@
            != contacts.user_identity && !contacts.contacts.dom().contains(front[j].identity@) by {
            assert(front[j] == added[j]);
        }
        assert(front[i] == added[i]);
        first_refused_contact_decides(contacts, front, i);
    } else if i > 0 {
        assert forall|j: int| 0 <= j < i - 1 implies (#[trigger] front[j]).identity@
            != contacts.user_identity && !contacts.contacts.dom().contains(front[j].identity@) by {
            assert(front[j] == added[j]);
        }
        assert(front[i - 1] == added[i - 1]);
        first_refused_contact_decides(contacts, front, i - 1);
    }
}

/// An addition stores its contacts one after the other, each under its identity, and changes
/// nothing else; adding none changes nothing.
pub proof fn contacts_are_added_one_by_one(
    contacts: ContactStoreView,
    added: Seq<Contact>,
    contact: Contact,
)
    ensures
        contacts.with_contacts(Seq::empty()) == contacts,
        ({
            let before = contacts.with_contacts(added);
            contacts.with_contacts(added.push(contact)) == (ContactStoreView {
                contacts: before.contacts.insert(contact.identity@, store::stored(contact@)),
                user_identity: before.user_identity,
                enums: before.enums,
            })
        }),
{
    assert(added.push(contact).drop_last() =~= added);
}

/// Whether a change was made to an optional text.
pub open spec fn text_changed(
    before: Option<Seq<char>>,
    delta: Delta<String>,
    after: Option<Seq<char>>,
) -> bool {
    match delta {
        Delta::Unchanged => after == before,
        Delta::Update(text) => after == Some(text@),
        Delta::Remove => after is None,
    }
}

/// Whether a number was replaced where a replacement is there, and only there.
pub open spec fn replaced<T>(before: T, replacement: Option<T>, after: T) -> bool {
    match replacement {
        Some(value) => after == value,
        None => after == before,
    }
}

/// An update changes exactly what it names: each name is replaced, removed or left, each number is
/// replaced where the update has one, and the public key and the time of creation stay.
pub proof fn updates_change_what_they_name(contact: StoredContactView, update: ContactUpdate)
    ensures
        ({
            let after = store::updated(contact, update);
            &&& after.public_key == contact.public_key
            &&& after.created_at == contact.created_at
            &&& text_changed(contact.first_name, update.first_name, after.first_name)
            &&& text_changed(contact.last_name, update.last_name, after.last_name)
            &&& text_changed(contact.nickname, update.nickname, after.nickname)
            &&& replaced(
                contact.verification_level,
                update.verification_level,
                after.verification_level,
            )
            &&& replaced(
                contact.work_verification_level,
                update.work_verification_level,
                after.work_verification_level,
            )
            &&& replaced(contact.identity_type, update.identity_type, after.identity_type)
            &&& replaced(
                contact.acquaintance_level,
                update.acquaintance_level,
                after.acquaintance_level,
            )
            &&& replaced(contact.activity_state, update.activity_state, after.activity_state)
            &&& replaced(contact.feature_mask, update.feature_mask, after.feature_mask)
            &&& replaced(contact.sync_state, update.sync_state, after.sync_state)
            &&& replaced(
                contact.conversation_category,
                update.conversation_category,
                after.conversation_category,
            )
            &&& replaced(
                contact.conversation_visibility,
                update.conversation_visibility,
                after.conversation_visibility,
            )
        }),
{
}

/// Updates are made one after the other: one more, after others that all were made, changes the
/// contact that it names and nothing else, or is refused if that is the user or not known; after
/// one that was refused no other is made, and those before it stay.
pub proof fn updates_are_made_one_by_one(
    contacts: ContactStoreView,
    updates: Seq<ContactUpdate>,
    update: ContactUpdate,
)
    ensures
        contacts.with_updates(Seq::empty()) == (contacts, None::<ProviderErrorView>),
        ({
            let (before, error) = contacts.with_updates(updates);
            let after = contacts.with_updates(updates.push(update));
            let identity = update.identity@;
            if error is Some {
                after == (before, error)
            } else if identity == contacts.user_identity {
                after == (
                    before,
                    Some(
                        ProviderErrorView::InvalidParameter(
                            "Unexpected encounter of user's identity in contact provider"@,
                        ),
                    ),
                )
            } else if !before.contacts.dom().contains(identity) {
                after == (
                    before,
                    Some(ProviderErrorView::InvalidState("Contact to be updated does not exist"@)),
                )
            } else {
                after == (
                    ContactStoreView {
                        contacts: before.contacts.insert(
                            identity,
                            store::updated(before.contacts[identity], update),
                        ),
                        user_identity: before.user_identity,
                        enums: before.enums,
                    },
                    None::<ProviderErrorView>,
                )
            }
        }),
{
    assert(updates.push(update).drop_last() =~= updates);
}

/// What a failure to rewrite or to load a state file is described as: by the file and, where it is
/// known, the cause.
pub proof fn file_failures_are_described(
    cause: Seq<char>,
    tmp_path: Seq<char>,
    path: Seq<char>,
    what: Seq<char>,
)
    ensures
        store::write_failure(WriteStage::Create, cause, tmp_path, path) == "Failed to create "@
            + tmp_path,
        store::write_failure(WriteStage::Serialize, cause, tmp_path, path)
            == "Failed to serialize state"@,
        store::write_failure(WriteStage::Sync, cause, tmp_path, path) == cause,
        store::write_failure(WriteStage::Rename, cause, tmp_path, path) == "Failed to move "@
            + tmp_path + " to "@ + path,
        store::load_failure(what, path, cause) == what + path + ": "@ + cause,
{
}

} // verus!
