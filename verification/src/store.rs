//! Persistent state: nonces (`nonces.json`) and contacts (`contacts.json`).
//!
//! Both files are rewritten as a whole on every change, atomically: the new contents go to a
//! temporary file, which then takes the place of the state file. The stores here hold what the
//! files hold, decide what each operation does to it and say when a file has to be rewritten;
//! reading and writing the files is the caller's.

use vstd::prelude::*;
use vstd::string::*;

use crate::contact::{clone_text, Contact, ContactEnums, ContactUpdate, ContactView, Delta};
use crate::hex;
use crate::model::{self, KeyError, Nonce, PublicKey, ThreemaId};
use crate::table::{self, KeySet, Table};
use crate::text::concat3;

verus! {

// Files
// -----
/// The steps of an atomic rewrite, each with the file it works on.
#[derive(Debug, Clone, Copy, PartialEq, Eq, Structural)]
pub enum WriteStage {
    /// Create the temporary file.
    Create,
    /// Write the new contents to the temporary file.
    Serialize,
    /// Flush the temporary file to the disk.
    Sync,
    /// Move the temporary file to the state file's place.
    Rename,
}

/// What comes after a step of an atomic rewrite.
#[derive(Debug)]
pub enum WriteStep {
    Perform(WriteStage),
    Written,
    Failed(String),
}

/// The text of a failure at a step of an atomic rewrite.
pub open spec fn write_failure(
    stage: WriteStage,
    cause: Seq<char>,
    tmp_path: Seq<char>,
    path: Seq<char>,
) -> Seq<char> {
    match stage {
        WriteStage::Create => "Failed to create "@ + tmp_path,
        WriteStage::Serialize => "Failed to serialize state"@,
        WriteStage::Sync => cause,
        WriteStage::Rename => "Failed to move "@ + tmp_path + " to "@ + path,
    }
}

/// The name of the temporary file beside a state file with the given name.
pub fn tmp_file_name(file_name: Option<&str>) -> (name: String)
    ensures
        name@ == (match file_name {
            Some(file_name) => file_name@,
            None => "state"@,
        }) + ".tmp"@,
{
    let base: &str = match file_name {
        Some(file_name) => file_name,
        None => "state",
    };
    let mut name: String = base.to_owned();
    name.append(".tmp");
    name
}

/// The step after a successful one; `None` after the last one.
pub open spec fn stage_after(done: WriteStage) -> Option<WriteStage> {
    match done {
        WriteStage::Create => Some(WriteStage::Serialize),
        WriteStage::Serialize => Some(WriteStage::Sync),
        WriteStage::Sync => Some(WriteStage::Rename),
        WriteStage::Rename => None,
    }
}

/// Goes on after a step of an atomic rewrite. The state file is only ever touched by the last
/// step, once the temporary file is complete and on the disk.
pub fn atomic_write_json(
    done: WriteStage,
    outcome: Result<(), String>,
    tmp_path: &str,
    path: &str,
) -> (next: WriteStep)
    ensures
        match outcome {
            Ok(_) => next == match stage_after(done) {
                Some(stage) => WriteStep::Perform(stage),
                None => WriteStep::Written,
            },
            Err(cause) => next matches WriteStep::Failed(text) && text@ == write_failure(
                done,
                cause@,
                tmp_path@,
                path@,
            ),
        },
{
    match outcome {
        Ok(_) => match done {
            WriteStage::Create => WriteStep::Perform(WriteStage::Serialize),
            WriteStage::Serialize => WriteStep::Perform(WriteStage::Sync),
            WriteStage::Sync => WriteStep::Perform(WriteStage::Rename),
            WriteStage::Rename => WriteStep::Written,
        },
        Err(cause) => {
            let text: String = match done {
                WriteStage::Create => {
                    let mut text: String = "Failed to create ".to_owned();
                    text.append(tmp_path);
                    text
                },
                WriteStage::Serialize => "Failed to serialize state".to_owned(),
                WriteStage::Sync => cause,
                WriteStage::Rename => {
                    let mut text: String = concat3("Failed to move ", tmp_path, " to ");
                    text.append(path);
                    text
                },
            };
            WriteStep::Failed(text)
        },
    }
}

/// The outcome of reading a state file.
#[derive(Debug)]
pub enum FileRead<T> {
    /// There is no such file.
    Missing,
    /// The file could not be read, for this reason.
    Unreadable(String),
    /// The file does not hold what it should, for this reason.
    Malformed(String),
    Parsed(T),
}

/// The text of a failure to load a file: what failed, on which file, and why.
pub open spec fn load_failure(what: Seq<char>, path: Seq<char>, cause: Seq<char>) -> Seq<char> {
    what + path + ": "@ + cause
}

/// The state that a file holds: `empty` if there is no such file yet.
pub fn load_json<T>(read: FileRead<T>, empty: T, path: &str) -> (state: Result<T, String>)
    ensures
        match read {
            FileRead::Missing => state == Ok::<T, String>(empty),
            FileRead::Unreadable(cause) => state matches Err(text) && text@ == load_failure(
                "Failed to read "@,
                path@,
                cause@,
            ),
            FileRead::Malformed(cause) => state matches Err(text) && text@ == load_failure(
                "Failed to parse "@,
                path@,
                cause@,
            ),
            FileRead::Parsed(value) => state == Ok::<T, String>(value),
        },
{
    match read {
        FileRead::Missing => Ok(empty),
        FileRead::Unreadable(cause) => {
            let mut text: String = concat3("Failed to read ", path, ": ");
            text.append(cause.as_str());
            Err(text)
        },
        FileRead::Malformed(cause) => {
            let mut text: String = concat3("Failed to parse ", path, ": ");
            text.append(cause.as_str());
            Err(text)
        },
        FileRead::Parsed(value) => Ok(value),
    }
}

/// Why a store refused an operation.
#[derive(Debug, Clone)]
pub enum ProviderError {
    InvalidParameter(String),
    InvalidState(String),
    Foreign(String),
}

/// The mathematical value of a [`ProviderError`].
pub ghost enum ProviderErrorView {
    InvalidParameter(Seq<char>),
    InvalidState(Seq<char>),
    Foreign(Seq<char>),
}

impl View for ProviderError {
    type V = ProviderErrorView;

    open spec fn view(&self) -> ProviderErrorView {
        match self {
            ProviderError::InvalidParameter(text) => ProviderErrorView::InvalidParameter(text@),
            ProviderError::InvalidState(text) => ProviderErrorView::InvalidState(text@),
            ProviderError::Foreign(text) => ProviderErrorView::Foreign(text@),
        }
    }
}

/// A state file that has to be rewritten now.
#[derive(Debug, Clone, Copy, PartialEq, Eq, Structural)]
pub enum StateFile {
    Nonces,
    Contacts,
}

/// What an operation that rewrites a state file returns, by the outcome of the rewrite.
pub fn saved(outcome: Result<(), String>) -> (result: Result<(), ProviderError>)
    ensures
        match outcome {
            Ok(_) => result is Ok,
            Err(text) => result == Err::<(), ProviderError>(ProviderError::Foreign(text)),
        },
{
    match outcome {
        Ok(_) => Ok(()),
        Err(text) => Err(ProviderError::Foreign(text)),
    }
}

// Nonces
// ------
/// What `nonces.json` holds: the hexadecimal texts of the nonces of each scope.
pub struct NonceFile {
    pub csp_e2e: KeySet<String>,
    pub d2x: KeySet<String>,
}

/// The mathematical value of the nonces: a set of hexadecimal texts for each scope.
#[verifier::ext_equal]
pub ghost struct NoncesView {
    pub csp_e2e: Set<Seq<char>>,
    pub d2x: Set<Seq<char>>,
}

impl View for NonceFile {
    type V = NoncesView;

    open spec fn view(&self) -> NoncesView {
        NoncesView { csp_e2e: self.csp_e2e@, d2x: self.d2x@ }
    }
}

impl NonceFile {
    pub fn empty() -> (file: NonceFile)
        ensures
            file@ == no_nonces(),
    {
        NonceFile { csp_e2e: KeySet::new(), d2x: KeySet::new() }
    }

    /// The file's contents, given the texts it lists. A text that is listed twice counts once.
    pub fn from_lists(csp_e2e: Vec<String>, d2x: Vec<String>) -> (file: NonceFile)
        ensures
            file@.csp_e2e == table::items_set(csp_e2e@),
            file@.d2x == table::items_set(d2x@),
    {
        NonceFile { csp_e2e: KeySet::from_items(csp_e2e), d2x: KeySet::from_items(d2x) }
    }
}

/// No nonce in either scope.
pub open spec fn no_nonces() -> NoncesView {
    NoncesView { csp_e2e: Set::empty(), d2x: Set::empty() }
}

/// The two independent uses of nonces.
#[derive(Debug, Clone, Copy, PartialEq, Eq, Structural)]
pub enum NonceScope {
    CspE2e,
    D2x,
}

impl NoncesView {
    /// The texts of one scope.
    pub open spec fn texts(self, scope: NonceScope) -> Set<Seq<char>> {
        match scope {
            NonceScope::CspE2e => self.csp_e2e,
            NonceScope::D2x => self.d2x,
        }
    }

    /// Whether a nonce was used in a scope.
    pub open spec fn has(self, scope: NonceScope, nonce: Seq<u8>) -> bool {
        self.texts(scope).contains(hex::hex_text(nonce))
    }

    /// One more text in one scope.
    pub open spec fn with_text(self, scope: NonceScope, text: Seq<char>) -> NoncesView {
        match scope {
            NonceScope::CspE2e => NoncesView { csp_e2e: self.csp_e2e.insert(text), ..self },
            NonceScope::D2x => NoncesView { d2x: self.d2x.insert(text), ..self },
        }
    }

    /// The nonces after some were used in a scope.
    pub open spec fn with_many(self, scope: NonceScope, nonces: Seq<Nonce>) -> NoncesView
        decreases nonces.len(),
    {
        if nonces.len() == 0 {
            self
        } else {
            self.with_many(scope, nonces.drop_last()).with_text(
                scope,
                hex::hex_text(nonces.last()@),
            )
        }
    }
}

/// The nonces of both scopes, which live in the same file but are tracked as two independent
/// sets. Call [`NonceStore::scoped`] to work on one of them.
pub struct NonceStore {
    data: NonceFile,
}

impl View for NonceStore {
    type V = NoncesView;

    closed spec fn view(&self) -> NoncesView {
        self.data@
    }
}

impl NonceStore {
    /// The store of what `nonces.json` was found to hold.
    pub fn load(read: FileRead<NonceFile>, path: &str) -> (store: Result<NonceStore, String>)
        ensures
            match read {
                FileRead::Missing => store matches Ok(store) && store@ == no_nonces(),
                FileRead::Unreadable(cause) => store matches Err(text) && text@ == load_failure(
                    "Failed to read "@,
                    path@,
                    cause@,
                ),
                FileRead::Malformed(cause) => store matches Err(text) && text@ == load_failure(
                    "Failed to parse "@,
                    path@,
                    cause@,
                ),
                FileRead::Parsed(file) => store matches Ok(store) && store@ == file@,
            },
    {
        match load_json(read, NonceFile::empty(), path) {
            Ok(data) => Ok(NonceStore { data }),
            Err(text) => Err(text),
        }
    }

    /// A view of the nonces of one scope. What is added through it stays in the store.
    pub fn scoped(&mut self, scope: NonceScope) -> (scoped: ScopedNonceStore<'_>)
        ensures
            scoped.scope == scope,
            scoped@ == old(self)@,
            *final(scoped.store) == *final(self),
    {
        ScopedNonceStore { store: self, scope }
    }

    /// What `nonces.json` has to hold.
    pub fn save(&self) -> (file: &NonceFile)
        ensures
            file@ == self@,
    {
        &self.data
    }
}

/// The nonces of one scope of a store.
pub struct ScopedNonceStore<'a> {
    pub store: &'a mut NonceStore,
    pub scope: NonceScope,
}

impl<'a> View for ScopedNonceStore<'a> {
    type V = NoncesView;

    open spec fn view(&self) -> NoncesView {
        self.store@
    }
}

impl<'a> ScopedNonceStore<'a> {
    /// What `nonces.json` has to hold: the nonces of both scopes.
    pub fn save(&self) -> (file: &NonceFile)
        ensures
            file@ == self@,
    {
        self.store.save()
    }

    /// Whether a nonce was used in this scope.
    pub fn has(&self, nonce: &Nonce) -> (used: Result<bool, ProviderError>)
        ensures
            used == Ok::<bool, ProviderError>(self@.has(self.scope, nonce@)),
    {
        let text = nonce.to_hex();
        Ok(
            match self.scope {
                NonceScope::CspE2e => self.store.data.csp_e2e.contains(&text),
                NonceScope::D2x => self.store.data.d2x.contains(&text),
            },
        )
    }

    /// Records nonces as used in this scope. The file has to be rewritten.
    pub fn add_many(&mut self, nonces: Vec<Nonce>) -> (file: StateFile)
        ensures
            file == StateFile::Nonces,
            final(self).scope == old(self).scope,
            final(self)@ == old(self)@.with_many(old(self).scope, nonces@),
            *final(final(self).store) == *final(old(self).store),
    {
        let scope = self.scope;
        let mut i: usize = 0;
        assert(nonces@.take(0) =~= Seq::empty());
        while i < nonces.len()
            invariant
                0 <= i <= nonces@.len(),
                self.scope == scope,
                scope == old(self).scope,
                *final(self.store) == *final(old(self).store),
                self@ == old(self)@.with_many(scope, nonces@.take(i as int)),
            decreases nonces@.len() - i,
        {
            let text = nonces[i].to_hex();
            proof {
                assert(nonces@.take(i + 1).drop_last() =~= nonces@.take(i as int));
            }
            match scope {
                NonceScope::CspE2e => {
                    let _ = self.store.data.csp_e2e.insert(text);
                },
                NonceScope::D2x => {
                    let _ = self.store.data.d2x.insert(text);
                },
            }
            i += 1;
        }
        assert(nonces@.take(nonces@.len() as int) =~= nonces@);
        StateFile::Nonces
    }
}

// Contacts
// --------
/// A contact as `contacts.json` holds it, under its identity. The public key is held as
/// hexadecimal text, the enumerations as their numbers.
#[derive(Debug, Clone)]
pub struct StoredContact {
    pub public_key: String,
    pub created_at: u64,
    pub first_name: Option<String>,
    pub last_name: Option<String>,
    pub nickname: Option<String>,
    pub verification_level: i32,
    pub work_verification_level: i32,
    pub identity_type: i32,
    pub acquaintance_level: i32,
    pub activity_state: i32,
    pub feature_mask: u64,
    pub sync_state: i32,
    pub conversation_category: i32,
    pub conversation_visibility: i32,
}

/// The mathematical value of a [`StoredContact`].
#[verifier::ext_equal]
pub ghost struct StoredContactView {
    pub public_key: Seq<char>,
    pub created_at: u64,
    pub first_name: Option<Seq<char>>,
    pub last_name: Option<Seq<char>>,
    pub nickname: Option<Seq<char>>,
    pub verification_level: i32,
    pub work_verification_level: i32,
    pub identity_type: i32,
    pub acquaintance_level: i32,
    pub activity_state: i32,
    pub feature_mask: u64,
    pub sync_state: i32,
    pub conversation_category: i32,
    pub conversation_visibility: i32,
}

impl View for StoredContact {
    type V = StoredContactView;

    open spec fn view(&self) -> StoredContactView {
        StoredContactView {
            public_key: self.public_key@,
            created_at: self.created_at,
            first_name: self.first_name.deep_view(),
            last_name: self.last_name.deep_view(),
            nickname: self.nickname.deep_view(),
            verification_level: self.verification_level,
            work_verification_level: self.work_verification_level,
            identity_type: self.identity_type,
            acquaintance_level: self.acquaintance_level,
            activity_state: self.activity_state,
            feature_mask: self.feature_mask,
            sync_state: self.sync_state,
            conversation_category: self.conversation_category,
            conversation_visibility: self.conversation_visibility,
        }
    }
}

/// How a contact is stored.
pub open spec fn stored(contact: ContactView) -> StoredContactView {
    StoredContactView {
        public_key: hex::hex_text(contact.public_key),
        created_at: contact.created_at,
        first_name: contact.first_name,
        last_name: contact.last_name,
        nickname: contact.nickname,
        verification_level: contact.verification_level,
        work_verification_level: contact.work_verification_level,
        identity_type: contact.identity_type,
        acquaintance_level: contact.acquaintance_level,
        activity_state: contact.activity_state,
        feature_mask: contact.feature_mask,
        sync_state: contact.sync_state,
        conversation_category: contact.conversation_category,
        conversation_visibility: contact.conversation_visibility,
    }
}

/// The contact that a stored one with a readable public key stands for. Numbers without a meaning
/// are replaced by the fallback of their enumeration.
pub open spec fn restored(
    contact: StoredContactView,
    identity: Seq<char>,
    enums: ContactEnums,
) -> ContactView
    recommends
        model::key_error(contact.public_key) is None,
{
    ContactView {
        identity,
        public_key: hex::hex_bytes(contact.public_key),
        created_at: contact.created_at,
        first_name: contact.first_name,
        last_name: contact.last_name,
        nickname: contact.nickname,
        verification_level: enums.verification_level.resolved(contact.verification_level),
        work_verification_level: enums.work_verification_level.resolved(
            contact.work_verification_level,
        ),
        identity_type: enums.identity_type.resolved(contact.identity_type),
        acquaintance_level: enums.acquaintance_level.resolved(contact.acquaintance_level),
        activity_state: enums.activity_state.resolved(contact.activity_state),
        feature_mask: contact.feature_mask,
        sync_state: enums.sync_state.resolved(contact.sync_state),
        conversation_category: enums.conversation_category.resolved(contact.conversation_category),
        conversation_visibility: enums.conversation_visibility.resolved(
            contact.conversation_visibility,
        ),
    }
}

impl StoredContact {
    pub fn from_contact(contact: &Contact) -> (result: StoredContact)
        ensures
            result@ == stored(contact@),
    {
        StoredContact {
            public_key: contact.public_key.to_string(),
            created_at: contact.created_at,
            first_name: clone_text(&contact.first_name),
            last_name: clone_text(&contact.last_name),
            nickname: clone_text(&contact.nickname),
            verification_level: contact.verification_level,
            work_verification_level: contact.work_verification_level,
            identity_type: contact.identity_type,
            acquaintance_level: contact.acquaintance_level,
            activity_state: contact.activity_state,
            feature_mask: contact.feature_mask,
            sync_state: contact.sync_state,
            conversation_category: contact.conversation_category,
            conversation_visibility: contact.conversation_visibility,
        }
    }

    /// The contact that this stands for, or why its public key is not readable.
    pub fn to_contact(&self, identity: &ThreemaId, enums: &ContactEnums) -> (contact: Result<
        Contact,
        KeyError,
    >)
        ensures
            match model::key_error(self@.public_key) {
                None => contact matches Ok(contact) && contact@ == restored(
                    self@,
                    identity@,
                    *enums,
                ),
                Some(error) => contact == Err::<Contact, KeyError>(error),
            },
    {
        let public_key = match PublicKey::from_hex(self.public_key.as_str()) {
            Ok(public_key) => public_key,
            Err(error) => {
                return Err(error);
            },
        };
        Ok(
            Contact {
                identity: identity.duplicate(),
                public_key,
                created_at: self.created_at,
                first_name: clone_text(&self.first_name),
                last_name: clone_text(&self.last_name),
                nickname: clone_text(&self.nickname),
                verification_level: enums.verification_level.resolve(self.verification_level),
                work_verification_level: enums.work_verification_level.resolve(
                    self.work_verification_level,
                ),
                identity_type: enums.identity_type.resolve(self.identity_type),
                acquaintance_level: enums.acquaintance_level.resolve(self.acquaintance_level),
                activity_state: enums.activity_state.resolve(self.activity_state),
                feature_mask: self.feature_mask,
                sync_state: enums.sync_state.resolve(self.sync_state),
                conversation_category: enums.conversation_category.resolve(
                    self.conversation_category,
                ),
                conversation_visibility: enums.conversation_visibility.resolve(
                    self.conversation_visibility,
                ),
            },
        )
    }

    /// Changes what the update does not leave as it is.
    pub fn apply(&mut self, update: ContactUpdate)
        ensures
            final(self)@ == updated(old(self)@, update),
    {
        apply_delta_string(&mut self.first_name, update.first_name);
        apply_delta_string(&mut self.last_name, update.last_name);
        apply_delta_string(&mut self.nickname, update.nickname);
        if let Some(value) = update.verification_level {
            self.verification_level = value;
        }
        if let Some(value) = update.work_verification_level {
            self.work_verification_level = value;
        }
        if let Some(value) = update.identity_type {
            self.identity_type = value;
        }
        if let Some(value) = update.acquaintance_level {
            self.acquaintance_level = value;
        }
        if let Some(value) = update.activity_state {
            self.activity_state = value;
        }
        if let Some(value) = update.feature_mask {
            self.feature_mask = value;
        }
        if let Some(value) = update.sync_state {
            self.sync_state = value;
        }
        if let Some(value) = update.conversation_category {
            self.conversation_category = value;
        }
        if let Some(value) = update.conversation_visibility {
            self.conversation_visibility = value;
        }
    }
}

/// An optional text after a change.
pub open spec fn delta_applied(field: Option<Seq<char>>, delta: Delta<String>) -> Option<
    Seq<char>,
> {
    match delta {
        Delta::Unchanged => field,
        Delta::Update(value) => Some(value@),
        Delta::Remove => None,
    }
}

/// An optional number's replacement for another.
pub open spec fn or_else<T>(value: Option<T>, otherwise: T) -> T {
    match value {
        Some(value) => value,
        None => otherwise,
    }
}

/// A stored contact after an update.
pub open spec fn updated(contact: StoredContactView, update: ContactUpdate) -> StoredContactView {
    StoredContactView {
        public_key: contact.public_key,
        created_at: contact.created_at,
        first_name: delta_applied(contact.first_name, update.first_name),
        last_name: delta_applied(contact.last_name, update.last_name),
        nickname: delta_applied(contact.nickname, update.nickname),
        verification_level: or_else(update.verification_level, contact.verification_level),
        work_verification_level: or_else(
            update.work_verification_level,
            contact.work_verification_level,
        ),
        identity_type: or_else(update.identity_type, contact.identity_type),
        acquaintance_level: or_else(update.acquaintance_level, contact.acquaintance_level),
        activity_state: or_else(update.activity_state, contact.activity_state),
        feature_mask: or_else(update.feature_mask, contact.feature_mask),
        sync_state: or_else(update.sync_state, contact.sync_state),
        conversation_category: or_else(update.conversation_category, contact.conversation_category),
        conversation_visibility: or_else(
            update.conversation_visibility,
            contact.conversation_visibility,
        ),
    }
}

pub fn apply_delta_string(field: &mut Option<String>, delta: Delta<String>)
    ensures
        final(field).deep_view() == delta_applied(old(field).deep_view(), delta),
{
    match delta {
        Delta::Unchanged => {},
        Delta::Update(value) => {
            *field = Some(value);
        },
        Delta::Remove => {
            *field = None;
        },
    }
}

/// The contacts, by identity, and the user's own identity, which is never looked up among them.
pub struct ContactStore {
    data: Table<String, StoredContact>,
    user_identity: ThreemaId,
    enums: ContactEnums,
}

/// The mathematical value of a [`ContactStore`].
pub ghost struct ContactStoreView {
    pub contacts: Map<Seq<char>, StoredContactView>,
    pub user_identity: Seq<char>,
    pub enums: ContactEnums,
}

impl View for ContactStore {
    type V = ContactStoreView;

    closed spec fn view(&self) -> ContactStoreView {
        ContactStoreView {
            contacts: self.data@,
            user_identity: self.user_identity@,
            enums: self.enums,
        }
    }
}

/// How an operation on the user's own identity is refused.
pub open spec fn user_refused() -> ProviderErrorView {
    ProviderErrorView::InvalidParameter(
        "Unexpected encounter of user's identity in contact provider"@,
    )
}

/// How a lookup is answered if the stored public key is not readable: with the reason for that.
pub open spec fn key_unreadable(error: KeyError) -> ProviderErrorView {
    ProviderErrorView::Foreign(error.words())
}

/// The value of a result whose error is a [`ProviderError`].
pub open spec fn result_view<T>(result: Result<T, ProviderError>) -> Result<T, ProviderErrorView> {
    match result {
        Ok(value) => Ok(value),
        Err(error) => Err(error@),
    }
}

impl ContactStoreView {
    /// Whether the store holds a contact.
    pub open spec fn knows(self, identity: Seq<char>) -> bool {
        self.contacts.dom().contains(identity)
    }

    /// What looking a contact up gives.
    pub open spec fn get(self, identity: Seq<char>) -> Result<
        Option<ContactView>,
        ProviderErrorView,
    > {
        if identity == self.user_identity {
            Err(user_refused())
        } else if !self.knows(identity) {
            Ok(None)
        } else {
            match model::key_error(self.contacts[identity].public_key) {
                Some(error) => Err(key_unreadable(error)),
                None => Ok(Some(restored(self.contacts[identity], identity, self.enums))),
            }
        }
    }

    /// How many of the identities (counted as often as they are listed) the store holds.
    pub open spec fn count(self, identities: Seq<ThreemaId>) -> nat
        decreases identities.len(),
    {
        if identities.len() == 0 {
            0
        } else {
            self.count(identities.drop_last()) + if self.knows(identities.last()@) {
                1nat
            } else {
                0nat
            }
        }
    }

    /// Why a contact cannot be added, if it cannot.
    pub open spec fn add_refused(self, identity: Seq<char>) -> Option<ProviderErrorView> {
        if identity == self.user_identity {
            Some(user_refused())
        } else if self.knows(identity) {
            Some(ProviderErrorView::InvalidState("Contact to be added already exists"@))
        } else {
            None
        }
    }

    /// Why some contacts cannot be added, if they cannot: the first one that is refused decides.
    pub open spec fn add_all_refused(self, contacts: Seq<Contact>) -> Option<ProviderErrorView>
        decreases contacts.len(),
    {
        if contacts.len() == 0 {
            None
        } else {
            match self.add_all_refused(contacts.drop_last()) {
                Some(error) => Some(error),
                None => self.add_refused(contacts.last().identity@),
            }
        }
    }

    /// The store after contacts were added. Of contacts with the same identity the last one counts.
    pub open spec fn with_contacts(self, contacts: Seq<Contact>) -> ContactStoreView
        decreases contacts.len(),
    {
        if contacts.len() == 0 {
            self
        } else {
            let before = self.with_contacts(contacts.drop_last());
            ContactStoreView {
                contacts: before.contacts.insert(
                    contacts.last().identity@,
                    stored(contacts.last()@),
                ),
                ..before
            }
        }
    }

    /// The store after updates, and the error that stopped them, if one did: the updates before it
    /// stay.
    pub open spec fn with_updates(self, updates: Seq<ContactUpdate>) -> (
        ContactStoreView,
        Option<ProviderErrorView>,
    )
        decreases updates.len(),
    {
        if updates.len() == 0 {
            (self, None)
        } else {
            let before = self.with_updates(updates.drop_last());
            let update = updates.last();
            let identity = update.identity@;
            if before.1 is Some {
                before
            } else if identity == self.user_identity {
                (before.0, Some(user_refused()))
            } else if !before.0.knows(identity) {
                (
                    before.0,
                    Some(ProviderErrorView::InvalidState("Contact to be updated does not exist"@)),
                )
            } else {
                (
                    ContactStoreView {
                        contacts: before.0.contacts.insert(
                            identity,
                            updated(before.0.contacts[identity], update),
                        ),
                        ..before.0
                    },
                    None,
                )
            }
        }
    }
}

impl ContactStore {
    /// The store of what `contacts.json` was found to hold. Where the file lists an identity
    /// twice, the later entry counts.
    pub fn load(
        read: FileRead<Vec<(String, StoredContact)>>,
        path: &str,
        user_identity: ThreemaId,
        enums: ContactEnums,
    ) -> (store: Result<ContactStore, String>)
        ensures
            match read {
                FileRead::Unreadable(cause) => store matches Err(text) && text@ == load_failure(
                    "Failed to read "@,
                    path@,
                    cause@,
                ),
                FileRead::Malformed(cause) => store matches Err(text) && text@ == load_failure(
                    "Failed to parse "@,
                    path@,
                    cause@,
                ),
                FileRead::Missing => store matches Ok(store) && store@ == (ContactStoreView {
                    contacts: Map::empty(),
                    user_identity: user_identity@,
                    enums,
                }),
                FileRead::Parsed(entries) => store matches Ok(store) && store@ == (
                ContactStoreView {
                    contacts: table::entries_map(entries@),
                    user_identity: user_identity@,
                    enums,
                }),
            },
    {
        match load_json(read, Vec::new(), path) {
            Ok(entries) => Ok(
                ContactStore { data: Table::from_entries(entries), user_identity, enums },
            ),
            Err(text) => Err(text),
        }
    }

    /// What `contacts.json` has to hold: each contact under its identity.
    pub fn save(&self) -> (entries: &Vec<(String, StoredContact)>)
        ensures
            table::entries_map(entries@) == self@.contacts,
            table::keys_unique(entries@),
    {
        self.data.entries()
    }

    /// The enumerations that the stored numbers are read by.
    pub fn enums(&self) -> (enums: &ContactEnums)
        ensures
            *enums == self@.enums,
    {
        &self.enums
    }

    pub fn ensure_not_user(&self, identity: &ThreemaId) -> (result: Result<(), ProviderError>)
        ensures
            result_view(result) == if identity@ == self@.user_identity {
                Err::<(), ProviderErrorView>(user_refused())
            } else {
                Ok(())
            },
    {
        if identity.text == self.user_identity.text {
            return Err(
                ProviderError::InvalidParameter(
                    "Unexpected encounter of user's identity in contact provider".to_owned(),
                ),
            );
        }
        Ok(())
    }

    /// Blocking is not something that this client offers.
    pub fn is_explicitly_blocked(&self, identity: &ThreemaId) -> (result: Result<
        bool,
        ProviderError,
    >)
        ensures
            result_view(result) == if identity@ == self@.user_identity {
                Err::<bool, ProviderErrorView>(user_refused())
            } else {
                Ok(false)
            },
    {
        match self.ensure_not_user(identity) {
            Ok(_) => Ok(false),
            Err(error) => Err(error),
        }
    }

    /// Groups are not implemented.
    pub fn is_member_of_active_group(&self, identity: &ThreemaId) -> (result: Result<
        bool,
        ProviderError,
    >)
        ensures
            result_view(result) == if identity@ == self@.user_identity {
                Err::<bool, ProviderErrorView>(user_refused())
            } else {
                Ok(false)
            },
    {
        match self.ensure_not_user(identity) {
            Ok(_) => Ok(false),
            Err(error) => Err(error),
        }
    }

    pub fn has(&self, identity: &ThreemaId) -> (result: Result<bool, ProviderError>)
        ensures
            result_view(result) == if identity@ == self@.user_identity {
                Err::<bool, ProviderErrorView>(user_refused())
            } else {
                Ok(self@.knows(identity@))
            },
    {
        match self.ensure_not_user(identity) {
            Ok(_) => Ok(self.data.contains_key(&identity.text)),
            Err(error) => Err(error),
        }
    }

    /// How many of the identities are known.
    pub fn has_many(&self, identities: &[ThreemaId]) -> (result: Result<usize, ProviderError>)
        ensures
            (exists|i: int|
                0 <= i < identities@.len() && (#[trigger] identities@[i])@ == self@.user_identity)
                ==> result_view(result) == Err::<usize, ProviderErrorView>(user_refused()),
            !(exists|i: int|
                0 <= i < identities@.len() && (#[trigger] identities@[i])@ == self@.user_identity)
                ==> (result matches Ok(count) && count == self@.count(identities@)),
    {
        let mut count: usize = 0;
        let mut i: usize = 0;
        assert(identities@.take(0) =~= Seq::empty());
        while i < identities.len()
            invariant
                0 <= i <= identities@.len(),
                count <= i,
                count == self@.count(identities@.take(i as int)),
                forall|j: int|
                    0 <= j < i ==> (#[trigger] identities@[j])@ != self@.user_identity,
            decreases identities@.len() - i,
        {
            let identity = &identities[i];
            assert(identity@ == identities@[i as int]@);
            if let Err(error) = self.ensure_not_user(identity) {
                return Err(error);
            }
            proof {
                assert(identities@.take(i + 1).drop_last() =~= identities@.take(i as int));
            }
            if self.data.contains_key(&identity.text) {
                count += 1;
            }
            i += 1;
        }
        assert(identities@.take(identities@.len() as int) =~= identities@);
        Ok(count)
    }

    /// Looks a contact up.
    pub fn get(&self, identity: &ThreemaId) -> (result: Result<Option<Contact>, ProviderError>)
        ensures
            match self@.get(identity@) {
                Ok(None) => result matches Ok(None),
                Ok(Some(contact)) => result matches Ok(Some(found)) && found@ == contact,
                Err(error) => result matches Err(returned) && returned@ == error,
            },
    {
        if let Err(error) = self.ensure_not_user(identity) {
            return Err(error);
        }
        match self.data.get(&identity.text) {
            None => Ok(None),
            Some(found) => match found.to_contact(identity, &self.enums) {
                Ok(contact) => Ok(Some(contact)),
                Err(error) => Err(ProviderError::Foreign(error.to_string())),
            },
        }
    }

    /// Adds contacts, all of them or none. The file has to be rewritten if they were added.
    pub fn add(&mut self, contacts: Vec<Contact>) -> (result: Result<StateFile, ProviderError>)
        ensures
            match old(self)@.add_all_refused(contacts@) {
                Some(error) => {
                    &&& result_view(result) == Err::<StateFile, ProviderErrorView>(error)
                    &&& final(self)@ == old(self)@
                },
                None => {
                    &&& result == Ok::<StateFile, ProviderError>(StateFile::Contacts)
                    &&& final(self)@ == old(self)@.with_contacts(contacts@)
                },
            },
    {
        let mut i: usize = 0;
        assert(contacts@.take(0) =~= Seq::empty());
        while i < contacts.len()
            invariant
                0 <= i <= contacts@.len(),
                self@ == old(self)@,
                self@.add_all_refused(contacts@.take(i as int)) is None,
            decreases contacts@.len() - i,
        {
            let contact = &contacts[i];
            proof {
                assert(contacts@.take(i + 1).drop_last() =~= contacts@.take(i as int));
                lemma_refusal_stays(self@, contacts@, i + 1);
            }
            if let Err(error) = self.ensure_not_user(&contact.identity) {
                return Err(error);
            }
            if self.data.contains_key(&contact.identity.text) {
                return Err(
                    ProviderError::InvalidState("Contact to be added already exists".to_owned()),
                );
            }
            i += 1;
        }
        assert(contacts@.take(contacts@.len() as int) =~= contacts@);
        let mut k: usize = 0;
        while k < contacts.len()
            invariant
                0 <= k <= contacts@.len(),
                self@ == old(self)@.with_contacts(contacts@.take(k as int)),
            decreases contacts@.len() - k,
        {
            let contact = &contacts[k];
            proof {
                assert(contacts@.take(k + 1).drop_last() =~= contacts@.take(k as int));
            }
            self.data.insert(contact.identity.to_string(), StoredContact::from_contact(contact));
            k += 1;
        }
        assert(contacts@.take(contacts@.len() as int) =~= contacts@);
        Ok(StateFile::Contacts)
    }

    /// Updates contacts, in order, up to the first one that cannot be updated. The file has to be
    /// rewritten if all of them were.
    pub fn update(&mut self, updates: Vec<ContactUpdate>) -> (result: Result<
        StateFile,
        ProviderError,
    >)
        ensures
            final(self)@ == old(self)@.with_updates(updates@).0,
            result_view(result) == match old(self)@.with_updates(updates@).1 {
                Some(error) => Err::<StateFile, ProviderErrorView>(error),
                None => Ok(StateFile::Contacts),
            },
    {
        let ghost all = updates@;
        let ghost mut i: int = 0;
        let mut rest = updates;
        assert(all.take(0) =~= Seq::empty());
        assert(rest@ =~= all.skip(0));
        while rest.len() > 0
            invariant
                all == updates@,
                0 <= i <= all.len(),
                rest@ == all.skip(i),
                old(self)@.with_updates(all.take(i)) == (self@, None::<ProviderErrorView>),
                self@.user_identity == old(self)@.user_identity,
            decreases rest@.len(),
        {
            let ghost before = rest@;
            let update = rest.remove(0);
            proof {
                assert(update == all[i]);
                assert(rest@ =~= all.skip(i + 1));
                assert(all.take(i + 1).drop_last() =~= all.take(i));
                lemma_update_error_stays(old(self)@, all, i + 1);
            }
            if let Err(error) = self.ensure_not_user(&update.identity) {
                return Err(error);
            }
            let identity = update.identity.to_string();
            match self.data.remove(&identity) {
                None => {
                    return Err(
                        ProviderError::InvalidState(
                            "Contact to be updated does not exist".to_owned(),
                        ),
                    );
                },
                Some(mut contact) => {
                    let ghost contacts = old(self)@.with_updates(all.take(i)).0.contacts;
                    let ghost id = identity@;
                    contact.apply(update);
                    self.data.insert(identity, contact);
                    assert(self.data@ =~= contacts.insert(id, updated(contacts[id], update)));
                },
            }
            proof {
                i = i + 1;
            }
        }
        assert(all.take(i) =~= all);
        Ok(StateFile::Contacts)
    }

    /// Profile pictures are not kept: a known contact has none.
    pub fn get_contact_defined_profile_picture(&self, identity: &ThreemaId) -> (result: Result<
        Option<Vec<u8>>,
        ProviderError,
    >)
        ensures
            result_view(result) == if identity@ == self@.user_identity {
                Err::<Option<Vec<u8>>, ProviderErrorView>(user_refused())
            } else if !self@.knows(identity@) {
                Err(
                    ProviderErrorView::InvalidState(
                        "Contact to retrieve the contact-defined profile picture from does not exist"@,
                    ),
                )
            } else {
                Ok(None)
            },
    {
        match self.has(identity) {
            Err(error) => Err(error),
            Ok(true) => Ok(None),
            Ok(false) => Err(
                ProviderError::InvalidState(
                    "Contact to retrieve the contact-defined profile picture from does not exist".to_owned(),
                ),
            ),
        }
    }

    /// Profile pictures are not kept: a known contact has none.
    pub fn get_user_defined_profile_picture(&self, identity: &ThreemaId) -> (result: Result<
        Option<Vec<u8>>,
        ProviderError,
    >)
        ensures
            result_view(result) == if identity@ == self@.user_identity {
                Err::<Option<Vec<u8>>, ProviderErrorView>(user_refused())
            } else if !self@.knows(identity@) {
                Err(
                    ProviderErrorView::InvalidState(
                        "Contact to retrieve the user-defined profile picture from does not exist"@,
                    ),
                )
            } else {
                Ok(None)
            },
    {
        match self.has(identity) {
            Err(error) => Err(error),
            Ok(true) => Ok(None),
            Ok(false) => Err(
                ProviderError::InvalidState(
                    "Contact to retrieve the user-defined profile picture from does not exist".to_owned(),
                ),
            ),
        }
    }
}

/// What refuses the first contacts of a list refuses the whole list.
proof fn lemma_refusal_stays(store: ContactStoreView, contacts: Seq<Contact>, n: int)
    requires
        0 <= n <= contacts.len(),
    ensures
        store.add_all_refused(contacts.take(n)) is Some ==> store.add_all_refused(contacts)
            == store.add_all_refused(contacts.take(n)),
    decreases contacts.len() - n,
{
    if n < contacts.len() {
        lemma_refusal_stays(store, contacts, n + 1);
        assert(contacts.take(n + 1).drop_last() =~= contacts.take(n));
    } else {
        assert(contacts.take(n) =~= contacts);
    }
}

/// What stops the first updates of a list stops the whole list.
proof fn lemma_update_error_stays(store: ContactStoreView, updates: Seq<ContactUpdate>, n: int)
    requires
        0 <= n <= updates.len(),
    ensures
        store.with_updates(updates.take(n)).1 is Some ==> store.with_updates(updates)
            == store.with_updates(updates.take(n)),
    decreases updates.len() - n,
{
    if n < updates.len() {
        lemma_update_error_stays(store, updates, n + 1);
        assert(updates.take(n + 1).drop_last() =~= updates.take(n));
    } else {
        assert(updates.take(n) =~= updates);
    }
}

} // verus!
