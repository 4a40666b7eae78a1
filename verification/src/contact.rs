//! Contacts and changes to them.

use vstd::prelude::*;

use crate::model::{PublicKey, ThreemaId};

verus! {

/// The numbers that an enumeration of the sync protocol gives a meaning to, and the one that
/// stands in for every other number.
#[derive(Debug, Clone)]
pub struct EnumValues {
    pub fallback: i32,
    pub known: Vec<i32>,
}

impl EnumValues {
    /// What a number stands for: itself if it is known, else the fallback.
    pub open spec fn resolved(self, value: i32) -> i32 {
        if self.known@.contains(value) {
            value
        } else {
            self.fallback
        }
    }

    pub fn resolve(&self, value: i32) -> (resolved: i32)
        ensures
            resolved == self.resolved(value),
    {
        let mut i: usize = 0;
        while i < self.known.len()
            invariant
                0 <= i <= self.known@.len(),
                forall|j: int| 0 <= j < i ==> self.known@[j] != value,
            decreases self.known@.len() - i,
        {
            if self.known[i] == value {
                return value;
            }
            i += 1;
        }
        self.fallback
    }

    /// What an optional number stands for: the fallback if it is absent.
    pub open spec fn resolved_option(self, value: Option<i32>) -> i32 {
        match value {
            Some(value) => self.resolved(value),
            None => self.fallback,
        }
    }

    pub fn resolve_option(&self, value: Option<i32>) -> (resolved: i32)
        ensures
            resolved == self.resolved_option(value),
    {
        match value {
            Some(value) => self.resolve(value),
            None => self.fallback,
        }
    }
}

/// The enumerations that describe a contact.
#[derive(Debug, Clone)]
pub struct ContactEnums {
    pub verification_level: EnumValues,
    pub work_verification_level: EnumValues,
    pub identity_type: EnumValues,
    pub acquaintance_level: EnumValues,
    pub activity_state: EnumValues,
    pub sync_state: EnumValues,
    pub conversation_category: EnumValues,
    pub conversation_visibility: EnumValues,
}

impl ContactEnums {
    /// Whether every fallback is itself a number with a meaning.
    pub open spec fn fallbacks_known(self) -> bool {
        &&& self.verification_level.known@.contains(self.verification_level.fallback)
        &&& self.work_verification_level.known@.contains(self.work_verification_level.fallback)
        &&& self.identity_type.known@.contains(self.identity_type.fallback)
        &&& self.acquaintance_level.known@.contains(self.acquaintance_level.fallback)
        &&& self.activity_state.known@.contains(self.activity_state.fallback)
        &&& self.sync_state.known@.contains(self.sync_state.fallback)
        &&& self.conversation_category.known@.contains(self.conversation_category.fallback)
        &&& self.conversation_visibility.known@.contains(self.conversation_visibility.fallback)
    }
}

/// A contact. The enumerations are held as their numbers. What only a work account sets (policy
/// overrides, availability, the last full sync) is left out: this client never sets it.
#[derive(Debug, Clone)]
pub struct Contact {
    pub identity: ThreemaId,
    pub public_key: PublicKey,
    pub created_at: u64,
    pub first_name: Option<String>,
    pub last_name: Option<String>,
    pub nickname: Option<String>,
    pub verification_level: i32,
    pub work_verification_level: i32,
    pub identity_type: i32,
    pub acquaintance_level: i32,
    pub activity_state: i32,
    pub feature_mask: u64,
    pub sync_state: i32,
    pub conversation_category: i32,
    pub conversation_visibility: i32,
}

/// The mathematical value of a [`Contact`].
#[verifier::ext_equal]
pub ghost struct ContactView {
    pub identity: Seq<char>,
    pub public_key: Seq<u8>,
    pub created_at: u64,
    pub first_name: Option<Seq<char>>,
    pub last_name: Option<Seq<char>>,
    pub nickname: Option<Seq<char>>,
    pub verification_level: i32,
    pub work_verification_level: i32,
    pub identity_type: i32,
    pub acquaintance_level: i32,
    pub activity_state: i32,
    pub feature_mask: u64,
    pub sync_state: i32,
    pub conversation_category: i32,
    pub conversation_visibility: i32,
}

impl View for Contact {
    type V = ContactView;

    open spec fn view(&self) -> ContactView {
        ContactView {
            identity: self.identity@,
            public_key: self.public_key@,
            created_at: self.created_at,
            first_name: self.first_name.deep_view(),
            last_name: self.last_name.deep_view(),
            nickname: self.nickname.deep_view(),
            verification_level: self.verification_level,
            work_verification_level: self.work_verification_level,
            identity_type: self.identity_type,
            acquaintance_level: self.acquaintance_level,
            activity_state: self.activity_state,
            feature_mask: self.feature_mask,
            sync_state: self.sync_state,
            conversation_category: self.conversation_category,
            conversation_visibility: self.conversation_visibility,
        }
    }
}

impl ContactView {
    /// Whether every enumeration holds a number with a meaning.
    pub open spec fn levels_known(self, enums: ContactEnums) -> bool {
        &&& enums.verification_level.known@.contains(self.verification_level)
        &&& enums.work_verification_level.known@.contains(self.work_verification_level)
        &&& enums.identity_type.known@.contains(self.identity_type)
        &&& enums.acquaintance_level.known@.contains(self.acquaintance_level)
        &&& enums.activity_state.known@.contains(self.activity_state)
        &&& enums.sync_state.known@.contains(self.sync_state)
        &&& enums.conversation_category.known@.contains(self.conversation_category)
        &&& enums.conversation_visibility.known@.contains(self.conversation_visibility)
    }
}

/// A change to an optional value.
#[derive(Debug, Clone)]
pub enum Delta<T> {
    Unchanged,
    Update(T),
    Remove,
}

/// A change to a contact: what is absent or unchanged stays as it is.
#[derive(Debug, Clone)]
pub struct ContactUpdate {
    pub identity: ThreemaId,
    pub first_name: Delta<String>,
    pub last_name: Delta<String>,
    pub nickname: Delta<String>,
    pub verification_level: Option<i32>,
    pub work_verification_level: Option<i32>,
    pub identity_type: Option<i32>,
    pub acquaintance_level: Option<i32>,
    pub activity_state: Option<i32>,
    pub feature_mask: Option<u64>,
    pub sync_state: Option<i32>,
    pub conversation_category: Option<i32>,
    pub conversation_visibility: Option<i32>,
}

/// Another value for the same optional text.
pub fn clone_text(text: &Option<String>) -> (copy: Option<String>)
    ensures
        copy == *text,
{
    match text {
        Some(text) => Some(text.clone()),
        None => None,
    }
}

/// A number with a meaning stands for itself; one without, or none at all, stands for the fallback.
pub proof fn unknown_numbers_fall_back(enumeration: EnumValues, value: i32)
    ensures
        enumeration.known@.contains(value) ==> enumeration.resolved(value) == value
            && enumeration.resolved_option(Some(value)) == value,
        !enumeration.known@.contains(value) ==> enumeration.resolved(value)
            == enumeration.fallback && enumeration.resolved_option(Some(value))
            == enumeration.fallback,
        enumeration.resolved_option(None) == enumeration.fallback,
{
}

} // verus!
